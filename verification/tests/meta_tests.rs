use astrodolph::meta::{
    botinfo_fields, botinfo_notice, userinfo_fields,
    activities_text, activity_line, activity_prefix, avatar_link, avatar_title, invite_description, invite_missing_text,
    invite_title, latency_text, relative_time, servers_text, shard_text, shows_activities, status_label, user_id_footer,
    username_field, userinfo_title, Activity, ActivityKind, PresenceStatus,
};

#[test]
fn avatar_links() {
    assert_eq!(
        avatar_link(1, Some("a_abc".to_string()), 1),
        "https://cdn.discordapp.com/avatars/1/a_abc.gif?size=1024"
    );
    assert_eq!(
        avatar_link(42, Some("abc".to_string()), 1),
        "https://cdn.discordapp.com/avatars/42/abc.webp?size=1024"
    );
    assert_eq!(avatar_link(42, None, 1432), "https://cdn.discordapp.com/embed/avatars/2.png");
    assert_eq!(avatar_link(42, None, 5), "https://cdn.discordapp.com/embed/avatars/0.png");
    assert_eq!(avatar_title("Bob"), "User Avatar Bob");
}

#[test]
fn statuses() {
    assert_eq!(status_label(Some(PresenceStatus::Online)), "<:online:905846524834115624> Online");
    assert_eq!(status_label(Some(PresenceStatus::DoNotDisturb)), "<:DoNotDisturb:905846366998265936> DND");
    assert_eq!(status_label(Some(PresenceStatus::Idle)), "<:idle:905846423709442139> IDLE");
    assert_eq!(status_label(Some(PresenceStatus::Offline)), "<:invisible_offline:905846466550067230> Offline");
    assert_eq!(status_label(Some(PresenceStatus::Invisible)), "<:invisible_offline:905846466550067230> Invisible");
    assert_eq!(status_label(Some(PresenceStatus::Other)), "Error");
    assert_eq!(status_label(None), "<:invisible_offline:905846466550067230> Offline");
}

#[test]
fn activities() {
    assert_eq!(activity_prefix(&ActivityKind::Competing), "Competing in");
    assert_eq!(activity_prefix(&ActivityKind::Custom), "");
    assert_eq!(activity_prefix(&ActivityKind::Watching), "Unknown");
    let list = vec![
        Activity { kind: ActivityKind::Playing, name: "chess".to_string() },
        Activity { kind: ActivityKind::Listening, name: "jazz".to_string() },
        Activity { kind: ActivityKind::Custom, name: "hi".to_string() },
    ];
    assert_eq!(activity_line(&list[0]), "Playing **chess**");
    let text = activities_text(Some(&list));
    assert_eq!(text, "Playing **chess**\nListening to **jazz**\n **hi**");
    assert!(shows_activities(&text));
    assert_eq!(activities_text(Some(&Vec::new())), "");
    assert_eq!(activities_text(None), "None");
    assert!(!shows_activities("None"));
    assert!(!shows_activities("abcde"));
    assert!(shows_activities("abcdef"));
    assert!(shows_activities("ééé"));
}

#[test]
fn userinfo_texts() {
    assert_eq!(userinfo_title("Bob"), "Information about Bob");
    assert_eq!(username_field("Bob", 42, None), "Bob#42");
    assert_eq!(username_field("Bob", 1234, Some("Bobby")), "Bob#1234 (Bobby)");
    assert_eq!(relative_time(1600000000), "<t:1600000000:R>");
    assert_eq!(relative_time(-5), "<t:-5:R>");
    assert_eq!(user_id_footer(99), "ID: 99");
}

#[test]
fn invite_and_bot_fields() {
    assert_eq!(invite_title("Guild", 7), "Guild (ID: 7)");
    assert_eq!(invite_description("general", 8), "**Invite Channel:** `general` (ID: 8)");
    assert_eq!(invite_missing_text(), "Invite Was Not Found.");
    assert_eq!(latency_text(Some(12)), "12 ms");
    assert_eq!(latency_text(None), "? ms");
    assert_eq!(shard_text(0), "#0");
    assert_eq!(servers_text(3), "3");
}

fn texts(fields: &[astrodolph::notice::Field]) -> Vec<(&str, &str, bool)> {
    fields.iter().map(|f| (f.name.as_str(), f.value.as_str(), f.inline)).collect()
}

#[test]
fn userinfo_field_list() {
    let list = vec![Activity { kind: ActivityKind::Playing, name: "chess".to_string() }];
    let fields = userinfo_fields("Bob", 7, Some("B"), Some(PresenceStatus::Idle), Some(&list), 10, 20);
    assert_eq!(
        texts(&fields),
        vec![
            ("Username", "Bob#7 (B)", false),
            ("Status", "<:idle:905846423709442139> IDLE", true),
            ("Activities", "Playing **chess**", false),
            ("Created At", "<t:10:R>", true),
            ("Joined At", "<t:20:R>", true),
        ]
    );
    let fields = userinfo_fields("Bob", 7, None, None, None, 10, 20);
    assert_eq!(
        texts(&fields),
        vec![
            ("Username", "Bob#7", false),
            ("Status", "<:invisible_offline:905846466550067230> Offline", true),
            ("Created At", "<t:10:R>", true),
            ("Joined At", "<t:20:R>", true),
        ]
    );
}

#[test]
fn botinfo_texts() {
    let n = botinfo_notice();
    assert_eq!((n.title.as_str(), n.description.as_str()), ("Bot Information", "Simple Bot on Rust"));
    assert!(n.footer.is_none());
    assert_eq!(
        texts(&botinfo_fields(1, Some(45), 12)),
        vec![("Shard", "#1", true), ("Latency", "45 ms", true), ("Servers", "12", true)]
    );
    assert_eq!(texts(&botinfo_fields(0, None, 0))[1], ("Latency", "? ms", true));
}
