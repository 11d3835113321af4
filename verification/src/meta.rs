//! The meta commands: avatar, userinfo, inviteinfo and botinfo.
use vstd::prelude::*;
use vstd::utf8::encode_utf8;
use crate::notice::{Field, Notice, field, fields_view, labelled, notice};
use crate::text::{decimal, signed_decimal, u128_to_decimal, i128_to_decimal};

verus! {

/// The title of the `avatar` answer.
pub fn avatar_title(name: &str) -> (s: String)
    ensures
        s@ == "User Avatar "@ + name@,
{
    labelled("User Avatar ", name)
}

/// Whether an avatar hash marks an animated avatar: it starts with `a_`.
pub open spec fn animated_hash(hash: Seq<char>) -> bool {
    hash.len() >= 2 && hash[0] == 'a' && hash[1] == '_'
}

/// The address of a user's own avatar, as serenity builds it.
pub open spec fn avatar_address(id: u64, hash: Seq<char>) -> Seq<char> {
    "https://cdn.discordapp.com/avatars/"@ + decimal(id as nat) + "/"@ + hash + "."@
        + (if animated_hash(hash) { "gif"@ } else { "webp"@ }) + "?size=1024"@
}

/// The address of the default avatar for a discriminator, as serenity
/// builds it.
pub open spec fn default_avatar_address(discriminator: u16) -> Seq<char> {
    "https://cdn.discordapp.com/embed/avatars/"@ + decimal((discriminator % 5) as nat) + ".png"@
}

/// serenity's `User::avatar_url`, on a user with this id and avatar hash.
/// Its source maps the hash to the CDN address
/// `https://cdn.discordapp.com/avatars/{id}/{hash}.{ext}?size=1024`, the
/// extension `gif` for a hash starting with `a_` and `webp` otherwise, and
/// gives `None` where there is no hash.
#[verifier::external_body]
fn serenity_avatar_url(id: u64, hash: Option<String>) -> (r: Option<String>)
    ensures
        r is Some <==> hash is Some,
        r matches Some(url) ==> url@ == avatar_address(id, hash->0@),
{
    let mut user = serenity::model::user::User::default();
    user.id = serenity::model::id::UserId(id);
    user.avatar = hash;
    user.avatar_url()
}

/// serenity's `User::default_avatar_url`, on a user with this
/// discriminator. Its source formats
/// `https://cdn.discordapp.com/embed/avatars/{discriminator % 5}.png`.
#[verifier::external_body]
fn serenity_default_avatar_url(discriminator: u16) -> (r: String)
    ensures
        r@ == default_avatar_address(discriminator),
{
    let mut user = serenity::model::user::User::default();
    user.discriminator = discriminator;
    user.default_avatar_url()
}

/// The picture shown for a user: their own avatar where they have one,
/// else the default avatar for their discriminator.
pub fn avatar_link(id: u64, avatar_hash: Option<String>, discriminator: u16) -> (r: String)
    ensures
        r@ == (match avatar_hash {
            Some(h) => avatar_address(id, h@),
            None => default_avatar_address(discriminator),
        }),
{
    match serenity_avatar_url(id, avatar_hash) {
        Some(url) => url,
        None => serenity_default_avatar_url(discriminator),
    }
}

/// The title of the `userinfo` answer.
pub fn userinfo_title(name: &str) -> (s: String)
    ensures
        s@ == "Information about "@ + name@,
{
    labelled("Information about ", name)
}

/// The footer of the `userinfo` answer.
pub fn user_id_footer(id: u64) -> (s: String)
    ensures
        s@ == "ID: "@ + decimal(id as nat),
{
    labelled("ID: ", u128_to_decimal(id as u128).as_str())
}

/// A member's presence status.
pub enum PresenceStatus {
    Online,
    DoNotDisturb,
    Idle,
    Offline,
    Invisible,
    /// A status this bot does not know.
    Other,
}

/// The label shown for a member's status; a member with no presence shows
/// as offline.
pub open spec fn status_label_spec(status: Option<PresenceStatus>) -> Seq<char> {
    match status {
        Some(PresenceStatus::Online) => "<:online:905846524834115624> Online"@,
        Some(PresenceStatus::DoNotDisturb) => "<:DoNotDisturb:905846366998265936> DND"@,
        Some(PresenceStatus::Idle) => "<:idle:905846423709442139> IDLE"@,
        Some(PresenceStatus::Offline) => "<:invisible_offline:905846466550067230> Offline"@,
        Some(PresenceStatus::Invisible) => "<:invisible_offline:905846466550067230> Invisible"@,
        Some(PresenceStatus::Other) => "Error"@,
        None => "<:invisible_offline:905846466550067230> Offline"@,
    }
}

/// The label shown for a member's status.
pub fn status_label(status: Option<PresenceStatus>) -> (s: &'static str)
    ensures
        s@ == status_label_spec(status),
{
    match status {
        Some(PresenceStatus::Online) => "<:online:905846524834115624> Online",
        Some(PresenceStatus::DoNotDisturb) => "<:DoNotDisturb:905846366998265936> DND",
        Some(PresenceStatus::Idle) => "<:idle:905846423709442139> IDLE",
        Some(PresenceStatus::Offline) => "<:invisible_offline:905846466550067230> Offline",
        Some(PresenceStatus::Invisible) => "<:invisible_offline:905846466550067230> Invisible",
        Some(PresenceStatus::Other) => "Error",
        None => "<:invisible_offline:905846466550067230> Offline",
    }
}

/// The kind of an activity.
pub enum ActivityKind {
    Playing,
    Streaming,
    Listening,
    Watching,
    Custom,
    Competing,
    Unknown,
}

/// An activity of a member: its kind and name.
pub struct Activity {
    pub kind: ActivityKind,
    pub name: String,
}

/// The word put before an activity's name.
pub open spec fn activity_prefix_spec(kind: ActivityKind) -> Seq<char> {
    match kind {
        ActivityKind::Competing => "Competing in"@,
        ActivityKind::Streaming => "Streaming"@,
        ActivityKind::Playing => "Playing"@,
        ActivityKind::Listening => "Listening to"@,
        ActivityKind::Custom => ""@,
        _ => "Unknown"@,
    }
}

/// Each kind of activity has its own word: "Competing in", "Streaming",
/// "Playing", "Listening to", nothing for a custom status, and "Unknown" for
/// watching or an unknown kind.
pub proof fn lemma_activity_prefix_words(kind: ActivityKind)
    ensures
        kind is Competing ==> activity_prefix_spec(kind) == "Competing in"@,
        kind is Streaming ==> activity_prefix_spec(kind) == "Streaming"@,
        kind is Playing ==> activity_prefix_spec(kind) == "Playing"@,
        kind is Listening ==> activity_prefix_spec(kind) == "Listening to"@,
        kind is Custom ==> activity_prefix_spec(kind) == ""@,
        (kind is Watching || kind is Unknown) ==> activity_prefix_spec(kind) == "Unknown"@,
{
}

/// Each presence status has its own label, and a member with no presence
/// shows as offline.
pub proof fn lemma_status_labels(status: Option<PresenceStatus>)
    ensures
        status == Some(PresenceStatus::Online) ==> status_label_spec(status) == "<:online:905846524834115624> Online"@,
        status == Some(PresenceStatus::DoNotDisturb) ==> status_label_spec(status) == "<:DoNotDisturb:905846366998265936> DND"@,
        status == Some(PresenceStatus::Idle) ==> status_label_spec(status) == "<:idle:905846423709442139> IDLE"@,
        status == Some(PresenceStatus::Offline) ==> status_label_spec(status) == "<:invisible_offline:905846466550067230> Offline"@,
        status == Some(PresenceStatus::Invisible) ==> status_label_spec(status) == "<:invisible_offline:905846466550067230> Invisible"@,
        status == Some(PresenceStatus::Other) ==> status_label_spec(status) == "Error"@,
        status is None ==> status_label_spec(status) == "<:invisible_offline:905846466550067230> Offline"@,
{
}

/// The word put before an activity's name.
pub fn activity_prefix(kind: &ActivityKind) -> (s: &'static str)
    ensures
        s@ == activity_prefix_spec(*kind),
        *kind is Competing ==> s@ == "Competing in"@,
        *kind is Streaming ==> s@ == "Streaming"@,
        *kind is Playing ==> s@ == "Playing"@,
        *kind is Listening ==> s@ == "Listening to"@,
        *kind is Custom ==> s@ == ""@,
        (*kind is Watching || *kind is Unknown) ==> s@ == "Unknown"@,
{
    match kind {
        ActivityKind::Competing => "Competing in",
        ActivityKind::Streaming => "Streaming",
        ActivityKind::Playing => "Playing",
        ActivityKind::Listening => "Listening to",
        ActivityKind::Custom => "",
        _ => "Unknown",
    }
}

/// The line shown for an activity: its prefix, then its name in bold.
pub open spec fn activity_line_spec(a: Activity) -> Seq<char> {
    activity_prefix_spec(a.kind) + " **"@ + a.name@ + "**"@
}

/// The line shown for an activity.
pub fn activity_line(a: &Activity) -> (s: String)
    ensures
        s@ == activity_line_spec(*a),
{
    let mut s = String::from_str(activity_prefix(&a.kind));
    s.append(" **");
    s.append(a.name.as_str());
    s.append("**");
    s
}

/// Lines joined by newlines, as `join("\n")` joins them.
pub open spec fn joined_lines(lines: Seq<Seq<char>>) -> Seq<char>
    decreases lines.len(),
{
    if lines.len() == 0 {
        Seq::empty()
    } else if lines.len() == 1 {
        lines[0]
    } else {
        joined_lines(lines.drop_last()) + "\n"@ + lines.last()
    }
}

/// An activity shows as its kind's word, a space, and its name in bold.
pub proof fn lemma_activity_line_shape(a: Activity)
    ensures
        activity_line_spec(a) == activity_prefix_spec(a.kind) + " **"@ + a.name@ + "**"@,
{
}

/// Lines are joined with one newline between each two: none gives nothing,
/// one gives itself, and each further line adds a newline and the line.
pub proof fn lemma_joined_lines(lines: Seq<Seq<char>>, line: Seq<char>)
    ensures
        joined_lines(Seq::empty()) == Seq::<char>::empty(),
        joined_lines(seq![line]) == line,
        lines.len() > 0 ==> joined_lines(lines.push(line)) == joined_lines(lines) + "\n"@ + line,
{
    assert(seq![line][0] == line);
    assert(lines.push(line).drop_last() =~= lines);
}

/// The activities field of `userinfo`: one line per activity where the
/// member has a presence, `None` where it has none.
pub open spec fn activities_text_spec(activities: Option<Seq<Activity>>) -> Seq<char> {
    match activities {
        Some(list) => joined_lines(list.map_values(|a: Activity| activity_line_spec(a))),
        None => "None"@,
    }
}

/// The activities field of `userinfo`.
pub fn activities_text(activities: Option<&Vec<Activity>>) -> (s: String)
    ensures
        s@ == activities_text_spec(match activities {
            Some(v) => Some(v@),
            None => None,
        }),
{
    match activities {
        None => String::from_str("None"),
        Some(list) => {
            let ghost lines = list@.map_values(|a: Activity| activity_line_spec(a));
            let mut s = String::new();
            let mut i: usize = 0;
            while i < list.len()
                invariant
                    i <= list.len(),
                    lines == list@.map_values(|a: Activity| activity_line_spec(a)),
                    s@ == joined_lines(lines.take(i as int)),
                decreases list.len() - i,
            {
                let line = activity_line(&list[i]);
                if i != 0 {
                    s.append("\n");
                }
                s.append(line.as_str());
                assert(lines.take(i + 1).drop_last() =~= lines.take(i as int));
                assert(lines.take(i + 1).last() == lines[i as int]);
                if i == 0 {
                    assert(s@ =~= lines.take(1)[0]);
                }
                i = i + 1;
            }
            assert(lines.take(list.len() as int) =~= lines);
            s
        },
    }
}

/// Whether `userinfo` shows the activities field: only where its text is
/// longer than five bytes.
pub fn shows_activities(text: &str) -> (b: bool)
    ensures
        b == (encode_utf8(text@).len() > 5),
{
    text.as_bytes().len() > 5
}

/// The `Username` field: name and discriminator, and the nickname in
/// brackets where the member has one.
pub open spec fn username_text(name: Seq<char>, discriminator: u16, nick: Option<Seq<char>>) -> Seq<char> {
    match nick {
        None => name + "#"@ + decimal(discriminator as nat),
        Some(n) => name + "#"@ + decimal(discriminator as nat) + " ("@ + n + ")"@,
    }
}

/// The username shows the name, `#` and the discriminator in decimal, and
/// the nickname in brackets after a space where there is one.
pub proof fn lemma_username_shape(name: Seq<char>, discriminator: u16, nick: Option<Seq<char>>)
    ensures
        nick is None ==> username_text(name, discriminator, nick) == name + "#"@ + decimal(discriminator as nat),
        nick matches Some(n) ==> username_text(name, discriminator, nick)
            == name + "#"@ + decimal(discriminator as nat) + " ("@ + n + ")"@,
{
}

/// The `Username` field of `userinfo`.
pub fn username_field(name: &str, discriminator: u16, nick: Option<&str>) -> (s: String)
    ensures
        s@ == username_text(name@, discriminator, match nick {
            Some(n) => Some(n@),
            None => None,
        }),
{
    let mut s = String::from_str(name);
    s.append("#");
    s.append(u128_to_decimal(discriminator as u128).as_str());
    match nick {
        None => {},
        Some(n) => {
            s.append(" (");
            s.append(n);
            s.append(")");
        },
    }
    s
}

/// A Discord timestamp shown relative to now: `<t:` seconds `:R>`.
pub fn relative_time(seconds: i64) -> (s: String)
    ensures
        s@ == "<t:"@ + signed_decimal(seconds as int) + ":R>"@,
{
    let mut s = String::from_str("<t:");
    s.append(i128_to_decimal(seconds as i128).as_str());
    s.append(":R>");
    s
}

/// The title of the `inviteinfo` answer.
pub fn invite_title(guild_name: &str, guild_id: u64) -> (s: String)
    ensures
        s@ == guild_name@ + " (ID: "@ + decimal(guild_id as nat) + ")"@,
{
    let mut s = String::from_str(guild_name);
    s.append(" (ID: ");
    s.append(u128_to_decimal(guild_id as u128).as_str());
    s.append(")");
    s
}

/// The description of the `inviteinfo` answer.
pub fn invite_description(channel_name: &str, channel_id: u64) -> (s: String)
    ensures
        s@ == "**Invite Channel:** `"@ + channel_name@ + "` (ID: "@ + decimal(channel_id as nat) + ")"@,
{
    let mut s = String::from_str("**Invite Channel:** `");
    s.append(channel_name);
    s.append("` (ID: ");
    s.append(u128_to_decimal(channel_id as u128).as_str());
    s.append(")");
    s
}

/// What `inviteinfo` says where the invite is not found.
pub fn invite_missing_text() -> (s: &'static str)
    ensures
        s@ == "Invite Was Not Found."@,
{
    "Invite Was Not Found."
}

/// The latency field of `botinfo`: milliseconds, or `?` where the shard
/// has not measured it.
pub fn latency_text(millis: Option<u128>) -> (s: String)
    ensures
        s@ == (match millis {
            Some(m) => decimal(m as nat) + " ms"@,
            None => "? ms"@,
        }),
{
    match millis {
        Some(m) => u128_to_decimal(m).concat(" ms"),
        None => String::from_str("? ms"),
    }
}

/// The shard field of `botinfo`.
pub fn shard_text(shard: u64) -> (s: String)
    ensures
        s@ == "#"@ + decimal(shard as nat),
{
    labelled("#", u128_to_decimal(shard as u128).as_str())
}

/// The servers field of `botinfo`.
pub fn servers_text(count: usize) -> (s: String)
    ensures
        s@ == decimal(count as nat),
{
    u128_to_decimal(count as u128)
}


/// The fields of the `userinfo` answer: username, status, the activities
/// where their text is longer than five bytes, and when the account was
/// made and the member joined.
pub open spec fn userinfo_field_texts(
    name: Seq<char>,
    discriminator: u16,
    nick: Option<Seq<char>>,
    status: Option<PresenceStatus>,
    activities: Option<Seq<Activity>>,
    created_at: int,
    joined_at: int,
) -> Seq<(Seq<char>, Seq<char>, bool)> {
    let acts = activities_text_spec(activities);
    let head = seq![
        ("Username"@, username_text(name, discriminator, nick), false),
        ("Status"@, status_label_spec(status), true),
    ];
    let middle = if encode_utf8(acts).len() > 5 {
        seq![("Activities"@, acts, false)]
    } else {
        Seq::empty()
    };
    head + middle + seq![
        ("Created At"@, "<t:"@ + signed_decimal(created_at) + ":R>"@, true),
        ("Joined At"@, "<t:"@ + signed_decimal(joined_at) + ":R>"@, true),
    ]
}

/// The fields of the `userinfo` answer.
pub fn userinfo_fields(
    name: &str,
    discriminator: u16,
    nick: Option<&str>,
    status: Option<PresenceStatus>,
    activities: Option<&Vec<Activity>>,
    created_at: i64,
    joined_at: i64,
) -> (r: Vec<Field>)
    ensures
        fields_view(r@) == userinfo_field_texts(
            name@,
            discriminator,
            match nick {
                Some(n) => Some(n@),
                None => None,
            },
            status,
            match activities {
                Some(v) => Some(v@),
                None => None,
            },
            created_at as int,
            joined_at as int,
        ),
{
    let mut r: Vec<Field> = Vec::new();
    r.push(field("Username", username_field(name, discriminator, nick), false));
    r.push(field("Status", String::from_str(status_label(status)), true));
    let acts = activities_text(activities);
    if shows_activities(acts.as_str()) {
        r.push(field("Activities", acts, false));
    }
    r.push(field("Created At", relative_time(created_at), true));
    r.push(field("Joined At", relative_time(joined_at), true));
    assert(fields_view(r@) =~= userinfo_field_texts(
        name@,
        discriminator,
        match nick {
            Some(n) => Some(n@),
            None => None,
        },
        status,
        match activities {
            Some(v) => Some(v@),
            None => None,
        },
        created_at as int,
        joined_at as int,
    ));
    r
}

/// The title and description of the `botinfo` answer.
pub fn botinfo_notice() -> (n: Notice)
    ensures
        n.title@ == "Bot Information"@,
        n.description@ == "Simple Bot on Rust"@,
        n.footer is None,
{
    notice("Bot Information", "Simple Bot on Rust", None)
}

/// The fields of the `botinfo` answer: shard, latency and number of servers,
/// all inline.
pub fn botinfo_fields(shard: u64, latency_millis: Option<u128>, servers: usize) -> (r: Vec<Field>)
    ensures
        fields_view(r@) == seq![
            ("Shard"@, "#"@ + decimal(shard as nat), true),
            ("Latency"@, match latency_millis {
                Some(m) => decimal(m as nat) + " ms"@,
                None => "? ms"@,
            }, true),
            ("Servers"@, decimal(servers as nat), true),
        ],
{
    let mut r: Vec<Field> = Vec::new();
    r.push(field("Shard", shard_text(shard), true));
    r.push(field("Latency", latency_text(latency_millis), true));
    r.push(field("Servers", servers_text(servers), true));
    assert(fields_view(r@) =~= seq![
        ("Shard"@, "#"@ + decimal(shard as nat), true),
        ("Latency"@, match latency_millis {
            Some(m) => decimal(m as nat) + " ms"@,
            None => "? ms"@,
        }, true),
        ("Servers"@, decimal(servers as nat), true),
    ]);
    r
}

} // verus!
