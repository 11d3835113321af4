use astrodolph::moderation::{
    may_moderate, moderation_done, moderation_refusal, purge_count, purge_done_notice, purge_invalid_text,
    purge_started_notice, ModAction,
};

#[test]
fn moderation_rule() {
    // owner 1, author 2, target 3
    assert!(may_moderate(1, 5, 3, 2, 1));
    assert!(!may_moderate(5, 5, 3, 2, 1));
    assert!(!may_moderate(6, 5, 3, 2, 1));
    assert!(!may_moderate(0, 5, 1, 2, 1));
    // the owner may act on anyone
    assert!(may_moderate(9, 0, 3, 1, 1));
    assert!(may_moderate(9, 0, 1, 1, 1));
}

#[test]
fn moderation_texts() {
    assert_eq!(moderation_refusal(ModAction::Kick), "You cannot kick this member.");
    assert_eq!(moderation_refusal(ModAction::Ban), "You cannot ban this member.");
    let n = moderation_done(ModAction::Kick);
    assert_eq!((n.title.as_str(), n.description.as_str()), ("Kick Operation - Done", "User successfully kicked."));
    let n = moderation_done(ModAction::Ban);
    assert_eq!((n.title.as_str(), n.description.as_str()), ("Ban Operation - Done", "User successfully banned."));
}

#[test]
fn purge_counts() {
    assert_eq!(purge_count(Some("2")), Some(2));
    assert_eq!(purge_count(Some("100")), Some(100));
    assert_eq!(purge_count(Some("+50")), Some(50));
    assert_eq!(purge_count(Some("1")), None);
    assert_eq!(purge_count(Some("101")), None);
    assert_eq!(purge_count(Some("-5")), None);
    assert_eq!(purge_count(Some(" 5")), None);
    assert_eq!(purge_count(Some("abc")), None);
    assert_eq!(purge_count(Some("99999999999999999999999")), None);
    assert_eq!(purge_count(None), None);
    for n in 0u64..=120 {
        let expected = if (2..=100).contains(&n) { Some(n) } else { None };
        assert_eq!(purge_count(Some(&n.to_string())), expected);
    }
}

#[test]
fn purge_texts() {
    assert_eq!(purge_invalid_text(), "Please provide valid number argument (from 2 to 100) to run this command.");
    let n = purge_started_notice(42);
    assert_eq!(n.title, "Clear Operation - Started");
    assert_eq!(n.description, "**Operation Started.** Finding and deleting 42 messages...");
    let n = purge_done_notice(41);
    assert_eq!(n.title, "Clear Operation - Done");
    assert_eq!(n.description, "**Operation - Done.** Successfully deleted 41 messages!");
}
