use astrodolph::members::{member_not_found_text, member_or_author, mention_would_panic, mentioned_member, userinfo_member};

#[test]
fn mentions_and_ids() {
    assert_eq!(mentioned_member(Some("<@123>")), Some(123));
    assert_eq!(mentioned_member(Some("<@!456>")), Some(456));
    assert_eq!(mentioned_member(Some("789")), Some(789));
    assert_eq!(mentioned_member(Some("+789")), Some(789));
    assert_eq!(mentioned_member(Some("abc")), None);
    assert_eq!(mentioned_member(Some("")), None);
    assert_eq!(mentioned_member(None), None);
}

#[test]
fn mention_last_byte_is_dropped_unchecked() {
    // serenity drops the last byte without looking at it.
    assert_eq!(mentioned_member(Some("<@12")), Some(1));
    assert_eq!(mentioned_member(Some("<@x>")), None);
}

#[test]
fn panicking_mentions_are_detected() {
    assert!(mention_would_panic("<@é"));
    assert!(mention_would_panic("<@12é"));
    assert!(!mention_would_panic("<@12>"));
    assert!(!mention_would_panic("é<@"));
    assert!(!mention_would_panic("<@"));
}

#[test]
fn fallback_to_author() {
    assert_eq!(member_or_author(None, 5), 5);
    assert_eq!(member_or_author(Some("nope"), 5), 5);
    assert_eq!(member_or_author(Some("<@9>"), 5), 9);
    assert_eq!(userinfo_member(None, 5), Some(5));
    assert_eq!(userinfo_member(Some("nope"), 5), None);
    assert_eq!(userinfo_member(Some("<@!9>"), 5), Some(9));
    assert_eq!(member_not_found_text(), "User Was Not Found.");
}

#[test]
fn mention_roundtrip() {
    for id in [0u64, 7, 1234567890, u64::MAX].iter() {
        let m = format!("<@{}>", id);
        assert!(!mention_would_panic(&m));
        assert_eq!(mentioned_member(Some(&m)), Some(*id));
    }
}
