use astrodolph::astrodolph::{
    astrodolph_image, decide_upgrade, new_astrodolph, unew_row, stats_missing_text, stats_notice, unew_notice,
    upgrade_notice, upgraded, Astrodolph, Skill, UpgradeDecision,
};

fn dolph(balance: Option<i32>, health: i32, strong: i32) -> Astrodolph {
    Astrodolph { balance, health, strong, wins: Some(3) }
}

#[test]
fn new_astrodolph_stats() {
    let n = new_astrodolph();
    let a = &n.stats;
    assert_eq!(a.balance, Some(0));
    assert_eq!(a.health, 1);
    assert_eq!(a.strong, 1);
    assert_eq!(a.wins, Some(0));
    assert_eq!(n.level, 1);
}

#[test]
fn upgrade_decisions() {
    assert!(matches!(decide_upgrade(None), UpgradeDecision::NoAstrodolph));
    assert!(matches!(decide_upgrade(Some(&new_astrodolph().stats)), UpgradeDecision::NotEnoughPoints));
    assert!(matches!(decide_upgrade(Some(&dolph(None, 1, 1))), UpgradeDecision::NotEnoughPoints));
    assert!(matches!(decide_upgrade(Some(&dolph(Some(-4), 1, 1))), UpgradeDecision::NotEnoughPoints));
    assert!(matches!(decide_upgrade(Some(&dolph(Some(1), 1, 1))), UpgradeDecision::Upgrade));
}

#[test]
fn upgrade_moves_one_point() {
    let a = dolph(Some(3), 4, 5);
    let h = upgraded(&a, Skill::Health).unwrap();
    assert_eq!((h.balance, h.health, h.strong, h.wins), (Some(2), 5, 5, Some(3)));
    let s = upgraded(&a, Skill::Strong).unwrap();
    assert_eq!((s.balance, s.health, s.strong, s.wins), (Some(2), 4, 6, Some(3)));
    let total = |x: &Astrodolph| x.balance.unwrap_or_default() as i64 + x.health as i64 + x.strong as i64;
    assert_eq!(total(&h), total(&a));
    assert_eq!(total(&s), total(&a));
}

#[test]
fn upgrade_at_the_column_limit_fails() {
    let a = dolph(Some(1), i32::MAX, 5);
    assert!(upgraded(&a, Skill::Health).is_none());
    assert!(upgraded(&a, Skill::Strong).is_some());
}

#[test]
fn spending_every_point_leaves_zero() {
    let mut a = dolph(Some(4), 1, 1);
    let mut spent = 0;
    while let UpgradeDecision::Upgrade = decide_upgrade(Some(&a)) {
        a = upgraded(&a, Skill::Health).unwrap();
        spent += 1;
    }
    assert_eq!(spent, 4);
    assert_eq!(a.balance, Some(0));
    assert_eq!(a.health, 5);
}

#[test]
fn unew_texts() {
    let n = unew_notice(true, "Bob");
    assert_eq!(n.title, "NO STOP PLEASE");
    assert_eq!(n.description, "Your astrodolph would be offended if you got a new one! ");
    assert_eq!(n.footer.as_deref(), Some("Bad man name is Bob"));
    let n = unew_notice(false, "Ann");
    assert_eq!(n.title, "New astrodolph found!");
    assert_eq!(n.description, "You found your astrodolph! Congratulations!");
    assert_eq!(n.footer.as_deref(), Some("Good man name is Ann"));
    assert!(astrodolph_image().starts_with("https://media.discordapp.net/"));
}

#[test]
fn stats_texts() {
    let a = Astrodolph { balance: None, health: 2, strong: 3, wins: Some(7) };
    let n = stats_notice(&a, 250, 375, "Bob");
    assert_eq!(n.title, "User's astrodolph information");
    assert_eq!(n.description, "Available points: 0\nHealth: 250\nStrong: 375\n Wins: 7");
    assert_eq!(n.footer.as_deref(), Some("AstroDolph owner's name is Bob"));
    let b = Astrodolph { balance: Some(-2), health: 0, strong: 0, wins: None };
    assert_eq!(stats_notice(&b, 0, -125, "x").description, "Available points: -2\nHealth: 0\nStrong: -125\n Wins: 0");
    assert_eq!(stats_missing_text(), "Astrodolph was not found.");
}

#[test]
fn upgrade_texts() {
    let n = upgrade_notice(UpgradeDecision::NoAstrodolph, Skill::Health, "Z");
    assert_eq!((n.title.as_str(), n.description.as_str()), ("who", "You don't have your own astrodolph..."));
    assert_eq!(n.footer.as_deref(), Some("Request author name is Z"));
    let n = upgrade_notice(UpgradeDecision::NotEnoughPoints, Skill::Strong, "Z");
    assert_eq!(
        (n.title.as_str(), n.description.as_str()),
        ("You don't have enough points", "You need to win someone to get points")
    );
    let n = upgrade_notice(UpgradeDecision::Upgrade, Skill::Health, "Z");
    assert_eq!(n.description, "You have successfully upgraded your astrodolph. (health tree)");
    assert_eq!(n.title, "Yeah!!!!");
    let n = upgrade_notice(UpgradeDecision::Upgrade, Skill::Strong, "Z");
    assert_eq!(n.description, "You have successfully upgraded your astrodolph. (strong tree)");
}

#[test]
fn unew_writes_one_row_only() {
    let first = unew_row(None).unwrap();
    assert_eq!(first.stats.balance, Some(0));
    assert_eq!(first.stats.health, 1);
    assert_eq!(first.stats.strong, 1);
    assert_eq!(first.stats.wins, Some(0));
    assert_eq!(first.level, 1);
    // once the row exists, running the command again writes nothing
    assert!(unew_row(Some(&first.stats)).is_none());
    assert!(unew_row(Some(&dolph(Some(9), 3, 4))).is_none());
}
