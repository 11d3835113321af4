//! AstroDolph, the pet each member can own: its stats, how a new one starts,
//! how points are spent on upgrades, and what the commands about it answer.
use vstd::prelude::*;
use crate::notice::{Notice, notice, labelled, footer_text};
use crate::text::{signed_decimal, i128_to_decimal};

verus! {

/// A row of the users table: the stats of one member's astrodolph.
pub struct Astrodolph {
    /// Points not yet spent; the column may be empty.
    pub balance: Option<i32>,
    pub health: i32,
    pub strong: i32,
    /// Fights won; the column may be empty.
    pub wins: Option<i32>,
}

/// The row written for a member's first astrodolph: its stats, and the
/// table's last column, which a new astrodolph starts at 1.
pub struct NewAstrodolph {
    pub stats: Astrodolph,
    pub level: i32,
}

/// Which stat an upgrade raises.
#[derive(Clone, Copy)]
pub enum Skill {
    Health,
    Strong,
}

/// What an upgrade request comes to.
#[derive(Clone, Copy)]
pub enum UpgradeDecision {
    /// The member has no astrodolph.
    NoAstrodolph,
    /// The astrodolph has no points to spend.
    NotEnoughPoints,
    /// One point is spent on the stat.
    Upgrade,
}

/// A column that may be empty, read as 0 where it is.
pub open spec fn or_zero(v: Option<i32>) -> i32 {
    match v {
        Some(x) => x,
        None => 0,
    }
}

/// The stats a member's first astrodolph starts with.
pub fn new_astrodolph() -> (a: NewAstrodolph)
    ensures
        a == fresh_astrodolph(),
        a.stats.balance == Some(0i32),
        a.stats.health == 1,
        a.stats.strong == 1,
        a.stats.wins == Some(0i32),
        a.level == 1,
{
    NewAstrodolph { stats: Astrodolph { balance: Some(0), health: 1, strong: 1, wins: Some(0) }, level: 1 }
}

/// The row a first astrodolph starts with.
pub open spec fn fresh_astrodolph() -> NewAstrodolph {
    NewAstrodolph {
        stats: Astrodolph { balance: Some(0i32), health: 1, strong: 1, wins: Some(0i32) },
        level: 1,
    }
}

/// The row `unew` writes: a first astrodolph where the member has none,
/// nothing where the member has one already.
pub open spec fn unew_row_spec(existing: Option<Astrodolph>) -> Option<NewAstrodolph> {
    match existing {
        None => Some(fresh_astrodolph()),
        Some(_) => None,
    }
}

/// The row `unew` writes for a member, from the row the member has.
pub fn unew_row(existing: Option<&Astrodolph>) -> (r: Option<NewAstrodolph>)
    ensures
        r == unew_row_spec(match existing {
            Some(a) => Some(*a),
            None => None,
        }),
{
    match existing {
        None => Some(new_astrodolph()),
        Some(_) => None,
    }
}

/// `unew` gives a member one astrodolph only: once the first one is
/// written, the member has a row, and running the command again writes
/// nothing, so the astrodolph stays as it is.
pub proof fn lemma_unew_once(existing: Option<Astrodolph>)
    ensures
        existing is Some ==> unew_row_spec(existing) is None,
        existing is None ==> unew_row_spec(existing) == Some(fresh_astrodolph())
            && unew_row_spec(Some(fresh_astrodolph().stats)) is None,
{
}

/// What the decision on an upgrade request is, from the member's row.
pub open spec fn upgrade_decision(row: Option<Astrodolph>) -> UpgradeDecision {
    match row {
        None => UpgradeDecision::NoAstrodolph,
        Some(a) => if or_zero(a.balance) <= 0 {
            UpgradeDecision::NotEnoughPoints
        } else {
            UpgradeDecision::Upgrade
        },
    }
}

/// An upgrade is decided on the balance alone: a member without an
/// astrodolph has none to upgrade; one whose balance is set and positive,
/// whatever its size, spends a point; one whose balance is empty or not
/// positive has not enough points.
pub proof fn lemma_upgrade_decision_rule(row: Option<Astrodolph>)
    ensures
        row is None <==> upgrade_decision(row) == UpgradeDecision::NoAstrodolph,
        row matches Some(a) ==> (upgrade_decision(row) == UpgradeDecision::Upgrade
            <==> (a.balance matches Some(b) && b > 0)),
        row matches Some(a) ==> (upgrade_decision(row) == UpgradeDecision::NotEnoughPoints
            <==> !(a.balance matches Some(b) && b > 0)),
{
}

/// Decides an upgrade request: no astrodolph, no points left, or upgrade.
pub fn decide_upgrade(row: Option<&Astrodolph>) -> (d: UpgradeDecision)
    ensures
        d == upgrade_decision(match row {
            Some(a) => Some(*a),
            None => None,
        }),
        row is None <==> d == UpgradeDecision::NoAstrodolph,
        row matches Some(a) ==> (d == UpgradeDecision::Upgrade <==> (a.balance matches Some(b) && b > 0)),
        row matches Some(a) ==> (d == UpgradeDecision::NotEnoughPoints <==> !(a.balance matches Some(b) && b > 0)),
{
    match row {
        None => UpgradeDecision::NoAstrodolph,
        Some(a) => {
            let balance = match a.balance {
                Some(b) => b,
                None => 0,
            };
            if balance <= 0 {
                UpgradeDecision::NotEnoughPoints
            } else {
                UpgradeDecision::Upgrade
            }
        },
    }
}

/// The stat an upgrade raises.
pub open spec fn skill_value(a: Astrodolph, skill: Skill) -> i32 {
    match skill {
        Skill::Health => a.health,
        Skill::Strong => a.strong,
    }
}

/// An astrodolph after one point is spent on `skill`.
pub open spec fn after_upgrade(a: Astrodolph, skill: Skill) -> Astrodolph {
    let balance = Some((or_zero(a.balance) - 1) as i32);
    match skill {
        Skill::Health => Astrodolph { balance, health: (a.health + 1) as i32, ..a },
        Skill::Strong => Astrodolph { balance, strong: (a.strong + 1) as i32, ..a },
    }
}

/// Spends one point on `skill`: the balance goes down by one, the stat up
/// by one. `None` where the stat is already `i32::MAX`, which the table's
/// integer column cannot go beyond.
pub fn upgraded(a: &Astrodolph, skill: Skill) -> (r: Option<Astrodolph>)
    requires
        upgrade_decision(Some(*a)) == UpgradeDecision::Upgrade,
    ensures
        r is None <==> skill_value(*a, skill) == i32::MAX,
        r matches Some(b) ==> b == after_upgrade(*a, skill),
{
    let balance = match a.balance {
        Some(b) => b,
        None => 0,
    };
    match skill {
        Skill::Health => {
            if a.health == i32::MAX {
                None
            } else {
                Some(Astrodolph {
                    balance: Some(balance - 1),
                    health: a.health + 1,
                    strong: a.strong,
                    wins: a.wins,
                })
            }
        },
        Skill::Strong => {
            if a.strong == i32::MAX {
                None
            } else {
                Some(Astrodolph {
                    balance: Some(balance - 1),
                    health: a.health,
                    strong: a.strong + 1,
                    wins: a.wins,
                })
            }
        },
    }
}

/// Every point an astrodolph has: unspent, and spent on health and strength.
pub open spec fn total_points(a: Astrodolph) -> int {
    or_zero(a.balance) + a.health + a.strong
}

/// An upgrade moves a point from the balance to a stat: the total is kept,
/// the balance stays non-negative, wins are untouched, and the
/// other stat is unchanged.
pub proof fn lemma_upgrade_keeps_points(a: Astrodolph, skill: Skill)
    requires
        upgrade_decision(Some(a)) == UpgradeDecision::Upgrade,
        skill_value(a, skill) < i32::MAX,
    ensures
        total_points(after_upgrade(a, skill)) == total_points(a),
        or_zero(after_upgrade(a, skill).balance) == or_zero(a.balance) - 1 >= 0,
        skill_value(after_upgrade(a, skill), skill) == skill_value(a, skill) + 1,
        after_upgrade(a, skill).wins == a.wins,
        after_upgrade(a, skill).health + after_upgrade(a, skill).strong == a.health + a.strong + 1,
{
}

/// The image shown with an astrodolph.
pub fn astrodolph_image() -> (s: &'static str)
    ensures
        s@ == "https://media.discordapp.net/attachments/820210225775902770/913435832554233886/Background_1.png?width=986&height=898"@,
{
    "https://media.discordapp.net/attachments/820210225775902770/913435832554233886/Background_1.png?width=986&height=898"
}

/// What `unew` answers: a refusal where the member owns an astrodolph
/// already, a welcome where one was just made.
pub fn unew_notice(already_owned: bool, author_name: &str) -> (n: Notice)
    ensures
        already_owned ==> n.title@ == "NO STOP PLEASE"@
            && n.description@ == "Your astrodolph would be offended if you got a new one! "@
            && footer_text(n.footer) == Some("Bad man name is "@ + author_name@),
        !already_owned ==> n.title@ == "New astrodolph found!"@
            && n.description@ == "You found your astrodolph! Congratulations!"@
            && footer_text(n.footer) == Some("Good man name is "@ + author_name@),
{
    if already_owned {
        notice(
            "NO STOP PLEASE",
            "Your astrodolph would be offended if you got a new one! ",
            Some(labelled("Bad man name is ", author_name)),
        )
    } else {
        notice(
            "New astrodolph found!",
            "You found your astrodolph! Congratulations!",
            Some(labelled("Good man name is ", author_name)),
        )
    }
}

/// The stats text of `ustats`.
pub open spec fn stats_text(a: Astrodolph, health_points: int, strong_points: int) -> Seq<char> {
    "Available points: "@ + signed_decimal(or_zero(a.balance) as int) + "\nHealth: "@
        + signed_decimal(health_points) + "\nStrong: "@ + signed_decimal(strong_points)
        + "\n Wins: "@ + signed_decimal(or_zero(a.wins) as int)
}

/// The stats text shows, in this order, the row's balance after
/// "Available points: ", the displayed health and strength, and the row's
/// wins after " Wins: ", an empty balance or wins shown as 0.
pub proof fn lemma_stats_text_fields(a: Astrodolph, health_points: int, strong_points: int)
    ensures
        stats_text(a, health_points, strong_points) == "Available points: "@ + signed_decimal(
            match a.balance {
                Some(b) => b as int,
                None => 0,
            },
        ) + "\nHealth: "@ + signed_decimal(health_points) + "\nStrong: "@ + signed_decimal(strong_points)
            + "\n Wins: "@ + signed_decimal(
            match a.wins {
                Some(w) => w as int,
                None => 0,
            },
        ),
{
}

/// What `ustats` answers for an astrodolph, with its health and strength
/// already scaled for display.
pub fn stats_notice(a: &Astrodolph, health_points: i32, strong_points: i32, author_name: &str) -> (n: Notice)
    ensures
        n.title@ == "User's astrodolph information"@,
        n.description@ == stats_text(*a, health_points as int, strong_points as int),
        n.description@ == "Available points: "@ + signed_decimal(match a.balance {
            Some(b) => b as int,
            None => 0,
        }) + "\nHealth: "@ + signed_decimal(health_points as int) + "\nStrong: "@
            + signed_decimal(strong_points as int) + "\n Wins: "@ + signed_decimal(match a.wins {
            Some(w) => w as int,
            None => 0,
        }),
        footer_text(n.footer) == Some("AstroDolph owner's name is "@ + author_name@),
{
    let balance = match a.balance {
        Some(b) => b,
        None => 0,
    };
    let wins = match a.wins {
        Some(w) => w,
        None => 0,
    };
    let mut d = String::from_str("Available points: ");
    d.append(i128_to_decimal(balance as i128).as_str());
    d.append("\nHealth: ");
    d.append(i128_to_decimal(health_points as i128).as_str());
    d.append("\nStrong: ");
    d.append(i128_to_decimal(strong_points as i128).as_str());
    d.append("\n Wins: ");
    d.append(i128_to_decimal(wins as i128).as_str());
    Notice {
        title: String::from_str("User's astrodolph information"),
        description: d,
        footer: Some(labelled("AstroDolph owner's name is ", author_name)),
    }
}

/// What `ustats` says where the member has no astrodolph.
pub fn stats_missing_text() -> (s: &'static str)
    ensures
        s@ == "Astrodolph was not found."@,
{
    "Astrodolph was not found."
}

/// What an upgrade command answers, for its decision and stat.
pub fn upgrade_notice(decision: UpgradeDecision, skill: Skill, author_name: &str) -> (n: Notice)
    ensures
        footer_text(n.footer) == Some("Request author name is "@ + author_name@),
        decision == UpgradeDecision::NoAstrodolph ==> n.title@ == "who"@
            && n.description@ == "You don't have your own astrodolph..."@,
        decision == UpgradeDecision::NotEnoughPoints ==> n.title@ == "You don't have enough points"@
            && n.description@ == "You need to win someone to get points"@,
        decision == UpgradeDecision::Upgrade && skill == Skill::Health ==> n.title@ == "Yeah!!!!"@
            && n.description@ == "You have successfully upgraded your astrodolph. (health tree)"@,
        decision == UpgradeDecision::Upgrade && skill == Skill::Strong ==> n.title@ == "Yeah!!!!"@
            && n.description@ == "You have successfully upgraded your astrodolph. (strong tree)"@,
{
    let footer = Some(labelled("Request author name is ", author_name));
    match decision {
        UpgradeDecision::NoAstrodolph => notice("who", "You don't have your own astrodolph...", footer),
        UpgradeDecision::NotEnoughPoints => notice(
            "You don't have enough points",
            "You need to win someone to get points",
            footer,
        ),
        UpgradeDecision::Upgrade => match skill {
            Skill::Health => notice(
                "Yeah!!!!",
                "You have successfully upgraded your astrodolph. (health tree)",
                footer,
            ),
            Skill::Strong => notice(
                "Yeah!!!!",
                "You have successfully upgraded your astrodolph. (strong tree)",
                footer,
            ),
        },
    }
}

} // verus!
