//! Moderation: who may kick or ban whom, and how many messages a purge
//! deletes.
use vstd::prelude::*;
use crate::notice::{Notice, notice};
use crate::text::{decimal, parse_u64, parsed_u64, u128_to_decimal, lemma_parse_decimal_roundtrip};

verus! {

/// A moderation action on a member.
#[derive(Clone, Copy)]
pub enum ModAction {
    Kick,
    Ban,
}

/// The rule for kicking or banning: refused where the target's top role is
/// not below the author's, or the target owns the guild, unless the author
/// owns the guild.
pub open spec fn may_moderate_spec(
    target_top_role: int,
    author_top_role: int,
    target: u64,
    author: u64,
    owner: u64,
) -> bool {
    !((target_top_role >= author_top_role || target == owner) && author != owner)
}

/// Whether the author may kick or ban the target, from the positions of
/// their top roles and who owns the guild.
pub fn may_moderate(
    target_top_role: i64,
    author_top_role: i64,
    target: u64,
    author: u64,
    owner: u64,
) -> (r: bool)
    ensures
        r == may_moderate_spec(target_top_role as int, author_top_role as int, target, author, owner),
{
    !((target_top_role >= author_top_role || target == owner) && author != owner)
}

/// The guild's owner may act on anyone; anyone else may act only on a
/// member other than the owner whose top role is strictly below theirs.
pub proof fn lemma_moderation_rule(
    target_top_role: int,
    author_top_role: int,
    target: u64,
    author: u64,
    owner: u64,
)
    ensures
        author == owner ==> may_moderate_spec(target_top_role, author_top_role, target, author, owner),
        author != owner ==> (may_moderate_spec(target_top_role, author_top_role, target, author, owner)
            <==> (target != owner && target_top_role < author_top_role)),
{
}

/// What the bot says when it refuses a moderation action.
pub fn moderation_refusal(action: ModAction) -> (s: &'static str)
    ensures
        action == ModAction::Kick ==> s@ == "You cannot kick this member."@,
        action == ModAction::Ban ==> s@ == "You cannot ban this member."@,
{
    match action {
        ModAction::Kick => "You cannot kick this member.",
        ModAction::Ban => "You cannot ban this member.",
    }
}

/// The notice of a moderation action carried out.
pub fn moderation_done(action: ModAction) -> (n: Notice)
    ensures
        n.footer is None,
        action == ModAction::Kick ==> n.title@ == "Kick Operation - Done"@
            && n.description@ == "User successfully kicked."@,
        action == ModAction::Ban ==> n.title@ == "Ban Operation - Done"@
            && n.description@ == "User successfully banned."@,
{
    match action {
        ModAction::Kick => notice("Kick Operation - Done", "User successfully kicked.", None),
        ModAction::Ban => notice("Ban Operation - Done", "User successfully banned.", None),
    }
}

/// The number of messages a purge argument asks for, where it is a number
/// from 2 to 100.
pub open spec fn purge_count_spec(arg: Option<Seq<char>>) -> Option<u64> {
    match arg {
        Some(a) => match parsed_u64(a) {
            Some(n) => if 2 <= n <= 100 { Some(n) } else { None },
            None => None,
        },
        None => None,
    }
}

/// The number of messages to delete: the argument read as a `u64`, kept
/// only from 2 to 100.
pub fn purge_count(arg: Option<&str>) -> (r: Option<u64>)
    ensures
        r == purge_count_spec(match arg {
            Some(a) => Some(a@),
            None => None,
        }),
{
    match arg {
        None => None,
        Some(a) => match parse_u64(a) {
            None => None,
            Some(n) => if n < 2 || n > 100 {
                None
            } else {
                Some(n)
            },
        },
    }
}

/// Every count from 2 to 100, written in decimal, is accepted as itself;
/// no other count is accepted.
pub proof fn lemma_purge_count_accepts(n: u64)
    ensures
        purge_count_spec(Some(decimal(n as nat))) == (if 2 <= n <= 100 { Some(n) } else { None::<u64> }),
        purge_count_spec(Some(decimal(n as nat))) matches Some(m) ==> 2 <= m <= 100,
{
    lemma_parse_decimal_roundtrip(n);
}

/// What the bot says when the purge argument is missing or out of range.
pub fn purge_invalid_text() -> (s: &'static str)
    ensures
        s@ == "Please provide valid number argument (from 2 to 100) to run this command."@,
{
    "Please provide valid number argument (from 2 to 100) to run this command."
}

/// The notice of a purge that has started.
pub fn purge_started_notice(count: u64) -> (n: Notice)
    ensures
        n.title@ == "Clear Operation - Started"@,
        n.description@ == "**Operation Started.** Finding and deleting "@ + decimal(count as nat)
            + " messages..."@,
        n.footer is None,
{
    let mut d = String::from_str("**Operation Started.** Finding and deleting ");
    d.append(u128_to_decimal(count as u128).as_str());
    d.append(" messages...");
    Notice { title: String::from_str("Clear Operation - Started"), description: d, footer: None }
}

/// The notice of a purge that is done, with the number of messages deleted.
pub fn purge_done_notice(deleted: usize) -> (n: Notice)
    ensures
        n.title@ == "Clear Operation - Done"@,
        n.description@ == "**Operation - Done.** Successfully deleted "@ + decimal(deleted as nat)
            + " messages!"@,
        n.footer is None,
{
    let mut d = String::from_str("**Operation - Done.** Successfully deleted ");
    d.append(u128_to_decimal(deleted as u128).as_str());
    d.append(" messages!");
    Notice { title: String::from_str("Clear Operation - Done"), description: d, footer: None }
}

} // verus!
