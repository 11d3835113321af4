//! What the bot answers when the framework refuses to run a command.
use vstd::prelude::*;
use crate::text::{decimal, u128_to_decimal};

verus! {

/// Why the framework refused to run a command.
pub enum DispatchFailure {
    /// The bucket's rate limit is reached; try again after this many seconds.
    Ratelimited { seconds: u64 },
    NotEnoughArguments { min: u16, given: usize },
    TooManyArguments { max: u16, given: usize },
    /// The author lacks permissions, given by name.
    LackingPermissions(Vec<String>),
    OnlyForOwners,
    OnlyForGuilds,
    /// Any other reason.
    Other,
}

/// Names, each followed by a newline.
pub open spec fn listed_names(names: Seq<String>) -> Seq<char>
    decreases names.len(),
{
    if names.len() == 0 {
        Seq::empty()
    } else {
        listed_names(names.drop_last()) + names.last()@ + "\n"@
    }
}

/// The answer to a refused command.
pub open spec fn dispatch_message(f: DispatchFailure) -> Seq<char> {
    match f {
        DispatchFailure::Ratelimited { seconds } => "Try this again in "@ + decimal(seconds as nat) + " seconds."@,
        DispatchFailure::NotEnoughArguments { min, given } => "This command required `"@
            + decimal(min as nat) + "` arguments.\nYou have only provided `"@ + decimal(given as nat) + "`"@,
        DispatchFailure::TooManyArguments { max, given } => "This command only needs `"@
            + decimal(max as nat) + " `arguments.\nYou have only provided `"@ + decimal(given as nat) + "`"@,
        DispatchFailure::LackingPermissions(names) => "You need the follwing permisison\n"@ + listed_names(names@),
        DispatchFailure::OnlyForOwners => "You don't have milk. bye, looser"@,
        DispatchFailure::OnlyForGuilds => "Use this command only in guild channel, please."@,
        DispatchFailure::Other => "May I have some milk? (Unknown Error Occurred) Ask my developer please fixes please."@,
    }
}

/// Each reason for refusing a command has its own answer: the rate limit
/// names the seconds to wait, the argument counts name the bound and the
/// count given, missing permissions are listed one per line, and owners-only,
/// guild-only and other refusals each have a fixed text.
pub proof fn lemma_dispatch_messages(f: DispatchFailure)
    ensures
        f matches DispatchFailure::Ratelimited { seconds } ==> dispatch_message(f)
            == "Try this again in "@ + decimal(seconds as nat) + " seconds."@,
        f matches DispatchFailure::NotEnoughArguments { min, given } ==> dispatch_message(f)
            == "This command required `"@ + decimal(min as nat) + "` arguments.\nYou have only provided `"@
            + decimal(given as nat) + "`"@,
        f matches DispatchFailure::TooManyArguments { max, given } ==> dispatch_message(f)
            == "This command only needs `"@ + decimal(max as nat) + " `arguments.\nYou have only provided `"@
            + decimal(given as nat) + "`"@,
        f matches DispatchFailure::LackingPermissions(names) ==> dispatch_message(f)
            == "You need the follwing permisison\n"@ + listed_names(names@),
        f is OnlyForOwners ==> dispatch_message(f) == "You don't have milk. bye, looser"@,
        f is OnlyForGuilds ==> dispatch_message(f) == "Use this command only in guild channel, please."@,
        f is Other ==> dispatch_message(f)
            == "May I have some milk? (Unknown Error Occurred) Ask my developer please fixes please."@,
{
}

/// Each permission name is followed by a newline, in the order given.
pub proof fn lemma_listed_names_push(names: Seq<String>, name: String)
    ensures
        listed_names(names.push(name)) == listed_names(names) + name@ + "\n"@,
        listed_names(Seq::<String>::empty()) == Seq::<char>::empty(),
{
    assert(names.push(name).drop_last() =~= names);
}

/// The answer to a refused command.
pub fn dispatch_error_text(f: &DispatchFailure) -> (s: String)
    ensures
        s@ == dispatch_message(*f),
{
    match f {
        DispatchFailure::Ratelimited { seconds } => {
            let mut s = String::from_str("Try this again in ");
            s.append(u128_to_decimal(*seconds as u128).as_str());
            s.append(" seconds.");
            s
        },
        DispatchFailure::NotEnoughArguments { min, given } => {
            let mut s = String::from_str("This command required `");
            s.append(u128_to_decimal(*min as u128).as_str());
            s.append("` arguments.\nYou have only provided `");
            s.append(u128_to_decimal(*given as u128).as_str());
            s.append("`");
            s
        },
        DispatchFailure::TooManyArguments { max, given } => {
            let mut s = String::from_str("This command only needs `");
            s.append(u128_to_decimal(*max as u128).as_str());
            s.append(" `arguments.\nYou have only provided `");
            s.append(u128_to_decimal(*given as u128).as_str());
            s.append("`");
            s
        },
        DispatchFailure::LackingPermissions(names) => {
            let mut s = String::from_str("You need the follwing permisison\n");
            let mut i: usize = 0;
            while i < names.len()
                invariant
                    i <= names.len(),
                    s@ == "You need the follwing permisison\n"@ + listed_names(names@.take(i as int)),
                decreases names.len() - i,
            {
                s.append(names[i].as_str());
                s.append("\n");
                assert(names@.take(i + 1).drop_last() =~= names@.take(i as int));
                i = i + 1;
            }
            assert(names@.take(names.len() as int) =~= names@);
            s
        },
        DispatchFailure::OnlyForOwners => String::from_str("You don't have milk. bye, looser"),
        DispatchFailure::OnlyForGuilds => String::from_str("Use this command only in guild channel, please."),
        DispatchFailure::Other => String::from_str(
            "May I have some milk? (Unknown Error Occurred) Ask my developer please fixes please.",
        ),
    }
}

/// Whether a refusal is reported to the error tracker: only one for a
/// reason this bot does not explain.
pub fn is_reported(f: &DispatchFailure) -> (b: bool)
    ensures
        b == (*f is Other),
{
    match f {
        DispatchFailure::Other => true,
        _ => false,
    }
}

} // verus!
