//! Reading the member a command names: a mention such as `<@123>` or
//! `<@!123>`, or a bare id, read by serenity's `UserId` parser.
use vstd::prelude::*;
use vstd::utf8::encode_utf8;
use crate::text::{chars_of, decimal, parsed_u64, lemma_parse_decimal_roundtrip};

verus! {

/// Whether serenity's mention parser would slice inside a character: the
/// argument starts with `<@` and ends with a character that takes more than
/// one byte, so that cutting off its last byte panics.
pub open spec fn mention_slice_panics(s: Seq<char>) -> bool {
    s.len() >= 2 && s[0] == '<' && s[1] == '@' && (s.last() as u32) >= 0x80
}

/// The id that `serenity::utils::parse_username` reads from a mention: at
/// least four bytes, `<@!` or `<@` in front, the last byte dropped, the rest
/// read as a `u64`.
pub open spec fn mention_user_id(s: Seq<char>) -> Option<u64> {
    if encode_utf8(s).len() < 4 {
        None
    } else if s.len() >= 3 && s[0] == '<' && s[1] == '@' && s[2] == '!' {
        parsed_u64(s.subrange(3, s.len() - 1))
    } else if s.len() >= 2 && s[0] == '<' && s[1] == '@' {
        parsed_u64(s.subrange(2, s.len() - 1))
    } else {
        None
    }
}

/// The id that serenity's `UserId::from_str` reads: the mention's id, or
/// else the whole argument read as a `u64`.
pub open spec fn user_id_from_str(s: Seq<char>) -> Option<u64> {
    match mention_user_id(s) {
        Some(id) => Some(id),
        None => parsed_u64(s),
    }
}

/// serenity's `<UserId as FromStr>::from_str`, with the error dropped and
/// the id taken out. Its source tries `utils::parse_username` (a mention of
/// at least four bytes starting `<@!` or `<@`, whose inner part, the last
/// byte cut off, is parsed as a `u64`) and falls back to parsing the whole
/// argument as a `u64`. The cut panics where the last character takes more
/// than one byte, which `requires` leaves out.
#[verifier::external_body]
fn serenity_user_id(arg: &str) -> (r: Option<u64>)
    requires
        !mention_slice_panics(arg@),
    ensures
        r == user_id_from_str(arg@),
{
    arg.parse::<serenity::model::id::UserId>().ok().map(|id| id.0)
}

/// Whether reading `arg` as a member would panic (see `mention_slice_panics`).
pub fn mention_would_panic(arg: &str) -> (b: bool)
    ensures
        b == mention_slice_panics(arg@),
{
    let cs = chars_of(arg);
    let n = cs.len();
    n >= 2 && cs[0] == '<' && cs[1] == '@' && (cs[n - 1] as u32) >= 0x80
}

/// The member named by a command's argument, if there is an argument and
/// it reads as a user id.
pub fn mentioned_member(arg: Option<&str>) -> (r: Option<u64>)
    requires
        arg matches Some(a) ==> !mention_slice_panics(a@),
    ensures
        r == (match arg {
            None => None,
            Some(a) => user_id_from_str(a@),
        }),
{
    match arg {
        None => None,
        Some(a) => serenity_user_id(a),
    }
}

/// The member a command is about where it falls back on its author: the
/// author when there is no argument or it does not read as a user id.
pub fn member_or_author(arg: Option<&str>, author: u64) -> (r: u64)
    requires
        arg matches Some(a) ==> !mention_slice_panics(a@),
    ensures
        r == (match arg {
            Some(a) => match user_id_from_str(a@) {
                Some(id) => id,
                None => author,
            },
            None => author,
        }),
{
    match mentioned_member(arg) {
        Some(id) => id,
        None => author,
    }
}

/// The member `userinfo` is about: the author when there is no argument,
/// else the member the argument names, `None` where it names none.
pub fn userinfo_member(arg: Option<&str>, author: u64) -> (r: Option<u64>)
    requires
        arg matches Some(a) ==> !mention_slice_panics(a@),
    ensures
        r == (match arg {
            None => Some(author),
            Some(a) => user_id_from_str(a@),
        }),
{
    match arg {
        None => Some(author),
        Some(a) => serenity_user_id(a),
    }
}

/// What a command says where the member it names cannot be found.
pub fn member_not_found_text() -> (s: &'static str)
    ensures
        s@ == "User Was Not Found."@,
{
    "User Was Not Found."
}

/// The mention of a user, as Discord writes it: `<@` id `>`.
pub open spec fn mention(id: u64) -> Seq<char> {
    "<@"@ + decimal(id as nat) + ">"@
}

proof fn lemma_encode_len(s: Seq<char>)
    ensures
        encode_utf8(s).len() >= s.len(),
    decreases s.len(),
{
    if s.len() > 0 {
        lemma_encode_len(s.drop_first());
    }
}

/// A mention written for a user reads back as that user's id, without
/// panicking.
pub proof fn lemma_mention_roundtrip(id: u64)
    ensures
        !mention_slice_panics(mention(id)),
        user_id_from_str(mention(id)) == Some(id),
{
    reveal_strlit("<@");
    reveal_strlit(">");
    let m = mention(id);
    let d = decimal(id as nat);
    lemma_parse_decimal_roundtrip(id);
    crate::text::lemma_decimal_digits(id as nat);
    lemma_encode_len(m);
    assert(m.len() == d.len() + 3);
    assert(m.subrange(2, m.len() - 1) =~= d);
    assert(crate::text::is_ascii_digit(d[0]));
    assert(m[2] == d[0]);
}

} // verus!
