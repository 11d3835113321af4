//! The calculator command: how an expression is rewritten before it is
//! evaluated, and how evaluation errors are explained.
use vstd::prelude::*;
use crate::notice::Notice;
use crate::text::{
    has_char, has_double_star, lemma_replaced_absent, lemma_replaced_avoids, lemma_replaced_first,
    lemma_replaced_keeps_stars_apart, occurs_at, replace_all, replaced,
};

verus! {

/// An expression rewritten for the evaluator: `**` becomes `^`, every `pi`
/// (written `pi`, `pi()` or `π`) becomes `pi()`, and `euler` becomes `e()`,
/// in that order.
pub open spec fn normalized(message: Seq<char>) -> Seq<char> {
    let a = replaced(message, "**"@, "^"@);
    let b = replaced(a, "pi()"@, "pi"@);
    let c = replaced(b, "pi"@, "pi()"@);
    let d = replaced(c, "π"@, "pi()"@);
    replaced(d, "euler"@, "e()"@)
}

/// Turning every `**` into `^` leaves no two `*` side by side.
pub proof fn lemma_power_stars_replaced(s: Seq<char>)
    ensures
        !has_double_star(replaced(s, "**"@, "^"@)),
    decreases s.len(),
{
    reveal_strlit("**");
    reveal_strlit("^");
    let pat = "**"@;
    let rep = "^"@;
    if s.len() > 0 {
        let k: int = if occurs_at(s, 0, pat) { 2 } else { 1 };
        let rest = s.skip(k);
        lemma_power_stars_replaced(rest);
        let r = replaced(rest, pat, rep);
        let head = if occurs_at(s, 0, pat) { rep } else { seq![s[0]] };
        let whole = head + r;
        assert(replaced(s, pat, rep) == whole);
        if r.len() > 0 {
            lemma_replaced_first(rest, pat, rep);
        }
        if has_double_star(whole) {
            let i = choose|i: int| #![trigger whole[i]] 0 <= i && i + 1 < whole.len() && whole[i] == '*'
                && whole[i + 1] == '*';
            if i == 0 {
                assert(head[0] == '*');
                assert(!occurs_at(s, 0, pat));
                assert(r[0] == '*');
                assert(!occurs_at(rest, 0, pat));
                assert(rest[0] == s[1]);
                assert(s.subrange(0, 2) =~= pat);
            } else {
                assert(r[i - 1] == '*' && r[i] == '*');
            }
        }
    }
}

/// The rewritten expression holds no `**`: every one is turned into `^`,
/// and no later rewrite puts two `*` side by side again.
pub proof fn lemma_normalized_has_no_power_stars(m: Seq<char>)
    ensures
        !has_double_star(normalized(m)),
        forall|i: int| !occurs_at(normalized(m), i, "**"@),
{
    reveal_strlit("**");
    reveal_strlit("pi()");
    reveal_strlit("pi");
    reveal_strlit("π");
    reveal_strlit("euler");
    reveal_strlit("e()");
    let a = replaced(m, "**"@, "^"@);
    let b = replaced(a, "pi()"@, "pi"@);
    let c = replaced(b, "pi"@, "pi()"@);
    let d = replaced(c, "π"@, "pi()"@);
    lemma_power_stars_replaced(m);
    lemma_replaced_keeps_stars_apart(a, "pi()"@, "pi"@);
    lemma_replaced_keeps_stars_apart(b, "pi"@, "pi()"@);
    lemma_replaced_keeps_stars_apart(c, "π"@, "pi()"@);
    lemma_replaced_keeps_stars_apart(d, "euler"@, "e()"@);
    let n = normalized(m);
    assert forall|i: int| !occurs_at(n, i, "**"@) by {
        if occurs_at(n, i, "**"@) {
            assert(n.subrange(i, i + 2)[0] == '*');
            assert(n.subrange(i, i + 2)[1] == '*');
            assert(n[i] == '*' && n[i + 1] == '*');
        }
    }
}

/// On an expression without `p`, `π` or `e`, rewriting does nothing but
/// turn every `**` into `^`, whatever other characters, spaces among them,
/// the expression holds.
pub proof fn lemma_normalized_plain(m: Seq<char>)
    requires
        !has_char(m, 'p'),
        !has_char(m, 'π'),
        !has_char(m, 'e'),
    ensures
        normalized(m) == replaced(m, "**"@, "^"@),
{
    reveal_strlit("**");
    reveal_strlit("^");
    reveal_strlit("pi()");
    reveal_strlit("pi");
    reveal_strlit("π");
    reveal_strlit("euler");
    reveal_strlit("e()");
    let a = replaced(m, "**"@, "^"@);
    lemma_replaced_avoids(m, "**"@, "^"@, 'p');
    lemma_replaced_avoids(m, "**"@, "^"@, 'π');
    lemma_replaced_avoids(m, "**"@, "^"@, 'e');
    lemma_replaced_absent(a, "pi()"@, "pi"@);
    lemma_replaced_absent(a, "pi"@, "pi()"@);
    lemma_replaced_absent(a, "π"@, "pi()"@);
    lemma_replaced_absent(a, "euler"@, "e()"@);
}

/// Rewrites an expression for the evaluator.
pub fn normalize_expression(message: &str) -> (r: String)
    ensures
        r@ == normalized(message@),
        !has_double_star(r@),
        forall|i: int| !occurs_at(r@, i, "**"@),
        (!has_char(message@, 'p') && !has_char(message@, 'π') && !has_char(message@, 'e'))
            ==> r@ == replaced(message@, "**"@, "^"@),
{
    proof {
        lemma_normalized_has_no_power_stars(message@);
        if !has_char(message@, 'p') && !has_char(message@, 'π') && !has_char(message@, 'e') {
            lemma_normalized_plain(message@);
        }
        reveal_strlit("**");
        reveal_strlit("pi()");
        reveal_strlit("pi");
        reveal_strlit("π");
        reveal_strlit("euler");
    }
    let a = replace_all(message, "**", "^");
    let b = replace_all(a.as_str(), "pi()", "pi");
    let c = replace_all(b.as_str(), "pi", "pi()");
    let d = replace_all(c.as_str(), "π", "pi()");
    replace_all(d.as_str(), "euler", "e()")
}

/// Text with Discord's markdown characters escaped: every backslash
/// doubled, then a backslash put before each `*`, `` ` ``, `_`, `~` and `|`.
pub open spec fn markdown_escaped(s: Seq<char>) -> Seq<char> {
    let a = replaced(s, "\\\\"@, "\\\\\\\\"@);
    let b = replaced(a, "*"@, "\\*"@);
    let c = replaced(b, "`"@, "\\`"@);
    let d = replaced(c, "_"@, "\\_"@);
    let e = replaced(d, "~"@, "\\~"@);
    replaced(e, "|"@, "\\|"@)
}

/// Escapes Discord's markdown characters in a text.
pub fn escape_markdown(s: &str) -> (r: String)
    ensures
        r@ == markdown_escaped(s@),
{
    proof {
        reveal_strlit("\\\\");
        reveal_strlit("*");
        reveal_strlit("`");
        reveal_strlit("_");
        reveal_strlit("~");
        reveal_strlit("|");
    }
    let a = replace_all(s, "\\\\", "\\\\\\\\");
    let b = replace_all(a.as_str(), "*", "\\*");
    let c = replace_all(b.as_str(), "`", "\\`");
    let d = replace_all(c.as_str(), "_", "\\_");
    let e = replace_all(d.as_str(), "~", "\\~");
    replace_all(e.as_str(), "|", "\\|")
}

/// Why an expression could not be evaluated.
pub enum CalcError {
    SlabOverflow,
    Eof,
    EofWhileParsing(String),
    Utf8ErrorWhileParsing(String),
    TooLong,
    TooDeep,
    UnparsedTokensRemaining(String),
    InvalidValue,
    ParseF64(String),
    Expected(String),
    WrongArgs(String),
    Undefined(String),
    Unreachable,
    /// Any other error, with its pretty-printed debug text.
    Unhandled(String),
}

/// The explanation shown for an evaluation error.
pub open spec fn calc_error_message(e: CalcError) -> Seq<char> {
    match e {
        CalcError::SlabOverflow => "Too many Expressions/Values/Instructions were stored."@,
        CalcError::Eof => "Reached an unexpected End Of Input during parsing.\nMake sure your operators are complete."@,
        CalcError::EofWhileParsing(x) => "Reached an unexpected End Of Input during parsing:\n"@ + x@,
        CalcError::Utf8ErrorWhileParsing(_) => "The operator could not be decoded with UTF-8"@,
        CalcError::TooLong => "The expression is too long."@,
        CalcError::TooDeep => "The expression is too recursive."@,
        CalcError::UnparsedTokensRemaining(x) => "An expression was parsed, but there is still input data remaining.\nUnparsed data: "@ + x@,
        CalcError::InvalidValue => "A value was expected, but invalid input data was found."@,
        CalcError::ParseF64(x) => "Could not parse a 64 bit floating point number:\n"@ + x@,
        CalcError::Expected(x) => "The expected input data was not found:\n"@ + x@,
        CalcError::WrongArgs(x) => "A function was called with the wrong arguments:\n"@ + x@,
        CalcError::Undefined(x) => "The expression tried to use an undefined variable or function, or it didn't provide any required arguments.:\n"@ + x@,
        CalcError::Unreachable => "This error should never happen, if it did, contact my developer immediately!"@,
        CalcError::Unhandled(x) => "An unhandled error occurred:\n"@ + x@,
    }
}

/// Each evaluation error has its own explanation, with the error's text
/// after it where the error carries one.
pub proof fn lemma_calc_error_messages(e: CalcError)
    ensures
        e is SlabOverflow ==> calc_error_message(e) == "Too many Expressions/Values/Instructions were stored."@,
        e is Eof ==> calc_error_message(e)
            == "Reached an unexpected End Of Input during parsing.\nMake sure your operators are complete."@,
        e matches CalcError::EofWhileParsing(x) ==> calc_error_message(e)
            == "Reached an unexpected End Of Input during parsing:\n"@ + x@,
        e is Utf8ErrorWhileParsing ==> calc_error_message(e) == "The operator could not be decoded with UTF-8"@,
        e is TooLong ==> calc_error_message(e) == "The expression is too long."@,
        e is TooDeep ==> calc_error_message(e) == "The expression is too recursive."@,
        e matches CalcError::UnparsedTokensRemaining(x) ==> calc_error_message(e)
            == "An expression was parsed, but there is still input data remaining.\nUnparsed data: "@ + x@,
        e is InvalidValue ==> calc_error_message(e) == "A value was expected, but invalid input data was found."@,
        e matches CalcError::ParseF64(x) ==> calc_error_message(e)
            == "Could not parse a 64 bit floating point number:\n"@ + x@,
        e matches CalcError::Expected(x) ==> calc_error_message(e)
            == "The expected input data was not found:\n"@ + x@,
        e matches CalcError::WrongArgs(x) ==> calc_error_message(e)
            == "A function was called with the wrong arguments:\n"@ + x@,
        e matches CalcError::Undefined(x) ==> calc_error_message(e)
            == "The expression tried to use an undefined variable or function, or it didn't provide any required arguments.:\n"@ + x@,
        e is Unreachable ==> calc_error_message(e)
            == "This error should never happen, if it did, contact my developer immediately!"@,
        e matches CalcError::Unhandled(x) ==> calc_error_message(e) == "An unhandled error occurred:\n"@ + x@,
{
}

/// Explains an evaluation error.
pub fn calc_error_text(e: &CalcError) -> (s: String)
    ensures
        s@ == calc_error_message(*e),
{
    match e {
        CalcError::SlabOverflow => String::from_str("Too many Expressions/Values/Instructions were stored."),
        CalcError::Eof => String::from_str("Reached an unexpected End Of Input during parsing.\nMake sure your operators are complete."),
        CalcError::EofWhileParsing(x) => String::from_str("Reached an unexpected End Of Input during parsing:\n").concat(x.as_str()),
        CalcError::Utf8ErrorWhileParsing(_) => String::from_str("The operator could not be decoded with UTF-8"),
        CalcError::TooLong => String::from_str("The expression is too long."),
        CalcError::TooDeep => String::from_str("The expression is too recursive."),
        CalcError::UnparsedTokensRemaining(x) => String::from_str("An expression was parsed, but there is still input data remaining.\nUnparsed data: ").concat(x.as_str()),
        CalcError::InvalidValue => String::from_str("A value was expected, but invalid input data was found."),
        CalcError::ParseF64(x) => String::from_str("Could not parse a 64 bit floating point number:\n").concat(x.as_str()),
        CalcError::Expected(x) => String::from_str("The expected input data was not found:\n").concat(x.as_str()),
        CalcError::WrongArgs(x) => String::from_str("A function was called with the wrong arguments:\n").concat(x.as_str()),
        CalcError::Undefined(x) => String::from_str("The expression tried to use an undefined variable or function, or it didn't provide any required arguments.:\n").concat(x.as_str()),
        CalcError::Unreachable => String::from_str("This error should never happen, if it did, contact my developer immediately!"),
        CalcError::Unhandled(x) => String::from_str("An unhandled error occurred:\n").concat(x.as_str()),
    }
}


/// The answer to an expression that could not be evaluated.
pub fn calc_error_notice(e: &CalcError) -> (n: Notice)
    ensures
        n.title@ == "Calculator - ERROR"@,
        n.description@ == calc_error_message(*e),
        n.footer is None,
{
    Notice { title: String::from_str("Calculator - ERROR"), description: calc_error_text(e), footer: None }
}

/// The title of the answer to an expression that was evaluated.
pub fn calc_result_title() -> (s: &'static str)
    ensures
        s@ == "Calculator - Result"@,
{
    "Calculator - Result"
}

} // verus!
