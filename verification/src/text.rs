//! Text helpers: decimal rendering of integers, character-level string
//! building, and pattern replacement over strings.
use vstd::prelude::*;

verus! {

/// The character for a decimal digit.
pub open spec fn digit_char(d: nat) -> char {
    if d == 0 { '0' }
    else if d == 1 { '1' }
    else if d == 2 { '2' }
    else if d == 3 { '3' }
    else if d == 4 { '4' }
    else if d == 5 { '5' }
    else if d == 6 { '6' }
    else if d == 7 { '7' }
    else if d == 8 { '8' }
    else { '9' }
}

/// The decimal rendering of a natural number, without leading zeros.
pub open spec fn decimal(n: nat) -> Seq<char>
    decreases n,
{
    if n < 10 {
        seq![digit_char(n)]
    } else {
        decimal(n / 10).push(digit_char(n % 10))
    }
}

/// The decimal rendering of an integer, with a leading `-` when negative.
pub open spec fn signed_decimal(n: int) -> Seq<char> {
    if n < 0 {
        seq!['-'] + decimal((-n) as nat)
    } else {
        decimal(n as nat)
    }
}

/// Appends one character to a string.
#[verifier::external_body]
pub(crate) fn push_char(s: &mut String, c: char)
    ensures
        final(s)@ == old(s)@.push(c),
{
    s.push(c)
}

fn digit_to_char(d: u128) -> (c: char)
    requires
        d < 10,
    ensures
        c == digit_char(d as nat),
{
    if d == 0 { '0' }
    else if d == 1 { '1' }
    else if d == 2 { '2' }
    else if d == 3 { '3' }
    else if d == 4 { '4' }
    else if d == 5 { '5' }
    else if d == 6 { '6' }
    else if d == 7 { '7' }
    else if d == 8 { '8' }
    else { '9' }
}

/// Renders an unsigned integer in decimal, as `format!("{}", n)` does.
pub fn u128_to_decimal(n: u128) -> (s: String)
    ensures
        s@ == decimal(n as nat),
    decreases n,
{
    if n < 10 {
        let mut s = String::new();
        push_char(&mut s, digit_to_char(n));
        assert(s@ =~= decimal(n as nat));
        s
    } else {
        let mut s = u128_to_decimal(n / 10);
        push_char(&mut s, digit_to_char(n % 10));
        s
    }
}

/// Renders a signed integer in decimal, as `format!("{}", n)` does.
pub fn i128_to_decimal(n: i128) -> (s: String)
    ensures
        s@ == signed_decimal(n as int),
{
    if n < 0 {
        let mut s = String::new();
        push_char(&mut s, '-');
        // The magnitude, taken without negating `n`, which `i128::MIN` forbids.
        let magnitude: u128 = (-(n + 1)) as u128 + 1;
        let digits = u128_to_decimal(magnitude);
        s.append(digits.as_str());
        s
    } else {
        u128_to_decimal(n as u128)
    }
}


/// Whether a character is an ASCII decimal digit.
pub open spec fn is_ascii_digit(c: char) -> bool {
    0x30 <= (c as u32) <= 0x39
}

/// The number written by a sequence of ASCII decimal digits.
pub open spec fn digits_value(s: Seq<char>) -> nat
    decreases s.len(),
{
    if s.len() == 0 {
        0
    } else {
        digits_value(s.drop_last()) * 10 + ((s.last() as u32) - 0x30) as nat
    }
}

/// What `str::parse::<u64>` accepts and gives back: an optional `+` sign
/// followed by one or more ASCII digits whose value fits in a `u64`.
pub open spec fn parsed_u64(s: Seq<char>) -> Option<u64> {
    let digits = if s.len() > 0 && s[0] == '+' { s.drop_first() } else { s };
    if digits.len() > 0 && (forall|i: int| 0 <= i < digits.len() ==> is_ascii_digit(#[trigger] digits[i]))
        && digits_value(digits) <= u64::MAX {
        Some(digits_value(digits) as u64)
    } else {
        None
    }
}

/// `str::parse::<u64>`, with the error dropped. Its documentation states the
/// accepted form: an optional `+` followed by only digits; any other
/// character, an empty string or a value beyond `u64::MAX` is an error.
#[verifier::external_body]
pub(crate) fn parse_u64(s: &str) -> (r: Option<u64>)
    ensures
        r == parsed_u64(s@),
{
    s.parse::<u64>().ok()
}

proof fn lemma_digit_char(d: nat)
    requires
        d < 10,
    ensures
        is_ascii_digit(digit_char(d)),
        (digit_char(d) as u32) - 0x30 == d,
        digit_char(d) != '+',
{
}

pub(crate) proof fn lemma_decimal_digits(n: nat)
    ensures
        decimal(n).len() > 0,
        forall|i: int| 0 <= i < decimal(n).len() ==> is_ascii_digit(#[trigger] decimal(n)[i]),
        digits_value(decimal(n)) == n,
    decreases n,
{
    if n < 10 {
        lemma_digit_char(n);
        assert(decimal(n).drop_last() =~= Seq::<char>::empty());
        assert(decimal(n).last() == digit_char(n));
        assert(digits_value(Seq::<char>::empty()) == 0);
    } else {
        lemma_decimal_digits(n / 10);
        lemma_digit_char(n % 10);
        assert(decimal(n).drop_last() =~= decimal(n / 10));
        assert(decimal(n).last() == digit_char(n % 10));
        assert(n == (n / 10) * 10 + n % 10) by (nonlinear_arith);
    }
}

/// Reading back a rendered number gives the number: `str::parse::<u64>` of
/// the decimal text of `n` is `Some(n)`.
pub proof fn lemma_parse_decimal_roundtrip(n: u64)
    ensures
        parsed_u64(decimal(n as nat)) == Some(n),
{
    lemma_decimal_digits(n as nat);
    lemma_digit_char((n % 10) as nat);
    if n < 10 {
    } else {
        assert(decimal(n as nat)[0] == decimal((n / 10) as nat)[0]);
        lemma_decimal_first_not_plus((n / 10) as nat);
    }
}

proof fn lemma_decimal_first_not_plus(n: nat)
    ensures
        decimal(n)[0] != '+',
    decreases n,
{
    lemma_decimal_digits(n);
    assert(is_ascii_digit(decimal(n)[0]));
}

/// The characters of a string, in order.
pub fn chars_of(s: &str) -> (v: Vec<char>)
    ensures
        v@ == s@,
{
    broadcast use vstd::string::group_string_axioms;
    let mut v: Vec<char> = Vec::new();
    for c in it: s.chars()
        invariant
            v@ == it.seq().take(it.index()),
    {
        v.push(c);
    }
    v
}


/// Whether `pat` occurs in `s` starting at position `i`.
pub open spec fn occurs_at(s: Seq<char>, i: int, pat: Seq<char>) -> bool {
    0 <= i && i + pat.len() <= s.len() && s.subrange(i, i + pat.len()) == pat
}

/// `s` with every occurrence of the non-empty `pat` replaced by `rep`, the
/// occurrences taken from left to right without overlap, as `str::replace`
/// takes them.
pub open spec fn replaced(s: Seq<char>, pat: Seq<char>, rep: Seq<char>) -> Seq<char>
    decreases s.len(),
{
    if s.len() == 0 || pat.len() == 0 {
        s
    } else if occurs_at(s, 0, pat) {
        rep + replaced(s.skip(pat.len() as int), pat, rep)
    } else {
        seq![s[0]] + replaced(s.skip(1), pat, rep)
    }
}

fn occurs_at_exec(cs: &Vec<char>, i: usize, ps: &Vec<char>) -> (b: bool)
    requires
        i <= cs.len(),
    ensures
        b == occurs_at(cs@, i as int, ps@),
{
    if ps.len() > cs.len() - i {
        return false;
    }
    let mut j: usize = 0;
    while j < ps.len()
        invariant
            i + ps.len() <= cs.len(),
            j <= ps.len(),
            forall|k: int| 0 <= k < j ==> cs@[i + k] == ps@[k],
        decreases ps.len() - j,
    {
        if cs[i + j] != ps[j] {
            assert(cs@.subrange(i as int, i + ps.len())[j as int] != ps@[j as int]);
            return false;
        }
        j = j + 1;
    }
    assert(cs@.subrange(i as int, i + ps.len()) =~= ps@);
    true
}

/// Whether `c` occurs in `s`.
pub open spec fn has_char(s: Seq<char>, c: char) -> bool {
    exists|i: int| 0 <= i < s.len() && s[i] == c
}

/// Whether `s` holds two `*` side by side.
pub open spec fn has_double_star(s: Seq<char>) -> bool {
    exists|i: int| #![trigger s[i]] 0 <= i && i + 1 < s.len() && s[i] == '*' && s[i + 1] == '*'
}

/// The first character of a replacement: that of `rep` where `pat` starts
/// `s`, else that of `s`.
pub proof fn lemma_replaced_first(s: Seq<char>, pat: Seq<char>, rep: Seq<char>)
    requires
        s.len() > 0,
        pat.len() > 0,
        rep.len() > 0,
    ensures
        replaced(s, pat, rep).len() > 0,
        replaced(s, pat, rep)[0] == (if occurs_at(s, 0, pat) { rep[0] } else { s[0] }),
{
}

/// Replacing a pattern whose first character does not occur changes
/// nothing.
pub proof fn lemma_replaced_absent(s: Seq<char>, pat: Seq<char>, rep: Seq<char>)
    requires
        pat.len() > 0,
        !has_char(s, pat[0]),
    ensures
        replaced(s, pat, rep) == s,
    decreases s.len(),
{
    if s.len() > 0 {
        assert(s[0] != pat[0]);
        if occurs_at(s, 0, pat) {
            assert(s.subrange(0, pat.len() as int)[0] == s[0]);
        }
        assert(!has_char(s.skip(1), pat[0])) by {
            if has_char(s.skip(1), pat[0]) {
                let i = choose|i: int| 0 <= i < s.skip(1).len() && s.skip(1)[i] == pat[0];
                assert(s[i + 1] == pat[0]);
            }
        }
        lemma_replaced_absent(s.skip(1), pat, rep);
        assert(seq![s[0]] + s.skip(1) =~= s);
    }
}

/// A character in neither the text nor the replacement is not in the
/// result.
pub proof fn lemma_replaced_avoids(s: Seq<char>, pat: Seq<char>, rep: Seq<char>, c: char)
    requires
        pat.len() > 0,
        !has_char(s, c),
        !has_char(rep, c),
    ensures
        !has_char(replaced(s, pat, rep), c),
    decreases s.len(),
{
    if s.len() > 0 {
        let k: int = if occurs_at(s, 0, pat) { pat.len() as int } else { 1 };
        let rest = s.skip(k);
        assert(!has_char(rest, c)) by {
            if has_char(rest, c) {
                let i = choose|i: int| 0 <= i < rest.len() && rest[i] == c;
                assert(s[i + k] == c);
            }
        }
        lemma_replaced_avoids(rest, pat, rep, c);
        let r = replaced(rest, pat, rep);
        let head = if occurs_at(s, 0, pat) { rep } else { seq![s[0]] };
        assert(replaced(s, pat, rep) == head + r);
        if has_char(head + r, c) {
            let i = choose|i: int| 0 <= i < (head + r).len() && (head + r)[i] == c;
            if i < head.len() {
                assert(head[i] == c);
            } else {
                assert(r[i - head.len()] == c);
            }
        }
    }
}

/// Replacing with a non-empty text free of `*` never puts two `*` side by
/// side: the `*` left in the result are the text's own, and whatever was
/// taken out between two of them is replaced by something.
pub proof fn lemma_replaced_keeps_stars_apart(s: Seq<char>, pat: Seq<char>, rep: Seq<char>)
    requires
        pat.len() > 0,
        rep.len() > 0,
        !has_char(rep, '*'),
        !has_double_star(s),
    ensures
        !has_double_star(replaced(s, pat, rep)),
    decreases s.len(),
{
    if s.len() > 0 {
        let k: int = if occurs_at(s, 0, pat) { pat.len() as int } else { 1 };
        let rest = s.skip(k);
        assert(!has_double_star(rest)) by {
            if has_double_star(rest) {
                let i = choose|i: int| #![trigger rest[i]] 0 <= i && i + 1 < rest.len() && rest[i] == '*' && rest[i + 1] == '*';
                assert(s[i + k] == '*' && s[i + k + 1] == '*');
            }
        }
        lemma_replaced_keeps_stars_apart(rest, pat, rep);
        let r = replaced(rest, pat, rep);
        let head = if occurs_at(s, 0, pat) { rep } else { seq![s[0]] };
        let whole = head + r;
        assert(replaced(s, pat, rep) == whole);
        if r.len() > 0 {
            lemma_replaced_first(rest, pat, rep);
        }
        if has_double_star(whole) {
            let i = choose|i: int| #![trigger whole[i]] 0 <= i && i + 1 < whole.len() && whole[i] == '*' && whole[i + 1] == '*';
            if i + 1 < head.len() {
                assert(head[i] == '*');
                assert(occurs_at(s, 0, pat));
                assert(rep[i] == '*');
            } else if i + 1 == head.len() {
                assert(head[i] == '*');
                assert(r[0] == '*');
                if occurs_at(s, 0, pat) {
                    assert(rep[i] == '*');
                } else {
                    assert(s[0] == '*');
                    if occurs_at(rest, 0, pat) {
                        assert(rep[0] == '*');
                    } else {
                        assert(rest[0] == s[1]);
                        assert(s[0] == '*' && s[1] == '*');
                    }
                }
            } else {
                assert(r[i - head.len()] == '*' && r[i - head.len() + 1] == '*');
            }
        }
    }
}

/// Replaces every occurrence of the non-empty `pat` in `s` by `rep`, as
/// `s.replace(pat, rep)` does.
pub fn replace_all(s: &str, pat: &str, rep: &str) -> (r: String)
    requires
        pat@.len() > 0,
    ensures
        r@ == replaced(s@, pat@, rep@),
{
    let cs = chars_of(s);
    let ps = chars_of(pat);
    let mut out = String::new();
    let mut i: usize = 0;
    assert(s@.skip(0) =~= s@);
    while i < cs.len()
        invariant
            i <= cs.len(),
            cs@ == s@,
            ps@ == pat@,
            ps@.len() > 0,
            replaced(s@, pat@, rep@) == out@ + replaced(s@.skip(i as int), pat@, rep@),
        decreases cs.len() - i,
    {
        let ghost rest = s@.skip(i as int);
        if occurs_at_exec(&cs, i, &ps) {
            assert(rest.subrange(0, pat@.len() as int) =~= s@.subrange(i as int, i + pat@.len()));
            assert(rest.skip(pat@.len() as int) =~= s@.skip(i + pat@.len()));
            out.append(rep);
            i = i + ps.len();
        } else {
            assert(rest.len() >= pat@.len() ==> rest.subrange(0, pat@.len() as int) =~= s@.subrange(i as int, i + pat@.len()));
            assert(rest.skip(1) =~= s@.skip(i + 1));
            assert(rest[0] == cs@[i as int]);
            push_char(&mut out, cs[i]);
            assert(out@ =~= out@.drop_last().push(cs@[i as int]));
            i = i + 1;
        }
    }
    assert(s@.skip(i as int) =~= Seq::<char>::empty());
    out
}

} // verus!
