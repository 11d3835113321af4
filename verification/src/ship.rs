//! The `ship` command: how compatible two members are, from their names.
use vstd::prelude::*;
use vstd::utf8::encode_utf8;
use crate::notice::Notice;
use crate::text::{decimal, signed_decimal, u128_to_decimal, i128_to_decimal};

verus! {

/// The sum of a sequence of bytes.
pub open spec fn bytes_sum(b: Seq<u8>) -> int
    decreases b.len(),
{
    if b.len() == 0 {
        0
    } else {
        bytes_sum(b.drop_last()) + b.last()
    }
}

/// The score of a name's bytes: 50 plus every byte but the last.
pub open spec fn name_score(b: Seq<u8>) -> int {
    if b.len() == 0 {
        50
    } else {
        50 + bytes_sum(b.drop_last())
    }
}

/// The absolute value of an integer.
pub open spec fn abs(x: int) -> int {
    if x < 0 {
        -x
    } else {
        x
    }
}

/// Integer division rounding toward zero, as Rust's `/` on integers does.
pub open spec fn div_toward_zero(n: int, d: int) -> int {
    let q = abs(n) / abs(d);
    if (n < 0) == (d < 0) {
        q
    } else {
        -q
    }
}

/// What dividing `n` by `by` until it is no more than `until` ends with:
/// the first of `n`, `n / by`, `(n / by) / by`, ... that is no more than
/// `until`, or `None` where the division never gets there: a divisor of 0
/// (division by zero), of 1 (no progress), 0 above `until` (it stays 0), or
/// -1 when `-n` is still above `until` (it flips back to `n`).
pub open spec fn divided_until(n: int, until: int, by: int) -> Option<int>
    decreases abs(n),
{
    if n <= until {
        Some(n)
    } else if by == 0 || by == 1 || n == 0 {
        None
    } else if by == -1 {
        if -n <= until {
            Some(-n)
        } else {
            None
        }
    } else {
        proof {
            lemma_division_shrinks(n, by);
        }
        divided_until(div_toward_zero(n, by), until, by)
    }
}

/// Dividing a non-zero number by a divisor of magnitude at least 2, rounding
/// toward zero, makes its magnitude smaller.
pub proof fn lemma_division_shrinks(n: int, by: int)
    requires
        n != 0,
        abs(by) >= 2,
    ensures
        abs(div_toward_zero(n, by)) < abs(n),
{
    vstd::arithmetic::div_mod::lemma_div_decreases(abs(n), abs(by));
    vstd::arithmetic::div_mod::lemma_div_pos_is_pos(abs(n), abs(by));
}

/// Rust's `/` on `i32`, computed from the magnitudes of its operands.
fn div_toward_zero_i32(n: i32, d: i32) -> (q: i32)
    requires
        d != 0,
        !(n == i32::MIN && d == -1),
    ensures
        q == div_toward_zero(n as int, d as int),
{
    let an: u32 = if n < 0 { (-(n as i64)) as u32 } else { n as u32 };
    let ad: u32 = if d < 0 { (-(d as i64)) as u32 } else { d as u32 };
    let m = an / ad;
    assert(m as int == abs(n as int) / abs(d as int));
    proof {
        if ad == 1 {
            assert(m == an) by (nonlinear_arith)
                requires
                    ad == 1,
                    m == an / ad,
            ;
        } else {
            assert(m <= an / 2) by (nonlinear_arith)
                requires
                    ad >= 2,
                    m == an / ad,
            ;
        }
    }
    if (n < 0) == (d < 0) {
        m as i32
    } else {
        (-(m as i64)) as i32
    }
}

/// Whether byte string `a` sorts after `b`, lexicographically, as strings
/// are ordered.
pub open spec fn bytes_greater(a: Seq<u8>, b: Seq<u8>) -> bool
    decreases a.len(),
{
    if a.len() == 0 {
        false
    } else if b.len() == 0 {
        true
    } else if a[0] != b[0] {
        a[0] > b[0]
    } else {
        bytes_greater(a.drop_first(), b.drop_first())
    }
}

/// The two names joined, the one that sorts after the other first.
pub open spec fn ship_pair(first: Seq<char>, second: Seq<char>) -> Seq<char> {
    if bytes_greater(encode_utf8(first), encode_utf8(second)) {
        first + second
    } else {
        second + first
    }
}

/// The compatibility percentage of two names.
pub open spec fn compatibility(first: Seq<char>, second: Seq<char>) -> int {
    match divided_until(name_score(encode_utf8(ship_pair(first, second))), 100, 2) {
        Some(p) => p,
        None => 0,
    }
}

/// Whether the score of two names fits in an `i32`.
pub open spec fn ship_score_fits(first: Seq<char>, second: Seq<char>) -> bool {
    name_score(encode_utf8(ship_pair(first, second))) <= i32::MAX
}

proof fn lemma_bytes_sum_prefix(b: Seq<u8>, k: int)
    requires
        0 <= k <= b.len(),
    ensures
        0 <= bytes_sum(b.take(k)) <= bytes_sum(b),
    decreases b.len(),
{
    if b.len() == 0 {
        assert(b.take(k) =~= b);
    } else if k == b.len() {
        assert(b.take(k) =~= b);
        lemma_bytes_sum_prefix(b.drop_last(), b.len() - 1);
        assert(b.drop_last().take(b.len() - 1) =~= b.drop_last());
    } else {
        lemma_bytes_sum_prefix(b.drop_last(), k);
        assert(b.drop_last().take(k) =~= b.take(k));
    }
}

/// The score of a byte string, or `None` where it exceeds `i32::MAX`.
fn score_of_bytes(bytes: &[u8]) -> (r: Option<i32>)
    ensures
        r is Some <==> name_score(bytes@) <= i32::MAX,
        r matches Some(v) ==> v == name_score(bytes@),
{
    let mut ret: i32 = 50;
    let mut b: usize = 1;
    if bytes.len() == 0 {
        return Some(ret);
    }
    proof {
        lemma_bytes_sum_prefix(bytes@.drop_last(), 0);
        assert(bytes@.drop_last().take(0) =~= Seq::<u8>::empty());
    }
    while b < bytes.len()
        invariant
            1 <= b <= bytes.len(),
            ret == 50 + bytes_sum(bytes@.drop_last().take(b - 1)),
        decreases bytes.len() - b,
    {
        proof {
            let p = bytes@.drop_last();
            assert(p.take(b as int).drop_last() =~= p.take(b - 1));
            assert(p.take(b as int).last() == bytes@[b - 1]);
            lemma_bytes_sum_prefix(p, b as int);
        }
        if ret > i32::MAX - 255 && ret as i64 + bytes[b - 1] as i64 > i32::MAX as i64 {
            proof {
                lemma_bytes_sum_prefix(bytes@.drop_last(), b as int);
            }
            return None;
        }
        ret = ret + bytes[b - 1] as i32;
        b = b + 1;
    }
    assert(bytes@.drop_last().take(b - 1) =~= bytes@.drop_last());
    Some(ret)
}

/// The score of a name: 50 plus the sum of its UTF-8 bytes, the last byte
/// left out.
pub fn get_number_from_string(string: &str) -> (r: i32)
    requires
        name_score(encode_utf8(string@)) <= i32::MAX,
    ensures
        r == name_score(encode_utf8(string@)),
{
    let bytes = string.as_bytes();
    match score_of_bytes(bytes) {
        Some(v) => v,
        None => {
            proof {
                assert(false);
            }
            0
        },
    }
}

/// Divides `n` by `by`, rounding toward zero, until it is no more than
/// `until`.
pub fn divide_until(n: i32, until: i32, by: i32) -> (r: i32)
    requires
        divided_until(n as int, until as int, by as int) is Some,
    ensures
        Some(r as int) == divided_until(n as int, until as int, by as int),
        r <= until,
        n <= until ==> r == n,
{
    let ghost start = n;
    let mut n = n;
    while n > until
        invariant
            divided_until(n as int, until as int, by as int) == divided_until(
                start as int, until as int, by as int),
            divided_until(start as int, until as int, by as int) is Some,
        decreases abs(n as int) + if n > until { 1int } else { 0 },
    {
        proof {
            if by != -1 {
                lemma_division_shrinks(n as int, by as int);
            }
        }
        n = div_toward_zero_i32(n, by);
    }
    n
}

/// Whether byte string `a` sorts after `b`.
fn bytes_after(a: &[u8], b: &[u8]) -> (r: bool)
    ensures
        r == bytes_greater(a@, b@),
{
    let mut i: usize = 0;
    assert(a@.skip(0) =~= a@);
    assert(b@.skip(0) =~= b@);
    while i < a.len() && i < b.len()
        invariant
            i <= a.len(),
            i <= b.len(),
            bytes_greater(a@, b@) == bytes_greater(a@.skip(i as int), b@.skip(i as int)),
        decreases a.len() - i,
    {
        if a[i] != b[i] {
            return a[i] > b[i];
        }
        assert(a@.skip(i as int).drop_first() =~= a@.skip(i + 1));
        assert(b@.skip(i as int).drop_first() =~= b@.skip(i + 1));
        i = i + 1;
    }
    i < a.len()
}

/// The compatibility percentage of two members, from their names: the
/// name that sorts after the other comes first, the score of the joined
/// names is halved until it is at most 100. `None` where that score does
/// not fit in an `i32`, names of millions of bytes, on which the score
/// overflows.
pub fn ship_percent(first: &str, second: &str) -> (r: Option<i32>)
    ensures
        r is Some <==> ship_score_fits(first@, second@),
        r matches Some(p) ==> p == compatibility(first@, second@),
{
    let to_compare = if bytes_after(first.as_bytes(), second.as_bytes()) {
        String::from_str(first).concat(second)
    } else {
        String::from_str(second).concat(first)
    };
    let joined = to_compare.as_str();
    assert(joined@ == ship_pair(first@, second@));
    match score_of_bytes(joined.as_bytes()) {
        None => None,
        Some(score) => {
            proof {
                lemma_name_score_at_least_50(encode_utf8(joined@));
                lemma_divided_until_range(score as int);
            }
            Some(divide_until(score, 100, 2))
        },
    }
}

/// The remark that goes with a compatibility percentage.
pub open spec fn ship_remark(percent: int) -> Seq<char> {
    if 0 <= percent <= 39 {
        "Not soo good."@
    } else if 40 <= percent <= 59 {
        "Maybe it's great, but I don't think so."@
    } else if 60 <= percent <= 68 {
        "nice!"@
    } else if 69 <= percent <= 76 {
        "Really Cool!"@
    } else if 77 <= percent <= 97 {
        "Cool! It's amazing!"@
    } else if 98 <= percent <= 100 {
        "Wow! I don't believe it!"@
    } else {
        "who am I?"@
    }
}

/// The remark for a compatibility percentage.
pub fn ship_comment(percent: i32) -> (r: &'static str)
    ensures
        r@ == ship_remark(percent as int),
        0 <= percent <= 39 ==> r@ == "Not soo good."@,
        40 <= percent <= 59 ==> r@ == "Maybe it's great, but I don't think so."@,
        60 <= percent <= 68 ==> r@ == "nice!"@,
        69 <= percent <= 76 ==> r@ == "Really Cool!"@,
        77 <= percent <= 97 ==> r@ == "Cool! It's amazing!"@,
        98 <= percent <= 100 ==> r@ == "Wow! I don't believe it!"@,
        (percent < 0 || percent > 100) ==> r@ == "who am I?"@,
{
    if 0 <= percent && percent <= 39 {
        "Not soo good."
    } else if 40 <= percent && percent <= 59 {
        "Maybe it's great, but I don't think so."
    } else if 60 <= percent && percent <= 68 {
        "nice!"
    } else if 69 <= percent && percent <= 76 {
        "Really Cool!"
    } else if 77 <= percent && percent <= 97 {
        "Cool! It's amazing!"
    } else if 98 <= percent && percent <= 100 {
        "Wow! I don't believe it!"
    } else {
        "who am I?"
    }
}

/// Each range of percentages has its one remark: up to 39 "Not soo good.",
/// 40 to 59 the doubtful one, 60 to 68 "nice!", 69 to 76 "Really Cool!",
/// 77 to 97 "Cool! It's amazing!", 98 to 100 "Wow! I don't believe it!",
/// and anything outside 0 to 100 "who am I?".
pub proof fn lemma_ship_remark_ranges(p: int)
    ensures
        0 <= p <= 39 ==> ship_remark(p) == "Not soo good."@,
        40 <= p <= 59 ==> ship_remark(p) == "Maybe it's great, but I don't think so."@,
        60 <= p <= 68 ==> ship_remark(p) == "nice!"@,
        69 <= p <= 76 ==> ship_remark(p) == "Really Cool!"@,
        77 <= p <= 97 ==> ship_remark(p) == "Cool! It's amazing!"@,
        98 <= p <= 100 ==> ship_remark(p) == "Wow! I don't believe it!"@,
        (p < 0 || p > 100) ==> ship_remark(p) == "who am I?"@,
{
}

/// The text of the `ship` answer.
pub open spec fn ship_text(author: u64, user: u64, percent: int, remark: Seq<char>) -> Seq<char> {
    "These users (<@"@ + decimal(author as nat) + "> and <@"@ + decimal(user as nat)
        + ">) seem to be "@ + signed_decimal(percent) + "% compatible! "@ + remark
}

/// The `ship` text mentions the author, then the other member, then gives
/// the percentage and the remark.
pub proof fn lemma_ship_text_shape(author: u64, user: u64, percent: int, remark: Seq<char>)
    ensures
        ship_text(author, user, percent, remark) == "These users (<@"@ + decimal(author as nat) + "> and <@"@
            + decimal(user as nat) + ">) seem to be "@ + signed_decimal(percent) + "% compatible! "@ + remark,
{
}

/// The text of the `ship` answer for two members, their compatibility and
/// its remark.
pub fn ship_description(author: u64, user: u64, percent: i32, remark: &str) -> (r: String)
    ensures
        r@ == ship_text(author, user, percent as int, remark@),
{
    let mut r = String::from_str("These users (<@");
    r.append(u128_to_decimal(author as u128).as_str());
    r.append("> and <@");
    r.append(u128_to_decimal(user as u128).as_str());
    r.append(">) seem to be ");
    r.append(i128_to_decimal(percent as i128).as_str());
    r.append("% compatible! ");
    r.append(remark);
    r
}

/// The `ship` answer: its title, and the description naming both members
/// with their compatibility and its remark.
pub fn ship_notice(author: u64, user: u64, percent: i32) -> (n: Notice)
    ensures
        n.title@ == "It's time to ship!"@,
        n.description@ == ship_text(author, user, percent as int, ship_remark(percent as int)),
        n.footer is None,
{
    let remark = ship_comment(percent);
    Notice {
        title: String::from_str("It's time to ship!"),
        description: ship_description(author, user, percent, remark),
        footer: None,
    }
}

proof fn lemma_bytes_sum_remove(b: Seq<u8>, j: int)
    requires
        0 <= j < b.len(),
    ensures
        bytes_sum(b) == bytes_sum(b.remove(j)) + b[j],
    decreases b.len(),
{
    if j == b.len() - 1 {
        assert(b.remove(j) =~= b.drop_last());
    } else {
        lemma_bytes_sum_remove(b.drop_last(), j);
        assert(b.remove(j).drop_last() =~= b.drop_last().remove(j));
        assert(b.remove(j).last() == b.last());
    }
}

/// The sum of bytes does not depend on their order: two sequences holding
/// the same bytes, each as many times, have the same sum.
pub proof fn lemma_bytes_sum_permutation(a: Seq<u8>, b: Seq<u8>)
    requires
        a.to_multiset() =~= b.to_multiset(),
    ensures
        bytes_sum(a) == bytes_sum(b),
    decreases a.len(),
{
    broadcast use vstd::seq_lib::group_to_multiset_ensures;
    if a.len() == 0 {
        assert(b.to_multiset().len() == 0);
    } else {
        let x = a.last();
        let rest = a.drop_last();
        assert(a =~= rest.push(x));
        assert(a.to_multiset() =~= rest.to_multiset().insert(x));
        assert(b.to_multiset().count(x) > 0);
        assert(b.contains(x));
        let j = choose|j: int| 0 <= j < b.len() && b[j] == x;
        assert(b.remove(j).to_multiset() =~= b.to_multiset().remove(x));
        assert(rest.to_multiset() =~= rest.to_multiset().insert(x).remove(x));
        lemma_bytes_sum_permutation(rest, b.remove(j));
        lemma_bytes_sum_remove(b, j);
    }
}

/// The score of a name ignores its last byte and the order of the others:
/// two names whose bytes before the last are the same bytes, in any order,
/// score the same whatever their last bytes, namely 50 plus the sum of
/// those bytes.
pub proof fn lemma_name_score_ignores_last_and_order(a: Seq<u8>, b: Seq<u8>, x: u8, y: u8)
    requires
        a.to_multiset() =~= b.to_multiset(),
    ensures
        name_score(a.push(x)) == 50 + bytes_sum(a),
        name_score(a.push(x)) == name_score(b.push(y)),
{
    assert(a.push(x).drop_last() =~= a);
    assert(b.push(y).drop_last() =~= b);
    lemma_bytes_sum_permutation(a, b);
}

proof fn lemma_encode_utf8_concat(a: Seq<char>, b: Seq<char>)
    ensures
        encode_utf8(a + b) == encode_utf8(a) + encode_utf8(b),
    decreases a.len(),
{
    if a.len() == 0 {
        assert(a + b =~= b);
    } else {
        lemma_encode_utf8_concat(a.drop_first(), b);
        assert((a + b).drop_first() =~= a.drop_first() + b);
        assert((a + b)[0] == a[0]);
    }
}

/// The same law on names as strings: a name that ends in an ASCII
/// character scores 50 plus the sum of the bytes before it, so two names
/// whose leading parts hold the same bytes in any order score the same,
/// whichever ASCII characters they end in.
pub proof fn lemma_string_score_ignores_last_and_order(s: Seq<char>, t: Seq<char>, c1: char, c2: char)
    requires
        encode_utf8(s).to_multiset() =~= encode_utf8(t).to_multiset(),
        (c1 as u32) < 0x80,
        (c2 as u32) < 0x80,
    ensures
        name_score(encode_utf8(s.push(c1))) == 50 + bytes_sum(encode_utf8(s)),
        name_score(encode_utf8(s.push(c1))) == name_score(encode_utf8(t.push(c2))),
{
    lemma_ascii_push(s, c1);
    lemma_ascii_push(t, c2);
    lemma_name_score_ignores_last_and_order(encode_utf8(s), encode_utf8(t), c1 as u8, c2 as u8);
}

proof fn lemma_ascii_push(s: Seq<char>, c: char)
    requires
        (c as u32) < 0x80,
    ensures
        encode_utf8(s.push(c)) == encode_utf8(s).push(c as u8),
{
    let one = seq![c];
    assert(s.push(c) =~= s + one);
    lemma_encode_utf8_concat(s, one);
    assert(vstd::utf8::is_ascii_chars(one));
    vstd::utf8::is_ascii_chars_encode_utf8(one);
    assert(encode_utf8(one) =~= seq![c as u8]);
}

proof fn lemma_divided_until_range(m: int)
    requires
        50 <= m,
    ensures
        divided_until(m, 100, 2) matches Some(p) && 50 <= p <= 100,
    decreases m,
{
    if m > 100 {
        assert(div_toward_zero(m, 2) == m / 2);
        assert(m / 2 >= 50);
        lemma_divided_until_range(m / 2);
    }
}

proof fn lemma_name_score_at_least_50(b: Seq<u8>)
    ensures
        name_score(b) >= 50,
{
    if b.len() > 0 {
        lemma_bytes_sum_prefix(b.drop_last(), b.len() - 1);
        assert(b.drop_last().take(b.len() - 1) =~= b.drop_last());
    }
}

/// Every compatibility percentage lies between 50 and 100: the score of
/// any two names is at least 50, and halving stops at the first value not
/// above 100.
pub proof fn lemma_compatibility_range(first: Seq<char>, second: Seq<char>)
    ensures
        50 <= compatibility(first, second) <= 100,
{
    let b = encode_utf8(ship_pair(first, second));
    lemma_name_score_at_least_50(b);
    lemma_divided_until_range(name_score(b));
}

proof fn lemma_bytes_greater_order(a: Seq<u8>, b: Seq<u8>)
    ensures
        !(bytes_greater(a, b) && bytes_greater(b, a)),
        !bytes_greater(a, b) && !bytes_greater(b, a) ==> a == b,
    decreases a.len(),
{
    if a.len() > 0 && b.len() > 0 && a[0] == b[0] {
        lemma_bytes_greater_order(a.drop_first(), b.drop_first());
        if a.drop_first() == b.drop_first() {
            assert(a =~= seq![a[0]] + a.drop_first());
            assert(b =~= seq![b[0]] + b.drop_first());
        }
    } else if a.len() == 0 && b.len() == 0 {
        assert(a =~= b);
    }
}

/// Shipping is symmetric: the two members, given in either order, get the
/// same percentage, and the score fits in either order or in neither.
pub proof fn lemma_compatibility_symmetric(first: Seq<char>, second: Seq<char>)
    ensures
        compatibility(first, second) == compatibility(second, first),
        ship_score_fits(first, second) == ship_score_fits(second, first),
{
    let a = encode_utf8(first);
    let b = encode_utf8(second);
    lemma_bytes_greater_order(a, b);
    if !bytes_greater(a, b) && !bytes_greater(b, a) {
        vstd::utf8::encode_utf8_decode_utf8(first);
        vstd::utf8::encode_utf8_decode_utf8(second);
        assert(first == second);
    }
    assert(ship_pair(first, second) == ship_pair(second, first));
}

} // verus!
