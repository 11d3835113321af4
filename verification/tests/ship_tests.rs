use astrodolph::ship::{divide_until, get_number_from_string, ship_comment, ship_description, ship_notice, ship_percent};

#[test]
fn number_from_string_skips_last_byte() {
    assert_eq!(get_number_from_string(""), 50);
    assert_eq!(get_number_from_string("a"), 50);
    assert_eq!(get_number_from_string("ab"), 50 + 97);
    assert_eq!(get_number_from_string("abc"), 50 + 97 + 98);
}

#[test]
fn number_from_string_counts_utf8_bytes() {
    // "é" is 0xC3 0xA9; the last byte is left out.
    assert_eq!(get_number_from_string("é"), 50 + 0xC3);
    assert_eq!(get_number_from_string("éa"), 50 + 0xC3 + 0xA9);
}

#[test]
fn divide_until_halves() {
    assert_eq!(divide_until(147, 100, 2), 73);
    assert_eq!(divide_until(766, 100, 2), 95);
    assert_eq!(divide_until(100, 100, 2), 100);
    assert_eq!(divide_until(101, 100, 2), 50);
    assert_eq!(divide_until(1000, 10, 3), 4);
    assert_eq!(divide_until(-7, -3, 2), -7);
}

#[test]
fn divide_until_other_divisors() {
    // Nothing to divide: any divisor, zero and one included.
    assert_eq!(divide_until(5, 10, 0), 5);
    assert_eq!(divide_until(5, 10, 1), 5);
    assert_eq!(divide_until(-5, -5, 0), -5);
    // A negative divisor brings a positive number to zero or below at once.
    assert_eq!(divide_until(7, 3, -2), -3);
    assert_eq!(divide_until(7, 0, -1), -7);
    assert_eq!(divide_until(i32::MAX, 0, i32::MIN), 0);
    assert_eq!(divide_until(9, 100, -3), 9);
}

#[test]
fn divide_until_below_zero() {
    // A negative `until` is reached where a value flips sign and lands on
    // or below it.
    assert_eq!(divide_until(5, -3, -1), -5);
    assert_eq!(divide_until(10, -3, -2), -5);
    assert_eq!(divide_until(40, -15, -2), -20);
    assert_eq!(divide_until(100, -7, -3), -33);
    assert_eq!(divide_until(i32::MAX, -2, -1), -i32::MAX);
    assert_eq!(divide_until(-50, -50, 0), -50);
}

#[test]
fn number_ignores_last_byte_and_order() {
    // 50 + sum of the bytes before the last, whatever the last is and
    // however the others are ordered.
    let s = "héllo";
    let t = "olléh";
    let expected = 50 + s.bytes().map(|b| b as i32).sum::<i32>();
    for (c1, c2) in [('a', 'z'), ('!', '~'), ('0', 'Q')].iter() {
        let s1 = format!("{}{}", s, c1);
        let t2 = format!("{}{}", t, c2);
        assert_eq!(get_number_from_string(&s1), expected);
        assert_eq!(get_number_from_string(&t2), expected);
    }
}

#[test]
fn ship_percent_orders_names() {
    // "alice" sorts before "bob", so the joined text is "bobalice":
    // 50 + 98 + 111 + 98 + 97 + 108 + 105 + 99 = 766 -> 383 -> 191 -> 95.
    assert_eq!(ship_percent("alice", "bob"), Some(95));
    assert_eq!(ship_percent("bob", "alice"), Some(95));
}

#[test]
fn ship_percent_is_symmetric_and_in_range() {
    let names = ["", "a", "Zed", "zed", "Ünïcode", "bot#1", "a very long name indeed"];
    for a in names.iter() {
        for b in names.iter() {
            let p = ship_percent(a, b).unwrap();
            assert_eq!(Some(p), ship_percent(b, a));
            assert!((50..=100).contains(&p));
        }
    }
}

#[test]
fn ship_comment_ranges() {
    assert_eq!(ship_comment(0), "Not soo good.");
    assert_eq!(ship_comment(39), "Not soo good.");
    assert_eq!(ship_comment(40), "Maybe it's great, but I don't think so.");
    assert_eq!(ship_comment(59), "Maybe it's great, but I don't think so.");
    assert_eq!(ship_comment(60), "nice!");
    assert_eq!(ship_comment(68), "nice!");
    assert_eq!(ship_comment(69), "Really Cool!");
    assert_eq!(ship_comment(76), "Really Cool!");
    assert_eq!(ship_comment(77), "Cool! It's amazing!");
    assert_eq!(ship_comment(97), "Cool! It's amazing!");
    assert_eq!(ship_comment(98), "Wow! I don't believe it!");
    assert_eq!(ship_comment(100), "Wow! I don't believe it!");
    assert_eq!(ship_comment(101), "who am I?");
    assert_eq!(ship_comment(-1), "who am I?");
}

#[test]
fn ship_texts() {
    assert_eq!(
        ship_description(1, 22, 95, "Cool! It's amazing!"),
        "These users (<@1> and <@22>) seem to be 95% compatible! Cool! It's amazing!"
    );
    let n = ship_notice(10, 20, 61);
    assert_eq!(n.title, "It's time to ship!");
    assert_eq!(n.description, "These users (<@10> and <@20>) seem to be 61% compatible! nice!");
    assert!(n.footer.is_none());
}
