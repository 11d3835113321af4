use astrodolph::calc::{calc_error_notice, calc_error_text, calc_result_title, escape_markdown, normalize_expression, CalcError};

#[test]
fn normalization() {
    assert_eq!(normalize_expression("2**3"), "2^3");
    assert_eq!(normalize_expression("pi + pi() + π"), "pi() + pi() + pi()");
    assert_eq!(normalize_expression("euler*2"), "e()*2");
    assert_eq!(normalize_expression("1+1"), "1+1");
}

#[test]
fn normalization_matches_the_replace_chain() {
    for s in ["2**pi()**euler", "π*π", "pipi()", "***", "pi()()"].iter() {
        let expected = s
            .replace("**", "^")
            .replace("pi()", "pi")
            .replace("pi", "pi()")
            .replace("π", "pi()")
            .replace("euler", "e()");
        assert_eq!(normalize_expression(s), expected);
    }
}

#[test]
fn markdown_escaping() {
    assert_eq!(escape_markdown("a*b_c"), "a\\*b\\_c");
    assert_eq!(escape_markdown("`~|"), "\\`\\~\\|");
    assert_eq!(escape_markdown("\\\\"), "\\\\\\\\");
    assert_eq!(escape_markdown("\\"), "\\");
    assert_eq!(escape_markdown("plain"), "plain");
}

#[test]
fn error_texts() {
    assert_eq!(
        calc_error_text(&CalcError::SlabOverflow),
        "Too many Expressions/Values/Instructions were stored."
    );
    assert_eq!(
        calc_error_text(&CalcError::Eof),
        "Reached an unexpected End Of Input during parsing.\nMake sure your operators are complete."
    );
    assert_eq!(
        calc_error_text(&CalcError::EofWhileParsing("x".to_string())),
        "Reached an unexpected End Of Input during parsing:\nx"
    );
    assert_eq!(
        calc_error_text(&CalcError::Utf8ErrorWhileParsing("?".to_string())),
        "The operator could not be decoded with UTF-8"
    );
    assert_eq!(calc_error_text(&CalcError::TooLong), "The expression is too long.");
    assert_eq!(calc_error_text(&CalcError::TooDeep), "The expression is too recursive.");
    assert_eq!(
        calc_error_text(&CalcError::UnparsedTokensRemaining(")".to_string())),
        "An expression was parsed, but there is still input data remaining.\nUnparsed data: )"
    );
    assert_eq!(
        calc_error_text(&CalcError::InvalidValue),
        "A value was expected, but invalid input data was found."
    );
    assert_eq!(
        calc_error_text(&CalcError::ParseF64("1e".to_string())),
        "Could not parse a 64 bit floating point number:\n1e"
    );
    assert_eq!(
        calc_error_text(&CalcError::Expected("(".to_string())),
        "The expected input data was not found:\n("
    );
    assert_eq!(
        calc_error_text(&CalcError::WrongArgs("f".to_string())),
        "A function was called with the wrong arguments:\nf"
    );
    assert_eq!(
        calc_error_text(&CalcError::Undefined("q".to_string())),
        "The expression tried to use an undefined variable or function, or it didn't provide any required arguments.:\nq"
    );
    assert_eq!(
        calc_error_text(&CalcError::Unreachable),
        "This error should never happen, if it did, contact my developer immediately!"
    );
    assert_eq!(
        calc_error_text(&CalcError::Unhandled("AlreadyExists".to_string())),
        "An unhandled error occurred:\nAlreadyExists"
    );
}

#[test]
fn calculator_titles() {
    let n = calc_error_notice(&CalcError::TooLong);
    assert_eq!(n.title, "Calculator - ERROR");
    assert_eq!(n.description, "The expression is too long.");
    assert!(n.footer.is_none());
    assert_eq!(calc_result_title(), "Calculator - Result");
}
