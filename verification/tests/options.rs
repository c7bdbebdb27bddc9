use cucumber_thirtyfour_worlder::config::{parse_worlder_args, ConfigError};
use cucumber_thirtyfour_worlder::tokens::Token;

fn ident(s: &str) -> Token {
    Token::Ident(String::from(s))
}

const GUARD_KEY: &str = "check_concurrency_cli_option_when_firefox";

#[test]
fn empty_options_yield_defaults() {
    let args = parse_worlder_args(&vec![]).unwrap();
    assert!(args.check_concurrency_cli_option_when_firefox);
    assert!(args.cucumber.leading_colon);
    assert_eq!(args.cucumber.segments, vec![String::from("cucumber")]);
    assert!(args.thirtyfour.leading_colon);
    assert_eq!(args.thirtyfour.segments, vec![String::from("thirtyfour")]);
}

#[test]
fn guard_option_can_be_disabled() {
    let toks = vec![ident(GUARD_KEY), Token::Punct('='), ident("false")];
    let args = parse_worlder_args(&toks).unwrap();
    assert!(!args.check_concurrency_cli_option_when_firefox);
}

#[test]
fn unknown_key_rejected_by_name() {
    let toks = vec![ident("browser"), Token::Punct('='), ident("true")];
    let e = parse_worlder_args(&toks).unwrap_err();
    assert!(matches!(e, ConfigError::UnknownKey(k) if k == "browser"));
}

#[test]
fn duplicate_key_takes_last_value() {
    let toks = vec![
        ident(GUARD_KEY),
        Token::Punct('='),
        ident("true"),
        Token::Punct(','),
        ident(GUARD_KEY),
        Token::Punct('='),
        ident("false"),
    ];
    let args = parse_worlder_args(&toks).unwrap();
    assert!(!args.check_concurrency_cli_option_when_firefox);
}

#[test]
fn path_option_with_segments() {
    let toks = vec![
        ident("cucumber"),
        Token::Punct('='),
        ident("my_deps"),
        Token::Punct(':'),
        Token::Punct(':'),
        ident("cucumber"),
    ];
    let args = parse_worlder_args(&toks).unwrap();
    assert!(!args.cucumber.leading_colon);
    assert_eq!(
        args.cucumber.segments,
        vec![String::from("my_deps"), String::from("cucumber")]
    );
    assert!(args.thirtyfour.leading_colon);
    assert_eq!(args.thirtyfour.segments, vec![String::from("thirtyfour")]);
}

#[test]
fn path_option_with_leading_colons() {
    let toks = vec![
        ident("thirtyfour"),
        Token::Punct('='),
        Token::Punct(':'),
        Token::Punct(':'),
        ident("webdriver"),
    ];
    let args = parse_worlder_args(&toks).unwrap();
    assert!(args.thirtyfour.leading_colon);
    assert_eq!(args.thirtyfour.segments, vec![String::from("webdriver")]);
}

#[test]
fn two_options_separated_by_comma() {
    let toks = vec![
        ident(GUARD_KEY),
        Token::Punct('='),
        ident("false"),
        Token::Punct(','),
        ident("cucumber"),
        Token::Punct('='),
        ident("cuke"),
    ];
    let args = parse_worlder_args(&toks).unwrap();
    assert!(!args.check_concurrency_cli_option_when_firefox);
    assert!(!args.cucumber.leading_colon);
    assert_eq!(args.cucumber.segments, vec![String::from("cuke")]);
}

#[test]
fn trailing_comma_accepted() {
    let toks = vec![ident(GUARD_KEY), Token::Punct('='), ident("true"), Token::Punct(',')];
    let args = parse_worlder_args(&toks).unwrap();
    assert!(args.check_concurrency_cli_option_when_firefox);
}

#[test]
fn missing_assignment_rejected() {
    let toks = vec![ident(GUARD_KEY), ident("true")];
    let e = parse_worlder_args(&toks).unwrap_err();
    assert!(matches!(e, ConfigError::ExpectedAssignment));
}

#[test]
fn non_boolean_value_rejected() {
    let toks = vec![ident(GUARD_KEY), Token::Punct('='), ident("yes")];
    let e = parse_worlder_args(&toks).unwrap_err();
    assert!(matches!(e, ConfigError::ExpectedBoolValue));
}

#[test]
fn missing_path_segment_rejected() {
    let toks = vec![ident("cucumber"), Token::Punct('='), Token::Punct(',')];
    let e = parse_worlder_args(&toks).unwrap_err();
    assert!(matches!(e, ConfigError::ExpectedPathSegment));
}

#[test]
fn missing_comma_between_options_rejected() {
    let toks = vec![
        ident(GUARD_KEY),
        Token::Punct('='),
        ident("true"),
        ident("cucumber"),
    ];
    let e = parse_worlder_args(&toks).unwrap_err();
    assert!(matches!(e, ConfigError::ExpectedComma));
}

#[test]
fn non_identifier_key_rejected() {
    let toks = vec![Token::Punct(',')];
    let e = parse_worlder_args(&toks).unwrap_err();
    assert!(matches!(e, ConfigError::ExpectedKey));
}
