use cucumber_thirtyfour_worlder::decl::{parse_declaration, ShapeError};
use cucumber_thirtyfour_worlder::tokens::{Token, TokenDelimiter};

fn ident(s: &str) -> Token {
    Token::Ident(String::from(s))
}

#[test]
fn plain_declaration_extracts_name() {
    let toks = vec![ident("struct"), ident("AppWorld"), Token::Punct(';')];
    let d = parse_declaration(toks).unwrap();
    assert_eq!(d.name, "AppWorld");
    assert!(d.visibility.is_none());
    assert!(d.prefix.is_empty());
}

#[test]
fn public_declaration_extracts_name_and_visibility() {
    let toks = vec![ident("pub"), ident("struct"), ident("AppWorld"), Token::Punct(';')];
    let d = parse_declaration(toks).unwrap();
    assert_eq!(d.name, "AppWorld");
    assert_eq!(d.visibility.as_deref(), Some("pub"));
    assert!(d.prefix.is_empty());
}

#[test]
fn leading_tokens_pass_through_unmodified() {
    let toks = vec![
        Token::Punct('#'),
        Token::Group(TokenDelimiter::Bracket, vec![ident("doc")]),
        ident("pub"),
        ident("struct"),
        ident("MyWorld"),
        Token::Punct(';'),
    ];
    let d = parse_declaration(toks).unwrap();
    assert_eq!(d.name, "MyWorld");
    assert_eq!(d.visibility.as_deref(), Some("pub"));
    assert_eq!(d.prefix.len(), 2);
    assert!(matches!(d.prefix[0], Token::Punct('#')));
    assert!(
        matches!(&d.prefix[1], Token::Group(TokenDelimiter::Bracket, inner)
            if matches!(&inner[0], Token::Ident(t) if t == "doc"))
    );
}

#[test]
fn empty_declaration_rejected() {
    let r = parse_declaration(vec![]);
    assert_eq!(r.unwrap_err(), ShapeError::EmptyDeclaration);
}

#[test]
fn declaration_with_body_rejected() {
    let toks = vec![ident("struct"), ident("AppWorld"), Token::Group(TokenDelimiter::Brace, vec![])];
    let r = parse_declaration(toks);
    assert_eq!(r.unwrap_err(), ShapeError::UnrecognizedShape);
}

#[test]
fn missing_terminator_rejected() {
    let toks = vec![ident("struct"), ident("AppWorld")];
    let r = parse_declaration(toks);
    assert_eq!(r.unwrap_err(), ShapeError::UnrecognizedShape);
}

#[test]
fn missing_struct_keyword_rejected() {
    let toks = vec![ident("pub"), ident("AppWorld"), Token::Punct(';')];
    let r = parse_declaration(toks);
    assert_eq!(r.unwrap_err(), ShapeError::UnrecognizedShape);
}

#[test]
fn name_must_be_identifier() {
    let toks = vec![ident("struct"), Token::Punct(';'), Token::Punct(';')];
    let r = parse_declaration(toks);
    assert_eq!(r.unwrap_err(), ShapeError::UnrecognizedShape);
}
