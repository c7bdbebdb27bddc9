//! Recognition of the accepted declaration shapes.
//!
//! The annotated item must be, after an arbitrary pass-through prefix,
//! either `pub struct Name ;` or `struct Name ;`. The prefix holds every
//! leading token that is neither the visibility keyword nor the `struct`
//! keyword (attributes, doc comments) and is preserved unmodified.

use vstd::prelude::*;
use crate::tokens::{Token, ident_text, token_is_ident_str, token_is_punct};
use crate::text::str_eq;

verus! {

/// A token that ends the pass-through prefix scan: the visibility keyword or
/// the `struct` keyword.
pub open spec fn is_scan_stop(t: Token) -> bool {
    t.is_ident_named("pub"@) || t.is_ident_named("struct"@)
}

/// Length of the pass-through prefix: the index of the first scan-stopping
/// token, or the whole length when there is none.
pub open spec fn prefix_len(s: Seq<Token>) -> int
    decreases s.len(),
{
    if s.len() == 0 {
        0
    } else if is_scan_stop(s[0]) {
        0
    } else {
        1 + prefix_len(s.drop_first())
    }
}

/// `prefix_len` is the unique split point: everything before it fails the
/// scan-stop test and the token at it (if any) passes it.
pub proof fn lemma_prefix_len_is(s: Seq<Token>, k: int)
    requires
        0 <= k <= s.len(),
        forall|i: int| 0 <= i < k ==> !is_scan_stop(s[i]),
        k < s.len() ==> is_scan_stop(s[k]),
    ensures
        prefix_len(s) == k,
    decreases s.len(),
{
    if s.len() > 0 && !is_scan_stop(s[0]) {
        assert(forall|i: int| 0 <= i < k - 1 ==> s.drop_first()[i] == s[i + 1]);
        lemma_prefix_len_is(s.drop_first(), k - 1);
    }
}

/// The token sequence after the pass-through prefix.
pub open spec fn rest_of(s: Seq<Token>) -> Seq<Token> {
    s.skip(prefix_len(s))
}

/// `pub struct Name ;` at the head of `r`.
pub open spec fn shape_with_vis(r: Seq<Token>) -> bool {
    &&& r.len() >= 4
    &&& r[0].is_ident_named("pub"@)
    &&& r[1].is_ident_named("struct"@)
    &&& r[2] matches Token::Ident(_)
    &&& r[3].is_punct_char(';')
}

/// `struct Name ;` at the head of `r`.
pub open spec fn shape_without_vis(r: Seq<Token>) -> bool {
    &&& r.len() >= 3
    &&& r[0].is_ident_named("struct"@)
    &&& r[1] matches Token::Ident(_)
    &&& r[2].is_punct_char(';')
}

/// The sequence is an accepted declaration.
pub open spec fn decl_matches(s: Seq<Token>) -> bool {
    shape_with_vis(rest_of(s)) || shape_without_vis(rest_of(s))
}

/// Name of the declared type, for an accepted declaration.
pub open spec fn decl_name(s: Seq<Token>) -> Seq<char>
    recommends
        decl_matches(s),
{
    if shape_with_vis(rest_of(s)) {
        ident_text(rest_of(s)[2])
    } else {
        ident_text(rest_of(s)[1])
    }
}

/// Result of matching a declaration: the pass-through prefix, the optional
/// visibility keyword, and the name of the declared type.
#[derive(Debug)]
pub struct ParsedDeclaration {
    pub prefix: Vec<Token>,
    pub visibility: Option<String>,
    pub name: String,
}

/// Why a declaration was rejected.
#[derive(Clone, Copy, PartialEq, Eq, Structural, Debug)]
pub enum ShapeError {
    /// No tokens at all: a type declaration must be supplied.
    EmptyDeclaration,
    /// The tokens fit neither `pub struct Name ;` nor `struct Name ;`.
    UnrecognizedShape,
}

/// The diagnostic for each rejected shape: a missing item, or one that fits
/// neither accepted canonical shape.
pub open spec fn shape_error_message(e: ShapeError) -> Seq<char> {
    match e {
        ShapeError::EmptyDeclaration => "#[worlder] macro requires a struct to be passed"@,
        ShapeError::UnrecognizedShape => "#[worlder] macro requires a token stream like `pub struct AppWorld;` or `struct AppWorld;`"@,
    }
}

impl ShapeError {
    /// Renders the rejection as its diagnostic message.
    pub fn message(&self) -> (r: String)
        ensures
            r@ == shape_error_message(*self),
    {
        match self {
            ShapeError::EmptyDeclaration => String::from_str(
                "#[worlder] macro requires a struct to be passed",
            ),
            ShapeError::UnrecognizedShape => String::from_str(
                "#[worlder] macro requires a token stream like `pub struct AppWorld;` or `struct AppWorld;`",
            ),
        }
    }
}

/// Matches the annotated item against the two accepted declaration shapes.
///
/// On success the pass-through prefix is returned unmodified, the visibility
/// keyword is carried over when present, and the declared name is extracted.
pub fn parse_declaration(tokens: Vec<Token>) -> (r: Result<ParsedDeclaration, ShapeError>)
    ensures
        tokens@.len() == 0 ==> (r matches Err(e) && e == ShapeError::EmptyDeclaration),
        tokens@.len() > 0 && !decl_matches(tokens@) ==> (r matches Err(e) && e
            == ShapeError::UnrecognizedShape),
        decl_matches(tokens@) ==> (r matches Ok(d) && {
            &&& d.prefix@ == tokens@.take(prefix_len(tokens@))
            &&& d.name@ == decl_name(tokens@)
            &&& (shape_with_vis(rest_of(tokens@)) ==> (d.visibility matches Some(v) && v@
                == "pub"@))
            &&& (!shape_with_vis(rest_of(tokens@)) ==> d.visibility is None)
        }),
{
    let ghost toks = tokens@;
    if tokens.len() == 0 {
        return Err(ShapeError::EmptyDeclaration);
    }
    let mut rest = tokens;
    let mut prefix: Vec<Token> = Vec::new();
    loop
        invariant
            prefix@.len() + rest@.len() == toks.len(),
            prefix@ == toks.take(prefix@.len() as int),
            rest@ == toks.skip(prefix@.len() as int),
            forall|i: int| 0 <= i < prefix@.len() ==> !is_scan_stop(toks[i]),
        ensures
            prefix@.len() + rest@.len() == toks.len(),
            prefix@ == toks.take(prefix@.len() as int),
            rest@ == toks.skip(prefix@.len() as int),
            forall|i: int| 0 <= i < prefix@.len() ==> !is_scan_stop(toks[i]),
            rest@.len() == 0 || is_scan_stop(toks[prefix@.len() as int]),
        decreases rest@.len(),
    {
        if rest.len() == 0 {
            break;
        }
        proof {
            assert(rest@[0] == toks[prefix@.len() as int]);
        }
        let stop = token_is_marker(&rest[0]);
        if stop {
            break;
        }
        let t = rest.remove(0);
        prefix.push(t);
        proof {
            assert(prefix@ =~= toks.take(prefix@.len() as int));
            assert(rest@ =~= toks.skip(prefix@.len() as int));
        }
    }
    proof {
        lemma_prefix_len_is(toks, prefix@.len() as int);
    }
    let ghost rest0 = rest_of(toks);
    if rest.len() == 0 {
        return Err(ShapeError::UnrecognizedShape);
    }
    proof {
        reveal_strlit("pub");
        reveal_strlit("struct");
    }
    let first = rest.remove(0);
    proof {
        assert(first == rest0[0]);
        assert(forall|i: int| 0 <= i < rest@.len() ==> rest@[i] == rest0[i + 1]);
    }
    match first {
        Token::Ident(vis_text) => {
            if str_eq(vis_text.as_str(), "pub") {
                if rest.len() < 3 {
                    proof {
                        assert(rest0[0].is_ident_named("pub"@));
                        assert("pub"@.len() == 3);
                        assert("struct"@.len() == 6);
                        assert(!rest0[0].is_ident_named("struct"@));
                        assert(!shape_without_vis(rest0));
                        assert(rest0.len() < 4);
                        assert(!shape_with_vis(rest0));
                    }
                    return Err(ShapeError::UnrecognizedShape);
                }
                let second = rest.remove(0);
                proof {
                    assert(second == rest0[1]);
                    assert(forall|i: int| 0 <= i < rest@.len() ==> rest@[i] == rest0[i + 2]);
                }
                if !token_is_ident_str(&second, "struct") {
                    proof {
                        assert("pub"@.len() == 3);
                        assert("struct"@.len() == 6);
                        assert(!rest0[0].is_ident_named("struct"@));
                        assert(!shape_without_vis(rest0));
                        assert(!rest0[1].is_ident_named("struct"@));
                        assert(!shape_with_vis(rest0));
                    }
                    return Err(ShapeError::UnrecognizedShape);
                }
                let third = rest.remove(0);
                proof {
                    assert(third == rest0[2]);
                    assert(forall|i: int| 0 <= i < rest@.len() ==> rest@[i] == rest0[i + 3]);
                }
                let name = match third {
                    Token::Ident(name) => name,
                    _ => {
                        proof {
                            assert("pub"@.len() == 3);
                            assert("struct"@.len() == 6);
                            assert(!rest0[0].is_ident_named("struct"@));
                            assert(!shape_without_vis(rest0));
                            assert(!(rest0[2] matches Token::Ident(_)));
                            assert(!shape_with_vis(rest0));
                        }
                        return Err(ShapeError::UnrecognizedShape);
                    },
                };
                let fourth = rest.remove(0);
                proof {
                    assert(fourth == rest0[3]);
                }
                if !token_is_punct(&fourth, ';') {
                    proof {
                        assert("pub"@.len() == 3);
                        assert("struct"@.len() == 6);
                        assert(!rest0[0].is_ident_named("struct"@));
                        assert(!shape_without_vis(rest0));
                        assert(!rest0[3].is_punct_char(';'));
                        assert(!shape_with_vis(rest0));
                    }
                    return Err(ShapeError::UnrecognizedShape);
                }
                Ok(ParsedDeclaration { prefix, visibility: Some(vis_text), name })
            } else if str_eq(vis_text.as_str(), "struct") {
                proof {
                    assert("pub"@.len() == 3);
                    assert("struct"@.len() == 6);
                    assert(!rest0[0].is_ident_named("pub"@));
                    assert(!shape_with_vis(rest0));
                }
                if rest.len() < 2 {
                    proof {
                        assert(rest0.len() < 3);
                        assert(!shape_without_vis(rest0));
                    }
                    return Err(ShapeError::UnrecognizedShape);
                }
                let second = rest.remove(0);
                proof {
                    assert(second == rest0[1]);
                    assert(forall|i: int| 0 <= i < rest@.len() ==> rest@[i] == rest0[i + 2]);
                }
                let name = match second {
                    Token::Ident(name) => name,
                    _ => {
                        proof {
                            assert(!(rest0[1] matches Token::Ident(_)));
                            assert(!shape_without_vis(rest0));
                        }
                        return Err(ShapeError::UnrecognizedShape);
                    },
                };
                let third = rest.remove(0);
                proof {
                    assert(third == rest0[2]);
                }
                if !token_is_punct(&third, ';') {
                    proof {
                        assert(!rest0[2].is_punct_char(';'));
                        assert(!shape_without_vis(rest0));
                    }
                    return Err(ShapeError::UnrecognizedShape);
                }
                Ok(ParsedDeclaration { prefix, visibility: None, name })
            } else {
                // The scan stops only on the two keywords tested above.
                proof {
                    assert(false);
                }
                Err(ShapeError::UnrecognizedShape)
            }
        },
        _ => {
            // The scan stops only on identifier tokens.
            proof {
                assert(false);
            }
            Err(ShapeError::UnrecognizedShape)
        },
    }
}

/// Any declaration of the shape `prefix pub struct Name ; trail`, where the
/// prefix holds no scan-stopping token, is accepted; the prefix is the
/// pass-through prefix, the visibility form is recognized, and the name is
/// the declared identifier.
pub proof fn lemma_shape_with_visibility_accepted(
    prefix: Seq<Token>,
    vis: Token,
    kw: Token,
    name: Token,
    semi: Token,
    trail: Seq<Token>,
)
    requires
        forall|i: int| 0 <= i < prefix.len() ==> !is_scan_stop(#[trigger] prefix[i]),
        vis.is_ident_named("pub"@),
        kw.is_ident_named("struct"@),
        name matches Token::Ident(_),
        semi.is_punct_char(';'),
    ensures
        ({
            let s = prefix + seq![vis, kw, name, semi] + trail;
            &&& decl_matches(s)
            &&& prefix_len(s) == prefix.len()
            &&& s.take(prefix_len(s)) == prefix
            &&& shape_with_vis(rest_of(s))
            &&& decl_name(s) == ident_text(name)
        }),
{
    let s = prefix + seq![vis, kw, name, semi] + trail;
    assert(forall|i: int| 0 <= i < prefix.len() ==> s[i] == prefix[i]);
    assert(s[prefix.len() as int] == vis);
    lemma_prefix_len_is(s, prefix.len() as int);
    assert(s.take(prefix.len() as int) =~= prefix);
    let r = rest_of(s);
    assert(r[0] == vis);
    assert(r[1] == kw);
    assert(r[2] == name);
    assert(r[3] == semi);
}

/// Any declaration of the shape `prefix struct Name ; trail`, where the
/// prefix holds no scan-stopping token, is accepted without a visibility
/// qualifier, and the name is the declared identifier.
pub proof fn lemma_shape_without_visibility_accepted(
    prefix: Seq<Token>,
    kw: Token,
    name: Token,
    semi: Token,
    trail: Seq<Token>,
)
    requires
        forall|i: int| 0 <= i < prefix.len() ==> !is_scan_stop(#[trigger] prefix[i]),
        kw.is_ident_named("struct"@),
        name matches Token::Ident(_),
        semi.is_punct_char(';'),
    ensures
        ({
            let s = prefix + seq![kw, name, semi] + trail;
            &&& decl_matches(s)
            &&& prefix_len(s) == prefix.len()
            &&& s.take(prefix_len(s)) == prefix
            &&& !shape_with_vis(rest_of(s))
            &&& shape_without_vis(rest_of(s))
            &&& decl_name(s) == ident_text(name)
        }),
{
    let s = prefix + seq![kw, name, semi] + trail;
    assert(forall|i: int| 0 <= i < prefix.len() ==> s[i] == prefix[i]);
    assert(s[prefix.len() as int] == kw);
    lemma_prefix_len_is(s, prefix.len() as int);
    assert(s.take(prefix.len() as int) =~= prefix);
    let r = rest_of(s);
    assert(r[0] == kw);
    assert(r[1] == name);
    assert(r[2] == semi);
    assert("pub"@.len() == 3 && "struct"@.len() == 6) by {
        reveal_strlit("pub");
        reveal_strlit("struct");
    }
    assert(!r[0].is_ident_named("pub"@));
}

/// A declaration whose body is a brace group instead of the `;` terminator is
/// rejected.
pub proof fn lemma_shape_with_body_rejected(
    prefix: Seq<Token>,
    kw: Token,
    name: Token,
    body: Token,
    trail: Seq<Token>,
)
    requires
        forall|i: int| 0 <= i < prefix.len() ==> !is_scan_stop(#[trigger] prefix[i]),
        kw.is_ident_named("struct"@),
        name matches Token::Ident(_),
        body matches Token::Group(_, _),
    ensures
        !decl_matches(prefix + seq![kw, name, body] + trail),
{
    let s = prefix + seq![kw, name, body] + trail;
    assert(forall|i: int| 0 <= i < prefix.len() ==> s[i] == prefix[i]);
    assert(s[prefix.len() as int] == kw);
    lemma_prefix_len_is(s, prefix.len() as int);
    let r = rest_of(s);
    assert(r[0] == kw);
    assert(r[2] == body);
    assert("pub"@.len() == 3 && "struct"@.len() == 6) by {
        reveal_strlit("pub");
        reveal_strlit("struct");
    }
    assert(!r[0].is_ident_named("pub"@));
    assert(!r[2].is_punct_char(';'));
}

/// A declaration that ends right after the name, with no terminator, is
/// rejected.
pub proof fn lemma_missing_terminator_rejected(prefix: Seq<Token>, kw: Token, name: Token)
    requires
        forall|i: int| 0 <= i < prefix.len() ==> !is_scan_stop(#[trigger] prefix[i]),
        kw.is_ident_named("struct"@),
        name matches Token::Ident(_),
    ensures
        !decl_matches(prefix + seq![kw, name]),
{
    let s = prefix + seq![kw, name];
    assert(forall|i: int| 0 <= i < prefix.len() ==> s[i] == prefix[i]);
    assert(s[prefix.len() as int] == kw);
    lemma_prefix_len_is(s, prefix.len() as int);
    let r = rest_of(s);
    assert(r.len() == 2);
}

/// Tests whether a token ends the pass-through prefix scan.
fn token_is_marker(t: &Token) -> (r: bool)
    ensures
        r == is_scan_stop(*t),
{
    let p = token_is_ident_str(t, "pub");
    if p {
        true
    } else {
        token_is_ident_str(t, "struct")
    }
}

} // verus!
