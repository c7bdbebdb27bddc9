//! The parser for the configuration-option list given to the attribute:
//! comma-separated `key = value` pairs, each key known and typed, every key
//! optional, a repeated key taking its last value.

use vstd::prelude::*;
use crate::tokens::{Token, ident_text, token_is_ident_str, token_is_punct};
use crate::text::str_eq;

verus! {

/// A symbolic path given as an option value: an optional leading `::` and
/// one identifier segment per step.
#[derive(Debug)]
pub struct SymbolPath {
    pub leading_colon: bool,
    pub segments: Vec<String>,
}

/// The options accepted by the attribute, fully populated.
#[derive(Debug)]
pub struct WorlderArgs {
    /// Whether the generated initialization routine checks the concurrency
    /// flag before starting a Firefox session.
    pub check_concurrency_cli_option_when_firefox: bool,
    /// Path under which the generated code reaches the test-runner library.
    pub cucumber: SymbolPath,
    /// Path under which the generated code reaches the driver library.
    pub thirtyfour: SymbolPath,
}

/// Spec-level image of a symbolic path.
pub ghost struct PathModel {
    pub leading: bool,
    pub segments: Seq<Seq<char>>,
}

/// Spec-level image of the parsed options.
pub ghost struct ArgsModel {
    pub guard: bool,
    pub cucumber: PathModel,
    pub thirtyfour: PathModel,
}

/// Spec-level image of a parse failure.
pub ghost enum ConfigErrorModel {
    UnknownKey(Seq<char>),
    ExpectedKey,
    ExpectedAssignment,
    ExpectedBoolValue,
    ExpectedPathSegment,
    ExpectedComma,
}

/// Why the option list was rejected.
#[derive(Debug)]
pub enum ConfigError {
    /// The named key is not one of the recognized options.
    UnknownKey(String),
    /// An option must start with an identifier key.
    ExpectedKey,
    /// The key must be followed by `=`.
    ExpectedAssignment,
    /// The boolean option takes a `true` or `false` literal.
    ExpectedBoolValue,
    /// The path options take at least one identifier segment.
    ExpectedPathSegment,
    /// Options are separated by commas.
    ExpectedComma,
}

/// The diagnostic for each rejected option list; an unknown key is named.
pub open spec fn config_error_message(e: ConfigError) -> Seq<char> {
    match e {
        ConfigError::UnknownKey(k) => "Unknown argument: "@ + k@,
        ConfigError::ExpectedKey => "expected an option name"@,
        ConfigError::ExpectedAssignment => "expected `=` after the option name"@,
        ConfigError::ExpectedBoolValue => "expected `true` or `false`"@,
        ConfigError::ExpectedPathSegment => "expected a path"@,
        ConfigError::ExpectedComma => "expected `,` between options"@,
    }
}

impl ConfigError {
    /// Renders the rejection as its diagnostic message.
    pub fn message(&self) -> (r: String)
        ensures
            r@ == config_error_message(*self),
    {
        match self {
            ConfigError::UnknownKey(k) => {
                let mut m = String::from_str("Unknown argument: ");
                m.append(k.as_str());
                m
            },
            ConfigError::ExpectedKey => String::from_str("expected an option name"),
            ConfigError::ExpectedAssignment => String::from_str(
                "expected `=` after the option name",
            ),
            ConfigError::ExpectedBoolValue => String::from_str("expected `true` or `false`"),
            ConfigError::ExpectedPathSegment => String::from_str("expected a path"),
            ConfigError::ExpectedComma => String::from_str("expected `,` between options"),
        }
    }
}

/// An executable error mirrors its spec-level image.
pub open spec fn config_error_matches(e: ConfigError, m: ConfigErrorModel) -> bool {
    match e {
        ConfigError::UnknownKey(k) => m matches ConfigErrorModel::UnknownKey(km) && k@ == km,
        ConfigError::ExpectedKey => m is ExpectedKey,
        ConfigError::ExpectedAssignment => m is ExpectedAssignment,
        ConfigError::ExpectedBoolValue => m is ExpectedBoolValue,
        ConfigError::ExpectedPathSegment => m is ExpectedPathSegment,
        ConfigError::ExpectedComma => m is ExpectedComma,
    }
}

/// An executable path mirrors its spec-level image.
pub open spec fn path_match(p: SymbolPath, m: PathModel) -> bool {
    p.leading_colon == m.leading && p.segments.deep_view() == m.segments
}

/// An executable option record mirrors its spec-level image.
pub open spec fn args_match(a: WorlderArgs, m: ArgsModel) -> bool {
    &&& a.check_concurrency_cli_option_when_firefox == m.guard
    &&& path_match(a.cucumber, m.cucumber)
    &&& path_match(a.thirtyfour, m.thirtyfour)
}

/// The documented defaults: the guard enabled, both libraries reached
/// through their absolute paths.
pub open spec fn default_args_model() -> ArgsModel {
    ArgsModel {
        guard: true,
        cucumber: PathModel { leading: true, segments: seq!["cucumber"@] },
        thirtyfour: PathModel { leading: true, segments: seq!["thirtyfour"@] },
    }
}

/// A `:: identifier` continuation of a path starts at `i`.
pub open spec fn path_tail_step(s: Seq<Token>, i: int) -> bool {
    &&& i + 3 <= s.len()
    &&& s[i].is_punct_char(':')
    &&& s[i + 1].is_punct_char(':')
    &&& s[i + 2] matches Token::Ident(_)
}

/// Number of tokens in the `:: identifier` continuations starting at `i`.
pub open spec fn path_tail_len(s: Seq<Token>, i: int) -> int
    decreases s.len() - i,
{
    if path_tail_step(s, i) {
        3 + path_tail_len(s, i + 3)
    } else {
        0
    }
}

/// The segments named by the `:: identifier` continuations starting at `i`.
pub open spec fn path_tail_segments(s: Seq<Token>, i: int) -> Seq<Seq<char>>
    decreases s.len() - i,
{
    if path_tail_step(s, i) {
        seq![ident_text(s[i + 2])] + path_tail_segments(s, i + 3)
    } else {
        Seq::empty()
    }
}

/// How a path value begins at `p`: with a segment, with a leading `::`, or
/// not at all.
pub ghost enum PathForm {
    NonLeading,
    Leading,
    Invalid,
}

/// Classifies the start of a path value at `p`.
pub open spec fn path_form(s: Seq<Token>, p: int) -> PathForm {
    if 0 <= p < s.len() && (s[p] matches Token::Ident(_)) {
        PathForm::NonLeading
    } else if p >= 0 && p + 3 <= s.len() && s[p].is_punct_char(':') && s[p + 1].is_punct_char(':')
        && (s[p + 2] matches Token::Ident(_)) {
        PathForm::Leading
    } else {
        PathForm::Invalid
    }
}

/// Index just after the first segment of the path at `p`.
pub open spec fn path_first_end(s: Seq<Token>, p: int) -> int {
    if path_form(s, p) is NonLeading {
        p + 1
    } else {
        p + 3
    }
}

/// Index just after the whole path at `p`.
pub open spec fn path_end(s: Seq<Token>, p: int) -> int {
    path_first_end(s, p) + path_tail_len(s, path_first_end(s, p))
}

/// Text of the first segment of the path at `p`.
pub open spec fn path_first_seg(s: Seq<Token>, p: int) -> Seq<char> {
    if path_form(s, p) is NonLeading {
        ident_text(s[p])
    } else {
        ident_text(s[p + 2])
    }
}

/// The whole path value at `p` as a spec-level path.
pub open spec fn path_model(s: Seq<Token>, p: int) -> PathModel
    recommends
        !(path_form(s, p) is Invalid),
{
    PathModel {
        leading: path_form(s, p) is Leading,
        segments: seq![path_first_seg(s, p)] + path_tail_segments(s, path_first_end(s, p)),
    }
}

/// The option list parser: one `key = value` pair at the head of `s`, then
/// the rest via [`spec_parse_rest`]. An empty list yields the accumulated
/// options.
pub open spec fn spec_parse_args(s: Seq<Token>, acc: ArgsModel) -> Result<
    ArgsModel,
    ConfigErrorModel,
>
    decreases s.len(), 1int,
{
    if s.len() == 0 {
        Ok(acc)
    } else {
        match s[0] {
            Token::Ident(key) => {
                if key@ == "check_concurrency_cli_option_when_firefox"@ {
                    if 2 <= s.len() && s[1].is_punct_char('=') {
                        if 3 <= s.len() && (s[2].is_ident_named("true"@) || s[2].is_ident_named(
                            "false"@,
                        )) {
                            spec_parse_rest(
                                s,
                                3,
                                ArgsModel { guard: s[2].is_ident_named("true"@), ..acc },
                            )
                        } else {
                            Err(ConfigErrorModel::ExpectedBoolValue)
                        }
                    } else {
                        Err(ConfigErrorModel::ExpectedAssignment)
                    }
                } else if key@ == "cucumber"@ {
                    if 2 <= s.len() && s[1].is_punct_char('=') {
                        if !(path_form(s, 2) is Invalid) {
                            spec_parse_rest(
                                s,
                                path_end(s, 2),
                                ArgsModel { cucumber: path_model(s, 2), ..acc },
                            )
                        } else {
                            Err(ConfigErrorModel::ExpectedPathSegment)
                        }
                    } else {
                        Err(ConfigErrorModel::ExpectedAssignment)
                    }
                } else if key@ == "thirtyfour"@ {
                    if 2 <= s.len() && s[1].is_punct_char('=') {
                        if !(path_form(s, 2) is Invalid) {
                            spec_parse_rest(
                                s,
                                path_end(s, 2),
                                ArgsModel { thirtyfour: path_model(s, 2), ..acc },
                            )
                        } else {
                            Err(ConfigErrorModel::ExpectedPathSegment)
                        }
                    } else {
                        Err(ConfigErrorModel::ExpectedAssignment)
                    }
                } else {
                    Err(ConfigErrorModel::UnknownKey(key@))
                }
            },
            _ => Err(ConfigErrorModel::ExpectedKey),
        }
    }
}

/// After a pair that ended at `i`: the end of the list, or a comma and the
/// rest of the list (a trailing comma is accepted).
pub open spec fn spec_parse_rest(s: Seq<Token>, i: int, acc: ArgsModel) -> Result<
    ArgsModel,
    ConfigErrorModel,
>
    decreases s.len(), 0int,
{
    if i < 0 || i >= s.len() {
        Ok(acc)
    } else if s[i].is_punct_char(',') {
        spec_parse_args(s.skip(i + 1), acc)
    } else {
        Err(ConfigErrorModel::ExpectedComma)
    }
}

impl Default for WorlderArgs {
    /// The fully-defaulted option record.
    fn default() -> (r: Self)
        ensures
            args_match(r, default_args_model()),
    {
        let mut cseg: Vec<String> = Vec::new();
        cseg.push(String::from_str("cucumber"));
        let mut tseg: Vec<String> = Vec::new();
        tseg.push(String::from_str("thirtyfour"));
        let r = WorlderArgs {
            check_concurrency_cli_option_when_firefox: true,
            cucumber: SymbolPath { leading_colon: true, segments: cseg },
            thirtyfour: SymbolPath { leading_colon: true, segments: tseg },
        };
        proof {
            assert(r.cucumber.segments.deep_view() =~= seq!["cucumber"@]);
            assert(r.thirtyfour.segments.deep_view() =~= seq!["thirtyfour"@]);
        }
        r
    }
}

/// Parses a path value beginning at `start`: the path itself and the index
/// just past it, or nothing when no path starts there.
fn parse_path_value(tokens: &Vec<Token>, start: usize) -> (r: Option<(SymbolPath, usize)>)
    requires
        start <= tokens@.len(),
    ensures
        match r {
            Some(p) => {
                &&& !(path_form(tokens@, start as int) is Invalid)
                &&& path_match(p.0, path_model(tokens@, start as int))
                &&& p.1 == path_end(tokens@, start as int)
                &&& start <= p.1 <= tokens@.len()
            },
            None => path_form(tokens@, start as int) is Invalid,
        },
{
    let ghost full = tokens@;
    let n = tokens.len();
    let mut segs: Vec<String> = Vec::new();
    let leading: bool;
    let mut cur: usize;
    if start < n && token_is_any_ident(&tokens[start]) {
        let seg = clone_ident_text(&tokens[start]);
        segs.push(seg);
        leading = false;
        cur = start + 1;
    } else if n - start >= 3 {
        let c1 = token_is_punct(&tokens[start], ':');
        let c2 = token_is_punct(&tokens[start + 1], ':');
        let c3 = token_is_any_ident(&tokens[start + 2]);
        if c1 && c2 && c3 {
            let seg = clone_ident_text(&tokens[start + 2]);
            segs.push(seg);
            leading = true;
            cur = start + 3;
        } else {
            return None;
        }
    } else {
        return None;
    }
    proof {
        assert(segs.deep_view() =~= seq![path_first_seg(full, start as int)]);
        assert(cur == path_first_end(full, start as int));
    }
    let ghost first_end = path_first_end(full, start as int);
    loop
        invariant
            n == full.len(),
            tokens@ == full,
            first_end == path_first_end(full, start as int),
            start <= cur <= n,
            first_end <= cur,
            leading == (path_form(full, start as int) is Leading),
            !(path_form(full, start as int) is Invalid),
            first_end + path_tail_len(full, first_end) == cur + path_tail_len(full, cur as int),
            seq![path_first_seg(full, start as int)] + path_tail_segments(full, first_end)
                =~= segs.deep_view() + path_tail_segments(full, cur as int),
        ensures
            !path_tail_step(full, cur as int),
            start <= cur <= n,
            first_end + path_tail_len(full, first_end) == cur + path_tail_len(full, cur as int),
            seq![path_first_seg(full, start as int)] + path_tail_segments(full, first_end)
                =~= segs.deep_view() + path_tail_segments(full, cur as int),
            leading == (path_form(full, start as int) is Leading),
            !(path_form(full, start as int) is Invalid),
        decreases n - cur,
    {
        if n - cur < 3 {
            break;
        }
        let c1 = token_is_punct(&tokens[cur], ':');
        let c2 = token_is_punct(&tokens[cur + 1], ':');
        if !c1 || !c2 {
            break;
        }
        if !token_is_any_ident(&tokens[cur + 2]) {
            break;
        }
        let seg = clone_ident_text(&tokens[cur + 2]);
        segs.push(seg);
        proof {
            assert(path_tail_step(full, cur as int));
            assert(path_tail_len(full, cur as int) == 3 + path_tail_len(full, cur + 3));
            assert(path_tail_segments(full, cur as int) == seq![ident_text(full[cur + 2])]
                + path_tail_segments(full, cur + 3));
            assert(segs.deep_view() =~= segs.deep_view().take(segs.deep_view().len() - 1) + seq![
                ident_text(full[cur + 2]),
            ]);
        }
        cur = cur + 3;
    }
    proof {
        assert(path_tail_len(full, cur as int) == 0);
        assert(path_tail_segments(full, cur as int) =~= Seq::<Seq<char>>::empty());
        assert(segs.deep_view() =~= seq![path_first_seg(full, start as int)]
            + path_tail_segments(full, first_end));
    }
    Some((SymbolPath { leading_colon: leading, segments: segs }, cur))
}

/// Tests whether a token is any identifier.
fn token_is_any_ident(t: &Token) -> (r: bool)
    ensures
        r == (*t matches Token::Ident(_)),
{
    match t {
        Token::Ident(_) => true,
        _ => false,
    }
}

/// Copies the text out of an identifier token.
fn clone_ident_text(t: &Token) -> (r: String)
    requires
        *t matches Token::Ident(_),
    ensures
        r@ == ident_text(*t),
{
    match t {
        Token::Ident(s) => s.clone(),
        _ => {
            proof {
                assert(false);
            }
            String::new()
        },
    }
}

/// Parses the option list: comma-separated `key = value` pairs, each key
/// recognized and typed, omitted keys defaulted, a repeated key taking its
/// last value, and an unknown key rejected by name.
pub fn parse_worlder_args(tokens: &Vec<Token>) -> (r: Result<WorlderArgs, ConfigError>)
    ensures
        ({
            let res = spec_parse_args(tokens@, default_args_model());
            match r {
                Ok(a) => res matches Ok(m) && args_match(a, m),
                Err(e) => res matches Err(m) && config_error_matches(e, m),
            }
        }),
{
    proof {
        reveal_strlit("check_concurrency_cli_option_when_firefox");
        reveal_strlit("cucumber");
        reveal_strlit("thirtyfour");
        reveal_strlit("true");
        reveal_strlit("false");
        assert("check_concurrency_cli_option_when_firefox"@.len() == 41);
        assert("cucumber"@.len() == 8);
        assert("thirtyfour"@.len() == 10);
        assert("true"@.len() == 4);
        assert("false"@.len() == 5);
    }
    let ghost full = tokens@;
    let n = tokens.len();
    let mut args = WorlderArgs::default();
    let ghost mut macc = default_args_model();
    let mut pos: usize = 0;
    proof {
        assert(full.skip(0) =~= full);
    }
    while pos < n
        invariant
            n == full.len(),
            tokens@ == full,
            pos <= n,
            args_match(args, macc),
            spec_parse_args(full, default_args_model()) == spec_parse_args(
                full.skip(pos as int),
                macc,
            ),
        decreases n - pos,
    {
        let ghost win = full.skip(pos as int);
        proof {
            assert(forall|k: int| 0 <= k < win.len() ==> win[k] == full[pos + k]);
        }
        let next_pos: usize;
        match &tokens[pos] {
            Token::Ident(key) => {
                if str_eq(key.as_str(), "check_concurrency_cli_option_when_firefox") {
                    if pos + 1 >= n {
                        return Err(ConfigError::ExpectedAssignment);
                    }
                    if !token_is_punct(&tokens[pos + 1], '=') {
                        return Err(ConfigError::ExpectedAssignment);
                    }
                    if pos + 2 >= n {
                        return Err(ConfigError::ExpectedBoolValue);
                    }
                    let is_true = token_is_ident_str(&tokens[pos + 2], "true");
                    let is_false = token_is_ident_str(&tokens[pos + 2], "false");
                    if !is_true && !is_false {
                        return Err(ConfigError::ExpectedBoolValue);
                    }
                    args.check_concurrency_cli_option_when_firefox = is_true;
                    proof {
                        macc = ArgsModel { guard: is_true, ..macc };
                    }
                    next_pos = pos + 3;
                } else if str_eq(key.as_str(), "cucumber") {
                    if pos + 1 >= n {
                        return Err(ConfigError::ExpectedAssignment);
                    }
                    if !token_is_punct(&tokens[pos + 1], '=') {
                        return Err(ConfigError::ExpectedAssignment);
                    }
                    match parse_path_value(tokens, pos + 2) {
                        Some(p) => {
                            proof {
                                lemma_path_shifted(full, pos as int, 2);
                            }
                            args.cucumber = p.0;
                            proof {
                                macc = ArgsModel { cucumber: path_model(win, 2), ..macc };
                            }
                            next_pos = p.1;
                        },
                        None => {
                            proof {
                                lemma_path_shifted(full, pos as int, 2);
                            }
                            return Err(ConfigError::ExpectedPathSegment);
                        },
                    }
                } else if str_eq(key.as_str(), "thirtyfour") {
                    if pos + 1 >= n {
                        return Err(ConfigError::ExpectedAssignment);
                    }
                    if !token_is_punct(&tokens[pos + 1], '=') {
                        return Err(ConfigError::ExpectedAssignment);
                    }
                    match parse_path_value(tokens, pos + 2) {
                        Some(p) => {
                            proof {
                                lemma_path_shifted(full, pos as int, 2);
                            }
                            args.thirtyfour = p.0;
                            proof {
                                macc = ArgsModel { thirtyfour: path_model(win, 2), ..macc };
                            }
                            next_pos = p.1;
                        },
                        None => {
                            proof {
                                lemma_path_shifted(full, pos as int, 2);
                            }
                            return Err(ConfigError::ExpectedPathSegment);
                        },
                    }
                } else {
                    return Err(ConfigError::UnknownKey(key.clone()));
                }
            },
            _ => {
                return Err(ConfigError::ExpectedKey);
            },
        }
        if next_pos == n {
            return Ok(args);
        }
        if !token_is_punct(&tokens[next_pos], ',') {
            return Err(ConfigError::ExpectedComma);
        }
        proof {
            assert(win.skip(next_pos - pos + 1) =~= full.skip(next_pos + 1));
        }
        pos = next_pos + 1;
    }
    proof {
        assert(full.skip(n as int) =~= Seq::<Token>::empty());
    }
    Ok(args)
}

/// An empty option list yields the accumulated options unchanged: every
/// omitted key keeps its default.
pub proof fn lemma_empty_options_default(acc: ArgsModel)
    ensures
        spec_parse_args(Seq::<Token>::empty(), acc) == Ok::<ArgsModel, ConfigErrorModel>(acc),
{
}

/// An option list that starts with an unrecognized key is rejected, naming
/// that key, whatever follows it.
pub proof fn lemma_unknown_key_rejected(s: Seq<Token>, acc: ArgsModel)
    requires
        s.len() > 0,
        s[0] matches Token::Ident(_),
        ident_text(s[0]) != "check_concurrency_cli_option_when_firefox"@,
        ident_text(s[0]) != "cucumber"@,
        ident_text(s[0]) != "thirtyfour"@,
    ensures
        spec_parse_args(s, acc) == Err::<ArgsModel, ConfigErrorModel>(
            ConfigErrorModel::UnknownKey(ident_text(s[0])),
        ),
{
}

/// A repeated key takes its last value: two assignments to the boolean
/// option leave the second one in force, and the other options untouched.
pub proof fn lemma_duplicate_key_last_wins(
    k1: Token,
    eq1: Token,
    v1: Token,
    comma: Token,
    k2: Token,
    eq2: Token,
    v2: Token,
    acc: ArgsModel,
)
    requires
        k1.is_ident_named("check_concurrency_cli_option_when_firefox"@),
        k2.is_ident_named("check_concurrency_cli_option_when_firefox"@),
        eq1.is_punct_char('='),
        eq2.is_punct_char('='),
        comma.is_punct_char(','),
        v1.is_ident_named("true"@) || v1.is_ident_named("false"@),
        v2.is_ident_named("true"@) || v2.is_ident_named("false"@),
    ensures
        ({
            let s = seq![k1, eq1, v1, comma, k2, eq2, v2];
            spec_parse_args(s, acc) matches Ok(m) && m == ArgsModel {
                guard: v2.is_ident_named("true"@),
                ..acc
            }
        }),
{
    let s = seq![k1, eq1, v1, comma, k2, eq2, v2];
    assert("check_concurrency_cli_option_when_firefox"@.len() == 41 && "cucumber"@.len() == 8
        && "thirtyfour"@.len() == 10 && "true"@.len() == 4 && "false"@.len() == 5) by {
        reveal_strlit("check_concurrency_cli_option_when_firefox");
        reveal_strlit("cucumber");
        reveal_strlit("thirtyfour");
        reveal_strlit("true");
        reveal_strlit("false");
    }
    let tail = s.skip(4);
    assert(tail[0] == k2 && tail[1] == eq2 && tail[2] == v2);
    let after_first = ArgsModel { guard: v1.is_ident_named("true"@), ..acc };
    assert(spec_parse_args(s, acc) == spec_parse_rest(s, 3, after_first));
    assert(spec_parse_rest(s, 3, after_first) == spec_parse_args(tail, after_first));
    assert(spec_parse_args(tail, after_first) == spec_parse_rest(
        tail,
        3,
        ArgsModel { guard: v2.is_ident_named("true"@), ..after_first },
    ));
}

/// The path-tail reading in a suffix window agrees with the reading in the
/// whole sequence at the shifted position.
proof fn lemma_path_tail_shift(full: Seq<Token>, pos: int, j: int)
    requires
        0 <= pos <= full.len(),
        0 <= j,
    ensures
        path_tail_len(full.skip(pos), j) == path_tail_len(full, pos + j),
        path_tail_segments(full.skip(pos), j) == path_tail_segments(full, pos + j),
    decreases full.len() - (pos + j),
{
    let win = full.skip(pos);
    assert(forall|k: int| 0 <= k < win.len() ==> win[k] == full[pos + k]);
    if path_tail_step(win, j) {
        assert(path_tail_step(full, pos + j));
        lemma_path_tail_shift(full, pos, j + 3);
        assert(path_tail_segments(win, j) =~= path_tail_segments(full, pos + j));
    } else {
        assert(!path_tail_step(full, pos + j));
        assert(path_tail_segments(win, j) =~= path_tail_segments(full, pos + j));
    }
}

/// A path value read in a suffix window agrees with the reading in the whole
/// sequence at the shifted position: same form, same shifted end, same model.
proof fn lemma_path_shifted(full: Seq<Token>, pos: int, p: int)
    requires
        0 <= pos <= full.len(),
        0 <= p,
    ensures
        path_form(full, pos + p) == path_form(full.skip(pos), p),
        path_end(full, pos + p) - pos == path_end(full.skip(pos), p),
        !(path_form(full.skip(pos), p) is Invalid) ==> path_model(full, pos + p) == path_model(
            full.skip(pos),
            p,
        ),
{
    let win = full.skip(pos);
    assert(forall|k: int| 0 <= k < win.len() ==> win[k] == full[pos + k]);
    lemma_path_tail_shift(full, pos, path_first_end(win, p));
}

} // verus!
