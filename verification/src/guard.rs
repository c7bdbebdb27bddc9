//! The concurrency guard required when the Firefox backend is selected:
//! geckodriver admits a single session, so the process's own command line
//! must limit concurrency to one.
//!
//! The scan is a pure function over an explicit argument sequence, left to
//! right, stopping at the first recognized form: `--concurrency <value>`,
//! `-c <value>`, `--concurrency=<value>` or `-c=<value>`. A value attached to
//! a recognized flag that does not parse as a number is tolerated rather than
//! rejected.

use vstd::prelude::*;
use crate::text::{
    str_eq,
    str_starts_with,
    starts_with,
    parse_u32,
    all_dec_digits,
    dec_value,
    index_of_char,
    lemma_index_of_char_is,
    find_char_from,
    lemma_index_of_char,
};

verus! {

/// Why the concurrency policy was not satisfied.
#[derive(Clone, Copy, PartialEq, Eq, Structural, Debug)]
pub enum ConcurrencyViolation {
    /// A concurrency flag was found with a numeric value other than one.
    LimitExceeded,
    /// No concurrency flag was found at all.
    FlagMissing,
}

/// The value with an optional leading `+` removed, as unsigned parsing
/// accepts one.
pub open spec fn plus_stripped(v: Seq<char>) -> Seq<char> {
    if v.len() > 0 && v[0] == '+' {
        v.skip(1)
    } else {
        v
    }
}

/// The argument carries a numeric value: after an optional leading `+`,
/// non-empty, all decimal digits, and within `u32` range. Anything else is
/// tolerated by the scan.
pub open spec fn parses_numeric(v: Seq<char>) -> bool {
    let b = plus_stripped(v);
    b.len() > 0 && all_dec_digits(b) && dec_value(b) <= u32::MAX
}

/// The number an argument carries, when it is numeric.
pub open spec fn numeric_value(v: Seq<char>) -> nat
    recommends
        parses_numeric(v),
{
    dec_value(plus_stripped(v))
}

/// The value attached to a `flag=value` argument: the text between the first
/// `=` and the following `=` (or the end).
pub open spec fn attached_value(a: Seq<char>) -> Seq<char> {
    let rest = a.skip(index_of_char(a, '=') + 1);
    rest.take(index_of_char(rest, '='))
}

/// The flag itself, without a value: `--concurrency` or `-c`.
pub open spec fn is_bare_flag(a: Seq<char>) -> bool {
    a == "--concurrency"@ || a == "-c"@
}

/// A flag with an attached value: `--concurrency=...` or `-c=...`.
pub open spec fn is_attached_flag(a: Seq<char>) -> bool {
    starts_with(a, "--concurrency="@) || starts_with(a, "-c="@)
}

/// A value violates the policy when it is numeric and differs from one.
pub open spec fn value_violates(v: Seq<char>) -> bool {
    parses_numeric(v) && numeric_value(v) != 1
}

/// The left-to-right scan of the argument list. `reading` records that the
/// previous argument was a bare flag, so the current one is its value.
pub open spec fn guard_scan(args: Seq<Seq<char>>, reading: bool) -> Result<
    (),
    ConcurrencyViolation,
>
    decreases args.len(),
{
    if args.len() == 0 {
        Err(ConcurrencyViolation::FlagMissing)
    } else if is_bare_flag(args[0]) {
        guard_scan(args.drop_first(), true)
    } else if is_attached_flag(args[0]) {
        if value_violates(attached_value(args[0])) {
            Err(ConcurrencyViolation::LimitExceeded)
        } else {
            Ok(())
        }
    } else if reading {
        if value_violates(args[0]) {
            Err(ConcurrencyViolation::LimitExceeded)
        } else {
            Ok(())
        }
    } else {
        guard_scan(args.drop_first(), reading)
    }
}

/// Extracts the value attached to a `flag=value` argument.
fn attached_value_str(a: &str) -> (r: String)
    requires
        index_of_char(a@, '=') < a@.len(),
    ensures
        r@ == attached_value(a@),
{
    let n = a.unicode_len();
    let e1 = find_char_from(a, 0, '=');
    proof {
        lemma_index_of_char_is(a@, '=', e1 as int);
        assert(e1 < n);
    }
    let e2 = find_char_from(a, e1 + 1, '=');
    let ghost rest = a@.skip(e1 + 1);
    proof {
        assert(forall|t: int| 0 <= t < rest.len() ==> rest[t] == a@[t + e1 + 1]);
        lemma_index_of_char_is(rest, '=', e2 - (e1 + 1));
    }
    let v = a.substring_char(e1 + 1, e2);
    proof {
        assert(v@ =~= attached_value(a@));
    }
    String::from_str(v)
}

/// Decides whether a value string violates the single-session policy.
fn value_violates_check(v: &str) -> (r: bool)
    ensures
        r == value_violates(v@),
{
    let n = v.unicode_len();
    let body = if n > 0 && v.get_char(0) == '+' {
        v.substring_char(1, n)
    } else {
        v
    };
    proof {
        assert(body@ =~= plus_stripped(v@));
    }
    match parse_u32(body) {
        Some(x) => x != 1,
        None => false,
    }
}

/// Scans the process arguments for the concurrency flag and checks its
/// value: the result is exactly what the left-to-right scan yields.
pub fn check_concurrency_args(args: &Vec<String>) -> (r: Result<(), ConcurrencyViolation>)
    ensures
        r == guard_scan(args.deep_view(), false),
{
    let ghost dv = args.deep_view();
    let n = args.len();
    proof {
        assert(dv.len() == n);
    }
    let mut i: usize = 0;
    let mut reading = false;
    proof {
        assert(dv.skip(0) =~= dv);
    }
    while i < n
        invariant
            dv == args.deep_view(),
            dv.len() == n,
            n == args@.len(),
            i <= n,
            guard_scan(dv, false) == guard_scan(dv.skip(i as int), reading),
        decreases n - i,
    {
        let a = &args[i];
        proof {
            assert(dv[i as int] == a@);
            assert(dv.skip(i as int)[0] == a@);
            assert(dv.skip(i as int).drop_first() =~= dv.skip(i + 1));
        }
        let bare_long = str_eq(a.as_str(), "--concurrency");
        let bare_short = str_eq(a.as_str(), "-c");
        if bare_long || bare_short {
            reading = true;
        } else {
            let attached_long = str_starts_with(a.as_str(), "--concurrency=");
            let attached_short = str_starts_with(a.as_str(), "-c=");
            if attached_long || attached_short {
                proof {
                    reveal_strlit("--concurrency=");
                    reveal_strlit("-c=");
                    lemma_index_of_char(a@, '=');
                    if starts_with(a@, "--concurrency="@) {
                        assert(a@.subrange(0, 14)[13] == a@[13]);
                        assert(a@[13] == '=');
                    } else {
                        assert(a@.subrange(0, 3)[2] == a@[2]);
                        assert(a@[2] == '=');
                    }
                }
                let v = attached_value_str(a.as_str());
                if value_violates_check(v.as_str()) {
                    return Err(ConcurrencyViolation::LimitExceeded);
                }
                return Ok(());
            } else if reading {
                if value_violates_check(a.as_str()) {
                    return Err(ConcurrencyViolation::LimitExceeded);
                }
                return Ok(());
            }
        }
        i = i + 1;
    }
    proof {
        assert(dv.skip(n as int) =~= Seq::<Seq<char>>::empty());
    }
    Err(ConcurrencyViolation::FlagMissing)
}

/// The message given when the concurrency policy is violated or the flag is
/// absent: it names the geckodriver limitation and the flag to pass.
pub open spec fn concurrency_violation_message() -> Seq<char> {
    "The driver geckodriver requires --concurrency or -c option to be set to 1 because geckodriver does not allows multiple sessions in parallel. Pass --concurrency=1 or -c 1 to the test command, like `cargo test --test <test-name> -- --concurrency=1`."@
}

impl ConcurrencyViolation {
    /// Renders the violation as its descriptive message.
    pub fn message(&self) -> (r: String)
        ensures
            r@ == concurrency_violation_message(),
    {
        String::from_str(
            "The driver geckodriver requires --concurrency or -c option to be set to 1 because geckodriver does not allows multiple sessions in parallel. Pass --concurrency=1 or -c 1 to the test command, like `cargo test --test <test-name> -- --concurrency=1`.",
        )
    }
}

} // verus!
