use vstd::prelude::*;
use vstd::string::StringExecFns;

use crate::outcome::{Failure, FailureModel, Outcome, OutcomeModel};
use crate::run::{RunEntry, RunEntryModel};

verus! {

/// The decimal digit character for one digit value.
pub open spec fn spec_digit(d: nat) -> char {
    if d == 0 {
        '0'
    } else if d == 1 {
        '1'
    } else if d == 2 {
        '2'
    } else if d == 3 {
        '3'
    } else if d == 4 {
        '4'
    } else if d == 5 {
        '5'
    } else if d == 6 {
        '6'
    } else if d == 7 {
        '7'
    } else if d == 8 {
        '8'
    } else {
        '9'
    }
}

/// The decimal rendering of a number, most significant digit first and
/// without leading zeros (zero itself renders as "0").
pub open spec fn spec_decimal(n: nat) -> Seq<char>
    decreases n,
{
    if n < 10 {
        seq![spec_digit(n)]
    } else {
        spec_decimal(n / 10).push(spec_digit(n % 10))
    }
}

/// Append the digit character for a single digit value.
fn append_digit(out: &mut String, d: u64)
    requires
        d < 10,
    ensures
        final(out)@ == old(out)@ + seq![spec_digit(d as nat)],
{
    proof {
        reveal_strlit("0");
        reveal_strlit("1");
        reveal_strlit("2");
        reveal_strlit("3");
        reveal_strlit("4");
        reveal_strlit("5");
        reveal_strlit("6");
        reveal_strlit("7");
        reveal_strlit("8");
        reveal_strlit("9");
    }
    if d == 0 {
        out.append("0");
    } else if d == 1 {
        out.append("1");
    } else if d == 2 {
        out.append("2");
    } else if d == 3 {
        out.append("3");
    } else if d == 4 {
        out.append("4");
    } else if d == 5 {
        out.append("5");
    } else if d == 6 {
        out.append("6");
    } else if d == 7 {
        out.append("7");
    } else if d == 8 {
        out.append("8");
    } else {
        out.append("9");
    }
    proof {
        assert(out@ =~= old(out)@ + seq![spec_digit(d as nat)]);
    }
}

/// Append the decimal rendering of a number.
pub fn append_decimal(out: &mut String, n: u64)
    ensures
        final(out)@ == old(out)@ + spec_decimal(n as nat),
    decreases n,
{
    if n >= 10 {
        append_decimal(out, n / 10);
    }
    append_digit(out, n % 10);
    proof {
        if n < 10 {
            assert(n % 10 == n as nat);
            assert(out@ =~= old(out)@ + spec_decimal(n as nat));
        } else {
            assert(spec_decimal(n as nat) == spec_decimal(n as nat / 10).push(
                spec_digit(n as nat % 10),
            ));
            assert((n / 10) as nat == n as nat / 10);
            assert((n % 10) as nat == n as nat % 10);
            assert(out@ =~= old(out)@ + spec_decimal(n as nat));
        }
    }
}

/// The decimal rendering of a number as a fresh string.
pub fn decimal_string(n: u64) -> (s: String)
    ensures
        s@ == spec_decimal(n as nat),
{
    let mut s = String::new();
    append_decimal(&mut s, n);
    proof {
        assert(s@ =~= spec_decimal(n as nat));
    }
    s
}

/// The summary line of a run: how many fixtures passed out of how many.
pub open spec fn spec_summary_line(passed: nat, total: nat) -> Seq<char> {
    spec_decimal(passed) + " out of "@ + spec_decimal(total) + " tests passed"@
}

/// Render the summary line of a run.
pub fn summary_line(passed: usize, total: usize) -> (s: String)
    ensures
        s@ == spec_summary_line(passed as nat, total as nat),
{
    let mut s = String::new();
    append_decimal(&mut s, passed as u64);
    s.append(" out of ");
    append_decimal(&mut s, total as u64);
    s.append(" tests passed");
    proof {
        assert(s@ =~= spec_summary_line(passed as nat, total as nat));
    }
    s
}

/// A label wrapped in double quotes.
pub open spec fn spec_quoted(s: Seq<char>) -> Seq<char> {
    "\""@ + s + "\""@
}

/// The labels of a set, each wrapped in double quotes, joined by a comma
/// and a space.
pub open spec fn spec_quoted_list(items: Seq<Seq<char>>) -> Seq<char>
    decreases items.len(),
{
    if items.len() == 0 {
        Seq::<char>::empty()
    } else if items.len() == 1 {
        spec_quoted(items[0])
    } else {
        spec_quoted_list(items.drop_last()) + ", "@ + spec_quoted(items.last())
    }
}

/// Append a label wrapped in double quotes.
fn append_quoted(out: &mut String, s: &String)
    ensures
        final(out)@ == old(out)@ + spec_quoted(s@),
{
    out.append("\"");
    out.append(s.as_str());
    out.append("\"");
    proof {
        assert(out@ =~= old(out)@ + spec_quoted(s@));
    }
}

/// Append every label of a set, quoted and comma-joined.
fn append_quoted_list(out: &mut String, items: &Vec<String>)
    ensures
        final(out)@ == old(out)@ + spec_quoted_list(items.deep_view()),
{
    let ghost orig: Seq<char> = out@;
    let ghost model: Seq<Seq<char>> = items.deep_view();
    let n = items.len();
    let mut i: usize = 0;
    while i < n
        invariant
            n == items@.len(),
            model == items.deep_view(),
            0 <= i <= n,
            out@ == orig + spec_quoted_list(model.take(i as int)),
        decreases n - i,
    {
        if i > 0 {
            out.append(", ");
        }
        append_quoted(out, &items[i]);
        proof {
            assert(model.take(i + 1).drop_last() =~= model.take(i as int));
            assert(model.take(i + 1).last() == model[i as int]);
            assert(model[i as int] == items[i as int]@);
            assert(out@ =~= orig + spec_quoted_list(model.take(i + 1)));
        }
        i += 1;
    }
    proof {
        assert(model.take(n as int) =~= model);
    }
}

/// The human-readable detail of one failure: load, transport and decode
/// failures carry their own detail message, and an HTTP failure names
/// the status code the service answered with.
pub open spec fn spec_failure_detail(f: FailureModel) -> Seq<char> {
    match f {
        FailureModel::Load(d) => d,
        FailureModel::Transport(d) => d,
        FailureModel::Decode(d) => d,
        FailureModel::Http(status) => "HTTP status "@ + spec_decimal(status as nat),
    }
}

/// Render the detail of one failure.
pub fn failure_detail(f: &Failure) -> (r: String)
    ensures
        r@ == spec_failure_detail(f@),
{
    match f {
        Failure::Load(d) => d.clone(),
        Failure::Transport(d) => d.clone(),
        Failure::Decode(d) => d.clone(),
        Failure::Http(status) => {
            let mut s = "HTTP status ".to_owned();
            append_decimal(&mut s, *status as u64);
            s
        },
    }
}

/// The reason line of a non-passing outcome: a wrong move names the
/// expected set (kept whole) and the actual move, and an error carries
/// its failure detail. A `Correct` outcome has no reason; its rendering
/// is the empty text.
pub open spec fn spec_reason(o: OutcomeModel) -> Seq<char> {
    match o {
        OutcomeModel::Correct => Seq::<char>::empty(),
        OutcomeModel::Incorrect(expected, actual) => if expected.len() == 1 {
            "Moved in the Wrong Direction: Should have moved "@ + spec_quoted(expected[0])
                + " but moved "@ + spec_quoted(actual)
        } else {
            "Moved in the Wrong Direction: Should have moved in one of ["@ + spec_quoted_list(
                expected,
            ) + "] but moved "@ + spec_quoted(actual)
        },
        OutcomeModel::Errored(f) => "Error "@ + spec_failure_detail(f),
    }
}

/// Render the reason for a non-passing outcome; a passing outcome has
/// none.
pub fn failure_reason(o: &Outcome) -> (r: Option<String>)
    ensures
        r is Some <==> !(o@ is Correct),
        (r matches Option::Some(s) ==> s@ == spec_reason(o@)),
{
    match o {
        Outcome::Correct => Option::None,
        Outcome::Incorrect(expected, actual) => {
            if expected.len() == 1 {
                let mut s = "Moved in the Wrong Direction: Should have moved ".to_owned();
                append_quoted(&mut s, &expected[0]);
                s.append(" but moved ");
                append_quoted(&mut s, actual);
                proof {
                    assert(expected.deep_view()[0] == expected[0int]@);
                    assert(s@ =~= spec_reason(o@));
                }
                Option::Some(s)
            } else {
                let mut s = "Moved in the Wrong Direction: Should have moved in one of ["
                    .to_owned();
                append_quoted_list(&mut s, expected);
                s.append("] but moved ");
                append_quoted(&mut s, actual);
                proof {
                    assert(s@ =~= spec_reason(o@));
                }
                Option::Some(s)
            }
        },
        Outcome::Errored(f) => {
            let mut s = "Error ".to_owned();
            let detail = failure_detail(f);
            s.append(detail.as_str());
            Option::Some(s)
        },
    }
}

/// The diagnostic block of one non-passing fixture: its path, its
/// description when it has one, and the reason it did not pass.
pub open spec fn spec_failure_block(e: RunEntryModel) -> Seq<char> {
    "Failure on test: "@ + e.path + "\n"@ + (match e.description {
        Option::Some(d) => "Description: "@ + d + " \n"@,
        Option::None => Seq::<char>::empty(),
    }) + "Reason: "@ + spec_reason(e.outcome) + "\n\n"@
}

/// Render the diagnostic block for a recorded result; a passing fixture
/// has none.
pub fn failure_block(entry: &RunEntry) -> (r: Option<String>)
    ensures
        r is Some <==> !(entry@.outcome is Correct),
        (r matches Option::Some(s) ==> s@ == spec_failure_block(entry@)),
{
    match failure_reason(&entry.outcome) {
        Option::None => Option::None,
        Option::Some(reason) => {
            let mut s = "Failure on test: ".to_owned();
            s.append(entry.path.as_str());
            s.append("\n");
            match &entry.description {
                Option::Some(d) => {
                    s.append("Description: ");
                    s.append(d.as_str());
                    s.append(" \n");
                },
                Option::None => {},
            }
            s.append("Reason: ");
            s.append(reason.as_str());
            s.append("\n\n");
            proof {
                assert(s@ =~= spec_failure_block(entry@));
            }
            Option::Some(s)
        },
    }
}

} // verus!
