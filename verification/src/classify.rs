use vstd::prelude::*;

use crate::outcome::{Outcome, OutcomeModel};

verus! {

/// What the classifier decides for one returned move label: `Correct`
/// exactly when the label is a member of the expected set (exact,
/// case-sensitive string equality), and otherwise `Incorrect` carrying
/// the complete expected set and the exact actual label.
pub open spec fn spec_classify(expected: Seq<Seq<char>>, actual: Seq<char>) -> OutcomeModel {
    if expected.contains(actual) {
        OutcomeModel::Correct
    } else {
        OutcomeModel::Incorrect(expected, actual)
    }
}

/// A returned move is classified `Correct` if and only if it is a member
/// of the expected set.
pub proof fn lemma_correct_iff_member(expected: Seq<Seq<char>>, actual: Seq<char>)
    ensures
        spec_classify(expected, actual) is Correct <==> expected.contains(actual),
{
}

/// A returned move outside the expected set is classified `Incorrect`,
/// and the classification preserves the complete expected set and the
/// exact actual label.
pub proof fn lemma_mismatch_preserves_expected(expected: Seq<Seq<char>>, actual: Seq<char>)
    requires
        !expected.contains(actual),
    ensures
        spec_classify(expected, actual) == OutcomeModel::Incorrect(expected, actual),
{
}

/// Compare the service's returned move label against the fixture's
/// expected set and produce the typed outcome. Pure: no side effects.
pub fn classify(expected: &Vec<String>, actual: &String) -> (r: Outcome)
    ensures
        r@ == spec_classify(expected.deep_view(), actual@),
{
    let ghost model: Seq<Seq<char>> = expected.deep_view();
    let n = expected.len();
    let mut i: usize = 0;
    while i < n
        invariant
            n == expected.len(),
            0 <= i <= n,
            model == expected.deep_view(),
            forall|k: int| 0 <= k < i ==> model[k] != actual@,
        decreases n - i,
    {
        if expected[i] == *actual {
            proof {
                assert(model[i as int] == actual@);
            }
            return Outcome::Correct;
        }
        i += 1;
    }
    proof {
        assert(!model.contains(actual@));
    }
    Outcome::Incorrect(expected.clone(), actual.clone())
}

} // verus!
