use vstd::prelude::*;

verus! {

/// A failure at one stage of running a single fixture. Each variant is
/// scoped to that one fixture and never aborts the whole run.
#[derive(Debug, Clone, PartialEq, Eq)]
pub enum Failure {
    /// Fixture file unreadable or malformed; carries a detail message.
    Load(String),
    /// Network-level failure reaching the service; carries a detail message.
    Transport(String),
    /// The service answered with a non-success status code.
    Http(u16),
    /// The service's response body did not parse as a move response.
    Decode(String),
}

/// Every fixture resolves to exactly one outcome: the service moved
/// correctly, the service moved in a direction outside the expected set,
/// or some stage of the run failed before a move could be compared.
#[derive(Debug, Clone, PartialEq, Eq)]
pub enum Outcome {
    Correct,
    /// The full expected set and the actual label, both preserved for
    /// diagnostic rendering.
    Incorrect(Vec<String>, String),
    Errored(Failure),
}

/// Mathematical model of a `Failure`: the same variants over character
/// sequences.
pub enum FailureModel {
    Load(Seq<char>),
    Transport(Seq<char>),
    Http(u16),
    Decode(Seq<char>),
}

/// Mathematical model of an `Outcome`.
pub enum OutcomeModel {
    Correct,
    Incorrect(Seq<Seq<char>>, Seq<char>),
    Errored(FailureModel),
}

impl View for Failure {
    type V = FailureModel;

    open spec fn view(&self) -> FailureModel {
        match self {
            Failure::Load(d) => FailureModel::Load(d@),
            Failure::Transport(d) => FailureModel::Transport(d@),
            Failure::Http(s) => FailureModel::Http(*s),
            Failure::Decode(d) => FailureModel::Decode(d@),
        }
    }
}

impl View for Outcome {
    type V = OutcomeModel;

    open spec fn view(&self) -> OutcomeModel {
        match self {
            Outcome::Correct => OutcomeModel::Correct,
            Outcome::Incorrect(expected, actual) => OutcomeModel::Incorrect(
                expected.deep_view(),
                actual@,
            ),
            Outcome::Errored(f) => OutcomeModel::Errored(f@),
        }
    }
}

} // verus!
