use vstd::prelude::*;

use crate::classify::spec_classify;
use crate::outcome::{Failure, FailureModel, Outcome, OutcomeModel};

verus! {

/// One fixture's per-run event, at the level the run model reasons about:
/// the fixture failed to load, the request failed in transport, or the
/// service responded with some status and a body whose decoding either
/// produced a move label or failed with a detail message.
pub enum EventModel {
    LoadError(Seq<char>),
    TransportError(Seq<char>),
    Response { status: u16, decoded: Result<Seq<char>, Seq<char>> },
}

/// One fixture case in the run model: its expected move set and the event
/// the run produced for it.
pub struct CaseModel {
    pub expected: Seq<Seq<char>>,
    pub event: EventModel,
}

/// An HTTP status code counts as success exactly when it lies in the
/// 200..=299 range.
pub open spec fn spec_status_success(status: u16) -> bool {
    200 <= status < 300
}

/// Decide whether an HTTP status code is a success status.
pub fn status_success(status: u16) -> (b: bool)
    ensures
        b == spec_status_success(status),
{
    200 <= status && status < 300
}

/// How one fixture resolves, as a function of its expected set and its
/// event: each failure stage becomes the matching `Errored` outcome, and
/// a successfully decoded move is classified against the expected set.
pub open spec fn spec_resolve(expected: Seq<Seq<char>>, event: EventModel) -> OutcomeModel {
    match event {
        EventModel::LoadError(d) => OutcomeModel::Errored(FailureModel::Load(d)),
        EventModel::TransportError(d) => OutcomeModel::Errored(FailureModel::Transport(d)),
        EventModel::Response { status, decoded } => if !spec_status_success(status) {
            OutcomeModel::Errored(FailureModel::Http(status))
        } else {
            match decoded {
                Result::Err(d) => OutcomeModel::Errored(FailureModel::Decode(d)),
                Result::Ok(label) => spec_classify(expected, label),
            }
        },
    }
}

/// The whole run: each case resolves independently, in order.
pub open spec fn spec_run(cases: Seq<CaseModel>) -> Seq<OutcomeModel> {
    cases.map_values(|c: CaseModel| spec_resolve(c.expected, c.event))
}

/// Wrap a fixture that could not be loaded into its outcome. A load
/// failure resolves the fixture the same way whatever its expected set.
pub fn resolve_load_error(detail: String) -> (r: Outcome)
    ensures
        r@ == OutcomeModel::Errored(FailureModel::Load(detail@)),
        forall|expected: Seq<Seq<char>>| r@ == spec_resolve(
            expected,
            EventModel::LoadError(detail@),
        ),
{
    Outcome::Errored(Failure::Load(detail))
}

/// Aggregator isolation: if two runs differ in at most one case, every
/// other case resolves identically — whatever happened to the differing
/// case, including any load, transport, HTTP or decode failure — and both
/// runs still resolve every case.
pub proof fn lemma_isolation(cases: Seq<CaseModel>, other: Seq<CaseModel>, j: int)
    requires
        cases.len() == other.len(),
        0 <= j < cases.len(),
        forall|i: int| 0 <= i < cases.len() && i != j ==> cases[i] == other[i],
    ensures
        spec_run(cases).len() == cases.len(),
        spec_run(other).len() == cases.len(),
        forall|i: int| 0 <= i < cases.len() && i != j ==> spec_run(cases)[i] == spec_run(
            other,
        )[i],
{
}

/// Idempotence: the outcome list is a function of the fixture cases and
/// the service's events alone, so two runs over the same cases yield
/// identical outcome lists.
pub proof fn lemma_run_deterministic(
    cases: Seq<CaseModel>,
    first: Seq<OutcomeModel>,
    second: Seq<OutcomeModel>,
)
    requires
        first == spec_run(cases),
        second == spec_run(cases),
    ensures
        first == second,
{
}

/// An empty fixture set resolves to an empty outcome list: zero passed of
/// zero total, and vacuously every outcome is correct, so the run counts
/// as a success.
pub proof fn lemma_empty_run()
    ensures
        spec_run(Seq::<CaseModel>::empty()) =~= Seq::<OutcomeModel>::empty(),
        spec_passed(Seq::<OutcomeModel>::empty()) == 0,
        spec_passed(Seq::<OutcomeModel>::empty()) == Seq::<OutcomeModel>::empty().len(),
{
}

/// How many outcomes in a list are `Correct`.
pub open spec fn spec_passed(outcomes: Seq<OutcomeModel>) -> nat
    decreases outcomes.len(),
{
    if outcomes.len() == 0 {
        0
    } else {
        spec_passed(outcomes.drop_last()) + (if outcomes.last() is Correct {
            1nat
        } else {
            0nat
        })
    }
}

/// The passed count never exceeds the total, and equals it exactly when
/// every outcome is `Correct`.
pub proof fn lemma_passed_bounds(outcomes: Seq<OutcomeModel>)
    ensures
        spec_passed(outcomes) <= outcomes.len(),
        spec_passed(outcomes) == outcomes.len() <==> (forall|i: int|
            0 <= i < outcomes.len() ==> outcomes[i] is Correct),
    decreases outcomes.len(),
{
    if outcomes.len() == 0 {
    } else {
        let rest = outcomes.drop_last();
        lemma_passed_bounds(rest);
        assert(forall|i: int| 0 <= i < rest.len() ==> rest[i] == outcomes[i]);
        if spec_passed(outcomes) == outcomes.len() {
            assert(spec_passed(rest) == rest.len());
            assert(outcomes.last() is Correct);
            assert(forall|i: int| 0 <= i < outcomes.len() ==> outcomes[i] is Correct) by {
                assert(forall|i: int| 0 <= i < rest.len() ==> outcomes[i] == rest[i]);
            }
        }
        if forall|i: int| 0 <= i < outcomes.len() ==> outcomes[i] is Correct {
            assert(forall|i: int| 0 <= i < rest.len() ==> rest[i] is Correct);
            assert(spec_passed(rest) == rest.len());
            assert(outcomes.last() is Correct);
        }
    }
}

/// One recorded fixture result: the fixture's identity (its path), its
/// optional description, and its resolved outcome.
#[derive(Debug, Clone, PartialEq, Eq)]
pub struct RunEntry {
    pub path: String,
    pub description: Option<String>,
    pub outcome: Outcome,
}

/// Model of a recorded fixture result.
pub struct RunEntryModel {
    pub path: Seq<char>,
    pub description: Option<Seq<char>>,
    pub outcome: OutcomeModel,
}

impl View for RunEntry {
    type V = RunEntryModel;

    open spec fn view(&self) -> RunEntryModel {
        RunEntryModel {
            path: self.path@,
            description: match self.description {
                Option::Some(ref d) => Option::Some(d@),
                Option::None => Option::None,
            },
            outcome: self.outcome@,
        }
    }
}

impl DeepView for RunEntry {
    type V = RunEntryModel;

    open spec fn deep_view(&self) -> RunEntryModel {
        self.view()
    }
}

/// The outcomes of a list of recorded results, in order.
pub open spec fn outcomes_of(entries: Seq<RunEntryModel>) -> Seq<OutcomeModel> {
    entries.map_values(|e: RunEntryModel| e.outcome)
}

/// The accumulating state of one run: the ordered list of resolved
/// fixture results. Results are only ever appended, one per fixture, so a
/// fixture never transitions more than once and no resolution disturbs an
/// earlier one.
pub struct Run {
    results: Vec<RunEntry>,
}

impl View for Run {
    type V = Seq<RunEntryModel>;

    closed spec fn view(&self) -> Seq<RunEntryModel> {
        self.results.deep_view()
    }
}

impl Run {
    /// Start a run with no fixture resolved yet.
    pub fn new() -> (r: Run)
        ensures
            r@ =~= Seq::<RunEntryModel>::empty(),
    {
        Run { results: Vec::new() }
    }

    /// Record one fixture's terminal resolution. The new state is exactly
    /// the old list with this entry appended: earlier results are
    /// untouched, which is the aggregator's isolation invariant.
    pub fn record(&mut self, entry: RunEntry)
        ensures
            final(self)@ =~= old(self)@.push(entry@),
    {
        self.results.push(entry);
    }

    /// How many fixtures have been resolved.
    pub fn total(&self) -> (n: usize)
        ensures
            n == self@.len(),
    {
        self.results.len()
    }

    /// How many fixtures resolved `Correct`.
    pub fn passed(&self) -> (n: usize)
        ensures
            n == spec_passed(outcomes_of(self@)),
    {
        let ghost all: Seq<OutcomeModel> = outcomes_of(self@);
        let len = self.results.len();
        let mut count: usize = 0;
        let mut i: usize = 0;
        while i < len
            invariant
                len == self@.len(),
                all == outcomes_of(self@),
                0 <= i <= len,
                count <= i,
                count == spec_passed(all.take(i as int)),
            decreases len - i,
        {
            proof {
                assert(all.take(i + 1).drop_last() =~= all.take(i as int));
                assert(all.take(i + 1).last() == self@[i as int].outcome);
            }
            if let Outcome::Correct = self.results[i].outcome {
                count = count + 1;
            }
            i += 1;
        }
        proof {
            assert(all.take(len as int) =~= all);
        }
        count
    }

    /// Whether every resolved fixture passed. True exactly when the
    /// passed count equals the total, in particular vacuously true of an
    /// empty run.
    pub fn all_passed(&self) -> (b: bool)
        ensures
            b == (spec_passed(outcomes_of(self@)) == self@.len()),
            b == (forall|i: int| 0 <= i < self@.len() ==> self@[i].outcome is Correct),
    {
        proof {
            let oc = outcomes_of(self@);
            lemma_passed_bounds(oc);
            assert(oc.len() == self@.len());
            if forall|i: int| 0 <= i < oc.len() ==> oc[i] is Correct {
                assert forall|i: int| 0 <= i < self@.len() implies self@[i].outcome is Correct by {
                    assert(oc[i] is Correct);
                }
            }
            if forall|i: int| 0 <= i < self@.len() ==> self@[i].outcome is Correct {
                assert forall|i: int| 0 <= i < oc.len() implies oc[i] is Correct by {
                    assert(self@[i].outcome is Correct);
                }
            }
        }
        self.passed() == self.total()
    }

    /// The process exit code the run signals to its caller: 0 exactly
    /// when every fixture passed, 1 otherwise.
    pub fn exit_code(&self) -> (c: i32)
        ensures
            c == 0 || c == 1,
            (c == 0) == (spec_passed(outcomes_of(self@)) == self@.len()),
    {
        if self.all_passed() {
            0
        } else {
            1
        }
    }

    /// The recorded results, in resolution order.
    pub fn results(&self) -> (r: &Vec<RunEntry>)
        ensures
            r.deep_view() == self@,
    {
        &self.results
    }
}

} // verus!
