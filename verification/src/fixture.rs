use vstd::prelude::*;

use crate::json::{
    json_document, json_elements, json_error_message, json_field, json_is_null, json_string_of,
    json_text_parses, parse_json, value_as_array, value_as_str, value_clone, value_get,
    value_is_null,
};
use crate::outcome::Failure;

verus! {

/// One test case: a game state to send to the service and the set of
/// acceptable moves. Identified by the path of the file it was loaded
/// from; immutable after load. The state is carried through opaquely and
/// forwarded to the service verbatim.
pub struct Fixture {
    pub path: String,
    pub state: serde_json::Value,
    pub expected: Vec<String>,
    pub description: Option<String>,
}

impl Fixture {
    /// A loaded fixture always names at least one acceptable move: a
    /// fixture with an empty expected set could never be satisfied and
    /// is rejected at parse time.
    pub open spec fn wf(&self) -> bool {
        self.expected@.len() > 0
    }
}

/// The expected move labels a fixture document holds, or None when its
/// `expected` field is missing or is not an array of strings.
pub open spec fn spec_fixture_labels(doc: serde_json::Value) -> Option<Seq<Seq<char>>> {
    match json_field(doc, "expected"@) {
        Option::None => Option::None,
        Option::Some(e) => match json_elements(e) {
            Option::None => Option::None,
            Option::Some(items) => if forall|i: int|
                0 <= i < items.len() ==> (#[trigger] json_string_of(items[i])) is Some {
                Option::Some(Seq::new(items.len(), |i: int| json_string_of(items[i])->0))
            } else {
                Option::None
            },
        },
    }
}

/// The description a fixture document holds: None when the field is
/// ill-typed, Some(None) when it is absent or null, and Some(Some(d))
/// when it is the string d.
pub open spec fn spec_fixture_description(doc: serde_json::Value) -> Option<Option<Seq<char>>> {
    match json_field(doc, "description"@) {
        Option::None => Option::Some(Option::None),
        Option::Some(d) => if json_is_null(d) {
            Option::Some(Option::None)
        } else {
            match json_string_of(d) {
                Option::Some(s) => Option::Some(Option::Some(s)),
                Option::None => Option::None,
            }
        },
    }
}

/// Whether a fixture file text is acceptable: well-formed JSON holding a
/// `state` field, an `expected` field that is a non-empty array of
/// strings, and a `description` that is absent, null or a string.
pub open spec fn spec_fixture_ok(text: Seq<char>) -> bool {
    &&& json_text_parses(text)
    &&& json_field(json_document(text), "state"@) is Some
    &&& (spec_fixture_labels(json_document(text)) matches Option::Some(labels) && labels.len()
        > 0)
    &&& spec_fixture_description(json_document(text)) is Some
}

/// Parse the text of one fixture file. Succeeds exactly when the text is
/// an acceptable fixture (see `spec_fixture_ok`), and then keeps the
/// given path as the fixture's identity, the `state` field verbatim, the
/// `expected` labels in order, and the description. Anything else is a
/// load failure scoped to this fixture.
#[verifier::loop_isolation(false)]
pub fn parse_fixture(path: String, text: &str) -> (r: Result<Fixture, Failure>)
    ensures
        r is Ok <==> spec_fixture_ok(text@),
        (r matches Result::Ok(f) ==> {
            &&& f.wf()
            &&& f.path@ == path@
            &&& Option::Some(f.state) == json_field(json_document(text@), "state"@)
            &&& Option::Some(f.expected.deep_view()) == spec_fixture_labels(
                json_document(text@),
            )
            &&& (match f.description {
                Option::Some(d) => spec_fixture_description(json_document(text@))
                    == Option::Some(Option::Some(d@)),
                Option::None => spec_fixture_description(json_document(text@)) == Option::Some(
                    Option::<Seq<char>>::None,
                ),
            })
        }),
        (r matches Result::Err(e) ==> e@ is Load),
{
    let doc = match parse_json(text) {
        Result::Ok(d) => d,
        Result::Err(e) => {
            return Result::Err(Failure::Load(json_error_message(&e)));
        },
    };
    let state = match value_get(&doc, "state") {
        Option::Some(s) => value_clone(s),
        Option::None => {
            return Result::Err(Failure::Load("fixture has no \"state\" field".to_owned()));
        },
    };
    let expected_value = match value_get(&doc, "expected") {
        Option::Some(e) => e,
        Option::None => {
            return Result::Err(Failure::Load("fixture has no \"expected\" field".to_owned()));
        },
    };
    let entries = match value_as_array(expected_value) {
        Option::Some(a) => a,
        Option::None => {
            return Result::Err(
                Failure::Load("fixture field \"expected\" is not an array".to_owned()),
            );
        },
    };
    let ghost items: Seq<serde_json::Value> = entries@;
    let mut expected: Vec<String> = Vec::new();
    let n = entries.len();
    let mut i: usize = 0;
    while i < n
        invariant
            n == entries@.len(),
            items == entries@,
            0 <= i <= n,
            expected@.len() == i,
            forall|k: int|
                0 <= k < i ==> (#[trigger] json_string_of(items[k])) == Option::Some(
                    expected.deep_view()[k],
                ),
        decreases n - i,
    {
        match value_as_str(&entries[i]) {
            Option::Some(label) => expected.push(label),
            Option::None => {
                proof {
                    assert(!(forall|k: int|
                        0 <= k < items.len() ==> (#[trigger] json_string_of(items[k]))
                            is Some)) by {
                        assert(!(json_string_of(items[i as int]) is Some));
                    }
                    assert(spec_fixture_labels(doc) is None);
                }
                return Result::Err(
                    Failure::Load(
                        "fixture field \"expected\" holds a non-string element".to_owned(),
                    ),
                );
            },
        }
        i += 1;
    }
    proof {
        assert(forall|k: int|
            0 <= k < items.len() ==> (#[trigger] json_string_of(items[k])) is Some);
        assert(expected.deep_view() =~= Seq::new(items.len(), |k: int| json_string_of(items[k])->0));
    }
    if expected.len() == 0 {
        return Result::Err(Failure::Load("fixture field \"expected\" is empty".to_owned()));
    }
    let description = match value_get(&doc, "description") {
        Option::Some(d) => {
            if value_is_null(d) {
                Option::None
            } else {
                match value_as_str(d) {
                    Option::Some(s) => Option::Some(s),
                    Option::None => {
                        return Result::Err(
                            Failure::Load(
                                "fixture field \"description\" is not a string or null".to_owned(),
                            ),
                        );
                    },
                }
            }
        },
        Option::None => Option::None,
    };
    Result::Ok(Fixture { path, state, expected, description })
}

} // verus!
