use vstd::prelude::*;

use crate::classify::{classify, spec_classify};
use crate::json::{
    json_document, json_error_message, json_field, json_is_null, json_string_of,
    json_text_parses, parse_json, value_as_str, value_get, value_is_null,
};
use crate::outcome::{Failure, FailureModel, Outcome, OutcomeModel};
use crate::run::{spec_status_success, status_success};

verus! {

/// What one HTTP round trip to the service came to, as the library
/// receives it: either the transport failed with a detail message, or
/// the service answered with a status code and a response body.
pub enum Attempt {
    TransportError(String),
    Response { status: u16, body: String },
}

/// Mathematical model of an `Attempt`.
pub enum AttemptModel {
    TransportError(Seq<char>),
    Response { status: u16, body: Seq<char> },
}

impl View for Attempt {
    type V = AttemptModel;

    open spec fn view(&self) -> AttemptModel {
        match self {
            Attempt::TransportError(d) => AttemptModel::TransportError(d@),
            Attempt::Response { status, body } => (AttemptModel::Response {
                status: *status,
                body: body@,
            }),
        }
    }
}

/// Whether a response document's `shout` field is acceptable: the field
/// may be absent, null, or a string, and is otherwise a decode failure.
/// An absent `shout` defaults to no shout at all.
pub open spec fn spec_shout_ok(doc: serde_json::Value) -> bool {
    match json_field(doc, "shout"@) {
        Option::None => true,
        Option::Some(sh) => json_is_null(sh) || json_string_of(sh) is Some,
    }
}

/// The move label a response body decodes to, or None when the body is
/// not a well-formed move response: the body must be well-formed JSON,
/// an object with a string field `move`, and its `shout` field, when
/// present, must be a string or null.
pub open spec fn spec_move_label(body: Seq<char>) -> Option<Seq<char>> {
    if !json_text_parses(body) {
        Option::None
    } else {
        let doc = json_document(body);
        match json_field(doc, "move"@) {
            Option::None => Option::None,
            Option::Some(mv) => match json_string_of(mv) {
                Option::None => Option::None,
                Option::Some(label) => if spec_shout_ok(doc) {
                    Option::Some(label)
                } else {
                    Option::None
                },
            },
        }
    }
}

/// Decode a service response body into the returned move label. Succeeds
/// exactly when the body is a well-formed move response, and then
/// returns exactly its `move` field; any other body fails with a detail
/// message.
pub fn decode_move(body: &str) -> (r: Result<String, String>)
    ensures
        r is Ok <==> spec_move_label(body@) is Some,
        (r matches Result::Ok(l) ==> spec_move_label(body@) == Option::Some(l@)),
{
    let doc = match parse_json(body) {
        Result::Ok(d) => d,
        Result::Err(e) => {
            return Result::Err(json_error_message(&e));
        },
    };
    let mv = match value_get(&doc, "move") {
        Option::Some(m) => m,
        Option::None => {
            return Result::Err("response has no \"move\" field".to_owned());
        },
    };
    let label = match value_as_str(mv) {
        Option::Some(s) => s,
        Option::None => {
            return Result::Err("response field \"move\" is not a string".to_owned());
        },
    };
    match value_get(&doc, "shout") {
        Option::Some(sh) => {
            if !value_is_null(sh) && value_as_str(sh).is_none() {
                return Result::Err("response field \"shout\" is not a string or null".to_owned());
            }
        },
        Option::None => {},
    }
    Result::Ok(label)
}

/// Resolve one fixture from its HTTP attempt: a transport failure and a
/// non-success status become the matching `Errored` outcomes; on a
/// success status a body that decodes to a move label is classified
/// against the expected set, and any other body becomes a decode
/// failure.
pub fn outcome_of_attempt(expected: &Vec<String>, attempt: &Attempt) -> (r: Outcome)
    ensures
        (attempt@ matches AttemptModel::TransportError(d) ==> r@ == OutcomeModel::Errored(
            FailureModel::Transport(d),
        )),
        (attempt@ matches AttemptModel::Response { status, body } ==> {
            &&& !spec_status_success(status) ==> r@ == OutcomeModel::Errored(
                FailureModel::Http(status),
            )
            &&& spec_status_success(status) ==> (match spec_move_label(body) {
                Option::Some(label) => r@ == spec_classify(expected.deep_view(), label),
                Option::None => (r@ matches OutcomeModel::Errored(FailureModel::Decode(_))),
            })
        }),
{
    match attempt {
        Attempt::TransportError(d) => Outcome::Errored(Failure::Transport(d.clone())),
        Attempt::Response { status, body } => {
            if !status_success(*status) {
                Outcome::Errored(Failure::Http(*status))
            } else {
                match decode_move(body.as_str()) {
                    Result::Ok(label) => classify(expected, &label),
                    Result::Err(d) => Outcome::Errored(Failure::Decode(d.clone())),
                }
            }
        },
    }
}

} // verus!
