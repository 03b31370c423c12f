use battlesnake_tests::classify::classify;
use battlesnake_tests::fixture::parse_fixture;
use battlesnake_tests::outcome::{Failure, Outcome};
use battlesnake_tests::report::{
    decimal_string, failure_block, failure_reason, summary_line,
};
use battlesnake_tests::response::{decode_move, outcome_of_attempt, Attempt};
use battlesnake_tests::run::{resolve_load_error, status_success, Run, RunEntry};

fn labels(names: &[&str]) -> Vec<String> {
    names.iter().map(|n| n.to_string()).collect()
}

fn response(status: u16, body: &str) -> Attempt {
    Attempt::Response {
        status,
        body: body.to_string(),
    }
}

#[test]
fn member_move_is_correct() {
    let r = classify(&labels(&["up"]), &"up".to_string());
    assert_eq!(r, Outcome::Correct);
}

#[test]
fn member_of_larger_set_is_correct() {
    let r = classify(&labels(&["left", "right", "up"]), &"right".to_string());
    assert_eq!(r, Outcome::Correct);
}

#[test]
fn absent_move_is_incorrect_and_preserves_set() {
    let r = classify(&labels(&["up", "down"]), &"left".to_string());
    assert_eq!(
        r,
        Outcome::Incorrect(labels(&["up", "down"]), "left".to_string())
    );
}

#[test]
fn comparison_is_case_sensitive() {
    let r = classify(&labels(&["up"]), &"Up".to_string());
    assert_eq!(r, Outcome::Incorrect(labels(&["up"]), "Up".to_string()));
}

#[test]
fn correct_move_through_http_attempt() {
    let r = outcome_of_attempt(&labels(&["up"]), &response(200, "{\"move\":\"up\"}"));
    assert_eq!(r, Outcome::Correct);
}

#[test]
fn shout_is_ignored_for_comparison() {
    let r = outcome_of_attempt(
        &labels(&["up"]),
        &response(200, "{\"move\":\"up\",\"shout\":\"hello\"}"),
    );
    assert_eq!(r, Outcome::Correct);
}

#[test]
fn null_shout_is_accepted() {
    let r = outcome_of_attempt(
        &labels(&["up"]),
        &response(200, "{\"move\":\"up\",\"shout\":null}"),
    );
    assert_eq!(r, Outcome::Correct);
}

#[test]
fn non_string_shout_is_decode_failure() {
    let r = outcome_of_attempt(
        &labels(&["up"]),
        &response(200, "{\"move\":\"up\",\"shout\":5}"),
    );
    assert!(matches!(r, Outcome::Errored(Failure::Decode(_))));
}

#[test]
fn transport_failure_becomes_errored() {
    let r = outcome_of_attempt(
        &labels(&["up"]),
        &Attempt::TransportError("connection refused".to_string()),
    );
    assert_eq!(
        r,
        Outcome::Errored(Failure::Transport("connection refused".to_string()))
    );
}

#[test]
fn http_500_becomes_errored() {
    let r = outcome_of_attempt(&labels(&["up"]), &response(500, "{\"move\":\"up\"}"));
    assert_eq!(r, Outcome::Errored(Failure::Http(500)));
}

#[test]
fn unparseable_body_is_decode_failure() {
    let r = outcome_of_attempt(&labels(&["up"]), &response(200, "not json"));
    assert!(matches!(r, Outcome::Errored(Failure::Decode(_))));
}

#[test]
fn body_without_move_is_decode_failure() {
    let r = outcome_of_attempt(&labels(&["up"]), &response(200, "{\"shout\":\"hi\"}"));
    assert!(matches!(r, Outcome::Errored(Failure::Decode(_))));
}

#[test]
fn status_success_boundaries() {
    assert!(!status_success(199));
    assert!(status_success(200));
    assert!(status_success(299));
    assert!(!status_success(300));
    assert!(!status_success(404));
}

#[test]
fn decode_move_returns_label() {
    assert_eq!(
        decode_move("{\"move\":\"down\"}"),
        Ok("down".to_string())
    );
}

#[test]
fn decode_move_ignores_unknown_fields() {
    assert_eq!(
        decode_move("{\"move\":\"up\",\"taunt\":\"ha\"}"),
        Ok("up".to_string())
    );
}

#[test]
fn decode_move_rejects_non_object() {
    assert!(decode_move("[1,2,3]").is_err());
}

#[test]
fn parse_fixture_extracts_fields() {
    let text = "{\"state\":{\"turn\":3},\"expected\":[\"up\",\"down\"],\"description\":\"corner case\"}";
    let f = parse_fixture("tests/a.json".to_string(), text).unwrap();
    assert_eq!(f.path, "tests/a.json");
    assert_eq!(f.expected, labels(&["up", "down"]));
    assert_eq!(f.description, Some("corner case".to_string()));
    assert_eq!(f.state.to_string(), "{\"turn\":3}");
}

#[test]
fn parse_fixture_without_description() {
    let text = "{\"state\":null,\"expected\":[\"up\"]}";
    let f = parse_fixture("a".to_string(), text).unwrap();
    assert_eq!(f.description, None);
    assert_eq!(f.expected, labels(&["up"]));
}

#[test]
fn parse_fixture_null_description() {
    let text = "{\"state\":1,\"expected\":[\"up\"],\"description\":null}";
    let f = parse_fixture("a".to_string(), text).unwrap();
    assert_eq!(f.description, None);
}

#[test]
fn parse_fixture_rejects_invalid_json() {
    let r = parse_fixture("a".to_string(), "{not json");
    assert!(matches!(r, Err(Failure::Load(_))));
}

#[test]
fn parse_fixture_rejects_missing_state() {
    let r = parse_fixture("a".to_string(), "{\"expected\":[\"up\"]}");
    assert!(matches!(r, Err(Failure::Load(_))));
}

#[test]
fn parse_fixture_rejects_missing_expected() {
    let r = parse_fixture("a".to_string(), "{\"state\":{}}");
    assert!(matches!(r, Err(Failure::Load(_))));
}

#[test]
fn parse_fixture_rejects_empty_expected() {
    let r = parse_fixture("a".to_string(), "{\"state\":{},\"expected\":[]}");
    assert!(matches!(r, Err(Failure::Load(_))));
}

#[test]
fn parse_fixture_rejects_non_string_label() {
    let r = parse_fixture("a".to_string(), "{\"state\":{},\"expected\":[\"up\",7]}");
    assert!(matches!(r, Err(Failure::Load(_))));
}

fn entry(path: &str, outcome: Outcome) -> RunEntry {
    RunEntry {
        path: path.to_string(),
        description: None,
        outcome,
    }
}

#[test]
fn empty_run_passes_vacuously() {
    let run = Run::new();
    assert_eq!(run.total(), 0);
    assert_eq!(run.passed(), 0);
    assert!(run.all_passed());
    assert_eq!(run.exit_code(), 0);
    assert_eq!(summary_line(run.passed(), run.total()), "0 out of 0 tests passed");
}

#[test]
fn two_of_three_passed() {
    let mut run = Run::new();
    run.record(entry("a.json", Outcome::Correct));
    run.record(entry(
        "b.json",
        Outcome::Incorrect(labels(&["up"]), "down".to_string()),
    ));
    run.record(entry("c.json", Outcome::Correct));
    assert_eq!(run.total(), 3);
    assert_eq!(run.passed(), 2);
    assert!(!run.all_passed());
    assert_eq!(run.exit_code(), 1);
    assert_eq!(summary_line(run.passed(), run.total()), "2 out of 3 tests passed");
}

#[test]
fn passed_never_exceeds_total() {
    let mut run = Run::new();
    for i in 0..5 {
        let outcome = if i % 2 == 0 {
            Outcome::Correct
        } else {
            Outcome::Errored(Failure::Http(500))
        };
        run.record(entry("x.json", outcome));
        assert!(run.passed() <= run.total());
        assert_eq!(run.all_passed(), run.passed() == run.total());
    }
}

#[test]
fn one_failing_fixture_leaves_others_untouched() {
    let cases = [
        ("a.json", response(200, "{\"move\":\"up\"}")),
        ("b.json", response(200, "not json")),
        ("c.json", response(200, "{\"move\":\"up\"}")),
    ];
    let expected_set = labels(&["up"]);
    let mut run = Run::new();
    for (path, attempt) in &cases {
        run.record(entry(path, outcome_of_attempt(&expected_set, attempt)));
    }
    let results = run.results();
    assert_eq!(results.len(), 3);
    assert_eq!(results[0].outcome, Outcome::Correct);
    assert!(matches!(results[1].outcome, Outcome::Errored(Failure::Decode(_))));
    assert_eq!(results[2].outcome, Outcome::Correct);
    assert_eq!(run.passed(), 2);
    assert_eq!(run.exit_code(), 1);
}

#[test]
fn load_failure_keeps_run_going() {
    let mut run = Run::new();
    run.record(entry(
        "broken.json",
        resolve_load_error("expected value at line 1 column 1".to_string()),
    ));
    run.record(entry("ok.json", Outcome::Correct));
    assert_eq!(run.total(), 2);
    assert_eq!(run.passed(), 1);
    assert!(matches!(
        run.results()[0].outcome,
        Outcome::Errored(Failure::Load(_))
    ));
}

#[test]
fn identical_runs_give_identical_outcomes() {
    let fixtures = [
        (labels(&["up"]), response(200, "{\"move\":\"up\"}")),
        (labels(&["up", "down"]), response(200, "{\"move\":\"left\"}")),
        (labels(&["right"]), response(503, "")),
    ];
    let run_once = || {
        let mut run = Run::new();
        for (expected, attempt) in &fixtures {
            run.record(entry("f.json", outcome_of_attempt(expected, attempt)));
        }
        run.results().clone()
    };
    let first = run_once();
    let second = run_once();
    assert_eq!(first, second);
}

#[test]
fn reason_for_single_expected_move() {
    let o = Outcome::Incorrect(labels(&["up"]), "down".to_string());
    assert_eq!(
        failure_reason(&o),
        Some(
            "Moved in the Wrong Direction: Should have moved \"up\" but moved \"down\""
                .to_string()
        )
    );
}

#[test]
fn reason_for_multiple_expected_moves() {
    let o = Outcome::Incorrect(labels(&["up", "down"]), "left".to_string());
    assert_eq!(
        failure_reason(&o),
        Some(
            "Moved in the Wrong Direction: Should have moved in one of [\"up\", \"down\"] but moved \"left\""
                .to_string()
        )
    );
}

#[test]
fn reason_for_http_failure_names_status() {
    let o = Outcome::Errored(Failure::Http(500));
    assert_eq!(failure_reason(&o), Some("Error HTTP status 500".to_string()));
}

#[test]
fn reason_for_transport_failure_carries_detail() {
    let o = Outcome::Errored(Failure::Transport("dns error".to_string()));
    assert_eq!(failure_reason(&o), Some("Error dns error".to_string()));
}

#[test]
fn correct_outcome_has_no_reason() {
    assert_eq!(failure_reason(&Outcome::Correct), None);
    assert_eq!(failure_block(&entry("a.json", Outcome::Correct)), None);
}

#[test]
fn failure_block_shows_path_description_and_reason() {
    let e = RunEntry {
        path: "tests/corner.json".to_string(),
        description: Some("trapped in a corner".to_string()),
        outcome: Outcome::Incorrect(labels(&["up"]), "down".to_string()),
    };
    assert_eq!(
        failure_block(&e),
        Some(
            "Failure on test: tests/corner.json\nDescription: trapped in a corner \nReason: Moved in the Wrong Direction: Should have moved \"up\" but moved \"down\"\n\n"
                .to_string()
        )
    );
}

#[test]
fn failure_block_without_description() {
    let e = entry("a.json", Outcome::Errored(Failure::Http(404)));
    assert_eq!(
        failure_block(&e),
        Some("Failure on test: a.json\nReason: Error HTTP status 404\n\n".to_string())
    );
}

#[test]
fn decimal_rendering() {
    assert_eq!(decimal_string(0), "0");
    assert_eq!(decimal_string(7), "7");
    assert_eq!(decimal_string(10), "10");
    assert_eq!(decimal_string(12345), "12345");
}

#[test]
fn fixture_state_passes_through_verbatim() {
    let text = "{\"state\":{\"board\":{\"width\":11},\"you\":{\"id\":\"abc\"}},\"expected\":[\"up\"]}";
    let f = parse_fixture("a".to_string(), text).unwrap();
    let round_tripped: serde_json::Value = serde_json::from_str(&f.state.to_string()).unwrap();
    let original: serde_json::Value = serde_json::from_str("{\"board\":{\"width\":11},\"you\":{\"id\":\"abc\"}}").unwrap();
    assert_eq!(round_tripped, original);
}
