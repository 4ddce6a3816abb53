use krark::{CheckOutcome, KrarkResult, KrarkResultStatus, PanicPayload};

fn passed_names(result: &KrarkResult) -> Vec<String> {
    match &result.status {
        KrarkResultStatus::Passed(p) => p.passed.clone(),
        KrarkResultStatus::Failed(f) => f.passed.clone(),
        KrarkResultStatus::Panicked(_) => panic!("no passed checks on a panicked result"),
    }
}

fn failed_entries(result: &KrarkResult) -> Vec<(String, String)> {
    match &result.status {
        KrarkResultStatus::Failed(f) => f
            .failed
            .iter()
            .map(|tc| (tc.check_name.clone(), tc.failure.clone()))
            .collect(),
        _ => panic!("not a failed result"),
    }
}

#[test]
fn new_result_is_passed_and_empty() {
    let r = KrarkResult::new("Black Lotus");
    assert_eq!(r.card_name, "Black Lotus");
    match &r.status {
        KrarkResultStatus::Passed(p) => {
            assert_eq!(p.card_name, "Black Lotus");
            assert!(p.passed.is_empty());
        }
        _ => panic!("a new result must be passed"),
    }
    assert!(!r.is_panicked());
}

#[test]
fn passing_assertion_appends_name_in_order() {
    let mut r = KrarkResult::new("A");
    r.assert_eq(1, 1, "first".to_string());
    r.assert_eq("x", "x", "second".to_string());
    r.assert_ok(Ok::<u8, String>(3), "third".to_string());
    assert!(matches!(r.status, KrarkResultStatus::Passed(_)));
    assert_eq!(passed_names(&r), vec!["first", "second", "third"]);
    assert_eq!(r.card_name, "A");
}

#[test]
fn first_failure_turns_passed_into_failed() {
    let mut r = KrarkResult::new("B");
    r.assert_eq(1, 1, "ok one".to_string());
    r.assert_eq(2, 2, "ok two".to_string());
    r.assert_eq(1, 2, "x != y".to_string());
    match &r.status {
        KrarkResultStatus::Failed(f) => assert_eq!(f.card_name, "B"),
        _ => panic!("must be failed"),
    }
    assert_eq!(passed_names(&r), vec!["ok one", "ok two"]);
    assert_eq!(
        failed_entries(&r),
        vec![("x != y".to_string(), "expected 1, obtained 2".to_string())]
    );
}

#[test]
fn failed_result_keeps_appending_to_both_lists() {
    let mut r = KrarkResult::new("B");
    r.assert_eq(1, 2, "f1".to_string());
    r.assert_eq(3, 3, "p1".to_string());
    r.assert_ok(Err::<u8, &str>("boom"), "f2".to_string());
    r.assert_ok(Ok::<u8, &str>(1), "p2".to_string());
    r.assert_eq("a", "b", "f3".to_string());
    assert_eq!(passed_names(&r), vec!["p1", "p2"]);
    assert_eq!(
        failed_entries(&r),
        vec![
            ("f1".to_string(), "expected 1, obtained 2".to_string()),
            ("f2".to_string(), "expected Ok(_), obtained Err: \"boom\"".to_string()),
            ("f3".to_string(), "expected \"a\", obtained \"b\"".to_string()),
        ]
    );
}

#[test]
fn assert_ok_on_error_fails_with_rendered_error() {
    let mut r = KrarkResult::new("E");
    r.assert_ok(Err::<(), i32>(-7), "parse".to_string());
    assert_eq!(
        failed_entries(&r),
        vec![("parse".to_string(), "expected Ok(_), obtained Err: -7".to_string())]
    );
    assert!(passed_names(&r).is_empty());
}

#[test]
fn panicked_result_absorbs_every_assertion() {
    let mut r = KrarkResult::from_panic_payload("C", PanicPayload::Literal("boom"));
    r.assert_eq(1, 1, "a".to_string());
    r.assert_eq(1, 2, "b".to_string());
    r.assert_ok(Err::<u8, u8>(1), "c".to_string());
    r.assert_ok(Ok::<u8, u8>(1), "d".to_string());
    r.record(CheckOutcome { check_name: "e".to_string(), passed: false, detail: None });
    assert!(r.is_panicked());
    assert_eq!(r.card_name, "C");
    match &r.status {
        KrarkResultStatus::Panicked(p) => {
            assert_eq!(p.card_name, "C");
            assert_eq!(p.trace, "boom");
        }
        _ => panic!("must stay panicked"),
    }
}

#[test]
fn panic_payload_gives_trace() {
    let from_literal = KrarkResult::from_panic_payload("X", PanicPayload::Literal("lit"));
    let from_owned =
        KrarkResult::from_panic_payload("X", PanicPayload::Message("owned message".to_string()));
    let from_other = KrarkResult::from_panic_payload("X", PanicPayload::Opaque);
    let trace = |r: &KrarkResult| match &r.status {
        KrarkResultStatus::Panicked(p) => p.trace.clone(),
        _ => panic!("must be panicked"),
    };
    assert_eq!(trace(&from_literal), "lit");
    assert_eq!(trace(&from_owned), "owned message");
    assert_eq!(trace(&from_other), "Unknown panic payload");
}

#[test]
fn record_uses_detail_or_nothing() {
    let mut r = KrarkResult::new("R");
    r.record(CheckOutcome {
        check_name: "ignored detail".to_string(),
        passed: true,
        detail: Some("never shown".to_string()),
    });
    r.record(CheckOutcome { check_name: "bare".to_string(), passed: false, detail: None });
    r.record(CheckOutcome {
        check_name: "told".to_string(),
        passed: false,
        detail: Some("why".to_string()),
    });
    assert_eq!(passed_names(&r), vec!["ignored detail"]);
    assert_eq!(
        failed_entries(&r),
        vec![("bare".to_string(), String::new()), ("told".to_string(), "why".to_string())]
    );
}

#[test]
fn check_without_assertions_is_a_vacuous_pass() {
    let r = KrarkResult::new("Z");
    let mut recap = krark::KrarkRecap::new(1);
    recap.add_result(r);
    assert_eq!(recap.passed.len(), 1);
    assert!(recap.passed[0].passed.is_empty());
    assert_eq!(recap.failed.len(), 0);
    assert_eq!(recap.panicked.len(), 0);
}
