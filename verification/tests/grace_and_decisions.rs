//! Tests of the termination grace period's parsing rules and of the worker
//! loop's decision function.

use autogen_rs::agent::grace::{
    grace_period_seconds, parse_u64_decimal, DEFAULT_GRACE_PERIOD_SECONDS,
};
use autogen_rs::agent::{worker_decide, WorkerEvent, WorkerStep};

#[test]
fn test_parse_plain_digits() {
    assert_eq!(parse_u64_decimal("5"), Some(5));
    assert_eq!(parse_u64_decimal("0"), Some(0));
    assert_eq!(parse_u64_decimal("1200"), Some(1200));
    assert_eq!(parse_u64_decimal("007"), Some(7));
}

#[test]
fn test_parse_leading_plus() {
    assert_eq!(parse_u64_decimal("+7"), Some(7));
    assert_eq!(parse_u64_decimal("+"), None);
    assert_eq!(parse_u64_decimal("++1"), None);
}

#[test]
fn test_parse_rejects_garbage() {
    assert_eq!(parse_u64_decimal(""), None);
    assert_eq!(parse_u64_decimal("abc"), None);
    assert_eq!(parse_u64_decimal("1a"), None);
    assert_eq!(parse_u64_decimal(" 3"), None);
    assert_eq!(parse_u64_decimal("3 "), None);
    assert_eq!(parse_u64_decimal("-3"), None);
    assert_eq!(parse_u64_decimal("3.5"), None);
}

#[test]
fn test_parse_u64_bounds() {
    assert_eq!(parse_u64_decimal("18446744073709551615"), Some(u64::MAX));
    assert_eq!(parse_u64_decimal("18446744073709551616"), None);
    assert_eq!(parse_u64_decimal("99999999999999999999999"), None);
}

#[test]
fn test_parse_agrees_with_std() {
    for s in [
        "", "0", "5", "007", "+12", "++3", "18446744073709551615",
        "18446744073709551616", "x", "4x", " 9", "9 ", "-1",
    ] {
        assert_eq!(parse_u64_decimal(s), s.parse::<u64>().ok(), "on {s:?}");
    }
}

#[test]
fn test_grace_default_and_override() {
    assert_eq!(DEFAULT_GRACE_PERIOD_SECONDS, 3);
    assert_eq!(grace_period_seconds(None), 3);
    assert_eq!(grace_period_seconds(Some("1".to_string())), 1);
    assert_eq!(grace_period_seconds(Some("10".to_string())), 10);
    assert_eq!(grace_period_seconds(Some("".to_string())), 3);
    assert_eq!(grace_period_seconds(Some("soon".to_string())), 3);
    assert_eq!(
        grace_period_seconds(Some("99999999999999999999999".to_string())),
        3
    );
}

#[test]
fn test_worker_decisions() {
    assert_eq!(
        worker_decide::<u32, &str>(WorkerEvent::Delivered(7)),
        WorkerStep::RunHandler(7)
    );
    assert_eq!(
        worker_decide::<u32, &str>(WorkerEvent::HandlerDone(Ok(()))),
        WorkerStep::AwaitNext
    );
    assert_eq!(
        worker_decide::<u32, &str>(WorkerEvent::HandlerDone(Err("boom"))),
        WorkerStep::ExitErr("boom")
    );
    assert_eq!(
        worker_decide::<u32, &str>(WorkerEvent::MailboxClosed),
        WorkerStep::ExitOk
    );
}
