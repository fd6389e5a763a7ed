use veritech_dispatch::frame::{clamp_timestamp, start_frame, timestamp};
use veritech_dispatch::{FailureKind, FunctionResult, Outbound, OutputFrame, Publisher, Terminal};

fn output(message: &str, ts: i64) -> OutputFrame {
    OutputFrame::new(
        "E1".to_string(),
        "stdout".to_string(),
        "info".to_string(),
        None,
        None,
        message.to_string(),
        ts,
    )
}

#[test]
fn finalize_twice_publishes_one_finalizer() {
    let mut p = Publisher::new("inbox.abc".to_string());
    assert_eq!(p.finalize_output(), Some(Outbound::Finalizer));
    assert_eq!(p.finalize_output(), None);
    assert!(p.is_finalized());
}

#[test]
fn result_is_published_at_most_once() {
    let mut p = Publisher::new("inbox.abc".to_string());
    let first = p.publish_result(Terminal::Failed(FailureKind::Timeout));
    assert_eq!(
        first,
        vec![Outbound::Finalizer, Outbound::Terminal(Terminal::Failed(FailureKind::Timeout))]
    );
    assert!(p.has_result());
    let second = p.publish_result(Terminal::Failed(FailureKind::Killed));
    assert!(second.is_empty());
    assert_eq!(p.publish_output(output("late", 1)), None);
}

#[test]
fn result_after_finalize_sends_only_the_terminal() {
    let mut p = Publisher::new("inbox.abc".to_string());
    assert!(p.finalize_output().is_some());
    let frames = p.publish_result(Terminal::Finished(FunctionResult::Success("{}".to_string())));
    assert_eq!(
        frames,
        vec![Outbound::Terminal(Terminal::Finished(FunctionResult::Success("{}".to_string())))]
    );
}

#[test]
fn outputs_are_forwarded_in_order() {
    let mut p = Publisher::new("inbox.abc".to_string());
    assert_eq!(p.reply_to(), "inbox.abc");
    let a = p.publish_output(output("one", 1)).unwrap();
    let b = p.publish_output(output("two", 2)).unwrap();
    assert_eq!(a, Outbound::Output(output("one", 1)));
    assert_eq!(b, Outbound::Output(output("two", 2)));
    assert_eq!(p.finalize_output(), Some(Outbound::Finalizer));
    assert_eq!(p.publish_output(output("three", 3)), None);
}

#[test]
fn negative_timestamp_is_clamped_to_zero() {
    assert_eq!(clamp_timestamp(-5), 0);
    assert_eq!(clamp_timestamp(i64::MIN), 0);
    assert_eq!(clamp_timestamp(0), 0);
    assert_eq!(clamp_timestamp(1000), 1000);
    assert_eq!(output("hi", -1).timestamp, 0);
    assert_eq!(output("hi", 1000).timestamp, 1000);
}

#[test]
fn current_timestamp_is_after_2020() {
    assert!(timestamp() > 1_577_836_800);
}

#[test]
fn start_frame_is_one_line() {
    assert_eq!(
        start_frame("resolverfunction", "{\"execution_id\":\"E1\"}"),
        "{\"start\":{\"sub_command\":\"resolverfunction\",\"request\":{\"execution_id\":\"E1\"}}}\n"
    );
}

#[test]
fn failure_kinds_have_wire_names() {
    assert_eq!(FailureKind::Timeout.kind_name(), "timeout");
    assert_eq!(FailureKind::Killed.kind_name(), "killed");
    assert_eq!(FailureKind::DecryptFailed.kind_name(), "decrypt_failed");
    assert_eq!(FailureKind::PeerClosed.kind_name(), "peer_closed");
    assert_eq!(FailureKind::PoolUnavailable.kind_name(), "pool_unavailable");
    assert_eq!(FailureKind::StartFailed.kind_name(), "start_failed");
    assert_eq!(FailureKind::ProtocolViolation.kind_name(), "protocol_violation");
    assert!(FailureKind::PoolUnavailable.is_retriable());
    assert!(!FailureKind::Timeout.is_retriable());
}
