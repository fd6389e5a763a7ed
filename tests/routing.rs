use veritech_dispatch::router::{parse_subject, reply_address, route};
use veritech_dispatch::text::{split_dots_exec, str_eq};
use veritech_dispatch::{ExecutionKind, RouterError};

fn headers(pairs: &[(&str, &str)]) -> Vec<(String, String)> {
    pairs
        .iter()
        .map(|(k, v)| (k.to_string(), v.to_string()))
        .collect()
}

#[test]
fn subject_without_prefix_is_parsed() {
    let parts = parse_subject("svc.exec.ws42.cs7.resolver", false).unwrap();
    assert_eq!(parts.workspace_id, "ws42");
    assert_eq!(parts.change_set_id, "cs7");
    assert_eq!(parts.kind, ExecutionKind::Resolver);
}

#[test]
fn subject_with_prefix_is_parsed() {
    let parts = parse_subject("pfx.svc.exec.ws42.cs7.actionrun", true).unwrap();
    assert_eq!(parts.workspace_id, "ws42");
    assert_eq!(parts.change_set_id, "cs7");
    assert_eq!(parts.kind, ExecutionKind::ActionRun);
}

#[test]
fn subject_with_wrong_part_count_is_invalid() {
    assert_eq!(
        parse_subject("svc.exec.ws42.resolver", false).unwrap_err(),
        RouterError::InvalidSubject
    );
    assert_eq!(
        parse_subject("svc.exec.ws42.cs7.resolver.extra", false).unwrap_err(),
        RouterError::InvalidSubject
    );
    assert_eq!(
        parse_subject("svc.exec.ws42.cs7.resolver", true).unwrap_err(),
        RouterError::InvalidSubject
    );
    assert_eq!(
        parse_subject("a.svc.exec.ws42.cs7.resolver.x", true).unwrap_err(),
        RouterError::InvalidSubject
    );
    assert_eq!(parse_subject("", false).unwrap_err(), RouterError::InvalidSubject);
}

#[test]
fn subject_with_unknown_kind_is_invalid() {
    assert_eq!(
        parse_subject("svc.exec.ws42.cs7.resolverfunction", false).unwrap_err(),
        RouterError::InvalidSubject
    );
}

#[test]
fn every_kind_suffix_is_recognized() {
    let kinds = [
        ("actionrun", ExecutionKind::ActionRun),
        ("management", ExecutionKind::Management),
        ("resolver", ExecutionKind::Resolver),
        ("schemavariantdefinition", ExecutionKind::SchemaVariantDefinition),
        ("validation", ExecutionKind::Validation),
        ("kill", ExecutionKind::Kill),
    ];
    for (suffix, kind) in kinds {
        assert_eq!(ExecutionKind::from_subject_suffix(suffix), Some(kind));
        assert_eq!(kind.subject_suffix(), suffix);
    }
    assert_eq!(ExecutionKind::from_subject_suffix("Kill"), None);
}

#[test]
fn sub_commands_follow_the_kind() {
    assert_eq!(ExecutionKind::Resolver.sub_command(), Some("resolverfunction"));
    assert_eq!(ExecutionKind::ActionRun.sub_command(), Some("actionRun"));
    assert_eq!(
        ExecutionKind::SchemaVariantDefinition.sub_command(),
        Some("schemaVariantDefinition")
    );
    assert_eq!(ExecutionKind::Kill.sub_command(), None);
    assert!(ExecutionKind::Validation.is_requestable());
    assert!(!ExecutionKind::Kill.is_requestable());
}

#[test]
fn reply_inbox_is_read_from_the_header() {
    let hs = headers(&[("other", "x"), ("reply-inbox", "inbox.abc"), ("reply-inbox", "later")]);
    assert_eq!(reply_address(&hs, "reply-inbox").unwrap(), "inbox.abc");
    assert_eq!(
        reply_address(&headers(&[("other", "x")]), "reply-inbox").unwrap_err(),
        RouterError::NoReplyInbox
    );
}

#[test]
fn route_checks_reply_inbox_first() {
    let none = headers(&[]);
    assert_eq!(
        route("bad", false, &none, "reply-inbox").unwrap_err(),
        RouterError::NoReplyInbox
    );
    let hs = headers(&[("reply-inbox", "inbox.abc")]);
    assert_eq!(
        route("bad", false, &hs, "reply-inbox").unwrap_err(),
        RouterError::InvalidSubject
    );
    let r = route("svc.exec.ws42.cs7.kill", false, &hs, "reply-inbox").unwrap();
    assert_eq!(r.reply_to, "inbox.abc");
    assert_eq!(r.parts.kind, ExecutionKind::Kill);
}

#[test]
fn split_keeps_empty_parts() {
    assert_eq!(split_dots_exec("a..b"), vec!["a", "", "b"]);
    assert_eq!(split_dots_exec(""), vec![""]);
    assert_eq!(split_dots_exec("."), vec!["", ""]);
    assert_eq!(split_dots_exec("ws42"), vec!["ws42"]);
}

#[test]
fn string_equality_is_by_characters() {
    assert!(str_eq("héllo", "héllo"));
    assert!(!str_eq("hello", "hellO"));
    assert!(!str_eq("hell", "hello"));
    assert!(str_eq("", ""));
}
