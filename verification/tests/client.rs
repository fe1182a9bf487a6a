use bss::client::{classify_response, SendEvent, SendFailure, SendState, TransferClient, CREATED};
use bss::error::TransportError;
use bss::manifest::{Manifest, ManifestRegistry, Secret};

fn client(names: &[&str], bound: usize) -> TransferClient {
    let secrets = names
        .iter()
        .map(|name| Secret {
            name: name.to_string(),
            source_path: format!("/src/{}", name),
            destination_path: format!("/dst/{}", name),
            owner: "app".to_string(),
            group: "app".to_string(),
            mode: "0600".to_string(),
        })
        .collect();
    TransferClient::new(ManifestRegistry::new(Manifest { secrets }).unwrap(), bound)
}

fn failed(cause: SendFailure) -> Option<SendState> {
    Some(SendState::Failed { cause })
}

#[test]
fn only_created_is_an_acknowledgement() {
    assert_eq!(CREATED, 201);
    assert_eq!(classify_response(201), SendState::Acknowledged);
    for code in [0, 100, 200, 202, 204, 301, 400, 404, 408, 409, 413, 500, 503, u16::MAX] {
        assert_eq!(
            classify_response(code),
            SendState::Failed { cause: SendFailure::Status { code } }
        );
    }
}

#[test]
fn a_new_client_has_started_nothing() {
    let client = client(&["a", "b"], 1);
    assert_eq!(client.state(0), Some(SendState::Idle));
    assert_eq!(client.state(1), Some(SendState::Idle));
    assert_eq!(client.state(2), None);
    assert_eq!(client.active(), 0);
    assert!(!client.finished());
    assert_eq!(client.exit_code(), 1);
}

#[test]
fn an_empty_manifest_is_finished_at_once() {
    let mut client = client(&[], 4);
    assert_eq!(client.next(), None);
    assert!(client.finished());
    assert_eq!(client.exit_code(), 0);
}

#[test]
fn secrets_are_sent_in_manifest_order() {
    let mut client = client(&["a", "b", "c"], 1);
    for index in 0..3 {
        assert_eq!(client.next(), Some(index));
        assert_eq!(client.state(index), Some(SendState::Connecting));
        assert_eq!(client.next(), None);
        client.on_event(index, SendEvent::Connected);
        assert_eq!(client.state(index), Some(SendState::Sending));
        client.on_event(index, SendEvent::Responded { code: 201 });
        assert_eq!(client.state(index), Some(SendState::Acknowledged));
    }
    assert_eq!(client.next(), None);
    assert!(client.finished());
    assert_eq!(client.exit_code(), 0);
}

#[test]
fn the_bound_limits_the_deliveries_under_way() {
    let mut client = client(&["a", "b", "c", "d"], 2);
    assert_eq!(client.next(), Some(0));
    assert_eq!(client.next(), Some(1));
    assert_eq!(client.active(), 2);
    assert_eq!(client.next(), None);
    client.on_event(0, SendEvent::Connected);
    assert_eq!(client.active(), 2);
    assert_eq!(client.next(), None);
    client.on_event(0, SendEvent::Responded { code: 201 });
    assert_eq!(client.active(), 1);
    assert_eq!(client.next(), Some(2));
    assert_eq!(client.next(), None);
    client.on_event(1, SendEvent::Broken);
    assert_eq!(client.next(), Some(3));
    assert_eq!(client.next(), None);
    assert_eq!(client.active(), 2);
}

#[test]
fn a_bound_of_zero_is_taken_as_one() {
    let mut client = client(&["a", "b"], 0);
    assert_eq!(client.next(), Some(0));
    assert_eq!(client.next(), None);
}

#[test]
fn a_large_bound_starts_everything() {
    let mut client = client(&["a", "b", "c"], usize::MAX);
    assert_eq!(client.next(), Some(0));
    assert_eq!(client.next(), Some(1));
    assert_eq!(client.next(), Some(2));
    assert_eq!(client.next(), None);
    assert_eq!(client.active(), 3);
}

#[test]
fn the_plan_addresses_the_secret_by_its_tag() {
    let client = client(&["a", "database-password"], 1);
    let plan = client.plan(1, 42).expect("plan");
    assert_eq!(plan.target, "/secrets/database-password");
    assert_eq!(plan.source_path, "/src/database-password");
    assert_eq!(plan.declared_length, 42);
    let plan = client.plan(0, 0).expect("plan");
    assert_eq!(plan.target, "/secrets/a");
    assert_eq!(plan.declared_length, 0);
    let plan = client.plan(0, u64::MAX).expect("plan");
    assert_eq!(plan.declared_length, u64::MAX);
    assert!(client.plan(2, 1).is_none());
}

#[test]
fn any_other_status_is_that_secrets_failure() {
    for code in [200u16, 404, 409, 413, 500] {
        let mut client = client(&["a"], 1);
        client.next();
        client.on_event(0, SendEvent::Connected);
        client.on_event(0, SendEvent::Responded { code });
        assert_eq!(client.state(0), failed(SendFailure::Status { code }));
        assert!(client.finished());
        assert_eq!(client.exit_code(), 1);
    }
}

#[test]
fn a_transport_error_is_that_secrets_failure() {
    let mut client = client(&["a", "b", "c", "d"], 4);
    for _ in 0..4 {
        client.next();
    }
    client.on_event(0, SendEvent::ConnectFailed { error: TransportError::Timeout });
    client.on_event(1, SendEvent::ConnectFailed { error: TransportError::Refused });
    client.on_event(2, SendEvent::Broken);
    client.on_event(3, SendEvent::Connected);
    client.on_event(3, SendEvent::Broken);
    assert_eq!(client.state(0), failed(SendFailure::Connect { error: TransportError::Timeout }));
    assert_eq!(client.state(1), failed(SendFailure::Connect { error: TransportError::Refused }));
    assert_eq!(client.state(2), failed(SendFailure::Broken));
    assert_eq!(client.state(3), failed(SendFailure::Broken));
    assert!(client.finished());
    assert_eq!(client.exit_code(), 1);
}

#[test]
fn an_unreadable_source_is_that_secrets_failure() {
    let mut client = client(&["a", "b"], 2);
    client.next();
    client.next();
    client.on_event(0, SendEvent::SourceUnreadable);
    client.on_event(1, SendEvent::Connected);
    client.on_event(1, SendEvent::SourceUnreadable);
    assert_eq!(client.state(0), failed(SendFailure::Source));
    assert_eq!(client.state(1), failed(SendFailure::Source));
}

#[test]
fn a_failure_does_not_stop_the_other_secrets() {
    let mut client = client(&["a", "b", "c"], 1);
    assert_eq!(client.next(), Some(0));
    client.on_event(0, SendEvent::ConnectFailed { error: TransportError::Unreachable });
    assert_eq!(client.next(), Some(1));
    client.on_event(1, SendEvent::Connected);
    client.on_event(1, SendEvent::Responded { code: 500 });
    assert_eq!(client.next(), Some(2));
    client.on_event(2, SendEvent::Connected);
    client.on_event(2, SendEvent::Responded { code: 201 });
    assert_eq!(client.next(), None);
    assert!(client.finished());
    assert_eq!(client.state(2), Some(SendState::Acknowledged));
    assert_eq!(client.exit_code(), 1);
}

#[test]
fn a_delivery_that_is_over_is_not_retried() {
    let mut client = client(&["a", "b"], 2);
    client.next();
    client.next();
    client.on_event(0, SendEvent::Connected);
    client.on_event(0, SendEvent::Responded { code: 409 });
    client.on_event(1, SendEvent::Connected);
    client.on_event(1, SendEvent::Responded { code: 201 });
    for event in [
        SendEvent::Connected,
        SendEvent::Responded { code: 201 },
        SendEvent::Responded { code: 500 },
        SendEvent::Broken,
        SendEvent::SourceUnreadable,
        SendEvent::ConnectFailed { error: TransportError::Timeout },
    ] {
        client.on_event(0, event);
        client.on_event(1, event);
        assert_eq!(client.state(0), failed(SendFailure::Status { code: 409 }));
        assert_eq!(client.state(1), Some(SendState::Acknowledged));
    }
    assert_eq!(client.next(), None);
}

#[test]
fn an_answer_before_the_connection_means_nothing() {
    let mut client = client(&["a"], 1);
    client.on_event(0, SendEvent::Responded { code: 201 });
    assert_eq!(client.state(0), Some(SendState::Idle));
    client.on_event(0, SendEvent::Connected);
    assert_eq!(client.state(0), Some(SendState::Idle));
    client.next();
    client.on_event(0, SendEvent::Responded { code: 201 });
    assert_eq!(client.state(0), Some(SendState::Connecting));
    client.on_event(0, SendEvent::Connected);
    client.on_event(0, SendEvent::Connected);
    client.on_event(0, SendEvent::ConnectFailed { error: TransportError::Refused });
    assert_eq!(client.state(0), Some(SendState::Sending));
}

#[test]
fn an_event_for_no_secret_changes_nothing() {
    let mut client = client(&["a"], 1);
    client.next();
    client.on_event(1, SendEvent::Connected);
    client.on_event(usize::MAX, SendEvent::Broken);
    assert_eq!(client.state(0), Some(SendState::Connecting));
}

#[test]
fn the_exit_code_is_zero_only_if_all_were_acknowledged() {
    let mut client = client(&["a", "b"], 2);
    client.next();
    client.next();
    client.on_event(0, SendEvent::Connected);
    client.on_event(1, SendEvent::Connected);
    client.on_event(0, SendEvent::Responded { code: 201 });
    assert_eq!(client.exit_code(), 1);
    assert!(!client.finished());
    client.on_event(1, SendEvent::Responded { code: 201 });
    assert_eq!(client.exit_code(), 0);
    assert!(client.finished());
}

#[test]
fn a_source_that_changed_counts_as_unreadable() {
    let client = client(&["a"], 1);
    let plan = client.plan(0, 42).expect("plan");
    assert_eq!(plan.check_source(42), None);
    assert_eq!(plan.check_source(41), Some(SendEvent::SourceUnreadable));
    assert_eq!(plan.check_source(43), Some(SendEvent::SourceUnreadable));
    assert_eq!(plan.check_source(0), Some(SendEvent::SourceUnreadable));
    let empty = client.plan(0, 0).expect("plan");
    assert_eq!(empty.check_source(0), None);
    assert_eq!(empty.check_source(u64::MAX), Some(SendEvent::SourceUnreadable));
}
