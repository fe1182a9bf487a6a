use bss::error::{Failure, IoError, ProtocolError, Rejection, TransportError};
use bss::manifest::ConfigError;
use bss::protocol::{handle_rejection, parse_tag, reply_for, upload_path, ResponseStatus};
use bss::state::StateError;
use bss::text::str_eq;

#[test]
fn parse_tag_takes_what_follows_the_prefix() {
    assert_eq!(parse_tag("/secrets/test"), Some("test"));
    assert_eq!(parse_tag("/secrets/a"), Some("a"));
    assert_eq!(parse_tag("/secrets/database-password"), Some("database-password"));
}

#[test]
fn parse_tag_accepts_an_empty_tag() {
    assert_eq!(parse_tag("/secrets/"), Some(""));
}

#[test]
fn parse_tag_keeps_further_slashes() {
    assert_eq!(parse_tag("/secrets/a/b"), Some("a/b"));
    assert_eq!(parse_tag("/secrets//"), Some("/"));
}

#[test]
fn parse_tag_refuses_other_paths() {
    assert_eq!(parse_tag(""), None);
    assert_eq!(parse_tag("/"), None);
    assert_eq!(parse_tag("/secrets"), None);
    assert_eq!(parse_tag("/secret/test"), None);
    assert_eq!(parse_tag("secrets/test"), None);
    assert_eq!(parse_tag("/Secrets/test"), None);
    assert_eq!(parse_tag("/secretstest"), None);
    assert_eq!(parse_tag(" /secrets/test"), None);
}

#[test]
fn parse_tag_handles_characters_of_several_bytes() {
    assert_eq!(parse_tag("/secrets/sch\u{fc}ssel"), Some("sch\u{fc}ssel"));
    assert_eq!(parse_tag("/secrets/\u{1f511}"), Some("\u{1f511}"));
    assert_eq!(parse_tag("/s\u{e9}crets/test"), None);
    assert_eq!(parse_tag("\u{1f511}\u{1f511}\u{1f511}"), None);
}

#[test]
fn upload_path_puts_the_prefix_in_front() {
    assert_eq!(upload_path("test"), "/secrets/test");
    assert_eq!(upload_path(""), "/secrets/");
    assert_eq!(upload_path("a/b"), "/secrets/a/b");
}

#[test]
fn a_built_path_parses_back_to_its_tag() {
    for tag in ["test", "", "a/b", "sch\u{fc}ssel", "/secrets/", "with space"] {
        let path = upload_path(tag);
        assert_eq!(parse_tag(&path), Some(tag));
    }
}

#[test]
fn str_eq_is_exact() {
    assert!(str_eq("", ""));
    assert!(str_eq("test", "test"));
    assert!(!str_eq("test", "Test"));
    assert!(!str_eq("test", "test "));
    assert!(!str_eq("test", "tes"));
    assert!(!str_eq("", "a"));
    assert!(str_eq("sch\u{fc}ssel", "sch\u{fc}ssel"));
    assert!(!str_eq("sch\u{fc}ssel", "schussel"));
}

#[test]
fn status_codes_are_the_usual_numbers() {
    assert_eq!(ResponseStatus::Created.code(), 201);
    assert_eq!(ResponseStatus::NotFound.code(), 404);
    assert_eq!(ResponseStatus::PayloadTooLarge.code(), 413);
    assert_eq!(ResponseStatus::Conflict.code(), 409);
    assert_eq!(ResponseStatus::InternalError.code(), 500);
    assert_eq!(ResponseStatus::Timeout.code(), 408);
}

#[test]
fn status_codes_read_back() {
    for status in [
        ResponseStatus::Created,
        ResponseStatus::NotFound,
        ResponseStatus::PayloadTooLarge,
        ResponseStatus::Conflict,
        ResponseStatus::InternalError,
        ResponseStatus::Timeout,
    ] {
        assert_eq!(ResponseStatus::from_code(status.code()), Some(status));
    }
    assert_eq!(ResponseStatus::from_code(200), None);
    assert_eq!(ResponseStatus::from_code(204), None);
    assert_eq!(ResponseStatus::from_code(400), None);
    assert_eq!(ResponseStatus::from_code(0), None);
    assert_eq!(ResponseStatus::from_code(u16::MAX), None);
}

#[test]
fn status_reasons() {
    assert_eq!(ResponseStatus::Created.reason(), "");
    assert_eq!(ResponseStatus::NotFound.reason(), "Not Found");
    assert_eq!(ResponseStatus::PayloadTooLarge.reason(), "Payload too large");
    assert_eq!(ResponseStatus::Conflict.reason(), "Conflict");
    assert_eq!(ResponseStatus::InternalError.reason(), "Internal Server Error");
    assert_eq!(ResponseStatus::Timeout.reason(), "Request Timeout");
}

#[test]
fn protocol_rejections_map_to_their_status() {
    let cases = [
        (ProtocolError::UnknownTarget, ResponseStatus::NotFound),
        (ProtocolError::UnknownTag, ResponseStatus::NotFound),
        (ProtocolError::PayloadTooLarge, ResponseStatus::PayloadTooLarge),
        (ProtocolError::AlreadyCompleted, ResponseStatus::Conflict),
        (ProtocolError::UploadInFlight, ResponseStatus::Conflict),
    ];
    for (error, status) in cases {
        let reply = handle_rejection(Rejection::Protocol(error));
        assert_eq!(reply.status, status);
        assert_eq!(reply.message, status.reason());
    }
}

#[test]
fn io_rejections_map_to_internal_error_or_timeout() {
    for error in [
        IoError::Create,
        IoError::Read,
        IoError::Truncated,
        IoError::Write,
        IoError::SetOwner,
        IoError::SetMode,
        IoError::Rename,
        IoError::Cancelled,
    ] {
        let reply = handle_rejection(Rejection::Io(error));
        assert_eq!(reply.status, ResponseStatus::InternalError);
        assert_eq!(reply.message, "Internal Server Error");
    }
    let reply = handle_rejection(Rejection::Io(IoError::Stalled));
    assert_eq!(reply.status, ResponseStatus::Timeout);
    assert_eq!(reply.message, "Request Timeout");
}

#[test]
fn not_found_and_too_large_messages() {
    let reply = handle_rejection(Rejection::Protocol(ProtocolError::UnknownTag));
    assert_eq!(reply.status.code(), 404);
    assert_eq!(reply.message, "Not Found");
    let reply = handle_rejection(Rejection::Protocol(ProtocolError::PayloadTooLarge));
    assert_eq!(reply.status.code(), 413);
    assert_eq!(reply.message, "Payload too large");
}

#[test]
fn reply_for_a_stored_upload_is_created() {
    let reply = reply_for(Ok(()));
    assert_eq!(reply.status, ResponseStatus::Created);
    assert_eq!(reply.message, "");
    assert!(reply.message.is_empty());
    let reply = reply_for(Err(Rejection::Io(IoError::Write)));
    assert_eq!(reply.status, ResponseStatus::InternalError);
}

#[test]
fn fatal_and_local_failures() {
    assert!(Failure::Config(ConfigError::NoTransportAddress).is_fatal());
    assert!(Failure::Config(ConfigError::DuplicateName { index: 1 }).is_fatal());
    assert!(Failure::Transport(TransportError::Timeout).is_fatal());
    assert!(Failure::Transport(TransportError::Refused).is_fatal());
    assert!(Failure::State(StateError::AlreadyCompleted { index: 0 }).is_fatal());
    assert!(!Failure::Protocol(ProtocolError::UnknownTag).is_fatal());
    assert!(!Failure::Protocol(ProtocolError::PayloadTooLarge).is_fatal());
    assert!(!Failure::Io(IoError::Rename).is_fatal());
    assert!(!Failure::Io(IoError::Stalled).is_fatal());
}

#[test]
fn a_rejection_is_a_local_failure() {
    let failure = Rejection::Protocol(ProtocolError::AlreadyCompleted).as_failure();
    assert_eq!(failure, Failure::Protocol(ProtocolError::AlreadyCompleted));
    assert!(!failure.is_fatal());
    let failure = Rejection::Io(IoError::SetOwner).as_failure();
    assert_eq!(failure, Failure::Io(IoError::SetOwner));
    assert!(!failure.is_fatal());
}
