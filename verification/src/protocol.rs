//! The wire protocol: one operation, "upload a secret by tag".
//!
//! A request names its target as `/secrets/<tag>`, declares the length of its
//! body and carries the secret's bytes. The answer is one of a small set of
//! status classes.

use vstd::prelude::*;
use vstd::string::*;
use crate::error::{IoError, ProtocolError, Rejection};

verus! {

/// The characters every upload target starts with.
pub open spec fn upload_prefix() -> Seq<char> {
    seq!['/', 's', 'e', 'c', 'r', 'e', 't', 's', '/']
}

/// Whether `path` addresses an upload.
pub open spec fn has_upload_prefix(path: Seq<char>) -> bool {
    path.len() >= upload_prefix().len() && path.subrange(0, upload_prefix().len() as int)
        == upload_prefix()
}

/// The tag a request path addresses: whatever follows the upload prefix.
pub open spec fn tag_of_path(path: Seq<char>) -> Option<Seq<char>> {
    if has_upload_prefix(path) {
        Some(path.subrange(upload_prefix().len() as int, path.len() as int))
    } else {
        None
    }
}

/// The request path that addresses `tag`.
pub open spec fn path_of_tag(tag: Seq<char>) -> Seq<char> {
    upload_prefix() + tag
}

/// Extracts the tag from a request path.
///
/// The tag is everything behind `/secrets/`; it may be empty and may hold
/// further slashes. A path without that prefix addresses no upload.
pub fn parse_tag(path: &str) -> (tag: Option<&str>)
    ensures
        match tag {
            Some(t) => tag_of_path(path@) == Some(t@),
            None => tag_of_path(path@) is None,
        },
{
    let prefix = "/secrets/";
    proof {
        reveal_strlit("/secrets/");
        assert(prefix@ =~= upload_prefix());
    }
    let n: usize = path.unicode_len();
    if n < 9 {
        return None;
    }
    let mut i: usize = 0;
    while i < 9
        invariant
            i <= 9,
            9 <= n,
            n == path@.len(),
            prefix@ == upload_prefix(),
            forall|k: int| 0 <= k < i ==> path@[k] == upload_prefix()[k],
        decreases 9 - i,
    {
        if path.get_char(i) != prefix.get_char(i) {
            proof {
                assert(path@.subrange(0, 9)[i as int] == path@[i as int]);
            }
            return None;
        }
        i += 1;
    }
    proof {
        assert(path@.subrange(0, 9) =~= upload_prefix());
    }
    Some(path.substring_char(9, n))
}

/// Builds the request path for a tag.
pub fn upload_path(tag: &str) -> (path: String)
    ensures
        path@ == path_of_tag(tag@),
{
    proof {
        reveal_strlit("/secrets/");
        assert("/secrets/"@ =~= upload_prefix());
    }
    let mut path = "/secrets/".to_owned();
    path.append(tag);
    path
}

/// A path built for a tag is parsed back to that tag, whatever the tag holds.
pub proof fn lemma_path_round_trip(tag: Seq<char>)
    ensures
        tag_of_path(path_of_tag(tag)) == Some(tag),
{
    let path = path_of_tag(tag);
    assert(path.subrange(0, 9) =~= upload_prefix());
    assert(path.subrange(9, path.len() as int) =~= tag);
}

/// A path that addresses an upload is rebuilt from its tag.
pub proof fn lemma_tag_round_trip(path: Seq<char>)
    requires
        tag_of_path(path) is Some,
    ensures
        path_of_tag(tag_of_path(path)->0) == path,
{
    assert(path_of_tag(tag_of_path(path)->0) =~= path);
}

/// The status classes of an answer.
#[derive(Clone, Copy, Debug, PartialEq, Eq, Structural)]
pub enum ResponseStatus {
    /// The secret was stored.
    Created,
    /// The request addresses no secret of the manifest.
    NotFound,
    /// The body exceeds the configured maximum.
    PayloadTooLarge,
    /// The secret was already received, or is being received.
    Conflict,
    /// Storing the secret failed locally.
    InternalError,
    /// The body stalled for longer than the idle window.
    Timeout,
}

impl ResponseStatus {
    /// The numeric status code.
    pub open spec fn number(self) -> u16 {
        match self {
            ResponseStatus::Created => 201,
            ResponseStatus::NotFound => 404,
            ResponseStatus::PayloadTooLarge => 413,
            ResponseStatus::Conflict => 409,
            ResponseStatus::InternalError => 500,
            ResponseStatus::Timeout => 408,
        }
    }

    /// The status class that a numeric code stands for, if it is one of ours.
    pub open spec fn of_number(code: u16) -> Option<ResponseStatus> {
        if code == 201 {
            Some(ResponseStatus::Created)
        } else if code == 404 {
            Some(ResponseStatus::NotFound)
        } else if code == 413 {
            Some(ResponseStatus::PayloadTooLarge)
        } else if code == 409 {
            Some(ResponseStatus::Conflict)
        } else if code == 500 {
            Some(ResponseStatus::InternalError)
        } else if code == 408 {
            Some(ResponseStatus::Timeout)
        } else {
            None
        }
    }

    /// The text sent along with the status. An upload that was stored is
    /// answered with the status alone.
    pub open spec fn phrase(self) -> Seq<char> {
        match self {
            ResponseStatus::Created => ""@,
            ResponseStatus::NotFound => "Not Found"@,
            ResponseStatus::PayloadTooLarge => "Payload too large"@,
            ResponseStatus::Conflict => "Conflict"@,
            ResponseStatus::InternalError => "Internal Server Error"@,
            ResponseStatus::Timeout => "Request Timeout"@,
        }
    }

    /// The numeric status code.
    pub fn code(&self) -> (code: u16)
        ensures
            code == self.number(),
            ResponseStatus::of_number(code) == Some(*self),
    {
        match self {
            ResponseStatus::Created => 201,
            ResponseStatus::NotFound => 404,
            ResponseStatus::PayloadTooLarge => 413,
            ResponseStatus::Conflict => 409,
            ResponseStatus::InternalError => 500,
            ResponseStatus::Timeout => 408,
        }
    }

    /// Reads a numeric status code.
    pub fn from_code(code: u16) -> (status: Option<ResponseStatus>)
        ensures
            status == ResponseStatus::of_number(code),
            status matches Some(s) ==> s.number() == code,
    {
        if code == 201 {
            Some(ResponseStatus::Created)
        } else if code == 404 {
            Some(ResponseStatus::NotFound)
        } else if code == 413 {
            Some(ResponseStatus::PayloadTooLarge)
        } else if code == 409 {
            Some(ResponseStatus::Conflict)
        } else if code == 500 {
            Some(ResponseStatus::InternalError)
        } else if code == 408 {
            Some(ResponseStatus::Timeout)
        } else {
            None
        }
    }

    /// The text sent along with the status.
    pub fn reason(&self) -> (text: &'static str)
        ensures
            text@ == self.phrase(),
    {
        match self {
            ResponseStatus::Created => "",
            ResponseStatus::NotFound => "Not Found",
            ResponseStatus::PayloadTooLarge => "Payload too large",
            ResponseStatus::Conflict => "Conflict",
            ResponseStatus::InternalError => "Internal Server Error",
            ResponseStatus::Timeout => "Request Timeout",
        }
    }
}

/// The status that answers a rejected upload.
pub open spec fn status_of_rejection(rejection: Rejection) -> ResponseStatus {
    match rejection {
        Rejection::Protocol(ProtocolError::UnknownTarget) => ResponseStatus::NotFound,
        Rejection::Protocol(ProtocolError::UnknownTag) => ResponseStatus::NotFound,
        Rejection::Protocol(ProtocolError::PayloadTooLarge) => ResponseStatus::PayloadTooLarge,
        Rejection::Protocol(ProtocolError::AlreadyCompleted) => ResponseStatus::Conflict,
        Rejection::Protocol(ProtocolError::UploadInFlight) => ResponseStatus::Conflict,
        Rejection::Io(IoError::Stalled) => ResponseStatus::Timeout,
        Rejection::Io(_) => ResponseStatus::InternalError,
    }
}

/// The status that answers an upload, stored or rejected.
pub open spec fn status_of_end(end: Result<(), Rejection>) -> ResponseStatus {
    match end {
        Ok(_) => ResponseStatus::Created,
        Err(rejection) => status_of_rejection(rejection),
    }
}

/// What is sent back: a status and a short text, empty for `Created`.
#[derive(Debug)]
pub struct Reply {
    pub status: ResponseStatus,
    pub message: String,
}

/// Turns a rejection into the answer for the peer.
pub fn handle_rejection(rejection: Rejection) -> (reply: Reply)
    ensures
        reply.status == status_of_rejection(rejection),
        reply.message@ == reply.status.phrase(),
        reply.status != ResponseStatus::Created,
{
    let status = match rejection {
        Rejection::Protocol(ProtocolError::UnknownTarget) => ResponseStatus::NotFound,
        Rejection::Protocol(ProtocolError::UnknownTag) => ResponseStatus::NotFound,
        Rejection::Protocol(ProtocolError::PayloadTooLarge) => ResponseStatus::PayloadTooLarge,
        Rejection::Protocol(ProtocolError::AlreadyCompleted) => ResponseStatus::Conflict,
        Rejection::Protocol(ProtocolError::UploadInFlight) => ResponseStatus::Conflict,
        Rejection::Io(IoError::Stalled) => ResponseStatus::Timeout,
        Rejection::Io(_) => ResponseStatus::InternalError,
    };
    Reply { status, message: status.reason().to_owned() }
}

/// Turns the end of an upload into the answer for the peer.
pub fn reply_for(end: Result<(), Rejection>) -> (reply: Reply)
    ensures
        reply.status == status_of_end(end),
        reply.message@ == reply.status.phrase(),
        reply.status == ResponseStatus::Created <==> end is Ok,
{
    match end {
        Ok(_) => Reply {
            status: ResponseStatus::Created,
            message: ResponseStatus::Created.reason().to_owned(),
        },
        Err(rejection) => handle_rejection(rejection),
    }
}

} // verus!
