//! One request from arrival to answer: what it does to the record of the
//! run and to the files under the destination paths.
//!
//! This puts together the decision on the request, the steps of the upload
//! and the hand-back of the upload, and states what holds of the whole.

use vstd::prelude::*;
use crate::error::{ProtocolError, Rejection};
use crate::manifest::{lemma_position_of_unique, names_unique, position_of, SecretView};
use crate::protocol::{
    lemma_path_round_trip, path_of_tag, status_of_end, status_of_rejection, tag_of_path,
    ResponseStatus,
};
use crate::server::{
    admission, declared_mode, lemma_admitted_request, lemma_unknown_tag_is_not_found, settlement,
    Method,
};
use crate::state::{claim, complete, release, StateError, TagState};
use crate::storage::{
    all_truthful, lemma_run_coherent, published_file, run, Disk, FileModel, Report,
};
use crate::upload::{end_of, finished, start, Identity, Transfer};

verus! {

/// What the receiver holds and what lies under its destination paths.
pub struct World {
    /// The secrets of the manifest.
    pub manifest: Seq<SecretView>,
    /// The largest declared length that is let in.
    pub limit: u32,
    /// The owner and group of each secret's file.
    pub identities: Seq<Identity>,
    /// What has happened to each secret.
    pub states: Seq<TagState>,
    /// What is under the destination path of each secret.
    pub destinations: Seq<Option<FileModel>>,
}

/// The head of a request.
pub struct Request {
    pub method: Method,
    pub path: Seq<char>,
    pub declared: Option<u64>,
}

/// What has come of a request.
pub struct Outcome {
    /// The receiver's world after the request.
    pub world: World,
    /// The status sent to the peer, once there is one.
    pub answer: Option<ResponseStatus>,
    /// The bytes of the body that were accepted.
    pub body: Seq<u8>,
}

/// Whether the record, the identities and the files belong to the
/// manifest: one entry each per secret, and no two secrets of one name.
pub open spec fn fitting(w: World) -> bool {
    &&& names_unique(w.manifest)
    &&& w.identities.len() == w.manifest.len()
    &&& w.states.len() == w.manifest.len()
    &&& w.destinations.len() == w.manifest.len()
}

/// The decision on a request.
pub open spec fn decision(w: World, q: Request) -> Result<int, ProtocolError> {
    admission(w.manifest, w.limit, w.states, q.method, q.path, q.declared)
}

/// The upload that a request starts for the secret at `i`.
pub open spec fn upload_for(w: World, q: Request, i: int) -> Transfer {
    start(q.declared->0, w.identities[i], declared_mode(w.manifest, i))
}

/// The files of one secret as an upload finds them: whatever is under the
/// destination path, and no temporary file.
pub open spec fn at_start(destination: Option<FileModel>) -> Disk {
    Disk {
        temp: None,
        destination,
        buffer: Seq::empty(),
        body: Seq::empty(),
        discard_failed: false,
    }
}

/// What a request leads to, given what its handler reports while it
/// carries out the upload.
///
/// A request that is refused is answered at once and changes nothing. One
/// that is let in claims its secret and goes through the steps of the
/// upload; when the upload is over, a stored upload completes the secret
/// and a failed one releases it.
pub open spec fn serve(w: World, q: Request, reports: Seq<Report>) -> Outcome {
    match decision(w, q) {
        Err(e) => Outcome {
            world: w,
            answer: Some(status_of_rejection(Rejection::Protocol(e))),
            body: Seq::empty(),
        },
        Ok(i) => {
            let (t, d) = run(upload_for(w, q, i), at_start(w.destinations[i]), reports);
            let claimed = claim(w.states, i);
            let states = match end_of(t) {
                None => claimed,
                Some(end) => if end is Ok {
                    complete(claimed, i)
                } else {
                    release(claimed, i)
                },
            };
            let answer = match end_of(t) {
                None => None,
                Some(end) => Some(status_of_end(end)),
            };
            Outcome {
                world: World {
                    states,
                    destinations: w.destinations.update(i, d.destination),
                    ..w
                },
                answer,
                body: d.body,
            }
        },
    }
}

/// The file that the secret at `i` is published as, with `body` for its
/// content: owned as the receiver was told, with the permission bits of
/// the manifest.
pub open spec fn published(w: World, i: int, body: Seq<u8>) -> FileModel {
    published_file(body, w.identities[i], declared_mode(w.manifest, i))
}

/// The outcome of a request that was let in and is over is what handing
/// the upload back to the server gives.
pub proof fn lemma_serve_settles(w: World, q: Request, reports: Seq<Report>, slot: usize)
    requires
        fitting(w),
        decision(w, q) == Ok::<int, ProtocolError>(slot as int),
    ensures
        ({
            let i = slot as int;
            let t = run(upload_for(w, q, i), at_start(w.destinations[i]), reports).0;
            let outcome = serve(w, q, reports);
            finished(t) ==> settlement(claim(w.states, i), slot, t) == Ok::<
                (Seq<TagState>, ResponseStatus),
                StateError,
            >((outcome.world.states, outcome.answer->0))
        }),
{
    lemma_admitted_request(w.manifest, w.limit, w.states, q.method, q.path, q.declared);
}

/// A request never changes the manifest, the limit or the identities, and
/// keeps one record entry and one destination per secret.
pub proof fn lemma_serve_keeps_shape(w: World, q: Request, reports: Seq<Report>)
    requires
        fitting(w),
    ensures
        ({
            let after = serve(w, q, reports).world;
            &&& after.manifest == w.manifest
            &&& after.limit == w.limit
            &&& after.identities == w.identities
            &&& fitting(after)
        }),
{
    match decision(w, q) {
        Err(e) => {},
        Ok(i) => {
            lemma_admitted_request(w.manifest, w.limit, w.states, q.method, q.path, q.declared);
        },
    }
}

/// A request for a tag that the manifest does not hold is answered with
/// Not-Found; the record and every file stay as they were.
pub proof fn lemma_unknown_tag_changes_nothing(w: World, q: Request, reports: Seq<Report>)
    requires
        tag_of_path(q.path) matches Some(tag) ==> forall|i: int|
            0 <= i < w.manifest.len() ==> w.manifest[i].name != tag,
    ensures
        serve(w, q, reports).answer == Some(ResponseStatus::NotFound),
        serve(w, q, reports).world == w,
{
    lemma_unknown_tag_is_not_found(w.manifest, w.limit, w.states, q.method, q.path, q.declared);
}

/// A request for a secret of the manifest whose declared length exceeds
/// the limit, or that declares none, is answered with Payload-Too-Large
/// before any byte of its body is taken; the record and every file stay
/// as they were.
pub proof fn lemma_oversized_changes_nothing(w: World, q: Request, reports: Seq<Report>)
    requires
        q.method == Method::Post,
        tag_of_path(q.path) matches Some(tag) && position_of(w.manifest, tag) is Some,
        q.declared matches Some(length) ==> length > w.limit,
    ensures
        serve(w, q, reports).answer == Some(ResponseStatus::PayloadTooLarge),
        serve(w, q, reports).world == w,
        serve(w, q, reports).body.len() == 0,
{
}

/// Sending a secret again that has been received is answered with
/// Conflict; the record and every file, the one received before among
/// them, stay as they were.
pub proof fn lemma_second_delivery_changes_nothing(
    w: World,
    i: int,
    length: u64,
    reports: Seq<Report>,
)
    requires
        fitting(w),
        0 <= i < w.manifest.len(),
        w.states[i] == TagState::Completed,
        length <= w.limit,
    ensures
        ({
            let again = Request {
                method: Method::Post,
                path: path_of_tag(w.manifest[i].name),
                declared: Some(length),
            };
            &&& serve(w, again, reports).answer == Some(ResponseStatus::Conflict)
            &&& serve(w, again, reports).world == w
        }),
{
    lemma_path_round_trip(w.manifest[i].name);
    lemma_position_of_unique(w.manifest, i);
}

/// A request that is answered with Created has published its body: the
/// destination holds exactly the bytes that were accepted, as many as
/// were declared; the file has the owner and group the receiver holds for
/// the secret and the permission bits the manifest declares; and the
/// secret is completed.
pub proof fn lemma_created_means_published(w: World, q: Request, reports: Seq<Report>)
    requires
        fitting(w),
        all_truthful(reports),
        serve(w, q, reports).answer == Some(ResponseStatus::Created),
    ensures
        ({
            let outcome = serve(w, q, reports);
            &&& decision(w, q) matches Ok(i)
            &&& q.declared matches Some(length)
            &&& q.path == path_of_tag(w.manifest[i].name)
            &&& outcome.world.destinations[i] == Some(published(w, i, outcome.body))
            &&& outcome.body.len() == length
            &&& length <= w.limit
            &&& outcome.world.states[i] == TagState::Completed
        }),
{
    match decision(w, q) {
        Err(e) => {
            assert(status_of_rejection(Rejection::Protocol(e)) != ResponseStatus::Created);
        },
        Ok(i) => {
            lemma_admitted_request(w.manifest, w.limit, w.states, q.method, q.path, q.declared);
            lemma_run_coherent(
                q.declared->0,
                w.identities[i],
                declared_mode(w.manifest, i),
                at_start(w.destinations[i]),
                reports,
            );
            let (t, d) = run(upload_for(w, q, i), at_start(w.destinations[i]), reports);
            match end_of(t) {
                Some(Err(cause)) => {
                    assert(status_of_rejection(cause) != ResponseStatus::Created);
                },
                _ => {},
            }
        },
    }
}

/// At every moment of a request, each destination is either what it was
/// before the request or the complete file of a stored upload; a request
/// that is not answered with Created leaves every destination as it was;
/// and no request touches the destination of another secret.
pub proof fn lemma_destinations_change_atomically(w: World, q: Request, reports: Seq<Report>)
    requires
        fitting(w),
        all_truthful(reports),
    ensures
        ({
            let outcome = serve(w, q, reports);
            &&& outcome.world.destinations.len() == w.destinations.len()
            &&& forall|j: int|
                0 <= j < w.destinations.len() ==> #[trigger] outcome.world.destinations[j]
                    == w.destinations[j] || (outcome.answer == Some(ResponseStatus::Created)
                    && decision(w, q) == Ok::<int, ProtocolError>(j)
                    && outcome.world.destinations[j] == Some(published(w, j, outcome.body)))
            &&& outcome.answer != Some(ResponseStatus::Created) ==> outcome.world.destinations
                == w.destinations
        }),
{
    match decision(w, q) {
        Err(e) => {},
        Ok(i) => {
            lemma_admitted_request(w.manifest, w.limit, w.states, q.method, q.path, q.declared);
            lemma_run_coherent(
                q.declared->0,
                w.identities[i],
                declared_mode(w.manifest, i),
                at_start(w.destinations[i]),
                reports,
            );
            let (t, d) = run(upload_for(w, q, i), at_start(w.destinations[i]), reports);
            let outcome = serve(w, q, reports);
            match end_of(t) {
                Some(Err(cause)) => {
                    assert(status_of_rejection(cause) != ResponseStatus::Created);
                },
                _ => {},
            }
            if !(t.phase is Stored) {
                assert(outcome.world.destinations =~= w.destinations);
            }
        },
    }
}

/// What is held and written for a request never exceeds the configured
/// limit: not the chunk in memory, not the bytes accepted.
pub proof fn lemma_request_within_limit(w: World, q: Request, reports: Seq<Report>)
    requires
        fitting(w),
        all_truthful(reports),
    ensures
        serve(w, q, reports).body.len() <= w.limit,
        decision(w, q) matches Ok(i) ==> run(
            upload_for(w, q, i),
            at_start(w.destinations[i]),
            reports,
        ).1.buffer.len() <= w.limit,
{
    match decision(w, q) {
        Err(e) => {},
        Ok(i) => {
            lemma_admitted_request(w.manifest, w.limit, w.states, q.method, q.path, q.declared);
            lemma_run_coherent(
                q.declared->0,
                w.identities[i],
                declared_mode(w.manifest, i),
                at_start(w.destinations[i]),
                reports,
            );
        },
    }
}

/// A request that fails leaves the record as it was, so that the secret
/// can be sent again, and leaves every other secret alone whatever
/// happens.
pub proof fn lemma_failure_is_local(w: World, q: Request, reports: Seq<Report>)
    requires
        fitting(w),
    ensures
        ({
            let outcome = serve(w, q, reports);
            &&& outcome.world.states.len() == w.states.len()
            &&& outcome.answer is Some && outcome.answer != Some(ResponseStatus::Created)
                ==> outcome.world.states == w.states
            &&& forall|j: int|
                0 <= j < w.states.len() && decision(w, q) != Ok::<int, ProtocolError>(j)
                    ==> #[trigger] outcome.world.states[j] == w.states[j]
        }),
{
    match decision(w, q) {
        Err(e) => {},
        Ok(i) => {
            lemma_admitted_request(w.manifest, w.limit, w.states, q.method, q.path, q.declared);
            let (t, d) = run(upload_for(w, q, i), at_start(w.destinations[i]), reports);
            let outcome = serve(w, q, reports);
            match end_of(t) {
                Some(Err(cause)) => {
                    assert(outcome.world.states =~= w.states);
                },
                _ => {},
            }
        },
    }
}

} // verus!
