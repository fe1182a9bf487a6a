//! What the actions of an upload do to the files, and what follows from
//! the order in which they are asked for.
//!
//! The files are modelled, not touched: a handler that performs each
//! action it is asked for, and reports truthfully, moves the real files as
//! the model moves its own.

use vstd::prelude::*;
use crate::error::{IoError, Rejection};
use crate::protocol::{status_of_rejection, ResponseStatus};
use crate::upload::{
    action_of, finished, fits, start, step, Action, Event, Identity, Phase, Transfer, TEMP_MODE,
};

verus! {

/// A file as far as the protocol cares: its content, its owner and group
/// where they have been set, and its permission bits.
pub struct FileModel {
    pub content: Seq<u8>,
    /// The owner and group given to the file, or none while it belongs to
    /// the receiving process.
    pub owner: Option<Identity>,
    pub mode: u32,
}

/// The files an upload touches and the bytes it holds.
pub struct Disk {
    /// The temporary file, if it exists.
    pub temp: Option<FileModel>,
    /// The file under the destination path, if it exists.
    pub destination: Option<FileModel>,
    /// The chunk that has arrived and is not yet written.
    pub buffer: Seq<u8>,
    /// Every byte of the body that has been accepted, in order.
    pub body: Seq<u8>,
    /// Whether removing the temporary file has ever failed.
    pub discard_failed: bool,
}

/// What the handler reports, together with the bytes that arrived if it
/// reports a chunk.
pub struct Report {
    pub event: Event,
    pub data: Seq<u8>,
}

/// Whether a report of a chunk states the chunk's true length.
pub open spec fn truthful(report: Report) -> bool {
    report.event matches Event::Chunk { length } ==> report.data.len() == length
}

/// Whether every report of a sequence is truthful.
pub open spec fn all_truthful(reports: Seq<Report>) -> bool {
    forall|i: int| 0 <= i < reports.len() ==> truthful(#[trigger] reports[i])
}

/// The files before an upload: no temporary file, nothing received.
pub open spec fn untouched(d: Disk) -> bool {
    d.temp is None && d.buffer.len() == 0 && d.body.len() == 0 && !d.discard_failed
}

/// The file that a successful upload publishes.
pub open spec fn published_file(body: Seq<u8>, owner: Identity, mode: u32) -> FileModel {
    FileModel { content: body, owner: Some(owner), mode }
}

/// The temporary file while `content` has been written to it: it belongs
/// to the receiving process and is open to nobody else.
pub open spec fn partial_file(content: Seq<u8>) -> FileModel {
    FileModel { content, owner: None, mode: TEMP_MODE }
}

/// The temporary file once it has been handed to its owner: still open to
/// nobody else.
pub open spec fn owned_file(content: Seq<u8>, owner: Identity) -> FileModel {
    FileModel { content, owner: Some(owner), mode: TEMP_MODE }
}

/// The files after the handler performed the action of `t` and made the
/// report `r`. Only a successful action changes a file; a chunk that is
/// accepted is held until it is written.
pub open spec fn effect(d: Disk, t: Transfer, r: Report) -> Disk {
    match (t.phase, r.event) {
        (Phase::CreatingTemp, Event::Done) => Disk {
            temp: Some(partial_file(Seq::empty())),
            ..d
        },
        (Phase::Receiving, Event::Chunk { length }) => if fits(t, length) {
            Disk { buffer: r.data, body: d.body + r.data, ..d }
        } else {
            d
        },
        (Phase::Writing { pending }, Event::Done) => match d.temp {
            Some(f) => Disk {
                temp: Some(FileModel { content: f.content + d.buffer, ..f }),
                buffer: Seq::empty(),
                ..d
            },
            None => d,
        },
        (Phase::SettingOwner, Event::Done) => match d.temp {
            Some(f) => Disk { temp: Some(FileModel { owner: Some(t.owner), ..f }), ..d },
            None => d,
        },
        (Phase::SettingMode, Event::Done) => match d.temp {
            Some(f) => Disk { temp: Some(FileModel { mode: t.mode, ..f }), ..d },
            None => d,
        },
        (Phase::Publishing, Event::Done) => Disk { temp: None, destination: d.temp, ..d },
        (Phase::Discarding { cause }, Event::Done) => Disk { temp: None, ..d },
        (Phase::Discarding { cause }, Event::Failed) => Disk { discard_failed: true, ..d },
        _ => d,
    }
}

/// The upload and the files after a sequence of reports.
pub open spec fn run(t: Transfer, d: Disk, reports: Seq<Report>) -> (Transfer, Disk)
    decreases reports.len(),
{
    if reports.len() == 0 {
        (t, d)
    } else {
        let (before, disk) = run(t, d, reports.drop_last());
        (step(before, reports.last().event), effect(disk, before, reports.last()))
    }
}

/// Whether a file is fit to be seen by others than the receiving process:
/// a file that is open to more than its creator has its final owner.
pub open spec fn guarded(f: FileModel, owner: Identity) -> bool {
    f.mode == TEMP_MODE || f.owner == Some(owner)
}

/// What holds of the files in each phase of an upload that started with
/// the files `initial`.
pub open spec fn coherent(t: Transfer, d: Disk, initial: Disk) -> bool {
    &&& t.phase is Stored ==> d.destination == Some(published_file(d.body, t.owner, t.mode))
        && d.temp is None && d.body.len() == t.declared
    &&& !(t.phase is Stored) ==> d.destination == initial.destination
    &&& t.phase is CreatingTemp ==> d.temp is None && t.received == 0 && d.body.len() == 0
        && d.buffer.len() == 0
    &&& t.phase is Receiving ==> d.temp == Some(partial_file(d.body)) && d.body.len()
        == t.received && t.received <= t.declared && d.buffer.len() == 0
    &&& t.phase matches Phase::Writing { pending } ==> {
        &&& d.temp matches Some(f)
        &&& f.content + d.buffer == d.body
        &&& f.content.len() == t.received
        &&& f.owner is None
        &&& f.mode == TEMP_MODE
        &&& d.buffer.len() == pending
        &&& fits(t, pending)
    }
    &&& t.phase is SettingOwner ==> d.temp == Some(partial_file(d.body)) && d.body.len()
        == t.declared
    &&& t.phase is SettingMode ==> d.temp == Some(owned_file(d.body, t.owner)) && d.body.len()
        == t.declared
    &&& t.phase is Publishing ==> d.temp == Some(published_file(d.body, t.owner, t.mode))
        && d.body.len() == t.declared
    &&& t.phase is Failed ==> d.temp is None || d.discard_failed
    &&& d.discard_failed ==> initial.discard_failed || t.phase is Failed
    &&& d.buffer.len() <= t.declared
    &&& d.body.len() <= t.declared
    &&& d.temp matches Some(f) ==> f.content.len() <= d.body.len() && guarded(f, t.owner)
}

/// Each truthful report keeps the files in step with the phase, and
/// leaves the declared length, the owner and the permission bits of the
/// upload as they are.
pub proof fn lemma_step_coherent(t: Transfer, d: Disk, initial: Disk, r: Report)
    requires
        coherent(t, d, initial),
        truthful(r),
    ensures
        coherent(step(t, r.event), effect(d, t, r), initial),
        step(t, r.event).declared == t.declared,
        step(t, r.event).owner == t.owner,
        step(t, r.event).mode == t.mode,
{
    match t.phase {
        Phase::CreatingTemp => {
            assert(d.body =~= Seq::<u8>::empty());
        },
        Phase::Receiving => {
            match r.event {
                Event::Chunk { length } => {
                    if fits(t, length) {
                        assert(partial_file(d.body).content + r.data == d.body + r.data);
                    }
                },
                _ => {},
            }
        },
        Phase::Writing { pending } => {
            assert(fits(t, pending));
            match r.event {
                Event::Done => {
                    let f = d.temp->0;
                    assert(FileModel { content: f.content + d.buffer, ..f } == partial_file(d.body));
                },
                _ => {},
            }
        },
        Phase::SettingOwner => {},
        Phase::SettingMode => {},
        Phase::Publishing => {},
        Phase::Discarding { cause } => {},
        Phase::Stored => {},
        Phase::Failed { cause } => {},
    }
}

/// Whatever is reported, in whatever order, the files stay in step with
/// the phase.
pub proof fn lemma_run_coherent(
    declared: u64,
    owner: Identity,
    mode: u32,
    initial: Disk,
    reports: Seq<Report>,
)
    requires
        untouched(initial),
        all_truthful(reports),
    ensures
        ({
            let (t, d) = run(start(declared, owner, mode), initial, reports);
            &&& coherent(t, d, initial)
            &&& t.declared == declared
            &&& t.owner == owner
            &&& t.mode == mode
        }),
    decreases reports.len(),
{
    if reports.len() > 0 {
        let front = reports.drop_last();
        assert forall|i: int| 0 <= i < front.len() implies truthful(#[trigger] front[i]) by {
            assert(front[i] == reports[i]);
        }
        lemma_run_coherent(declared, owner, mode, initial, front);
        let (before, disk) = run(start(declared, owner, mode), initial, front);
        assert(truthful(reports[reports.len() - 1]));
        lemma_step_coherent(before, disk, initial, reports.last());
    }
}

/// Publishing is atomic: at every moment of every upload the destination
/// is either what it was before the upload, or the complete file with the
/// owner, the group and the permission bits it is to have. It is the
/// latter exactly when the upload has ended as stored.
pub proof fn lemma_atomic_publish(
    declared: u64,
    owner: Identity,
    mode: u32,
    initial: Disk,
    reports: Seq<Report>,
)
    requires
        untouched(initial),
        all_truthful(reports),
    ensures
        ({
            let (t, d) = run(start(declared, owner, mode), initial, reports);
            &&& t.phase is Stored ==> (d.destination matches Some(f) && f.owner == Some(owner)
                && f.mode == mode && f.content.len() == declared)
            &&& !(t.phase is Stored) ==> d.destination == initial.destination
        }),
{
    lemma_run_coherent(declared, owner, mode, initial, reports);
}

/// The published file holds the body: every byte that was accepted, in
/// the order of arrival, and as many bytes as were declared.
pub proof fn lemma_published_content(
    declared: u64,
    owner: Identity,
    mode: u32,
    initial: Disk,
    reports: Seq<Report>,
)
    requires
        untouched(initial),
        all_truthful(reports),
    ensures
        ({
            let (t, d) = run(start(declared, owner, mode), initial, reports);
            t.phase is Stored ==> d.destination == Some(published_file(d.body, owner, mode))
                && d.body.len() == declared
        }),
{
    lemma_run_coherent(declared, owner, mode, initial, reports);
}

/// No file is ever open to others before it belongs to its owner: while
/// the temporary file exists, it either has the bits that shut everybody
/// else out, or its owner and group are already the final ones.
pub proof fn lemma_never_exposed(
    declared: u64,
    owner: Identity,
    mode: u32,
    initial: Disk,
    reports: Seq<Report>,
)
    requires
        untouched(initial),
        all_truthful(reports),
    ensures
        ({
            let (t, d) = run(start(declared, owner, mode), initial, reports);
            &&& d.temp matches Some(f) ==> guarded(f, owner)
            &&& d.destination == initial.destination || d.destination == Some(
                published_file(d.body, owner, mode),
            )
        }),
{
    lemma_run_coherent(declared, owner, mode, initial, reports);
}

/// No partial file is left behind: when an upload is over and no removal
/// has failed, the temporary file is gone.
pub proof fn lemma_no_leftover(
    declared: u64,
    owner: Identity,
    mode: u32,
    initial: Disk,
    reports: Seq<Report>,
)
    requires
        untouched(initial),
        all_truthful(reports),
    ensures
        ({
            let (t, d) = run(start(declared, owner, mode), initial, reports);
            finished(t) && !d.discard_failed ==> d.temp is None
        }),
{
    lemma_run_coherent(declared, owner, mode, initial, reports);
}

/// An upload that is over stays as it is, and so do the files.
pub proof fn lemma_finished_is_final(t: Transfer, d: Disk, r: Report)
    requires
        finished(t),
    ensures
        step(t, r.event) == t,
        effect(d, t, r) == d,
{
}

/// The rename is asked for only after the whole body was written and both
/// owner and permission bits were set.
pub proof fn lemma_rename_comes_last(
    declared: u64,
    owner: Identity,
    mode: u32,
    initial: Disk,
    reports: Seq<Report>,
)
    requires
        untouched(initial),
        all_truthful(reports),
    ensures
        ({
            let (t, d) = run(start(declared, owner, mode), initial, reports);
            action_of(t) == Action::Rename ==> d.temp == Some(
                published_file(d.body, owner, mode),
            ) && d.body.len() == declared
        }),
{
    lemma_run_coherent(declared, owner, mode, initial, reports);
}

/// What is received is bounded by what was declared: neither the bytes
/// held in memory, nor the bytes accepted, nor the bytes written ever
/// exceed the declared length, and no more than one chunk is held.
pub proof fn lemma_body_is_bounded(
    declared: u64,
    owner: Identity,
    mode: u32,
    initial: Disk,
    reports: Seq<Report>,
)
    requires
        untouched(initial),
        all_truthful(reports),
    ensures
        ({
            let (t, d) = run(start(declared, owner, mode), initial, reports);
            &&& d.buffer.len() <= declared
            &&& d.body.len() <= declared
            &&& d.temp matches Some(f) ==> f.content.len() <= declared
            &&& action_of(t) == Action::ReadBody ==> d.buffer.len() == 0
        }),
{
    lemma_run_coherent(declared, owner, mode, initial, reports);
}

/// A body that stalls ends the upload: the temporary file is removed and
/// the peer is answered with a timeout.
pub proof fn lemma_stall_aborts(t: Transfer, d: Disk, initial: Disk)
    requires
        coherent(t, d, initial),
        t.phase is Receiving,
    ensures
        ({
            let stalled = Report { event: Event::Stalled, data: Seq::empty() };
            let removed = Report { event: Event::Done, data: Seq::empty() };
            let t1 = step(t, Event::Stalled);
            let d1 = effect(d, t, stalled);
            let t2 = step(t1, Event::Done);
            let d2 = effect(d1, t1, removed);
            &&& action_of(t1) == Action::Discard
            &&& action_of(t2) == Action::Respond { status: ResponseStatus::Timeout }
            &&& t2.phase == Phase::Failed { cause: Rejection::Io(IoError::Stalled) }
            &&& d2.temp is None
            &&& d2.destination == initial.destination
        }),
{
}

/// A handler that is cancelled lets go of its temporary file: from any
/// phase of an upload that is not over, cancelling and then removing the
/// file ends the upload with no temporary file left and the destination
/// as it was.
pub proof fn lemma_cancel_releases(t: Transfer, d: Disk, initial: Disk)
    requires
        coherent(t, d, initial),
        !finished(t),
    ensures
        ({
            let cancelled = Report { event: Event::Cancelled, data: Seq::empty() };
            let removed = Report { event: Event::Done, data: Seq::empty() };
            let t1 = step(t, Event::Cancelled);
            let d1 = effect(d, t, cancelled);
            let t2 = step(t1, Event::Done);
            let d2 = effect(d1, t1, removed);
            &&& action_of(t1) == Action::Discard
            &&& t2.phase is Failed
            &&& d2.temp is None
            &&& d2.destination == initial.destination
        }),
{
}

/// Every failure after the temporary file was created leads to its
/// removal before the peer is answered.
pub proof fn lemma_failure_discards(t: Transfer, e: Event)
    requires
        !finished(t),
        !(t.phase is CreatingTemp),
        step(t, e).phase is Failed,
    ensures
        t.phase is Discarding,
        action_of(t) == Action::Discard,
{
}

/// The answer of a finished upload is `Created` exactly when the file was
/// published.
pub proof fn lemma_created_means_stored(t: Transfer)
    requires
        finished(t),
    ensures
        action_of(t) == (Action::Respond { status: ResponseStatus::Created }) <==> t.phase is Stored,
{
    match t.phase {
        Phase::Failed { cause } => {
            assert(status_of_rejection(cause) != ResponseStatus::Created);
        },
        _ => {},
    }
}

} // verus!
