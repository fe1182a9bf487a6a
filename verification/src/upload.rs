//! One admitted upload: receiving the body and publishing the file.
//!
//! The upload tells its handler what to do next; the handler does it and
//! reports what happened. The body goes to a temporary file beside the
//! destination, owner and permission bits are set on that file, and only
//! then is it renamed onto the destination. Any failure removes the
//! temporary file.

use vstd::prelude::*;
use crate::error::{IoError, ProtocolError, Rejection};
use crate::protocol::{status_of_rejection, ResponseStatus};

verus! {

/// The permission bits of the temporary file while it is written: access
/// for the current user only.
pub const TEMP_MODE: u32 = 0o600;

/// A user and a group of the receiving host.
#[derive(Clone, Copy, Debug, PartialEq, Eq, Structural)]
pub struct Identity {
    pub uid: u32,
    pub gid: u32,
}

/// Where an upload stands.
#[derive(Clone, Copy, Debug, PartialEq, Eq, Structural)]
pub enum Phase {
    /// The temporary file is being created.
    CreatingTemp,
    /// Body bytes are awaited.
    Receiving,
    /// A chunk of `pending` bytes is being written.
    Writing { pending: u64 },
    /// The whole body is written; ownership is being set.
    SettingOwner,
    /// Permission bits are being set.
    SettingMode,
    /// The temporary file is being renamed onto the destination.
    Publishing,
    /// The temporary file is being removed after a failure.
    Discarding { cause: Rejection },
    /// The destination holds the secret.
    Stored,
    /// The upload has failed.
    Failed { cause: Rejection },
}

/// What the handler reports.
#[derive(Clone, Copy, Debug, PartialEq, Eq, Structural)]
pub enum Event {
    /// The requested action succeeded.
    Done,
    /// The requested action failed.
    Failed,
    /// Body bytes arrived.
    Chunk { length: u64 },
    /// The body has ended.
    EndOfBody,
    /// No body bytes arrived within the idle window.
    Stalled,
    /// The handler is being cancelled.
    Cancelled,
}

/// What the handler is to do next.
#[derive(Clone, Copy, Debug, PartialEq, Eq, Structural)]
pub enum Action {
    /// Create the temporary file with these permission bits. It must not
    /// exist yet.
    CreateTemp { bits: u32 },
    /// Wait for body bytes, an end of body, or the idle window to pass.
    ReadBody,
    /// Append the chunk just received to the temporary file.
    Write { length: u64 },
    /// Give the temporary file this owner and this group.
    SetOwner { uid: u32, gid: u32 },
    /// Give the temporary file these permission bits.
    SetMode { bits: u32 },
    /// Rename the temporary file onto the destination.
    Rename,
    /// Remove the temporary file.
    Discard,
    /// Answer the peer; the upload is over.
    Respond { status: ResponseStatus },
}

/// An upload as contracts see it.
pub struct Transfer {
    /// The declared length of the body.
    pub declared: u64,
    /// The number of body bytes written so far.
    pub received: u64,
    /// Where the upload stands.
    pub phase: Phase,
    /// The owner and group that the file is to have.
    pub owner: Identity,
    /// The permission bits that the file is to have.
    pub mode: u32,
}

/// An upload that has just been admitted.
pub open spec fn start(declared: u64, owner: Identity, mode: u32) -> Transfer {
    Transfer { declared, received: 0, phase: Phase::CreatingTemp, owner, mode }
}

/// Whether the upload is over.
pub open spec fn finished(t: Transfer) -> bool {
    t.phase is Stored || t.phase is Failed
}

/// How a finished upload ended.
pub open spec fn end_of(t: Transfer) -> Option<Result<(), Rejection>> {
    match t.phase {
        Phase::Stored => Some(Ok(())),
        Phase::Failed { cause } => Some(Err(cause)),
        _ => None,
    }
}

/// The upload in another phase.
pub open spec fn moved(t: Transfer, phase: Phase) -> Transfer {
    Transfer { phase, ..t }
}

/// The upload on its way out after a local failure: the temporary file is
/// to be removed.
pub open spec fn discarding(t: Transfer, cause: IoError) -> Transfer {
    moved(t, Phase::Discarding { cause: Rejection::Io(cause) })
}

/// Whether `length` more bytes fit within the declared length.
pub open spec fn fits(t: Transfer, length: u64) -> bool {
    t.received <= t.declared && length <= t.declared - t.received
}

/// The upload after the handler reported `e`. A report that means nothing
/// in the current phase changes nothing.
pub open spec fn step(t: Transfer, e: Event) -> Transfer {
    match t.phase {
        Phase::CreatingTemp => match e {
            Event::Done => moved(t, Phase::Receiving),
            Event::Failed => moved(t, Phase::Failed { cause: Rejection::Io(IoError::Create) }),
            Event::Cancelled => discarding(t, IoError::Cancelled),
            _ => t,
        },
        Phase::Receiving => match e {
            Event::Chunk { length } => if fits(t, length) {
                moved(t, Phase::Writing { pending: length })
            } else {
                moved(
                    t,
                    Phase::Discarding { cause: Rejection::Protocol(ProtocolError::PayloadTooLarge) },
                )
            },
            Event::EndOfBody => if t.received == t.declared {
                moved(t, Phase::SettingOwner)
            } else {
                discarding(t, IoError::Truncated)
            },
            Event::Failed => discarding(t, IoError::Read),
            Event::Stalled => discarding(t, IoError::Stalled),
            Event::Cancelled => discarding(t, IoError::Cancelled),
            Event::Done => t,
        },
        Phase::Writing { pending } => match e {
            Event::Done => if fits(t, pending) {
                Transfer { received: (t.received + pending) as u64, phase: Phase::Receiving, ..t }
            } else {
                discarding(t, IoError::Write)
            },
            Event::Failed => discarding(t, IoError::Write),
            Event::Cancelled => discarding(t, IoError::Cancelled),
            _ => t,
        },
        Phase::SettingOwner => match e {
            Event::Done => moved(t, Phase::SettingMode),
            Event::Failed => discarding(t, IoError::SetOwner),
            Event::Cancelled => discarding(t, IoError::Cancelled),
            _ => t,
        },
        Phase::SettingMode => match e {
            Event::Done => moved(t, Phase::Publishing),
            Event::Failed => discarding(t, IoError::SetMode),
            Event::Cancelled => discarding(t, IoError::Cancelled),
            _ => t,
        },
        Phase::Publishing => match e {
            Event::Done => moved(t, Phase::Stored),
            Event::Failed => discarding(t, IoError::Rename),
            Event::Cancelled => discarding(t, IoError::Cancelled),
            _ => t,
        },
        Phase::Discarding { cause } => match e {
            Event::Done => moved(t, Phase::Failed { cause }),
            Event::Failed => moved(t, Phase::Failed { cause }),
            _ => t,
        },
        Phase::Stored => t,
        Phase::Failed { cause } => t,
    }
}

/// What the handler is to do in the current phase.
pub open spec fn action_of(t: Transfer) -> Action {
    match t.phase {
        Phase::CreatingTemp => Action::CreateTemp { bits: TEMP_MODE },
        Phase::Receiving => Action::ReadBody,
        Phase::Writing { pending } => Action::Write { length: pending },
        Phase::SettingOwner => Action::SetOwner { uid: t.owner.uid, gid: t.owner.gid },
        Phase::SettingMode => Action::SetMode { bits: t.mode },
        Phase::Publishing => Action::Rename,
        Phase::Discarding { cause } => Action::Discard,
        Phase::Stored => Action::Respond { status: ResponseStatus::Created },
        Phase::Failed { cause } => Action::Respond { status: status_of_rejection(cause) },
    }
}

/// An admitted upload. The server hands it out on admission and takes it
/// back when it is over.
#[derive(Debug)]
pub struct Upload {
    index: usize,
    declared: u64,
    received: u64,
    phase: Phase,
    owner: Identity,
    mode: u32,
}

impl View for Upload {
    type V = Transfer;

    closed spec fn view(&self) -> Transfer {
        Transfer {
            declared: self.declared,
            received: self.received,
            phase: self.phase,
            owner: self.owner,
            mode: self.mode,
        }
    }
}

impl Upload {
    /// The position in the manifest of the secret that is uploaded.
    pub closed spec fn slot(&self) -> usize {
        self.index
    }

    pub(crate) fn begin(index: usize, declared: u64, owner: Identity, mode: u32) -> (upload: Upload)
        ensures
            upload@ == start(declared, owner, mode),
            upload.slot() == index,
    {
        Upload { index, declared, received: 0, phase: Phase::CreatingTemp, owner, mode }
    }

    /// The position in the manifest of the secret that is uploaded.
    pub fn index(&self) -> (index: usize)
        ensures
            index == self.slot(),
    {
        self.index
    }

    /// The declared length of the body.
    pub fn declared(&self) -> (length: u64)
        ensures
            length == self@.declared,
    {
        self.declared
    }

    /// The number of body bytes written so far.
    pub fn received(&self) -> (length: u64)
        ensures
            length == self@.received,
    {
        self.received
    }

    /// Where the upload stands.
    pub fn phase(&self) -> (phase: Phase)
        ensures
            phase == self@.phase,
    {
        self.phase
    }

    /// How the upload ended, once it is over.
    pub fn end(&self) -> (end: Option<Result<(), Rejection>>)
        ensures
            end == end_of(self@),
            end is Some <==> finished(self@),
    {
        match self.phase {
            Phase::Stored => Some(Ok(())),
            Phase::Failed { cause } => Some(Err(cause)),
            _ => None,
        }
    }

    /// What the handler is to do next.
    pub fn action(&self) -> (action: Action)
        ensures
            action == action_of(self@),
    {
        match self.phase {
            Phase::CreatingTemp => Action::CreateTemp { bits: TEMP_MODE },
            Phase::Receiving => Action::ReadBody,
            Phase::Writing { pending } => Action::Write { length: pending },
            Phase::SettingOwner => Action::SetOwner { uid: self.owner.uid, gid: self.owner.gid },
            Phase::SettingMode => Action::SetMode { bits: self.mode },
            Phase::Publishing => Action::Rename,
            Phase::Discarding { cause: _ } => Action::Discard,
            Phase::Stored => Action::Respond { status: ResponseStatus::Created },
            Phase::Failed { cause } => Action::Respond {
                status: crate::protocol::handle_rejection(cause).status,
            },
        }
    }

    fn fits(&self, length: u64) -> (within: bool)
        ensures
            within == fits(self@, length),
    {
        self.received <= self.declared && length <= self.declared - self.received
    }

    /// Takes the handler's report and moves on.
    pub fn on_event(&mut self, event: Event)
        ensures
            final(self)@ == step(old(self)@, event),
            final(self).slot() == old(self).slot(),
    {
        let next: Phase = match self.phase {
            Phase::CreatingTemp => match event {
                Event::Done => Phase::Receiving,
                Event::Failed => Phase::Failed { cause: Rejection::Io(IoError::Create) },
                Event::Cancelled => Phase::Discarding { cause: Rejection::Io(IoError::Cancelled) },
                _ => Phase::CreatingTemp,
            },
            Phase::Receiving => match event {
                Event::Chunk { length } => if self.fits(length) {
                    Phase::Writing { pending: length }
                } else {
                    Phase::Discarding { cause: Rejection::Protocol(ProtocolError::PayloadTooLarge) }
                },
                Event::EndOfBody => if self.received == self.declared {
                    Phase::SettingOwner
                } else {
                    Phase::Discarding { cause: Rejection::Io(IoError::Truncated) }
                },
                Event::Failed => Phase::Discarding { cause: Rejection::Io(IoError::Read) },
                Event::Stalled => Phase::Discarding { cause: Rejection::Io(IoError::Stalled) },
                Event::Cancelled => Phase::Discarding { cause: Rejection::Io(IoError::Cancelled) },
                Event::Done => Phase::Receiving,
            },
            Phase::Writing { pending } => match event {
                Event::Done => if self.fits(pending) {
                    self.received = self.received + pending;
                    Phase::Receiving
                } else {
                    Phase::Discarding { cause: Rejection::Io(IoError::Write) }
                },
                Event::Failed => Phase::Discarding { cause: Rejection::Io(IoError::Write) },
                Event::Cancelled => Phase::Discarding { cause: Rejection::Io(IoError::Cancelled) },
                _ => Phase::Writing { pending },
            },
            Phase::SettingOwner => match event {
                Event::Done => Phase::SettingMode,
                Event::Failed => Phase::Discarding { cause: Rejection::Io(IoError::SetOwner) },
                Event::Cancelled => Phase::Discarding { cause: Rejection::Io(IoError::Cancelled) },
                _ => Phase::SettingOwner,
            },
            Phase::SettingMode => match event {
                Event::Done => Phase::Publishing,
                Event::Failed => Phase::Discarding { cause: Rejection::Io(IoError::SetMode) },
                Event::Cancelled => Phase::Discarding { cause: Rejection::Io(IoError::Cancelled) },
                _ => Phase::SettingMode,
            },
            Phase::Publishing => match event {
                Event::Done => Phase::Stored,
                Event::Failed => Phase::Discarding { cause: Rejection::Io(IoError::Rename) },
                Event::Cancelled => Phase::Discarding { cause: Rejection::Io(IoError::Cancelled) },
                _ => Phase::Publishing,
            },
            Phase::Discarding { cause } => match event {
                Event::Done => Phase::Failed { cause },
                Event::Failed => Phase::Failed { cause },
                _ => Phase::Discarding { cause },
            },
            Phase::Stored => Phase::Stored,
            Phase::Failed { cause } => Phase::Failed { cause },
        };
        self.phase = next;
    }
}

} // verus!
