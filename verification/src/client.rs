//! The sending side: one upload per secret of the manifest.
//!
//! Every secret is attempted once. An upload has succeeded exactly when it
//! was answered with `Created`; anything else is that secret's failure. A
//! failure is never retried and never keeps the other secrets from being
//! sent. The run fails if any secret failed.

use vstd::prelude::*;
use vstd::string::*;
use crate::error::TransportError;
use crate::manifest::{ManifestRegistry, SecretView};
use crate::protocol::{path_of_tag, upload_path};

verus! {

/// The status code that acknowledges an upload.
pub const CREATED: u16 = 201;

/// Why a secret was not delivered.
#[derive(Clone, Copy, Debug, PartialEq, Eq, Structural)]
pub enum SendFailure {
    /// No connection could be made.
    Connect { error: TransportError },
    /// The source file could not be read.
    Source,
    /// The receiver answered with a status other than `Created`.
    Status { code: u16 },
    /// The connection broke before an answer arrived.
    Broken,
}

/// Where the delivery of one secret stands.
#[derive(Clone, Copy, Debug, PartialEq, Eq, Structural)]
pub enum SendState {
    /// Not started.
    Idle,
    /// A connection is being made.
    Connecting,
    /// The request is under way.
    Sending,
    /// The receiver has acknowledged the secret.
    Acknowledged,
    /// The delivery has failed.
    Failed { cause: SendFailure },
}

/// What happened to the delivery of one secret.
#[derive(Clone, Copy, Debug, PartialEq, Eq, Structural)]
pub enum SendEvent {
    /// The connection stands.
    Connected,
    /// No connection could be made.
    ConnectFailed { error: TransportError },
    /// The source file could not be opened or read.
    SourceUnreadable,
    /// The receiver answered.
    Responded { code: u16 },
    /// The connection broke.
    Broken,
}

/// Whether a delivery is under way.
pub open spec fn is_active(s: SendState) -> bool {
    s is Connecting || s is Sending
}

/// Whether a delivery is over.
pub open spec fn is_terminal(s: SendState) -> bool {
    s is Acknowledged || s is Failed
}

/// The delivery after an answer with status `code`: success is exactly
/// `Created`.
pub open spec fn answered(code: u16) -> SendState {
    if code == CREATED {
        SendState::Acknowledged
    } else {
        SendState::Failed { cause: SendFailure::Status { code } }
    }
}

/// One delivery after an event. An event that means nothing in the current
/// state changes nothing; a delivery that is over stays as it is.
pub open spec fn advance(s: SendState, e: SendEvent) -> SendState {
    match s {
        SendState::Connecting => match e {
            SendEvent::Connected => SendState::Sending,
            SendEvent::ConnectFailed { error } => SendState::Failed {
                cause: SendFailure::Connect { error },
            },
            SendEvent::SourceUnreadable => SendState::Failed { cause: SendFailure::Source },
            SendEvent::Broken => SendState::Failed { cause: SendFailure::Broken },
            SendEvent::Responded { code } => s,
        },
        SendState::Sending => match e {
            SendEvent::Responded { code } => answered(code),
            SendEvent::SourceUnreadable => SendState::Failed { cause: SendFailure::Source },
            SendEvent::Broken => SendState::Failed { cause: SendFailure::Broken },
            _ => s,
        },
        _ => s,
    }
}

/// All deliveries after an event for the secret at `i`.
pub open spec fn record(states: Seq<SendState>, i: int, e: SendEvent) -> Seq<SendState> {
    if 0 <= i < states.len() {
        states.update(i, advance(states[i], e))
    } else {
        states
    }
}

/// The number of deliveries under way.
pub open spec fn active(states: Seq<SendState>) -> nat
    decreases states.len(),
{
    if states.len() == 0 {
        0
    } else {
        active(states.drop_last()) + if is_active(states.last()) {
            1nat
        } else {
            0nat
        }
    }
}

/// The first secret at or behind `start` whose delivery has not started.
pub open spec fn first_idle_from(states: Seq<SendState>, start: int) -> Option<int>
    decreases states.len() - start,
{
    if start < 0 || start >= states.len() {
        None
    } else if states[start] is Idle {
        Some(start)
    } else {
        first_idle_from(states, start + 1)
    }
}

/// The secret whose delivery starts next: the first one not started, as
/// long as fewer than `bound` deliveries are under way.
pub open spec fn next_to_send(states: Seq<SendState>, bound: usize) -> Option<int> {
    if active(states) < bound {
        first_idle_from(states, 0)
    } else {
        None
    }
}

/// All deliveries after the next one has started.
pub open spec fn dispatch(states: Seq<SendState>, bound: usize) -> Seq<SendState> {
    match next_to_send(states, bound) {
        Some(i) => states.update(i, SendState::Connecting),
        None => states,
    }
}

/// Whether every delivery is over.
pub open spec fn all_terminal(states: Seq<SendState>) -> bool {
    forall|i: int| 0 <= i < states.len() ==> is_terminal(#[trigger] states[i])
}

/// Whether every secret has been acknowledged.
pub open spec fn all_acknowledged(states: Seq<SendState>) -> bool {
    forall|i: int| 0 <= i < states.len() ==> #[trigger] states[i] is Acknowledged
}

/// The exit code of the sending run: zero only if every secret has been
/// acknowledged.
pub open spec fn outcome_code(states: Seq<SendState>) -> u8 {
    if all_acknowledged(states) {
        0
    } else {
        1
    }
}

/// What is sent for one secret.
#[derive(Debug)]
pub struct UploadPlan {
    /// The request path.
    pub target: String,
    /// The file whose bytes are the body.
    pub source_path: String,
    /// The declared length of the body: the exact size of the file.
    pub declared_length: u64,
}

impl UploadPlan {
    /// What a source file that has been opened and holds `length` bytes
    /// means for the delivery: nothing if that is the declared length; a
    /// file that has changed since its length was taken counts as
    /// unreadable.
    pub open spec fn source_fault(self, length: u64) -> Option<SendEvent> {
        if length == self.declared_length {
            None
        } else {
            Some(SendEvent::SourceUnreadable)
        }
    }

    /// Holds the length of the opened source file against the declared
    /// length.
    pub fn check_source(&self, length: u64) -> (fault: Option<SendEvent>)
        ensures
            fault == self.source_fault(length),
    {
        if length == self.declared_length {
            None
        } else {
            Some(SendEvent::SourceUnreadable)
        }
    }
}

/// Reads the receiver's answer: success is exactly `Created`.
pub fn classify_response(code: u16) -> (state: SendState)
    ensures
        state == answered(code),
        state is Acknowledged <==> code == CREATED,
{
    if code == CREATED {
        SendState::Acknowledged
    } else {
        SendState::Failed { cause: SendFailure::Status { code } }
    }
}

/// The sender's view of one run.
pub struct TransferClient {
    registry: ManifestRegistry,
    bound: usize,
    states: Vec<SendState>,
}

impl TransferClient {
    /// The secrets of the manifest.
    pub closed spec fn manifest(&self) -> Seq<SecretView> {
        self.registry@
    }

    /// The largest number of deliveries under way at once.
    pub closed spec fn bound(&self) -> usize {
        self.bound
    }

    /// Where each delivery stands.
    pub closed spec fn states(&self) -> Seq<SendState> {
        self.states@
    }

    /// The sender's invariant: one delivery per secret.
    pub closed spec fn wf(&self) -> bool {
        &&& self.states@.len() == self.registry@.len()
        &&& self.bound >= 1
    }

    /// A well-formed sender tracks one delivery per secret and lets at
    /// least one run at a time.
    pub proof fn lemma_wf(&self)
        requires
            self.wf(),
        ensures
            self.states().len() == self.manifest().len(),
            self.bound() >= 1,
    {
    }

    /// Sets up the sender. At most `bound` deliveries run at once; a bound
    /// of zero is taken as one.
    pub fn new(registry: ManifestRegistry, bound: usize) -> (client: TransferClient)
        ensures
            client.wf(),
            client.manifest() == registry@,
            client.bound() == (if bound == 0 {
                1usize
            } else {
                bound
            }),
            client.states() == Seq::new(registry@.len(), |i: int| SendState::Idle),
    {
        let n: usize = registry.len();
        let mut states: Vec<SendState> = Vec::new();
        let mut i: usize = 0;
        while i < n
            invariant
                i <= n,
                n == registry@.len(),
                states@.len() == i,
                forall|k: int| 0 <= k < i ==> states@[k] == SendState::Idle,
            decreases n - i,
        {
            states.push(SendState::Idle);
            i += 1;
        }
        proof {
            assert(states@ =~= Seq::new(registry@.len(), |i: int| SendState::Idle));
        }
        TransferClient { registry, bound: if bound == 0 {
            1
        } else {
            bound
        }, states }
    }

    /// The number of deliveries under way.
    pub fn active(&self) -> (count: usize)
        ensures
            count == active(self.states()),
    {
        let n: usize = self.states.len();
        let mut count: usize = 0;
        let mut i: usize = 0;
        while i < n
            invariant
                i <= n,
                n == self.states@.len(),
                count <= i,
                count == active(self.states@.take(i as int)),
            decreases n - i,
        {
            proof {
                assert(self.states@.take(i + 1).drop_last() =~= self.states@.take(i as int));
            }
            match self.states[i] {
                SendState::Connecting => {
                    count += 1;
                },
                SendState::Sending => {
                    count += 1;
                },
                _ => {},
            }
            i += 1;
        }
        proof {
            assert(self.states@.take(n as int) =~= self.states@);
        }
        count
    }

    /// Starts the next delivery, if one may start, and says for which
    /// secret.
    pub fn next(&mut self) -> (started: Option<usize>)
        requires
            old(self).wf(),
        ensures
            final(self).wf(),
            final(self).manifest() == old(self).manifest(),
            final(self).bound() == old(self).bound(),
            final(self).states() == dispatch(old(self).states(), old(self).bound()),
            match started {
                Some(i) => next_to_send(old(self).states(), old(self).bound()) == Some(i as int),
                None => next_to_send(old(self).states(), old(self).bound()) is None,
            },
    {
        if self.active() >= self.bound {
            return None;
        }
        let n: usize = self.states.len();
        let mut i: usize = 0;
        while i < n
            invariant
                i <= n,
                n == self.states@.len(),
                self.wf(),
                self.states@ == old(self).states@,
                self.bound == old(self).bound,
                self.registry == old(self).registry,
                active(self.states@) < self.bound,
                first_idle_from(self.states@, 0) == first_idle_from(self.states@, i as int),
            decreases n - i,
        {
            match self.states[i] {
                SendState::Idle => {
                    self.states.set(i, SendState::Connecting);
                    return Some(i);
                },
                _ => {},
            }
            i += 1;
        }
        None
    }

    /// The validated manifest.
    pub fn registry(&self) -> (registry: &ManifestRegistry)
        ensures
            registry@ == self.manifest(),
    {
        &self.registry
    }

    /// What to send for the secret at `index`, whose source file holds
    /// `file_size` bytes.
    pub fn plan(&self, index: usize, file_size: u64) -> (plan: Option<UploadPlan>)
        ensures
            match plan {
                Some(p) => {
                    &&& index < self.manifest().len()
                    &&& p.target@ == path_of_tag(self.manifest()[index as int].name)
                    &&& p.source_path@ == self.manifest()[index as int].source_path
                    &&& p.declared_length == file_size
                },
                None => index >= self.manifest().len(),
            },
    {
        match self.registry.get(index) {
            Some(secret) => Some(
                UploadPlan {
                    target: upload_path(secret.name.as_str()),
                    source_path: secret.source_path.clone(),
                    declared_length: file_size,
                },
            ),
            None => None,
        }
    }

    /// Takes note of what happened to the delivery of the secret at
    /// `index`.
    pub fn on_event(&mut self, index: usize, event: SendEvent)
        requires
            old(self).wf(),
        ensures
            final(self).wf(),
            final(self).manifest() == old(self).manifest(),
            final(self).bound() == old(self).bound(),
            final(self).states() == record(old(self).states(), index as int, event),
    {
        if index >= self.states.len() {
            return ;
        }
        let current = self.states[index];
        let next: SendState = match current {
            SendState::Connecting => match event {
                SendEvent::Connected => SendState::Sending,
                SendEvent::ConnectFailed { error } => SendState::Failed {
                    cause: SendFailure::Connect { error },
                },
                SendEvent::SourceUnreadable => SendState::Failed { cause: SendFailure::Source },
                SendEvent::Broken => SendState::Failed { cause: SendFailure::Broken },
                SendEvent::Responded { code: _ } => current,
            },
            SendState::Sending => match event {
                SendEvent::Responded { code } => classify_response(code),
                SendEvent::SourceUnreadable => SendState::Failed { cause: SendFailure::Source },
                SendEvent::Broken => SendState::Failed { cause: SendFailure::Broken },
                _ => current,
            },
            _ => current,
        };
        self.states.set(index, next);
    }

    /// Where the delivery of the secret at `index` stands.
    pub fn state(&self, index: usize) -> (state: Option<SendState>)
        ensures
            match state {
                Some(s) => index < self.states().len() && s == self.states()[index as int],
                None => index >= self.states().len(),
            },
    {
        if index < self.states.len() {
            Some(self.states[index])
        } else {
            None
        }
    }

    /// Whether every delivery is over.
    pub fn finished(&self) -> (done: bool)
        ensures
            done == all_terminal(self.states()),
    {
        let n: usize = self.states.len();
        let mut i: usize = 0;
        while i < n
            invariant
                i <= n,
                n == self.states@.len(),
                forall|k: int| 0 <= k < i ==> is_terminal(#[trigger] self.states@[k]),
            decreases n - i,
        {
            match self.states[i] {
                SendState::Acknowledged => {},
                SendState::Failed { cause: _ } => {},
                _ => {
                    assert(!is_terminal(self.states@[i as int]));
                    return false;
                },
            }
            i += 1;
        }
        true
    }

    /// The exit code of the run: zero only if every secret has been
    /// acknowledged.
    pub fn exit_code(&self) -> (code: u8)
        ensures
            code == outcome_code(self.states()),
    {
        let n: usize = self.states.len();
        let mut i: usize = 0;
        while i < n
            invariant
                i <= n,
                n == self.states@.len(),
                forall|k: int| 0 <= k < i ==> #[trigger] self.states@[k] is Acknowledged,
            decreases n - i,
        {
            match self.states[i] {
                SendState::Acknowledged => {},
                _ => {
                    assert(!(self.states@[i as int] is Acknowledged));
                    return 1;
                },
            }
            i += 1;
        }
        0
    }
}

/// What a search from `start` finds is the first delivery not started
/// behind `start`, and it finds nothing only where every delivery has
/// started.
pub proof fn lemma_first_idle_from(states: Seq<SendState>, start: int)
    requires
        0 <= start,
    ensures
        match first_idle_from(states, start) {
            Some(i) => start <= i < states.len() && states[i] is Idle && forall|k: int|
                start <= k < i ==> !(#[trigger] states[k] is Idle),
            None => forall|k: int| start <= k < states.len() ==> !(#[trigger] states[k] is Idle),
        },
    decreases states.len() - start,
{
    if start < states.len() && !(states[start] is Idle) {
        lemma_first_idle_from(states, start + 1);
    }
}

/// Changing one delivery changes the number under way by that delivery
/// alone.
pub proof fn lemma_active_update(states: Seq<SendState>, i: int, s: SendState)
    requires
        0 <= i < states.len(),
    ensures
        active(states.update(i, s)) + (if is_active(states[i]) {
            1nat
        } else {
            0nat
        }) == active(states) + (if is_active(s) {
            1nat
        } else {
            0nat
        }),
    decreases states.len(),
{
    let changed = states.update(i, s);
    if i == states.len() - 1 {
        assert(changed.drop_last() =~= states.drop_last());
    } else {
        assert(changed.drop_last() =~= states.drop_last().update(i, s));
        lemma_active_update(states.drop_last(), i, s);
    }
}

/// No more deliveries are under way than there are secrets.
pub proof fn lemma_active_bound(states: Seq<SendState>)
    ensures
        active(states) <= states.len(),
    decreases states.len(),
{
    if states.len() > 0 {
        lemma_active_bound(states.drop_last());
    }
}

/// Where no delivery is under way, none is counted; where none is counted,
/// none is under way.
pub proof fn lemma_active_zero(states: Seq<SendState>)
    ensures
        active(states) == 0 <==> forall|i: int|
            0 <= i < states.len() ==> !is_active(#[trigger] states[i]),
    decreases states.len(),
{
    if states.len() > 0 {
        lemma_active_zero(states.drop_last());
        let front = states.drop_last();
        if active(states) == 0 {
            assert forall|i: int| 0 <= i < states.len() implies !is_active(
                #[trigger] states[i],
            ) by {
                if i < front.len() {
                    assert(front[i] == states[i]);
                }
            }
        } else {
            if forall|i: int| 0 <= i < states.len() ==> !is_active(#[trigger] states[i]) {
                assert forall|i: int| 0 <= i < front.len() implies !is_active(
                    #[trigger] front[i],
                ) by {
                    assert(front[i] == states[i]);
                }
                assert(!is_active(states[states.len() - 1]));
            }
        }
    }
}

/// The bound is kept: starting a delivery never lets more than `bound`
/// run at once, and an event never raises the number under way.
pub proof fn lemma_bound_is_kept(states: Seq<SendState>, bound: usize, i: int, e: SendEvent)
    requires
        active(states) <= bound,
    ensures
        active(dispatch(states, bound)) <= bound,
        active(record(states, i, e)) <= active(states),
{
    match next_to_send(states, bound) {
        Some(k) => {
            lemma_first_idle_from(states, 0);
            lemma_active_update(states, k, SendState::Connecting);
        },
        None => {},
    }
    if 0 <= i < states.len() {
        lemma_active_update(states, i, advance(states[i], e));
    }
}

/// A delivery that is over is never taken up again: no event and no
/// dispatch changes it.
pub proof fn lemma_no_retry(states: Seq<SendState>, bound: usize, i: int, j: int, e: SendEvent)
    requires
        0 <= i < states.len(),
        is_terminal(states[i]),
    ensures
        record(states, j, e)[i] == states[i],
        dispatch(states, bound)[i] == states[i],
{
    lemma_first_idle_from(states, 0);
}

/// What happens to one delivery leaves every other delivery as it was.
pub proof fn lemma_failures_are_local(states: Seq<SendState>, i: int, j: int, e: SendEvent)
    requires
        0 <= j < states.len(),
        i != j,
    ensures
        record(states, i, e)[j] == states[j],
{
}

/// Every secret is attempted: when nothing can be started and nothing is
/// under way, every delivery is over.
pub proof fn lemma_every_secret_attempted(states: Seq<SendState>, bound: usize)
    requires
        bound >= 1,
        next_to_send(states, bound) is None,
        active(states) == 0,
    ensures
        all_terminal(states),
{
    lemma_first_idle_from(states, 0);
    lemma_active_zero(states);
    assert forall|i: int| 0 <= i < states.len() implies is_terminal(#[trigger] states[i]) by {
        assert(!(states[i] is Idle));
        assert(!is_active(states[i]));
    }
}

/// While a delivery has not started and the bound allows it, one can be
/// started: the run cannot stall with secrets left over.
pub proof fn lemma_progress(states: Seq<SendState>, bound: usize, i: int)
    requires
        0 <= i < states.len(),
        states[i] is Idle,
        active(states) < bound,
    ensures
        next_to_send(states, bound) is Some,
{
    lemma_first_idle_from(states, 0);
}

/// The run succeeds exactly when every secret was acknowledged: a single
/// failure makes the exit code non-zero.
pub proof fn lemma_any_failure_fails_the_run(states: Seq<SendState>, i: int)
    requires
        0 <= i < states.len(),
        states[i] is Failed,
    ensures
        outcome_code(states) != 0,
{
}

/// Only an answer of `Created` acknowledges a secret.
pub proof fn lemma_only_created_acknowledges(s: SendState, e: SendEvent)
    requires
        !(s is Acknowledged),
        advance(s, e) is Acknowledged,
    ensures
        s is Sending,
        e == (SendEvent::Responded { code: CREATED }),
{
}

} // verus!
