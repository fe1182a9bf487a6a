//! The receiving side: which requests are admitted, and what becomes of
//! the record when an upload is over.
//!
//! A request is checked in a fixed order: its target must address an
//! upload, the tag must be in the manifest, the declared length must be
//! within the limit, and the secret must be pending. An admitted request
//! claims its secret in the same step, so that of two requests for one
//! secret only the first gets in.

use vstd::prelude::*;
use vstd::string::*;
use crate::error::{ProtocolError, Rejection};
use crate::manifest::{
    lemma_position_of, lemma_position_of_unique, mode_bits, names_unique, position_of,
    ConfigError, ManifestRegistry, SecretView,
};
use crate::protocol::{
    lemma_path_round_trip, parse_tag, path_of_tag, status_of_end, status_of_rejection,
    tag_of_path, ResponseStatus,
};
use crate::settings::GlobalSettings;
use crate::state::{
    all_completed, can_claim, claim, complete, fresh, release, settle_fault, StateError, TagState,
    TransferState,
};
use crate::upload::{end_of, start, Identity, Transfer, Upload};

verus! {

/// The method of a request, as far as the protocol tells methods apart.
#[derive(Clone, Copy, Debug, PartialEq, Eq, Structural)]
pub enum Method {
    Post,
    Other,
}

/// What the receiving host answered when asked for the owner and the group
/// of one secret.
#[derive(Clone, Copy, Debug)]
pub struct OwnerLookup {
    pub uid: Option<u32>,
    pub gid: Option<u32>,
}

/// What is wrong with the lookup for the secret at `j`, if anything: an
/// unknown owner is reported before an unknown group.
pub open spec fn lookup_fault(lookups: Seq<OwnerLookup>, j: int) -> Option<ConfigError> {
    if lookups[j].uid is None {
        Some(ConfigError::UnknownOwner { index: j as usize })
    } else if lookups[j].gid is None {
        Some(ConfigError::UnknownGroup { index: j as usize })
    } else {
        None
    }
}

/// The identity that a complete lookup names.
pub open spec fn identity_of(lookup: OwnerLookup) -> Identity {
    Identity { uid: lookup.uid->0, gid: lookup.gid->0 }
}

/// The permission bits that the manifest declares for the secret at `i`.
pub open spec fn declared_mode(manifest: Seq<SecretView>, i: int) -> u32 {
    mode_bits(manifest[i].mode)->0
}

/// What becomes of a request.
///
/// `Ok` holds the position of the secret that the request may upload.
pub open spec fn admission(
    manifest: Seq<SecretView>,
    limit: u32,
    states: Seq<TagState>,
    method: Method,
    path: Seq<char>,
    declared: Option<u64>,
) -> Result<int, ProtocolError> {
    if method != Method::Post {
        Err(ProtocolError::UnknownTarget)
    } else {
        match tag_of_path(path) {
            None => Err(ProtocolError::UnknownTarget),
            Some(tag) => match position_of(manifest, tag) {
                None => Err(ProtocolError::UnknownTag),
                Some(i) => if declared is None || declared->0 > limit {
                    Err(ProtocolError::PayloadTooLarge)
                } else if !(0 <= i < states.len()) {
                    Err(ProtocolError::UnknownTag)
                } else {
                    match states[i] {
                        TagState::Completed => Err(ProtocolError::AlreadyCompleted),
                        TagState::InFlight => Err(ProtocolError::UploadInFlight),
                        TagState::Pending => Ok(i),
                    }
                },
            },
        }
    }
}

/// What becomes of the record when an upload is handed back: the new
/// record and the status for the peer, or the error that the hand-back
/// meets. A stored upload completes its secret, a failed one releases it.
pub open spec fn settlement(states: Seq<TagState>, slot: usize, t: Transfer) -> Result<
    (Seq<TagState>, ResponseStatus),
    StateError,
> {
    match end_of(t) {
        None => Err(StateError::UploadUnfinished { index: slot }),
        Some(end) => match settle_fault(states, slot) {
            Some(e) => Err(e),
            None => Ok(
                (
                    if end is Ok {
                        complete(states, slot as int)
                    } else {
                        release(states, slot as int)
                    },
                    status_of_end(end),
                ),
            ),
        },
    }
}

/// What is appended to a destination path to name its temporary file.
pub open spec fn temp_suffix() -> Seq<char> {
    seq!['.', 'p', 'a', 'r', 't']
}

/// The temporary file of a destination: a neighbour in the same directory.
pub open spec fn temp_path_of(destination: Seq<char>) -> Seq<char> {
    destination + temp_suffix()
}

/// The position of the last `/` of a path, or -1 where it has none.
pub open spec fn last_slash(path: Seq<char>) -> int
    decreases path.len(),
{
    if path.len() == 0 {
        -1
    } else if path.last() == '/' {
        path.len() - 1
    } else {
        last_slash(path.drop_last())
    }
}

/// The directory part of a path: everything up to and with its last `/`.
pub open spec fn directory_of(path: Seq<char>) -> Seq<char> {
    path.subrange(0, last_slash(path) + 1)
}

/// The two paths of an admitted upload: where its body is written, and
/// where the finished file is published.
#[derive(Debug)]
pub struct StorePlan {
    pub temp_path: String,
    pub destination_path: String,
}

/// What the handler sends back and learns when it hands an upload back.
#[derive(Clone, Copy, Debug, PartialEq, Eq, Structural)]
pub struct Settlement {
    /// The status for the peer.
    pub status: ResponseStatus,
    /// Whether every secret has now been received, so that the receiver
    /// is to shut down.
    pub all_completed: bool,
}

/// The receiver's view of one run: the manifest, the identities its files
/// are given, the size limit and the completion record.
pub struct TransferServer {
    registry: ManifestRegistry,
    identities: Vec<Identity>,
    limit: u32,
    state: TransferState,
}

impl TransferServer {
    /// The secrets of the manifest.
    pub closed spec fn manifest(&self) -> Seq<SecretView> {
        self.registry@
    }

    /// The largest declared length that is admitted.
    pub closed spec fn limit(&self) -> u32 {
        self.limit
    }

    /// The completion record.
    pub closed spec fn states(&self) -> Seq<TagState> {
        self.state@
    }

    /// The owner and group of each secret's file.
    pub closed spec fn identities(&self) -> Seq<Identity> {
        self.identities@
    }

    /// The server's invariant: a valid manifest, and one identity and one
    /// record entry for each of its secrets.
    pub closed spec fn wf(&self) -> bool {
        &&& self.registry.wf()
        &&& self.identities@.len() == self.registry@.len()
        &&& self.state@.len() == self.registry@.len()
    }

    /// A well-formed server has unique tags, and one identity and one
    /// record entry for each secret.
    pub proof fn lemma_wf(&self)
        requires
            self.wf(),
        ensures
            names_unique(self.manifest()),
            self.identities().len() == self.manifest().len(),
            self.states().len() == self.manifest().len(),
    {
        self.registry.lemma_wf();
    }

    /// Sets up the receiver for a validated manifest.
    ///
    /// `lookups` holds, for each secret in order, what the host answered
    /// for its owner and its group. The first secret whose owner or group
    /// is unknown decides the error.
    pub fn new(registry: ManifestRegistry, settings: GlobalSettings, lookups: &Vec<OwnerLookup>) -> (made:
        Result<TransferServer, ConfigError>)
        requires
            registry.wf(),
        ensures
            match made {
                Ok(server) => {
                    &&& server.wf()
                    &&& server.manifest() == registry@
                    &&& server.limit() == settings.max_transmission_bytes
                    &&& server.states() == fresh(registry@.len())
                    &&& lookups@.len() == registry@.len()
                    &&& forall|j: int|
                        0 <= j < lookups@.len() ==> lookup_fault(lookups@, j) is None
                    &&& forall|j: int|
                        0 <= j < lookups@.len() ==> #[trigger] server.identities()[j]
                            == identity_of(lookups@[j])
                },
                Err(e) => if lookups@.len() != registry@.len() {
                    e == ConfigError::IdentityCount {
                        expected: registry@.len() as usize,
                        found: lookups@.len() as usize,
                    }
                } else {
                    exists|j: int|
                        0 <= j < lookups@.len() && lookup_fault(lookups@, j) == Some(e)
                            && forall|k: int| 0 <= k < j ==> lookup_fault(lookups@, k) is None
                },
            },
    {
        let n: usize = registry.len();
        if lookups.len() != n {
            return Err(ConfigError::IdentityCount { expected: n, found: lookups.len() });
        }
        let mut identities: Vec<Identity> = Vec::new();
        let mut j: usize = 0;
        while j < n
            invariant
                j <= n,
                n == lookups@.len(),
                n == registry@.len(),
                registry.wf(),
                identities@.len() == j,
                forall|k: int| 0 <= k < j ==> lookup_fault(lookups@, k) is None,
                forall|k: int|
                    0 <= k < j ==> #[trigger] identities@[k] == identity_of(lookups@[k]),
            decreases n - j,
        {
            let lookup = lookups[j];
            match lookup.uid {
                None => {
                    proof {
                        assert(lookup_fault(lookups@, j as int) == Some(
                            ConfigError::UnknownOwner { index: j },
                        ));
                    }
                    return Err(ConfigError::UnknownOwner { index: j });
                },
                Some(uid) => match lookup.gid {
                    None => {
                        proof {
                            assert(lookup_fault(lookups@, j as int) == Some(
                                ConfigError::UnknownGroup { index: j },
                            ));
                        }
                        return Err(ConfigError::UnknownGroup { index: j });
                    },
                    Some(gid) => {
                        identities.push(Identity { uid, gid });
                    },
                },
            }
            j += 1;
        }
        let state = TransferState::new(n);
        Ok(TransferServer { registry, identities, limit: settings.max_transmission_bytes, state })
    }

    /// Whether every secret has been received.
    pub fn all_completed(&self) -> (all: bool)
        ensures
            all == all_completed(self.states()),
    {
        self.state.all_completed()
    }

    /// The validated manifest.
    pub fn registry(&self) -> (registry: &ManifestRegistry)
        ensures
            registry@ == self.manifest(),
    {
        &self.registry
    }

    /// What has happened to the secret named `tag`, if the manifest holds it.
    pub fn progress(&self, tag: &str) -> (progress: Option<TagState>)
        requires
            self.wf(),
        ensures
            match position_of(self.manifest(), tag@) {
                Some(i) => progress == Some(self.states()[i]),
                None => progress is None,
            },
    {
        match self.registry.position(tag) {
            Some(i) => {
                proof {
                    lemma_position_of(self.manifest(), tag@);
                }
                self.state.get(i)
            },
            None => None,
        }
    }

    /// Decides on a request and, where it is admitted, claims its secret.
    ///
    /// A rejected request changes nothing and hands out no upload, so that
    /// nothing is created or written on its account.
    pub fn handle_upload(&mut self, method: Method, path: &str, declared: Option<u64>) -> (decision: Result<
        Upload,
        ProtocolError,
    >)
        requires
            old(self).wf(),
        ensures
            final(self).wf(),
            final(self).manifest() == old(self).manifest(),
            final(self).limit() == old(self).limit(),
            final(self).identities() == old(self).identities(),
            match admission(
                old(self).manifest(),
                old(self).limit(),
                old(self).states(),
                method,
                path@,
                declared,
            ) {
                Ok(i) => {
                    &&& decision is Ok
                    &&& decision->Ok_0.slot() == i
                    &&& decision->Ok_0@ == start(
                        declared->0,
                        old(self).identities()[i],
                        declared_mode(old(self).manifest(), i),
                    )
                    &&& final(self).states() == claim(old(self).states(), i)
                },
                Err(e) => {
                    &&& decision is Err
                    &&& decision->Err_0 == e
                    &&& final(self).states() == old(self).states()
                },
            },
    {
        match method {
            Method::Post => {},
            Method::Other => {
                return Err(ProtocolError::UnknownTarget);
            },
        }
        let tag = match parse_tag(path) {
            Some(tag) => tag,
            None => {
                return Err(ProtocolError::UnknownTarget);
            },
        };
        let index = match self.registry.position(tag) {
            Some(index) => index,
            None => {
                return Err(ProtocolError::UnknownTag);
            },
        };
        proof {
            lemma_position_of(self.manifest(), tag@);
        }
        let length = match declared {
            Some(length) => length,
            None => {
                return Err(ProtocolError::PayloadTooLarge);
            },
        };
        if length > self.limit as u64 {
            return Err(ProtocolError::PayloadTooLarge);
        }
        let mode = match self.registry.mode(index) {
            Some(mode) => mode,
            None => {
                return Err(ProtocolError::UnknownTag);
            },
        };
        let owner = self.identities[index];
        if self.state.try_claim(index) {
            Ok(Upload::begin(index, length, owner, mode))
        } else {
            match self.state.get(index) {
                Some(TagState::Completed) => Err(ProtocolError::AlreadyCompleted),
                Some(TagState::InFlight) => Err(ProtocolError::UploadInFlight),
                _ => Err(ProtocolError::UnknownTag),
            }
        }
    }

    /// Where the upload's body is written and where it is published.
    pub fn plan(&self, upload: &Upload) -> (plan: Option<StorePlan>)
        ensures
            match plan {
                Some(p) => {
                    let i = upload.slot() as int;
                    &&& i < self.manifest().len()
                    &&& p.destination_path@ == self.manifest()[i].destination_path
                    &&& p.temp_path@ == temp_path_of(self.manifest()[i].destination_path)
                },
                None => upload.slot() >= self.manifest().len(),
            },
    {
        let index = upload.index();
        let secret = match self.registry.get(index) {
            Some(secret) => secret,
            None => {
                return None;
            },
        };
        let destination_path = secret.destination_path.clone();
        let mut temp_path = secret.destination_path.clone();
        proof {
            reveal_strlit(".part");
            assert(".part"@ =~= temp_suffix());
        }
        temp_path.append(".part");
        Some(StorePlan { temp_path, destination_path })
    }

    /// Takes back an upload that is over: a stored upload completes its
    /// secret, a failed one makes it pending again. An upload that is not
    /// over, or whose secret is not in flight, is an error and changes
    /// nothing.
    pub fn settle(&mut self, upload: Upload) -> (settled: Result<Settlement, StateError>)
        requires
            old(self).wf(),
        ensures
            final(self).wf(),
            final(self).manifest() == old(self).manifest(),
            final(self).limit() == old(self).limit(),
            final(self).identities() == old(self).identities(),
            match settlement(old(self).states(), upload.slot(), upload@) {
                Ok((states, status)) => {
                    &&& settled == Ok::<Settlement, StateError>(
                        Settlement { status, all_completed: all_completed(states) },
                    )
                    &&& final(self).states() == states
                },
                Err(e) => settled == Err::<Settlement, StateError>(e) && final(self).states()
                    == old(self).states(),
            },
    {
        let index = upload.index();
        let end = match upload.end() {
            Some(end) => end,
            None => {
                return Err(StateError::UploadUnfinished { index });
            },
        };
        let status = crate::protocol::reply_for(end).status;
        let marked = match end {
            Ok(_) => self.state.complete(index),
            Err(_) => self.state.release(index),
        };
        match marked {
            Ok(_) => Ok(Settlement { status, all_completed: self.state.all_completed() }),
            Err(e) => Err(e),
        }
    }
}

/// A request for a tag that the manifest does not hold is answered with
/// Not-Found, whatever else it says.
pub proof fn lemma_unknown_tag_is_not_found(
    manifest: Seq<SecretView>,
    limit: u32,
    states: Seq<TagState>,
    method: Method,
    path: Seq<char>,
    declared: Option<u64>,
)
    requires
        tag_of_path(path) matches Some(tag) ==> forall|i: int|
            0 <= i < manifest.len() ==> manifest[i].name != tag,
    ensures
        admission(manifest, limit, states, method, path, declared) matches Err(e)
            && status_of_rejection(Rejection::Protocol(e)) == ResponseStatus::NotFound,
{
    if tag_of_path(path) is Some {
        lemma_position_of(manifest, tag_of_path(path)->0);
    }
}

/// A request for a secret of the manifest whose declared length exceeds the
/// limit, or that declares none, is answered with Payload-Too-Large.
pub proof fn lemma_oversized_is_refused(
    manifest: Seq<SecretView>,
    limit: u32,
    states: Seq<TagState>,
    path: Seq<char>,
    declared: Option<u64>,
)
    requires
        tag_of_path(path) matches Some(tag) && position_of(manifest, tag) is Some,
        declared matches Some(length) ==> length > limit,
    ensures
        admission(manifest, limit, states, Method::Post, path, declared) == Err::<
            int,
            ProtocolError,
        >(ProtocolError::PayloadTooLarge),
        status_of_rejection(Rejection::Protocol(ProtocolError::PayloadTooLarge))
            == ResponseStatus::PayloadTooLarge,
{
}

/// A request for a secret that has been received is answered with
/// Conflict, provided its length is within the limit.
pub proof fn lemma_completed_tag_conflicts(
    manifest: Seq<SecretView>,
    limit: u32,
    states: Seq<TagState>,
    i: int,
    length: u64,
)
    requires
        names_unique(manifest),
        states.len() == manifest.len(),
        0 <= i < manifest.len(),
        states[i] == TagState::Completed,
        length <= limit,
    ensures
        admission(manifest, limit, states, Method::Post, path_of_tag(manifest[i].name), Some(length))
            == Err::<int, ProtocolError>(ProtocolError::AlreadyCompleted),
        status_of_rejection(Rejection::Protocol(ProtocolError::AlreadyCompleted))
            == ResponseStatus::Conflict,
{
    lemma_path_round_trip(manifest[i].name);
    lemma_position_of_unique(manifest, i);
}

/// Of two requests for the same pending secret, the first is admitted and
/// the second, arriving while the first is in flight, is answered with
/// Conflict. If the first has been stored by then, the answer is Conflict
/// as well.
pub proof fn lemma_same_tag_one_winner(
    manifest: Seq<SecretView>,
    limit: u32,
    states: Seq<TagState>,
    path: Seq<char>,
    first: Option<u64>,
    second: Option<u64>,
)
    requires
        admission(manifest, limit, states, Method::Post, path, first) is Ok,
        second matches Some(length) && length <= limit,
    ensures
        ({
            let i = admission(manifest, limit, states, Method::Post, path, first)->Ok_0;
            let claimed = claim(states, i);
            let stored = complete(claimed, i);
            &&& admission(manifest, limit, claimed, Method::Post, path, second) == Err::<
                int,
                ProtocolError,
            >(ProtocolError::UploadInFlight)
            &&& admission(manifest, limit, stored, Method::Post, path, second) == Err::<
                int,
                ProtocolError,
            >(ProtocolError::AlreadyCompleted)
            &&& status_of_rejection(Rejection::Protocol(ProtocolError::UploadInFlight))
                == ResponseStatus::Conflict
            &&& status_of_rejection(Rejection::Protocol(ProtocolError::AlreadyCompleted))
                == ResponseStatus::Conflict
        }),
{
}

/// Requests for two different secrets do not stand in each other's way:
/// each is decided as if it were alone, in either order of arrival.
pub proof fn lemma_distinct_tags_independent(
    manifest: Seq<SecretView>,
    limit: u32,
    states: Seq<TagState>,
    path_a: Seq<char>,
    declared_a: Option<u64>,
    path_b: Seq<char>,
    declared_b: Option<u64>,
)
    requires
        admission(manifest, limit, states, Method::Post, path_a, declared_a) is Ok,
        admission(manifest, limit, states, Method::Post, path_b, declared_b) is Ok,
        admission(manifest, limit, states, Method::Post, path_a, declared_a)->Ok_0 != admission(
            manifest,
            limit,
            states,
            Method::Post,
            path_b,
            declared_b,
        )->Ok_0,
    ensures
        ({
            let a = admission(manifest, limit, states, Method::Post, path_a, declared_a)->Ok_0;
            let b = admission(manifest, limit, states, Method::Post, path_b, declared_b)->Ok_0;
            &&& admission(manifest, limit, claim(states, a), Method::Post, path_b, declared_b)
                == Ok::<int, ProtocolError>(b)
            &&& admission(manifest, limit, claim(states, b), Method::Post, path_a, declared_a)
                == Ok::<int, ProtocolError>(a)
            &&& claim(claim(states, a), b) == claim(claim(states, b), a)
        }),
{
    let a = admission(manifest, limit, states, Method::Post, path_a, declared_a)->Ok_0;
    let b = admission(manifest, limit, states, Method::Post, path_b, declared_b)->Ok_0;
    crate::state::lemma_distinct_claims_commute(states, a, b);
}

/// An admitted request addresses the secret it is admitted for, which was
/// pending, and its length is within the limit.
pub proof fn lemma_admitted_request(
    manifest: Seq<SecretView>,
    limit: u32,
    states: Seq<TagState>,
    method: Method,
    path: Seq<char>,
    declared: Option<u64>,
)
    requires
        admission(manifest, limit, states, method, path, declared) is Ok,
    ensures
        ({
            let i = admission(manifest, limit, states, method, path, declared)->Ok_0;
            &&& method == Method::Post
            &&& 0 <= i < manifest.len()
            &&& path == path_of_tag(manifest[i].name)
            &&& can_claim(states, i)
            &&& declared matches Some(length) && length <= limit
        }),
{
    let tag = tag_of_path(path)->0;
    lemma_position_of(manifest, tag);
    crate::protocol::lemma_tag_round_trip(path);
}

/// Appending characters that are no `/` leaves the last `/` where it was.
pub proof fn lemma_last_slash_append(path: Seq<char>, suffix: Seq<char>)
    requires
        forall|k: int| 0 <= k < suffix.len() ==> suffix[k] != '/',
    ensures
        last_slash(path + suffix) == last_slash(path),
    decreases suffix.len(),
{
    if suffix.len() == 0 {
        assert(path + suffix =~= path);
    } else {
        let whole = path + suffix;
        assert(whole.last() == suffix.last());
        assert(whole.drop_last() =~= path + suffix.drop_last());
        lemma_last_slash_append(path, suffix.drop_last());
    }
}

/// The last `/` of a path lies within the path.
pub proof fn lemma_last_slash_bounds(path: Seq<char>)
    ensures
        -1 <= last_slash(path) < path.len(),
    decreases path.len(),
{
    if path.len() > 0 && path.last() != '/' {
        lemma_last_slash_bounds(path.drop_last());
    }
}

/// The temporary file lies in the directory of its destination and is a
/// different file.
pub proof fn lemma_temp_is_adjacent(destination: Seq<char>)
    ensures
        directory_of(temp_path_of(destination)) == directory_of(destination),
        temp_path_of(destination) != destination,
{
    lemma_last_slash_append(destination, temp_suffix());
    lemma_last_slash_bounds(destination);
    assert(temp_path_of(destination).subrange(0, last_slash(destination) + 1)
        =~= destination.subrange(0, last_slash(destination) + 1));
    assert(temp_path_of(destination).len() == destination.len() + 5);
}

} // verus!
