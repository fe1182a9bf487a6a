//! The manifest: the secrets to deliver and how each is to be stored.

use vstd::prelude::*;
use vstd::string::*;
use crate::number::{numeral, parse_numeral};
use crate::text::str_eq;

verus! {

/// One secret: its tag, where it is read, where it is written, and the
/// ownership and permissions it must end up with.
#[derive(Clone, Debug)]
pub struct Secret {
    pub name: String,
    pub source_path: String,
    pub destination_path: String,
    pub owner: String,
    pub group: String,
    pub mode: String,
}

/// The ordered list of secrets.
#[derive(Clone, Debug)]
pub struct Manifest {
    pub secrets: Vec<Secret>,
}

/// A secret as contracts see it: six character sequences.
pub struct SecretView {
    pub name: Seq<char>,
    pub source_path: Seq<char>,
    pub destination_path: Seq<char>,
    pub owner: Seq<char>,
    pub group: Seq<char>,
    pub mode: Seq<char>,
}

impl View for Secret {
    type V = SecretView;

    open spec fn view(&self) -> SecretView {
        SecretView {
            name: self.name@,
            source_path: self.source_path@,
            destination_path: self.destination_path@,
            owner: self.owner@,
            group: self.group@,
            mode: self.mode@,
        }
    }
}

impl View for Manifest {
    type V = Seq<SecretView>;

    open spec fn view(&self) -> Seq<SecretView> {
        self.secrets@.map_values(|s: Secret| s@)
    }
}

/// Why a manifest is refused. `index` is the position of the offending secret.
#[derive(Clone, Copy, Debug, PartialEq, Eq, Structural)]
pub enum ConfigError {
    /// The secret's name was already used by an earlier secret.
    DuplicateName { index: usize },
    /// The secret's mode is not an octal permission pattern.
    InvalidMode { index: usize },
    /// The receiving host knows no user of the owner's name.
    UnknownOwner { index: usize },
    /// The receiving host knows no group of the group's name.
    UnknownGroup { index: usize },
    /// The identities handed over do not match the manifest one for one.
    IdentityCount { expected: usize, found: usize },
    /// No transport address was configured.
    NoTransportAddress,
    /// The port is no port of the IP transport.
    PortOutOfRange { port: u32 },
}

/// The largest permission pattern: the nine access bits and the three
/// special bits.
pub const MODE_MAX: u32 = 0o7777;

/// The permission bits a mode string stands for: one or more octal digits
/// whose value is a permission pattern.
pub open spec fn mode_bits(mode: Seq<char>) -> Option<u32> {
    numeral(mode, 8, MODE_MAX)
}

/// Parses a mode string such as `0664` into permission bits.
pub fn parse_mode(mode: &str) -> (bits: Option<u32>)
    ensures
        bits == mode_bits(mode@),
{
    parse_numeral(mode, 8, MODE_MAX)
}

/// Whether no two secrets share a name.
pub open spec fn names_unique(m: Seq<SecretView>) -> bool {
    forall|i: int, j: int| 0 <= i < j < m.len() ==> m[i].name != m[j].name
}

/// Whether the secret at `j` repeats the name of an earlier one.
pub open spec fn repeats_earlier_name(m: Seq<SecretView>, j: int) -> bool {
    exists|i: int| 0 <= i < j && m[i].name == m[j].name
}

/// What is wrong with the secret at `j`, if anything: a repeated name is
/// reported before a bad mode.
pub open spec fn secret_fault(m: Seq<SecretView>, j: int) -> Option<ConfigError> {
    if repeats_earlier_name(m, j) {
        Some(ConfigError::DuplicateName { index: j as usize })
    } else if mode_bits(m[j].mode) is None {
        Some(ConfigError::InvalidMode { index: j as usize })
    } else {
        None
    }
}

/// Whether every secret of the manifest has a fresh name and a valid mode.
pub open spec fn manifest_valid(m: Seq<SecretView>) -> bool {
    forall|j: int| 0 <= j < m.len() ==> secret_fault(m, j) is None
}

/// The first secret at or behind `start` that is named `tag`.
pub open spec fn find_from(m: Seq<SecretView>, tag: Seq<char>, start: int) -> Option<int>
    decreases m.len() - start,
{
    if start < 0 || start >= m.len() {
        None
    } else if m[start].name == tag {
        Some(start)
    } else {
        find_from(m, tag, start + 1)
    }
}

/// The position of the secret named `tag`: an exact, case-sensitive match.
pub open spec fn position_of(m: Seq<SecretView>, tag: Seq<char>) -> Option<int> {
    find_from(m, tag, 0)
}

/// What a search from `start` finds is the first match behind `start`, and
/// it finds nothing only where nothing matches.
pub proof fn lemma_find_from(m: Seq<SecretView>, tag: Seq<char>, start: int)
    requires
        0 <= start,
    ensures
        match find_from(m, tag, start) {
            Some(i) => start <= i < m.len() && m[i].name == tag && forall|k: int|
                start <= k < i ==> m[k].name != tag,
            None => forall|k: int| start <= k < m.len() ==> m[k].name != tag,
        },
    decreases m.len() - start,
{
    if start < m.len() && m[start].name != tag {
        lemma_find_from(m, tag, start + 1);
    }
}

/// A tag is found exactly where a secret carries it.
pub proof fn lemma_position_of(m: Seq<SecretView>, tag: Seq<char>)
    ensures
        match position_of(m, tag) {
            Some(i) => 0 <= i < m.len() && m[i].name == tag && forall|k: int|
                0 <= k < i ==> m[k].name != tag,
            None => forall|k: int| 0 <= k < m.len() ==> m[k].name != tag,
        },
{
    lemma_find_from(m, tag, 0);
}

/// In a manifest with unique names, each secret is found under its own name
/// and under no other.
pub proof fn lemma_position_of_unique(m: Seq<SecretView>, i: int)
    requires
        names_unique(m),
        0 <= i < m.len(),
    ensures
        position_of(m, m[i].name) == Some(i),
{
    lemma_position_of(m, m[i].name);
}

/// A validated manifest with its parsed permission bits. Nothing changes it
/// after construction.
pub struct ManifestRegistry {
    manifest: Manifest,
    modes: Vec<u32>,
}

impl View for ManifestRegistry {
    type V = Seq<SecretView>;

    closed spec fn view(&self) -> Seq<SecretView> {
        self.manifest@
    }
}

impl ManifestRegistry {
    /// The registry's invariant: names are unique, every mode is valid, and
    /// the stored permission bits are those the modes stand for.
    pub closed spec fn wf(&self) -> bool {
        &&& manifest_valid(self@)
        &&& names_unique(self@)
        &&& self.modes@.len() == self@.len()
        &&& forall|i: int|
            0 <= i < self@.len() ==> mode_bits(self@[i].mode) == Some(#[trigger] self.modes@[i])
    }

    /// The permission bits of the secret at `index`.
    pub closed spec fn spec_mode(&self, index: int) -> u32 {
        self.modes@[index]
    }

    /// A well-formed registry holds a valid manifest, and its permission
    /// bits are those of the mode strings.
    pub proof fn lemma_wf(&self)
        requires
            self.wf(),
        ensures
            manifest_valid(self@),
            names_unique(self@),
            forall|i: int|
                0 <= i < self@.len() ==> mode_bits(self@[i].mode) == Some(
                    #[trigger] self.spec_mode(i),
                ),
    {
    }

    /// Validates a manifest.
    ///
    /// Secrets are checked in order; the first one that repeats an earlier
    /// name or whose mode does not parse decides the error.
    pub fn new(manifest: Manifest) -> (made: Result<ManifestRegistry, ConfigError>)
        ensures
            match made {
                Ok(registry) => registry.wf() && registry@ == manifest@ && manifest_valid(
                    manifest@,
                ),
                Err(e) => exists|j: int|
                    0 <= j < manifest@.len() && secret_fault(manifest@, j) == Some(e)
                        && forall|k: int| 0 <= k < j ==> secret_fault(manifest@, k) is None,
            },
    {
        let n: usize = manifest.secrets.len();
        let mut modes: Vec<u32> = Vec::new();
        let mut j: usize = 0;
        while j < n
            invariant
                j <= n,
                n == manifest.secrets@.len(),
                n == manifest@.len(),
                modes@.len() == j,
                forall|k: int| 0 <= k < j ==> secret_fault(manifest@, k) is None,
                forall|k: int|
                    0 <= k < j ==> mode_bits(manifest@[k].mode) == Some(#[trigger] modes@[k]),
            decreases n - j,
        {
            let mut i: usize = 0;
            while i < j
                invariant
                    i <= j,
                    j < n,
                    n == manifest.secrets@.len(),
                    n == manifest@.len(),
                    forall|k: int| 0 <= k < i ==> manifest@[k].name != manifest@[j as int].name,
                    forall|k: int| 0 <= k < j ==> secret_fault(manifest@, k) is None,
                decreases j - i,
            {
                if str_eq(manifest.secrets[i].name.as_str(), manifest.secrets[j].name.as_str()) {
                    proof {
                        assert(manifest@[i as int].name == manifest@[j as int].name);
                        assert(repeats_earlier_name(manifest@, j as int));
                        assert(secret_fault(manifest@, j as int) == Some(
                            ConfigError::DuplicateName { index: j },
                        ));
                    }
                    return Err(ConfigError::DuplicateName { index: j });
                }
                i += 1;
            }
            assert(!repeats_earlier_name(manifest@, j as int));
            match parse_mode(manifest.secrets[j].mode.as_str()) {
                Some(bits) => {
                    modes.push(bits);
                },
                None => {
                    proof {
                        assert(secret_fault(manifest@, j as int) == Some(
                            ConfigError::InvalidMode { index: j },
                        ));
                    }
                    return Err(ConfigError::InvalidMode { index: j });
                },
            }
            j += 1;
        }
        let registry = ManifestRegistry { manifest, modes };
        proof {
            let m = registry@;
            assert forall|a: int, b: int| 0 <= a < b < m.len() implies m[a].name != m[b].name by {
                assert(secret_fault(m, b) is None);
                assert(!repeats_earlier_name(m, b));
            }
        }
        Ok(registry)
    }

    /// The number of secrets.
    pub fn len(&self) -> (n: usize)
        ensures
            n == self@.len(),
    {
        self.manifest.secrets.len()
    }

    /// The secret at `index`, if the manifest is that long.
    pub fn get(&self, index: usize) -> (secret: Option<&Secret>)
        ensures
            match secret {
                Some(s) => index < self@.len() && s@ == self@[index as int],
                None => index >= self@.len(),
            },
    {
        if index < self.manifest.secrets.len() {
            Some(&self.manifest.secrets[index])
        } else {
            None
        }
    }

    /// The permission bits of the secret at `index`, if the manifest is that
    /// long.
    pub fn mode(&self, index: usize) -> (bits: Option<u32>)
        requires
            self.wf(),
        ensures
            match bits {
                Some(b) => index < self@.len() && b == self.spec_mode(index as int) && mode_bits(
                    self@[index as int].mode,
                ) == Some(b) && b <= MODE_MAX,
                None => index >= self@.len(),
            },
    {
        if index < self.modes.len() {
            Some(self.modes[index])
        } else {
            None
        }
    }

    /// Where the secret named `tag` stands in the manifest.
    pub fn position(&self, tag: &str) -> (found: Option<usize>)
        ensures
            match found {
                Some(i) => position_of(self@, tag@) == Some(i as int),
                None => position_of(self@, tag@) is None,
            },
    {
        let n: usize = self.manifest.secrets.len();
        let mut i: usize = 0;
        while i < n
            invariant
                i <= n,
                n == self.manifest.secrets@.len(),
                n == self@.len(),
                self@ == self.manifest@,
                position_of(self@, tag@) == find_from(self@, tag@, i as int),
            decreases n - i,
        {
            if str_eq(self.manifest.secrets[i].name.as_str(), tag) {
                return Some(i);
            }
            i += 1;
        }
        None
    }

    /// The secret named `tag`, if the manifest holds one.
    pub fn lookup(&self, tag: &str) -> (found: Option<&Secret>)
        ensures
            match found {
                Some(secret) => position_of(self@, tag@) is Some && secret@ == self@[position_of(
                    self@,
                    tag@,
                )->0],
                None => position_of(self@, tag@) is None,
            },
    {
        match self.position(tag) {
            Some(i) => {
                proof {
                    lemma_position_of(self@, tag@);
                }
                Some(&self.manifest.secrets[i])
            },
            None => None,
        }
    }
}

/// The manifest that is used while none is read from a file: a single
/// secret named `test`.
pub open spec fn example_manifest() -> Seq<SecretView> {
    seq![
        SecretView {
            name: "test"@,
            source_path: "/tmp/source"@,
            destination_path: "/tmp/target"@,
            owner: "bert-proesmans"@,
            group: "bert-proesmans"@,
            mode: "0664"@,
        },
    ]
}

/// Returns the built-in manifest. The path is accepted and not consulted.
pub fn read_and_deserialize_manifest(_path: &str) -> (manifest: Manifest)
    ensures
        manifest@ == example_manifest(),
{
    let secret = Secret {
        name: "test".to_owned(),
        source_path: "/tmp/source".to_owned(),
        destination_path: "/tmp/target".to_owned(),
        owner: "bert-proesmans".to_owned(),
        group: "bert-proesmans".to_owned(),
        mode: "0664".to_owned(),
    };
    let manifest = Manifest { secrets: vec![secret] };
    proof {
        assert(manifest@ =~= example_manifest());
    }
    manifest
}

} // verus!
