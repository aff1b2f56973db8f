//! The host keys that the user has trusted.

use super::address_book::{parse_warning, read_warning, unparsed, unread};
use super::files::FileState;
use crate::text::{opt_text, same_text};
use vstd::prelude::*;
use vstd::string::*;

verus! {

#[derive(Debug, PartialEq, Eq)]
pub struct HostKey {
    pub host: String,
    pub port: u16,
    pub key_type: String,
    pub fingerprint: String,
}

/// What a stored key says.
#[verifier::ext_equal]
pub ghost struct HostKeyModel {
    pub host: Seq<char>,
    pub port: u16,
    pub key_type: Seq<char>,
    pub fingerprint: Seq<char>,
}

impl HostKey {
    /// What it holds.
    pub open spec fn view(&self) -> HostKeyModel {
        HostKeyModel {
            host: self.host@,
            port: self.port,
            key_type: self.key_type@,
            fingerprint: self.fingerprint@,
        }
    }
}

impl Clone for HostKey {
    fn clone(&self) -> (copy: Self)
        ensures
            copy@ == self@,
    {
        HostKey {
            host: self.host.clone(),
            port: self.port,
            key_type: self.key_type.clone(),
            fingerprint: self.fingerprint.clone(),
        }
    }
}

#[derive(Debug, PartialEq, Eq)]
pub enum Verdict {
    Trusted,
    Unknown,
    Mismatch { stored: String },
}

/// What is known of a key.
pub ghost enum VerdictModel {
    Trusted,
    Unknown,
    Mismatch(Seq<char>),
}

impl Verdict {
    /// What it holds.
    pub open spec fn view(&self) -> VerdictModel {
        match *self {
            Verdict::Trusted => VerdictModel::Trusted,
            Verdict::Unknown => VerdictModel::Unknown,
            Verdict::Mismatch { stored } => VerdictModel::Mismatch(stored@),
        }
    }
}

pub struct KnownHosts {
    pub entries: Vec<HostKey>,
}

impl KnownHosts {
    /// What it holds.
    pub open spec fn view(&self) -> Seq<HostKeyModel> {
        Seq::new(self.entries@.len(), |i: int| self.entries@[i]@)
    }
}

/// Whether two keys are of the same type and of the same host.
pub open spec fn same_slot(a: HostKeyModel, b: HostKeyModel) -> bool {
    a.host == b.host && a.port == b.port && a.key_type == b.key_type
}

/// What the store says of `key`: the first stored key of that host, port and type
/// decides.
pub open spec fn verdict(store: Seq<HostKeyModel>, key: HostKeyModel) -> VerdictModel
    decreases store.len(),
{
    if store.len() == 0 {
        VerdictModel::Unknown
    } else if same_slot(store[0], key) {
        if store[0].fingerprint == key.fingerprint {
            VerdictModel::Trusted
        } else {
            VerdictModel::Mismatch(store[0].fingerprint)
        }
    } else {
        verdict(store.skip(1), key)
    }
}

impl KnownHosts {
    pub fn verify(&self, host: &str, port: u16, key_type: &str, fingerprint: &str) -> (found:
        Verdict)
        ensures
            found@ == verdict(
                self@,
                HostKeyModel {
                    host: host@,
                    port,
                    key_type: key_type@,
                    fingerprint: fingerprint@,
                },
            ),
    {
        let ghost key = HostKeyModel {
            host: host@,
            port,
            key_type: key_type@,
            fingerprint: fingerprint@,
        };
        let mut i: usize = 0;
        assert(self@.skip(0) =~= self@);
        while i < self.entries.len()
            invariant
                i <= self.entries@.len(),
                verdict(self@, key) == verdict(self@.skip(i as int), key),
                key == (HostKeyModel {
                    host: host@,
                    port,
                    key_type: key_type@,
                    fingerprint: fingerprint@,
                }),
            decreases self.entries@.len() - i,
        {
            let entry = &self.entries[i];
            assert(self@.skip(i as int)[0] == entry@);
            assert(self@.skip(i as int).skip(1) =~= self@.skip(i + 1));
            if same_text(&entry.host, host) && entry.port == port && same_text(
                &entry.key_type,
                key_type,
            ) {
                if same_text(&entry.fingerprint, fingerprint) {
                    return Verdict::Trusted;
                }
                return Verdict::Mismatch { stored: entry.fingerprint.clone() };
            }
            i = i + 1;
        }
        Verdict::Unknown
    }

    pub fn add(&mut self, entry: HostKey)
        ensures
            final(self)@ == old(self)@.push(entry@),
    {
        self.entries.push(entry);
        assert(self@ =~= old(self)@.push(entry@));
    }
}

impl Default for KnownHosts {
    fn default() -> (store: Self)
        ensures
            store@ == Seq::<HostKeyModel>::empty(),
    {
        let store = KnownHosts { entries: Vec::new() };
        assert(store@ =~= Seq::<HostKeyModel>::empty());
        store
    }
}

pub struct LoadResult {
    pub known_hosts: KnownHosts,
    pub warning: Option<String>,
}

/// The keys of a file and what to tell the user of it.
pub open spec fn loaded(file: FileState<Vec<HostKey>>) -> (Seq<HostKeyModel>, Option<Seq<char>>) {
    match file {
        FileState::NoLocation(e) => (
            seq![],
            Some("Could not determine known_hosts path: "@ + e@),
        ),
        FileState::Missing => (seq![], None),
        FileState::Unreadable { path, error } => (seq![], Some(read_warning(path@, error@))),
        FileState::Malformed { path, error, backup } => (
            seq![],
            Some(parse_warning(path@, error@, backup)),
        ),
        FileState::Parsed(entries) => (KnownHosts { entries }@, None),
    }
}

/// The known hosts, given what was found in the file.
pub fn load(file: FileState<Vec<HostKey>>) -> (result: LoadResult)
    ensures
        (result.known_hosts@, opt_text(result.warning)) == loaded(file),
{
    match file {
        FileState::NoLocation(e) => {
            let mut warning = "Could not determine known_hosts path: ".to_owned();
            warning.append(&e);
            LoadResult { known_hosts: KnownHosts::default(), warning: Some(warning) }
        },
        FileState::Missing => LoadResult { known_hosts: KnownHosts::default(), warning: None },
        FileState::Unreadable { path, error } => LoadResult {
            known_hosts: KnownHosts::default(),
            warning: Some(unread(&path, &error)),
        },
        FileState::Malformed { path, error, backup } => LoadResult {
            known_hosts: KnownHosts::default(),
            warning: Some(unparsed(&path, &error, &backup)),
        },
        FileState::Parsed(entries) => LoadResult {
            known_hosts: KnownHosts { entries },
            warning: None,
        },
    }
}

/// A key that was unknown is trusted once it is added.
pub proof fn trust_on_first_use(store: Seq<HostKeyModel>, key: HostKeyModel)
    requires
        verdict(store, key) is Unknown,
    ensures
        verdict(store.push(key), key) is Trusted,
    decreases store.len(),
{
    if store.len() == 0 {
        assert(store.push(key)[0] == key);
    } else {
        trust_on_first_use(store.skip(1), key);
        assert(store.push(key)[0] == store[0]);
        assert(store.push(key).skip(1) =~= store.skip(1).push(key));
    }
}

/// Adding a key does not change what is known of a host and key type that the
/// store already holds a key of: a stored key cannot be overridden.
pub proof fn adding_keeps_verdicts(
    store: Seq<HostKeyModel>,
    added: HostKeyModel,
    key: HostKeyModel,
)
    requires
        !(verdict(store, key) is Unknown) || !same_slot(added, key),
    ensures
        verdict(store.push(added), key) == verdict(store, key),
    decreases store.len(),
{
    if store.len() == 0 {
        assert(store.push(added)[0] == added);
        reveal_with_fuel(verdict, 2);
        assert(store.push(added).skip(1).len() == 0);
    } else {
        assert(store.push(added)[0] == store[0]);
        assert(store.push(added).skip(1) =~= store.skip(1).push(added));
        if !same_slot(store[0], key) {
            adding_keeps_verdicts(store.skip(1), added, key);
        }
    }
}

/// A key is unknown exactly if the store holds no key of its host, port and type.
pub proof fn unknown_means_not_stored(store: Seq<HostKeyModel>, key: HostKeyModel)
    ensures
        verdict(store, key) is Unknown <==> forall|i: int|
            0 <= i < store.len() ==> !same_slot(#[trigger] store[i], key),
    decreases store.len(),
{
    if store.len() > 0 {
        unknown_means_not_stored(store.skip(1), key);
        let rest = store.skip(1);
        if verdict(store, key) is Unknown {
            assert forall|i: int| 0 <= i < store.len() implies !same_slot(
                #[trigger] store[i],
                key,
            ) by {
                if i > 0 {
                    assert(store[i] == rest[i - 1]);
                }
            }
        } else if !same_slot(store[0], key) {
            let i = choose|i: int| 0 <= i < rest.len() && same_slot(#[trigger] rest[i], key);
            assert(store[i + 1] == rest[i]);
        }
    }
}

} // verus!
