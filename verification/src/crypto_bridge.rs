//! Encrypted secrets of a container: values sealed under a key that
//! belongs to one container, found again by the hash of their names.
//!
//! Hashing, sealing and opening are the work of `alice_crypto`; what this
//! module states of them is believed, not proved.

use vstd::prelude::*;
use vstd::string::*;
use crate::text::concat2;

verus! {

/// Why sealing or opening failed.
#[derive(Debug, Clone, Copy, PartialEq, Eq, Structural)]
pub enum CipherFailure {
    /// Encryption failed.
    EncryptionFailed,
    /// Decryption failed: the text is not what was sealed under this key.
    DecryptionFailed,
    /// No random numbers could be had.
    RandomFailed,
    /// The sealed text is shorter than any sealed text can be.
    BufferTooSmall,
}

impl CipherFailure {
    /// The name of this failure.
    pub open spec fn name(self) -> Seq<char> {
        match self {
            CipherFailure::EncryptionFailed => "EncryptionFailed"@,
            CipherFailure::DecryptionFailed => "DecryptionFailed"@,
            CipherFailure::RandomFailed => "RandomFailed"@,
            CipherFailure::BufferTooSmall => "BufferTooSmall"@,
        }
    }

    /// The name of this failure.
    pub fn as_str(&self) -> (r: &'static str)
        ensures
            r@ == self.name(),
    {
        match self {
            CipherFailure::EncryptionFailed => "EncryptionFailed",
            CipherFailure::DecryptionFailed => "DecryptionFailed",
            CipherFailure::RandomFailed => "RandomFailed",
            CipherFailure::BufferTooSmall => "BufferTooSmall",
        }
    }
}

/// The BLAKE3 hash of `data`, as `alice_crypto::hash` computes it.
pub uninterp spec fn blake3(data: Seq<u8>) -> Seq<u8>;

/// What `alice_crypto::open` makes of `sealed` under `key`.
pub uninterp spec fn opened(key: Seq<u8>, sealed: Seq<u8>) -> Result<Seq<u8>, CipherFailure>;

/// The outcome of an opening as plain values.
pub open spec fn outcome(r: Result<Vec<u8>, CipherFailure>) -> Result<Seq<u8>, CipherFailure> {
    match r {
        Ok(plain) => Ok(plain@),
        Err(e) => Err(e),
    }
}

/// The number of bytes that sealing adds: a nonce of 24 and a tag of 16.
pub const SEAL_OVERHEAD: usize = 40;

/// `alice_crypto::hash`: the 32 bytes of the BLAKE3 hash of `data`.
#[verifier::external_body]
fn hash_bytes(data: &[u8]) -> (r: [u8; 32])
    ensures
        r@ == blake3(data@),
{
    alice_crypto::hash(data).into_bytes()
}

/// Whether `sealed` opens under `key` to `plain`.
pub open spec fn opens_to(key: Seq<u8>, sealed: Seq<u8>, plain: Seq<u8>) -> bool {
    opened(key, sealed) == Ok::<Seq<u8>, CipherFailure>(plain)
}

/// `alice_crypto::seal`: `plaintext` encrypted under `key` with a nonce
/// drawn at random, so that two calls give different results. What is
/// claimed of every result is its length, nonce, ciphertext and tag, and
/// that `alice_crypto::open` gives the plaintext back under the same key.
#[verifier::external_body]
fn seal_bytes(key: &[u8; 32], plaintext: &[u8]) -> (r: Result<Vec<u8>, CipherFailure>)
    ensures
        r matches Ok(out) ==> out@.len() == plaintext@.len() + SEAL_OVERHEAD,
        r matches Ok(out) ==> opens_to(key@, out@, plaintext@),
{
    match alice_crypto::seal(&alice_crypto::Key::from_bytes(*key), plaintext) {
        Ok(out) => Ok(out),
        Err(alice_crypto::CipherError::EncryptionFailed) => Err(CipherFailure::EncryptionFailed),
        Err(alice_crypto::CipherError::DecryptionFailed) => Err(CipherFailure::DecryptionFailed),
        Err(alice_crypto::CipherError::RandomFailed) => Err(CipherFailure::RandomFailed),
        Err(alice_crypto::CipherError::BufferTooSmall) => Err(CipherFailure::BufferTooSmall),
    }
}

/// `alice_crypto::open`: what was sealed into `sealed` under `key`. A
/// text shorter than nonce and tag together is refused as too small.
#[verifier::external_body]
fn open_bytes(key: &[u8; 32], sealed: &[u8]) -> (r: Result<Vec<u8>, CipherFailure>)
    ensures
        outcome(r) == opened(key@, sealed@),
        sealed@.len() < SEAL_OVERHEAD ==> r is Err && r->Err_0 == CipherFailure::BufferTooSmall,
{
    match alice_crypto::open(&alice_crypto::Key::from_bytes(*key), sealed) {
        Ok(plain) => Ok(plain),
        Err(alice_crypto::CipherError::EncryptionFailed) => Err(CipherFailure::EncryptionFailed),
        Err(alice_crypto::CipherError::DecryptionFailed) => Err(CipherFailure::DecryptionFailed),
        Err(alice_crypto::CipherError::RandomFailed) => Err(CipherFailure::RandomFailed),
        Err(alice_crypto::CipherError::BufferTooSmall) => Err(CipherFailure::BufferTooSmall),
    }
}

/// A sealed secret.
#[derive(Debug, Clone)]
pub struct SealedSecret {
    /// The hash of the secret's name.
    pub name_hash: [u8; 32],
    /// The sealed value.
    pub ciphertext: Vec<u8>,
}

/// A `SealedSecret` as plain values.
pub struct SealedSecretView {
    pub name_hash: Seq<u8>,
    pub ciphertext: Seq<u8>,
}

impl View for SealedSecret {
    type V = SealedSecretView;

    open spec fn view(&self) -> SealedSecretView {
        SealedSecretView { name_hash: self.name_hash@, ciphertext: self.ciphertext@ }
    }
}

/// The views of the secrets of `v`.
pub open spec fn secrets(v: Seq<SealedSecret>) -> Seq<SealedSecretView> {
    Seq::new(v.len(), |i: int| v[i]@)
}

/// The bytes that a container's key is derived from: the master key, then
/// the first 32 bytes of the context, filled up with zeros.
pub open spec fn key_material(master: Seq<u8>, context: Seq<u8>) -> Seq<u8> {
    Seq::new(
        64,
        |i: int|
            if i < 32 {
                master[i]
            } else if i - 32 < context.len() {
                context[i - 32]
            } else {
                0u8
            },
    )
}

/// The context of the key of the container `container_id`.
pub open spec fn key_context(container_id: &str) -> Seq<u8> {
    "alice-container:".spec_bytes() + container_id.spec_bytes()
}

/// The index of the first secret of `all` with the name hash `hash`, or
/// the length of `all` where there is none.
pub open spec fn first_named(all: Seq<SealedSecretView>, hash: Seq<u8>) -> int
    decreases all.len(),
{
    if all.len() == 0 {
        0
    } else if all[0].name_hash == hash {
        0
    } else {
        1 + first_named(all.drop_first(), hash)
    }
}

/// The message for a secret that could not be sealed.
pub open spec fn seal_error(e: CipherFailure) -> Seq<char> {
    "Seal error: "@ + e.name()
}

/// The message for a secret that could not be opened.
pub open spec fn open_error(e: CipherFailure) -> Seq<char> {
    "Open error: "@ + e.name()
}

/// The message for a name under which nothing is stored.
pub open spec fn not_found(name: Seq<char>) -> Seq<char> {
    "Secret '"@ + name + "' not found"@
}

fn same_hash(a: &[u8; 32], b: &[u8; 32]) -> (r: bool)
    ensures
        r == (a@ == b@),
{
    let mut i: usize = 0;
    while i < 32
        invariant
            i <= 32,
            forall|j: int| 0 <= j < i ==> a@[j] == b@[j],
        decreases 32 - i,
    {
        if a[i] != b[i] {
            return false;
        }
        i = i + 1;
    }
    assert(a@ =~= b@);
    true
}

fn copy_secret(s: &SealedSecret) -> (r: SealedSecret)
    ensures
        r@ == s@,
{
    let mut ciphertext: Vec<u8> = Vec::new();
    let mut i: usize = 0;
    while i < s.ciphertext.len()
        invariant
            i <= s.ciphertext@.len(),
            ciphertext@ == s.ciphertext@.take(i as int),
        decreases s.ciphertext@.len() - i,
    {
        ciphertext.push(s.ciphertext[i]);
        i = i + 1;
    }
    assert(s.ciphertext@.take(s.ciphertext@.len() as int) =~= s.ciphertext@);
    SealedSecret { name_hash: s.name_hash, ciphertext }
}

/// The sealed secrets of one container, and the key that seals them.
pub struct ContainerSecretStore {
    key: [u8; 32],
    pub sealed_secrets: Vec<SealedSecret>,
}

impl ContainerSecretStore {
    /// The key of this store.
    pub closed spec fn key_bytes(&self) -> Seq<u8> {
        self.key@
    }

    /// The secrets that are stored, oldest first.
    pub closed spec fn stored(&self) -> Seq<SealedSecretView> {
        secrets(self.sealed_secrets@)
    }

    /// An empty store under `key`.
    pub fn new(key: [u8; 32]) -> (r: Self)
        ensures
            r.key_bytes() == key@,
            r.stored().len() == 0,
    {
        Self { key, sealed_secrets: Vec::new() }
    }

    /// The key of the container `container_id` under `master_key`: the
    /// hash of the master key followed by the start of the context.
    pub fn derive_container_key(container_id: &str, master_key: &[u8; 32]) -> (r: [u8; 32])
        ensures
            r@ == blake3(key_material(master_key@, key_context(container_id))),
    {
        let prefix = "alice-container:".as_bytes();
        let id = container_id.as_bytes();
        let ghost context = key_context(container_id);
        let mut material: Vec<u8> = Vec::new();
        let mut i: usize = 0;
        while i < 64
            invariant
                i <= 64,
                prefix@ == "alice-container:".spec_bytes(),
                id@ == container_id.spec_bytes(),
                context == prefix@ + id@,
                material@.len() == i,
                forall|j: int|
                    0 <= j < i ==> material@[j] == key_material(master_key@, context)[j],
            decreases 64 - i,
        {
            let b: u8 = if i < 32 {
                master_key[i]
            } else {
                let k: usize = i - 32;
                if k < prefix.len() {
                    prefix[k]
                } else if k - prefix.len() < id.len() {
                    id[k - prefix.len()]
                } else {
                    0
                }
            };
            material.push(b);
            i = i + 1;
        }
        assert(material@ =~= key_material(master_key@, context));
        hash_bytes(material.as_slice())
    }

    /// Seals `value` under the name `name` and keeps the sealed secret,
    /// which opens to `value` under the key of this store. The sealing
    /// draws a nonce at random: what comes back differs from call to call,
    /// and `keep` says what becomes of each outcome.
    pub fn seal_secret(&mut self, name: &str, value: &[u8]) -> (r: Result<SealedSecret, String>)
        ensures
            final(self).key_bytes() == old(self).key_bytes(),
            match r {
                Ok(secret) => {
                    &&& secret.name_hash@ == blake3(name.spec_bytes())
                    &&& secret.ciphertext@.len() == value@.len() + SEAL_OVERHEAD
                    &&& opens_to(old(self).key_bytes(), secret.ciphertext@, value@)
                    &&& final(self).stored() == old(self).stored().push(secret@)
                },
                Err(msg) => {
                    &&& final(self).stored() == old(self).stored()
                    &&& exists|e: CipherFailure| msg@ == seal_error(e)
                },
            },
    {
        let name_hash = hash_bytes(name.as_bytes());
        let outcome = seal_bytes(&self.key, value);
        self.keep(name_hash, outcome)
    }

    /// Keeps the secret whose sealing had the outcome `sealed`: a sealed
    /// value is stored under `name_hash` and handed back, a failure is
    /// reported by its name and changes nothing.
    pub fn keep(&mut self, name_hash: [u8; 32], sealed: Result<Vec<u8>, CipherFailure>) -> (r:
        Result<SealedSecret, String>)
        ensures
            final(self).key_bytes() == old(self).key_bytes(),
            match sealed {
                Ok(ciphertext) => r matches Ok(secret) && secret@ == (SealedSecretView {
                    name_hash: name_hash@,
                    ciphertext: ciphertext@,
                }) && final(self).stored() == old(self).stored().push(secret@),
                Err(e) => {
                    &&& r matches Err(msg) && msg@ == seal_error(e)
                    &&& final(self).stored() == old(self).stored()
                },
            },
    {
        match sealed {
            Ok(ciphertext) => {
                let secret = SealedSecret { name_hash, ciphertext };
                let copy = copy_secret(&secret);
                self.sealed_secrets.push(copy);
                assert(secrets(self.sealed_secrets@) =~= secrets(old(self).sealed_secrets@).push(
                    secret@,
                ));
                Ok(secret)
            },
            Err(e) => Err(concat2("Seal error: ", e.as_str())),
        }
    }

    /// Opens a sealed secret under the key of this store.
    pub fn open_secret(&self, sealed: &SealedSecret) -> (r: Result<Vec<u8>, String>)
        ensures
            match opened(self.key_bytes(), sealed.ciphertext@) {
                Ok(plain) => r matches Ok(value) && value@ == plain,
                Err(e) => r matches Err(msg) && msg@ == open_error(e),
            },
    {
        match open_bytes(&self.key, sealed.ciphertext.as_slice()) {
            Ok(value) => Ok(value),
            Err(e) => Err(concat2("Open error: ", e.as_str())),
        }
    }

    /// Finds the first secret stored under `name` and opens it.
    pub fn get_secret(&self, name: &str) -> (r: Result<Vec<u8>, String>)
        ensures
            ({
                let all = self.stored();
                let k = first_named(all, blake3(name.spec_bytes()));
                if k < all.len() {
                    match opened(self.key_bytes(), all[k].ciphertext) {
                        Ok(plain) => r matches Ok(value) && value@ == plain,
                        Err(e) => r matches Err(msg) && msg@ == open_error(e),
                    }
                } else {
                    r matches Err(msg) && msg@ == not_found(name@)
                }
            }),
    {
        let name_hash = hash_bytes(name.as_bytes());
        let ghost all = secrets(self.sealed_secrets@);
        let n: usize = self.sealed_secrets.len();
        let mut i: usize = 0;
        assert(all.skip(0) =~= all);
        while i < n
            invariant
                n == self.sealed_secrets@.len(),
                i <= n,
                all == secrets(self.sealed_secrets@),
                name_hash@ == blake3(name.spec_bytes()),
                first_named(all, name_hash@) == i + first_named(all.skip(i as int), name_hash@),
            decreases n - i,
        {
            let sealed = &self.sealed_secrets[i];
            if same_hash(&sealed.name_hash, &name_hash) {
                return self.open_secret(sealed);
            }
            assert(all.skip(i as int).drop_first() =~= all.skip(i + 1));
            i = i + 1;
        }
        let mut msg = concat2("Secret '", name);
        msg.append("' not found");
        Err(msg)
    }
}

} // verus!
