use vstd::prelude::*;

verus! {

/// The closed set of object kinds that a handle can denote.
#[derive(Debug, Clone, Copy, PartialEq, Eq, Structural)]
pub enum CapabilityType {
    KeyPair,
    PublicKey,
    SecretKey,
    SymmetricKey,
    SymmetricState,
    SignatureState,
    VerificationState,
    KeyExchangeState,
    ArrayOutput,
}

/// Which cryptographic subsystem services an algorithm.
#[derive(Debug, Clone, Copy, PartialEq, Eq, Structural)]
pub enum Family {
    Symmetric,
    Signatures,
    KeyExchange,
}

/// Algorithm identifiers that a context may enable.
#[derive(Debug, Clone, Copy, PartialEq, Eq, Structural)]
pub enum Algorithm {
    Aes128Gcm,
    Aes256Gcm,
    ChaCha20Poly1305,
    Ed25519,
    EcdsaP256Sha256,
    X25519,
}

pub open spec fn family_of(a: Algorithm) -> Family {
    match a {
        Algorithm::Aes128Gcm | Algorithm::Aes256Gcm | Algorithm::ChaCha20Poly1305 => Family::Symmetric,
        Algorithm::Ed25519 | Algorithm::EcdsaP256Sha256 => Family::Signatures,
        Algorithm::X25519 => Family::KeyExchange,
    }
}

/// Raw key length in bytes of a symmetric algorithm (zero for the others).
pub open spec fn key_len_of(a: Algorithm) -> nat {
    match a {
        Algorithm::Aes128Gcm => 16,
        Algorithm::Aes256Gcm | Algorithm::ChaCha20Poly1305 => 32,
        _ => 0,
    }
}

/// Nonce length in bytes of an AEAD algorithm (zero for the others).
pub open spec fn nonce_len_of(a: Algorithm) -> nat {
    match a {
        Algorithm::Aes128Gcm | Algorithm::Aes256Gcm | Algorithm::ChaCha20Poly1305 => 12,
        _ => 0,
    }
}

/// Authentication tag length in bytes of an AEAD algorithm (zero for the others).
pub open spec fn tag_len_of(a: Algorithm) -> nat {
    match a {
        Algorithm::Aes128Gcm | Algorithm::Aes256Gcm | Algorithm::ChaCha20Poly1305 => 16,
        _ => 0,
    }
}

impl Algorithm {
    pub fn family(&self) -> (r: Family)
        ensures
            r == family_of(*self),
    {
        match self {
            Algorithm::Aes128Gcm | Algorithm::Aes256Gcm | Algorithm::ChaCha20Poly1305 => Family::Symmetric,
            Algorithm::Ed25519 | Algorithm::EcdsaP256Sha256 => Family::Signatures,
            Algorithm::X25519 => Family::KeyExchange,
        }
    }

    pub fn key_len(&self) -> (r: usize)
        ensures
            r == key_len_of(*self),
    {
        match self {
            Algorithm::Aes128Gcm => 16,
            Algorithm::Aes256Gcm | Algorithm::ChaCha20Poly1305 => 32,
            _ => 0,
        }
    }

    pub fn nonce_len(&self) -> (r: usize)
        ensures
            r == nonce_len_of(*self),
    {
        match self {
            Algorithm::Aes128Gcm | Algorithm::Aes256Gcm | Algorithm::ChaCha20Poly1305 => 12,
            _ => 0,
        }
    }

    pub fn tag_len(&self) -> (r: usize)
        ensures
            r == tag_len_of(*self),
    {
        match self {
            Algorithm::Aes128Gcm | Algorithm::Aes256Gcm | Algorithm::ChaCha20Poly1305 => 16,
            _ => 0,
        }
    }
}

/// Permission bits restricting which operations may consume an object.
#[derive(Debug, Clone, Copy, PartialEq, Eq, Structural)]
pub struct Usage {
    pub encrypt: bool,
    pub decrypt: bool,
    pub sign: bool,
    pub verify: bool,
    pub derive: bool,
}

impl Usage {
    pub fn none() -> (r: Usage)
        ensures
            !r.encrypt && !r.decrypt && !r.sign && !r.verify && !r.derive,
    {
        Usage { encrypt: false, decrypt: false, sign: false, verify: false, derive: false }
    }
}

/// Lifecycle phase of an operation-stateful object.
#[derive(Debug, Clone, Copy, PartialEq, Eq, Structural)]
pub enum Phase {
    Created,
    Updating,
    Finalized,
}

/// Mathematical model of a capability object.
#[verifier::ext_equal]
pub ghost struct ObjView {
    pub kind: CapabilityType,
    pub algorithm: Algorithm,
    pub usage: Usage,
    pub phase: Phase,
    pub secret: Seq<u8>,
    pub absorbed: Seq<u8>,
}

/// A host-owned cryptographic object: its key or state material never leaves the host.
pub struct CapObject {
    pub kind: CapabilityType,
    pub algorithm: Algorithm,
    pub usage: Usage,
    pub phase: Phase,
    pub secret: Vec<u8>,
    pub absorbed: Vec<u8>,
}

impl View for CapObject {
    type V = ObjView;

    open spec fn view(&self) -> ObjView {
        ObjView {
            kind: self.kind,
            algorithm: self.algorithm,
            usage: self.usage,
            phase: self.phase,
            secret: self.secret@,
            absorbed: self.absorbed@,
        }
    }
}

pub open spec fn all_zero(s: Seq<u8>) -> bool {
    forall|i: int| 0 <= i < s.len() ==> s[i] == 0u8
}

/// Overwrites every byte of `bytes` with zero, keeping its length.
pub fn erase(bytes: &mut Vec<u8>)
    ensures
        final(bytes)@.len() == old(bytes)@.len(),
        all_zero(final(bytes)@),
{
    let n = bytes.len();
    let mut i: usize = 0;
    while i < n
        invariant
            n == bytes@.len(),
            i <= n,
            forall|j: int| 0 <= j < i ==> bytes@[j] == 0u8,
        decreases n - i,
    {
        bytes.set(i, 0u8);
        i = i + 1;
    }
}

impl CapObject {
    /// A fresh object in the `Created` phase with nothing absorbed.
    pub fn new(kind: CapabilityType, algorithm: Algorithm, usage: Usage, secret: Vec<u8>) -> (r: CapObject)
        ensures
            r@ == (ObjView { kind, algorithm, usage, phase: Phase::Created, secret: secret@, absorbed: Seq::empty() }),
    {
        let r = CapObject { kind, algorithm, usage, phase: Phase::Created, secret, absorbed: Vec::new() };
        assert(r@ =~= (ObjView { kind, algorithm, usage, phase: Phase::Created, secret: secret@, absorbed: Seq::empty() }));
        r
    }

    /// Erases the secret material and the absorbed data in place.
    pub fn wipe(&mut self)
        ensures
            final(self).kind == old(self).kind,
            final(self).algorithm == old(self).algorithm,
            final(self).usage == old(self).usage,
            final(self).phase == old(self).phase,
            final(self).secret@.len() == old(self).secret@.len(),
            final(self).absorbed@.len() == old(self).absorbed@.len(),
            all_zero(final(self).secret@),
            all_zero(final(self).absorbed@),
    {
        erase(&mut self.secret);
        erase(&mut self.absorbed);
    }

    pub fn is_erased(&self) -> (r: bool)
        ensures
            r == (all_zero(self.secret@) && all_zero(self.absorbed@)),
    {
        zero_only(&self.secret) && zero_only(&self.absorbed)
    }
}

pub fn zero_only(bytes: &Vec<u8>) -> (r: bool)
    ensures
        r == all_zero(bytes@),
{
    let mut i: usize = 0;
    while i < bytes.len()
        invariant
            i <= bytes@.len(),
            forall|j: int| 0 <= j < i ==> bytes@[j] == 0u8,
        decreases bytes@.len() - i,
    {
        if bytes[i] != 0 {
            return false;
        }
        i = i + 1;
    }
    true
}

} // verus!
