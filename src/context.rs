use vstd::prelude::*;
use crate::capability::{family_of, key_len_of, nonce_len_of, tag_len_of, Algorithm, CapObject, CapabilityType, Family, ObjView, Phase, Usage};
use crate::error::CryptoError;
use crate::table::{all_wiped, evolves, is_live, is_live_as, lemma_live_count_none, live_count, wiped_from, Handle, HandleTable, TableView};

verus! {

/// Reason reported when a backend hands back output of the wrong shape.
pub const MALFORMED_OUTPUT: u32 = 0xffff_ffff;

/// The cryptographic primitives behind the dispatcher. Implementations
/// receive only material that the dispatcher has already validated.
pub trait CryptoBackend {
    /// Fresh secret material for `algorithm`.
    fn generate(&mut self, algorithm: Algorithm) -> Result<Vec<u8>, u32>;

    /// Authenticated encryption; the output is the ciphertext followed by the tag.
    fn encrypt(&mut self, algorithm: Algorithm, key: &Vec<u8>, nonce: &Vec<u8>, plaintext: &Vec<u8>) -> Result<Vec<u8>, u32>;

    /// Authenticated decryption of a ciphertext followed by its tag.
    fn decrypt(&mut self, algorithm: Algorithm, key: &Vec<u8>, nonce: &Vec<u8>, ciphertext: &Vec<u8>) -> Result<Vec<u8>, u32>;

    /// A signature over `message` with the secret of a key pair.
    fn sign(&mut self, algorithm: Algorithm, secret: &Vec<u8>, message: &Vec<u8>) -> Result<Vec<u8>, u32>;

    /// Checks `signature` over `message` against a public key; an error
    /// carries the reason the signature was refused.
    fn verify(&mut self, algorithm: Algorithm, public: &Vec<u8>, message: &Vec<u8>, signature: &Vec<u8>) -> Result<(), u32>;

    /// The shared secret of a key pair and a peer's public key.
    fn derive_shared(&mut self, algorithm: Algorithm, secret: &Vec<u8>, public: &Vec<u8>) -> Result<Vec<u8>, u32>;
}

/// Options recognised when a context is created.
pub struct Config {
    pub max_open_handles: usize,
    pub enabled_algorithms: Vec<Algorithm>,
}

/// The closed set of boundary operations.
pub enum Operation {
    SymmetricKeyGenerate { algorithm: Algorithm, usage: Usage },
    SymmetricKeyImport { algorithm: Algorithm, raw: Vec<u8>, usage: Usage },
    SymmetricEncrypt { key: Handle, nonce: Vec<u8>, plaintext: Vec<u8> },
    SymmetricDecrypt { key: Handle, nonce: Vec<u8>, ciphertext: Vec<u8> },
    KeyPairGenerate { algorithm: Algorithm, usage: Usage },
    PublicKeyImport { algorithm: Algorithm, raw: Vec<u8> },
    SignatureStateOpen { key_pair: Handle },
    SignatureStateUpdate { state: Handle, data: Vec<u8> },
    SignatureStateSign { state: Handle },
    VerificationStateOpen { public_key: Handle },
    VerificationStateUpdate { state: Handle, data: Vec<u8> },
    VerificationStateVerify { state: Handle, signature: Vec<u8> },
    KeyExchange { key_pair: Handle, public_key: Handle },
    Close { handle: Handle },
}

/// What a successful operation hands back to the caller.
#[derive(Debug)]
pub enum Reply {
    Handle(Handle),
    Bytes(Vec<u8>),
    Done,
}

/// Usage granted to an imported public key.
pub open spec fn public_usage() -> Usage {
    Usage { encrypt: false, decrypt: false, sign: false, verify: true, derive: true }
}

/// Usage granted to a verification state.
pub open spec fn verifying_usage() -> Usage {
    Usage { encrypt: false, decrypt: false, sign: false, verify: true, derive: false }
}

/// Usage granted to a signature state.
pub open spec fn signing_usage() -> Usage {
    Usage { encrypt: false, decrypt: false, sign: true, verify: false, derive: false }
}

pub open spec fn obj(t: TableView, h: Handle) -> ObjView {
    t[h as int]->Some_0
}

/// Room for one more live object and one more handle.
pub open spec fn has_room(t: TableView, max_open: nat) -> bool {
    live_count(t) < max_open && t.len() < u32::MAX
}

/// `algorithm` is enabled and belongs to an asymmetric family.
pub open spec fn asymmetric_enabled(enabled: Seq<Algorithm>, algorithm: Algorithm) -> bool {
    enabled.contains(algorithm) && family_of(algorithm) != Family::Symmetric
}

/// The failure that validation reports for `op`, checked in the fixed order
/// context, handles, algorithm, usage flags, arguments, lifecycle phase,
/// capacity; `None` when the operation may go ahead.
pub open spec fn precheck(open: bool, t: TableView, enabled: Seq<Algorithm>, max_open: nat, op: Operation) -> Option<CryptoError> {
    if !open {
        Some(CryptoError::ContextClosed)
    } else {
        match op {
            Operation::SymmetricKeyGenerate { algorithm, usage } => if !(enabled.contains(algorithm) && family_of(algorithm) == Family::Symmetric) {
                Some(CryptoError::UnsupportedOperation)
            } else if !has_room(t, max_open) {
                Some(CryptoError::ResourceExhausted)
            } else {
                None
            },
            Operation::SymmetricKeyImport { algorithm, raw, usage } => if !(enabled.contains(algorithm) && family_of(algorithm) == Family::Symmetric) {
                Some(CryptoError::UnsupportedOperation)
            } else if raw@.len() != key_len_of(algorithm) {
                Some(CryptoError::InvalidArgument)
            } else if !has_room(t, max_open) {
                Some(CryptoError::ResourceExhausted)
            } else {
                None
            },
            Operation::SymmetricEncrypt { key, nonce, plaintext } => if !is_live_as(t, key as int, CapabilityType::SymmetricKey) {
                Some(CryptoError::InvalidHandle)
            } else if !obj(t, key).usage.encrypt {
                Some(CryptoError::NotAuthorized)
            } else if nonce@.len() != nonce_len_of(obj(t, key).algorithm) || plaintext@.len() + tag_len_of(obj(t, key).algorithm) > usize::MAX {
                Some(CryptoError::InvalidArgument)
            } else {
                None
            },
            Operation::SymmetricDecrypt { key, nonce, ciphertext } => if !is_live_as(t, key as int, CapabilityType::SymmetricKey) {
                Some(CryptoError::InvalidHandle)
            } else if !obj(t, key).usage.decrypt {
                Some(CryptoError::NotAuthorized)
            } else if nonce@.len() != nonce_len_of(obj(t, key).algorithm) || ciphertext@.len() < tag_len_of(obj(t, key).algorithm) {
                Some(CryptoError::InvalidArgument)
            } else {
                None
            },
            Operation::KeyPairGenerate { algorithm, usage } => if !asymmetric_enabled(enabled, algorithm) {
                Some(CryptoError::UnsupportedOperation)
            } else if !has_room(t, max_open) {
                Some(CryptoError::ResourceExhausted)
            } else {
                None
            },
            Operation::PublicKeyImport { algorithm, raw } => if !asymmetric_enabled(enabled, algorithm) {
                Some(CryptoError::UnsupportedOperation)
            } else if raw@.len() == 0 {
                Some(CryptoError::InvalidArgument)
            } else if !has_room(t, max_open) {
                Some(CryptoError::ResourceExhausted)
            } else {
                None
            },
            Operation::SignatureStateOpen { key_pair } => if !is_live_as(t, key_pair as int, CapabilityType::KeyPair) {
                Some(CryptoError::InvalidHandle)
            } else if family_of(obj(t, key_pair).algorithm) != Family::Signatures {
                Some(CryptoError::UnsupportedOperation)
            } else if !obj(t, key_pair).usage.sign {
                Some(CryptoError::NotAuthorized)
            } else if !has_room(t, max_open) {
                Some(CryptoError::ResourceExhausted)
            } else {
                None
            },
            Operation::SignatureStateUpdate { state, data } => if !is_live_as(t, state as int, CapabilityType::SignatureState) {
                Some(CryptoError::InvalidHandle)
            } else if obj(t, state).phase == Phase::Finalized {
                Some(CryptoError::InvalidState)
            } else {
                None
            },
            Operation::SignatureStateSign { state } => if !is_live_as(t, state as int, CapabilityType::SignatureState) {
                Some(CryptoError::InvalidHandle)
            } else if obj(t, state).phase == Phase::Finalized {
                Some(CryptoError::InvalidState)
            } else {
                None
            },
            Operation::VerificationStateOpen { public_key } => if !is_live_as(t, public_key as int, CapabilityType::PublicKey) {
                Some(CryptoError::InvalidHandle)
            } else if family_of(obj(t, public_key).algorithm) != Family::Signatures {
                Some(CryptoError::UnsupportedOperation)
            } else if !obj(t, public_key).usage.verify {
                Some(CryptoError::NotAuthorized)
            } else if !has_room(t, max_open) {
                Some(CryptoError::ResourceExhausted)
            } else {
                None
            },
            Operation::VerificationStateUpdate { state, data } => if !is_live_as(t, state as int, CapabilityType::VerificationState) {
                Some(CryptoError::InvalidHandle)
            } else if obj(t, state).phase == Phase::Finalized {
                Some(CryptoError::InvalidState)
            } else {
                None
            },
            Operation::VerificationStateVerify { state, signature } => if !is_live_as(t, state as int, CapabilityType::VerificationState) {
                Some(CryptoError::InvalidHandle)
            } else if obj(t, state).phase == Phase::Finalized {
                Some(CryptoError::InvalidState)
            } else {
                None
            },
            Operation::KeyExchange { key_pair, public_key } => if !is_live_as(t, key_pair as int, CapabilityType::KeyPair)
                || !is_live_as(t, public_key as int, CapabilityType::PublicKey) {
                Some(CryptoError::InvalidHandle)
            } else if family_of(obj(t, key_pair).algorithm) != Family::KeyExchange {
                Some(CryptoError::UnsupportedOperation)
            } else if !obj(t, key_pair).usage.derive {
                Some(CryptoError::NotAuthorized)
            } else if obj(t, public_key).algorithm != obj(t, key_pair).algorithm {
                Some(CryptoError::InvalidArgument)
            } else {
                None
            },
            Operation::Close { handle } => if !is_live(t, handle as int) {
                Some(CryptoError::InvalidHandle)
            } else {
                None
            },
        }
    }
}

/// `b` is `a` with one new object of the given shape registered, and `r`
/// hands out its handle.
pub open spec fn registered(a: TableView, b: TableView, r: Reply, kind: CapabilityType, algorithm: Algorithm, usage: Usage) -> bool {
    &&& r == Reply::Handle(a.len() as u32)
    &&& b.len() == a.len() + 1
    &&& b.drop_last() == a
    &&& b.last() is Some
    &&& b.last()->Some_0.kind == kind
    &&& b.last()->Some_0.algorithm == algorithm
    &&& b.last()->Some_0.usage == usage
    &&& b.last()->Some_0.phase == Phase::Created
    &&& b.last()->Some_0.absorbed == Seq::<u8>::empty()
}

/// What a successful `op` did: the table `b` after it, from the table `a`
/// before it, and the reply `r`.
pub open spec fn succeeded(a: TableView, b: TableView, op: Operation, r: Reply) -> bool {
    match op {
        Operation::SymmetricKeyGenerate { algorithm, usage } => registered(a, b, r, CapabilityType::SymmetricKey, algorithm, usage)
            && b.last()->Some_0.secret.len() == key_len_of(algorithm),
        Operation::SymmetricKeyImport { algorithm, raw, usage } => registered(a, b, r, CapabilityType::SymmetricKey, algorithm, usage)
            && b.last()->Some_0.secret == raw@,
        Operation::SymmetricEncrypt { key, nonce, plaintext } => b == a && r is Bytes
            && r->Bytes_0@.len() == plaintext@.len() + tag_len_of(obj(a, key).algorithm),
        Operation::SymmetricDecrypt { key, nonce, ciphertext } => b == a && r is Bytes
            && r->Bytes_0@.len() == ciphertext@.len() - tag_len_of(obj(a, key).algorithm),
        Operation::KeyPairGenerate { algorithm, usage } => registered(a, b, r, CapabilityType::KeyPair, algorithm, usage),
        Operation::PublicKeyImport { algorithm, raw } => registered(a, b, r, CapabilityType::PublicKey, algorithm, public_usage())
            && b.last()->Some_0.secret == raw@,
        Operation::SignatureStateOpen { key_pair } => registered(a, b, r, CapabilityType::SignatureState, obj(a, key_pair).algorithm, signing_usage())
            && b.last()->Some_0.secret == obj(a, key_pair).secret,
        Operation::SignatureStateUpdate { state, data } => r is Done && b == a.update(
            state as int,
            Some(ObjView { phase: Phase::Updating, absorbed: obj(a, state).absorbed + data@, ..obj(a, state) }),
        ),
        Operation::SignatureStateSign { state } => r is Bytes && b == a.update(
            state as int,
            Some(ObjView { phase: Phase::Finalized, ..obj(a, state) }),
        ),
        Operation::VerificationStateOpen { public_key } => registered(a, b, r, CapabilityType::VerificationState, obj(a, public_key).algorithm, verifying_usage())
            && b.last()->Some_0.secret == obj(a, public_key).secret,
        Operation::VerificationStateUpdate { state, data } => r is Done && b == a.update(
            state as int,
            Some(ObjView { phase: Phase::Updating, absorbed: obj(a, state).absorbed + data@, ..obj(a, state) }),
        ),
        Operation::VerificationStateVerify { state, signature } => r is Done && b == a.update(
            state as int,
            Some(ObjView { phase: Phase::Finalized, ..obj(a, state) }),
        ),
        Operation::KeyExchange { key_pair, public_key } => b == a && r is Bytes,
        Operation::Close { handle } => r is Done && b == a.update(handle as int, None),
    }
}

/// Operations whose outcome depends on a backend call.
pub open spec fn uses_backend(op: Operation) -> bool {
    match op {
        Operation::SymmetricKeyGenerate { .. } | Operation::SymmetricEncrypt { .. } | Operation::SymmetricDecrypt { .. }
        | Operation::KeyPairGenerate { .. } | Operation::SignatureStateSign { .. } | Operation::VerificationStateVerify { .. }
        | Operation::KeyExchange { .. } => true,
        _ => false,
    }
}

/// Lifecycle of an operation state: once finalized, both absorbing more data
/// and finalizing again are rejected with `InvalidState`, while closing the
/// handle passes validation in every phase.
pub proof fn lemma_state_machine(t: TableView, enabled: Seq<Algorithm>, max_open: nat, h: Handle, data: Vec<u8>)
    requires
        is_live_as(t, h as int, CapabilityType::SignatureState),
    ensures
        obj(t, h).phase == Phase::Finalized ==> precheck(true, t, enabled, max_open, Operation::SignatureStateUpdate { state: h, data })
            == Some(CryptoError::InvalidState),
        obj(t, h).phase == Phase::Finalized ==> precheck(true, t, enabled, max_open, Operation::SignatureStateSign { state: h })
            == Some(CryptoError::InvalidState),
        obj(t, h).phase != Phase::Finalized ==> precheck(true, t, enabled, max_open, Operation::SignatureStateUpdate { state: h, data }) is None,
        precheck(true, t, enabled, max_open, Operation::Close { handle: h }) is None,
{
}

/// The same lifecycle for a verification state.
pub proof fn lemma_verification_state_machine(t: TableView, enabled: Seq<Algorithm>, max_open: nat, h: Handle, data: Vec<u8>, signature: Vec<u8>)
    requires
        is_live_as(t, h as int, CapabilityType::VerificationState),
    ensures
        obj(t, h).phase == Phase::Finalized ==> precheck(true, t, enabled, max_open, Operation::VerificationStateUpdate { state: h, data })
            == Some(CryptoError::InvalidState),
        obj(t, h).phase == Phase::Finalized ==> precheck(true, t, enabled, max_open, Operation::VerificationStateVerify { state: h, signature })
            == Some(CryptoError::InvalidState),
        obj(t, h).phase != Phase::Finalized ==> precheck(true, t, enabled, max_open, Operation::VerificationStateUpdate { state: h, data }) is None,
        precheck(true, t, enabled, max_open, Operation::Close { handle: h }) is None,
{
}

/// A context that has been shut down refuses every operation.
pub proof fn lemma_closed_refuses(t: TableView, enabled: Seq<Algorithm>, max_open: nat, op: Operation)
    ensures
        precheck(false, t, enabled, max_open, op) == Some(CryptoError::ContextClosed),
{
}

/// Turns a backend result into the dispatcher's: a backend failure becomes an
/// algorithm failure with the same reason, and output whose length is not
/// `expected_len` (when one is given) becomes a malformed-output failure.
pub fn accept_output(res: Result<Vec<u8>, u32>, expected_len: Option<usize>) -> (r: Result<Vec<u8>, CryptoError>)
    ensures
        match res {
            Err(reason) => r == Err::<Vec<u8>, CryptoError>(CryptoError::AlgorithmFailure { reason }),
            Ok(out) => match expected_len {
                Some(n) if out@.len() != n => r == Err::<Vec<u8>, CryptoError>(CryptoError::AlgorithmFailure { reason: MALFORMED_OUTPUT }),
                _ => r is Ok && r->Ok_0@ == out@,
            },
        },
{
    match res {
        Err(reason) => Err(CryptoError::AlgorithmFailure { reason }),
        Ok(out) => match expected_len {
            Some(n) => if out.len() != n {
                Err(CryptoError::AlgorithmFailure { reason: MALFORMED_OUTPUT })
            } else {
                Ok(out)
            },
            None => Ok(out),
        },
    }
}

/// The top-level owner of one handle table and of the configuration that
/// governs it.
pub struct Context {
    table: HandleTable,
    enabled: Vec<Algorithm>,
    open: bool,
}

impl Context {
    pub closed spec fn table_view(&self) -> TableView {
        self.table@
    }

    pub closed spec fn enabled(&self) -> Seq<Algorithm> {
        self.enabled@
    }

    pub closed spec fn max_open(&self) -> nat {
        self.table.max_open()
    }

    pub closed spec fn is_open(&self) -> bool {
        self.open
    }

    pub closed spec fn wf(&self) -> bool {
        self.table.wf()
    }

    /// The outcome that validation settles for `op` in this context.
    pub open spec fn precheck_of(&self, op: Operation) -> Option<CryptoError> {
        precheck(self.is_open(), self.table_view(), self.enabled(), self.max_open(), op)
    }

    pub fn new(config: Config) -> (r: Context)
        ensures
            r.wf(),
            r.is_open(),
            r.table_view() == Seq::<Option<ObjView>>::empty(),
            r.enabled() == config.enabled_algorithms@,
            r.max_open() == config.max_open_handles,
    {
        Context { table: HandleTable::new(config.max_open_handles), enabled: config.enabled_algorithms, open: true }
    }

    pub fn open(&self) -> (r: bool)
        ensures
            r == self.is_open(),
    {
        self.open
    }

    pub fn open_handles(&self) -> (r: usize)
        requires
            self.wf(),
        ensures
            r == live_count(self.table_view()),
    {
        self.table.open_count()
    }

    pub fn is_enabled(&self, algorithm: Algorithm) -> (r: bool)
        ensures
            r == self.enabled().contains(algorithm),
    {
        let mut i: usize = 0;
        while i < self.enabled.len()
            invariant
                i <= self.enabled@.len(),
                forall|j: int| 0 <= j < i ==> self.enabled@[j] != algorithm,
            decreases self.enabled@.len() - i,
        {
            if self.enabled[i] == algorithm {
                return true;
            }
            i = i + 1;
        }
        false
    }

    fn has_room(&self) -> (r: bool)
        requires
            self.wf(),
        ensures
            r == has_room(self.table_view(), self.max_open()),
    {
        self.table.open_count() < self.table.max_open_handles() && self.table.issued() < u32::MAX as usize
    }

    /// Looks up `h` at capability type `expected`.
    pub fn resolve(&self, h: Handle, expected: CapabilityType) -> (r: Result<&CapObject, CryptoError>)
        ensures
            !self.is_open() ==> r == Err::<&CapObject, CryptoError>(CryptoError::ContextClosed),
            self.is_open() ==> (r is Ok <==> is_live_as(self.table_view(), h as int, expected)),
            self.is_open() && r is Err ==> r == Err::<&CapObject, CryptoError>(CryptoError::InvalidHandle),
            r is Ok ==> self.table_view()[h as int] == Some(r->Ok_0@),
    {
        if !self.open {
            return Err(CryptoError::ContextClosed);
        }
        self.table.resolve(h, expected)
    }

    /// Closes `h` and hands back the object with its secrets erased.
    pub fn close(&mut self, h: Handle) -> (r: Result<CapObject, CryptoError>)
        requires
            old(self).wf(),
        ensures
            final(self).wf(),
            final(self).is_open() == old(self).is_open(),
            final(self).enabled() == old(self).enabled(),
            final(self).max_open() == old(self).max_open(),
            !old(self).is_open() ==> r == Err::<CapObject, CryptoError>(CryptoError::ContextClosed),
            old(self).is_open() ==> (r is Ok <==> is_live(old(self).table_view(), h as int)),
            r is Err ==> final(self).table_view() == old(self).table_view(),
            r is Err && old(self).is_open() ==> r == Err::<CapObject, CryptoError>(CryptoError::InvalidHandle),
            r is Ok ==> final(self).table_view() == old(self).table_view().update(h as int, None),
            r is Ok ==> wiped_from(r->Ok_0, old(self).table_view()[h as int]->Some_0),
    {
        if !self.open {
            return Err(CryptoError::ContextClosed);
        }
        self.table.close(h)
    }

    fn symmetric_enabled(&self, algorithm: Algorithm) -> (r: bool)
        ensures
            r == (self.enabled().contains(algorithm) && family_of(algorithm) == Family::Symmetric),
    {
        self.is_enabled(algorithm) && algorithm.family() == Family::Symmetric
    }

    fn asymmetric_enabled(&self, algorithm: Algorithm) -> (r: bool)
        ensures
            r == asymmetric_enabled(self.enabled(), algorithm),
    {
        self.is_enabled(algorithm) && algorithm.family() != Family::Symmetric
    }

    /// Checks handles, algorithm, usage flags, arguments, lifecycle phase and
    /// capacity for `op`, in that order, without touching anything.
    pub fn validate(&self, op: &Operation) -> (r: Option<CryptoError>)
        requires
            self.wf(),
        ensures
            r == self.precheck_of(*op),
    {
        if !self.open {
            return Some(CryptoError::ContextClosed);
        }
        match op {
            Operation::SymmetricKeyGenerate { algorithm, usage } => {
                if !self.symmetric_enabled(*algorithm) {
                    Some(CryptoError::UnsupportedOperation)
                } else if !self.has_room() {
                    Some(CryptoError::ResourceExhausted)
                } else {
                    None
                }
            },
            Operation::SymmetricKeyImport { algorithm, raw, usage } => {
                if !self.symmetric_enabled(*algorithm) {
                    Some(CryptoError::UnsupportedOperation)
                } else if raw.len() != algorithm.key_len() {
                    Some(CryptoError::InvalidArgument)
                } else if !self.has_room() {
                    Some(CryptoError::ResourceExhausted)
                } else {
                    None
                }
            },
            Operation::SymmetricEncrypt { key, nonce, plaintext } => {
                match self.table.resolve(*key, CapabilityType::SymmetricKey) {
                    Err(e) => Some(e),
                    Ok(k) => {
                        if !k.usage.encrypt {
                            Some(CryptoError::NotAuthorized)
                        } else if nonce.len() != k.algorithm.nonce_len()
                            || plaintext.len() > usize::MAX - k.algorithm.tag_len() {
                            Some(CryptoError::InvalidArgument)
                        } else {
                            None
                        }
                    },
                }
            },
            Operation::SymmetricDecrypt { key, nonce, ciphertext } => {
                match self.table.resolve(*key, CapabilityType::SymmetricKey) {
                    Err(e) => Some(e),
                    Ok(k) => {
                        if !k.usage.decrypt {
                            Some(CryptoError::NotAuthorized)
                        } else if nonce.len() != k.algorithm.nonce_len() || ciphertext.len() < k.algorithm.tag_len() {
                            Some(CryptoError::InvalidArgument)
                        } else {
                            None
                        }
                    },
                }
            },
            Operation::KeyPairGenerate { algorithm, usage } => {
                if !self.asymmetric_enabled(*algorithm) {
                    Some(CryptoError::UnsupportedOperation)
                } else if !self.has_room() {
                    Some(CryptoError::ResourceExhausted)
                } else {
                    None
                }
            },
            Operation::PublicKeyImport { algorithm, raw } => {
                if !self.asymmetric_enabled(*algorithm) {
                    Some(CryptoError::UnsupportedOperation)
                } else if raw.len() == 0 {
                    Some(CryptoError::InvalidArgument)
                } else if !self.has_room() {
                    Some(CryptoError::ResourceExhausted)
                } else {
                    None
                }
            },
            Operation::SignatureStateOpen { key_pair } => {
                match self.table.resolve(*key_pair, CapabilityType::KeyPair) {
                    Err(e) => Some(e),
                    Ok(kp) => {
                        if kp.algorithm.family() != Family::Signatures {
                            Some(CryptoError::UnsupportedOperation)
                        } else if !kp.usage.sign {
                            Some(CryptoError::NotAuthorized)
                        } else if !self.has_room() {
                            Some(CryptoError::ResourceExhausted)
                        } else {
                            None
                        }
                    },
                }
            },
            Operation::SignatureStateUpdate { state, data } => {
                match self.table.resolve(*state, CapabilityType::SignatureState) {
                    Err(e) => Some(e),
                    Ok(st) => {
                        if st.phase == Phase::Finalized {
                            Some(CryptoError::InvalidState)
                        } else {
                            None
                        }
                    },
                }
            },
            Operation::SignatureStateSign { state } => {
                match self.table.resolve(*state, CapabilityType::SignatureState) {
                    Err(e) => Some(e),
                    Ok(st) => {
                        if st.phase == Phase::Finalized {
                            Some(CryptoError::InvalidState)
                        } else {
                            None
                        }
                    },
                }
            },
            Operation::VerificationStateOpen { public_key } => {
                match self.table.resolve(*public_key, CapabilityType::PublicKey) {
                    Err(e) => Some(e),
                    Ok(pk) => {
                        if pk.algorithm.family() != Family::Signatures {
                            Some(CryptoError::UnsupportedOperation)
                        } else if !pk.usage.verify {
                            Some(CryptoError::NotAuthorized)
                        } else if !self.has_room() {
                            Some(CryptoError::ResourceExhausted)
                        } else {
                            None
                        }
                    },
                }
            },
            Operation::VerificationStateUpdate { state, .. } | Operation::VerificationStateVerify { state, .. } => {
                match self.table.resolve(*state, CapabilityType::VerificationState) {
                    Err(e) => Some(e),
                    Ok(st) => {
                        if st.phase == Phase::Finalized {
                            Some(CryptoError::InvalidState)
                        } else {
                            None
                        }
                    },
                }
            },
            Operation::KeyExchange { key_pair, public_key } => {
                let kp = self.table.resolve(*key_pair, CapabilityType::KeyPair);
                let pk = self.table.resolve(*public_key, CapabilityType::PublicKey);
                match (kp, pk) {
                    (Ok(kp), Ok(pk)) => {
                        if kp.algorithm.family() != Family::KeyExchange {
                            Some(CryptoError::UnsupportedOperation)
                        } else if !kp.usage.derive {
                            Some(CryptoError::NotAuthorized)
                        } else if pk.algorithm != kp.algorithm {
                            Some(CryptoError::InvalidArgument)
                        } else {
                            None
                        }
                    },
                    _ => Some(CryptoError::InvalidHandle),
                }
            },
            Operation::Close { handle } => {
                if self.table.resolve_any(*handle) {
                    None
                } else {
                    Some(CryptoError::InvalidHandle)
                }
            },
        }
    }

    /// The single entry point for boundary calls. Validation failures come
    /// back exactly as `precheck` gives them; past validation, only a backend
    /// can make the call fail. A failing call leaves the table as it was.
    pub fn dispatch<B: CryptoBackend>(&mut self, backend: &mut B, op: &Operation) -> (r: Result<Reply, CryptoError>)
        requires
            old(self).wf(),
        ensures
            final(self).wf(),
            final(self).is_open() == old(self).is_open(),
            final(self).enabled() == old(self).enabled(),
            final(self).max_open() == old(self).max_open(),
            evolves(old(self).table_view(), final(self).table_view()),
            old(self).precheck_of(*op) is Some ==> r == Err::<Reply, CryptoError>(old(self).precheck_of(*op)->Some_0),
            old(self).precheck_of(*op) is None && !uses_backend(*op) ==> r is Ok,
            old(self).precheck_of(*op) is None && r is Err ==> r->Err_0 is AlgorithmFailure,
            r is Err ==> final(self).table_view() == old(self).table_view(),
            r is Ok ==> succeeded(old(self).table_view(), final(self).table_view(), *op, r->Ok_0),
    {
        match self.validate(op) {
            Some(e) => {
                return Err(e);
            },
            None => {},
        }
        match op {
            Operation::SymmetricKeyGenerate { algorithm, usage } => {
                let secret = match accept_output(backend.generate(*algorithm), Some(algorithm.key_len())) {
                    Ok(s) => s,
                    Err(e) => {
                        return Err(e);
                    },
                };
                self.register_new(CapObject::new(CapabilityType::SymmetricKey, *algorithm, *usage, secret))
            },
            Operation::SymmetricKeyImport { algorithm, raw, usage } => {
                let secret = copy_bytes(raw);
                self.register_new(CapObject::new(CapabilityType::SymmetricKey, *algorithm, *usage, secret))
            },
            Operation::SymmetricEncrypt { key, nonce, plaintext } => {
                let k = match self.table.resolve(*key, CapabilityType::SymmetricKey) {
                    Ok(k) => k,
                    Err(e) => {
                        return Err(e);
                    },
                };
                let expected = plaintext.len() + k.algorithm.tag_len();
                let out = backend.encrypt(k.algorithm, &k.secret, nonce, plaintext);
                match accept_output(out, Some(expected)) {
                    Ok(b) => Ok(Reply::Bytes(b)),
                    Err(e) => Err(e),
                }
            },
            Operation::SymmetricDecrypt { key, nonce, ciphertext } => {
                let k = match self.table.resolve(*key, CapabilityType::SymmetricKey) {
                    Ok(k) => k,
                    Err(e) => {
                        return Err(e);
                    },
                };
                let expected = ciphertext.len() - k.algorithm.tag_len();
                let out = backend.decrypt(k.algorithm, &k.secret, nonce, ciphertext);
                match accept_output(out, Some(expected)) {
                    Ok(b) => Ok(Reply::Bytes(b)),
                    Err(e) => Err(e),
                }
            },
            Operation::KeyPairGenerate { algorithm, usage } => {
                let secret = match accept_output(backend.generate(*algorithm), None) {
                    Ok(s) => s,
                    Err(e) => {
                        return Err(e);
                    },
                };
                self.register_new(CapObject::new(CapabilityType::KeyPair, *algorithm, *usage, secret))
            },
            Operation::PublicKeyImport { algorithm, raw } => {
                let material = copy_bytes(raw);
                let usage = Usage { encrypt: false, decrypt: false, sign: false, verify: true, derive: true };
                self.register_new(CapObject::new(CapabilityType::PublicKey, *algorithm, usage, material))
            },
            Operation::SignatureStateOpen { key_pair } => {
                let (algorithm, secret) = match self.table.resolve(*key_pair, CapabilityType::KeyPair) {
                    Ok(kp) => (kp.algorithm, copy_bytes(&kp.secret)),
                    Err(e) => {
                        return Err(e);
                    },
                };
                let usage = Usage { encrypt: false, decrypt: false, sign: true, verify: false, derive: false };
                self.register_new(CapObject::new(CapabilityType::SignatureState, algorithm, usage, secret))
            },
            Operation::SignatureStateUpdate { state, data } => {
                self.table.advance(*state, Phase::Updating, data);
                Ok(Reply::Done)
            },
            Operation::SignatureStateSign { state } => {
                let out = match self.table.resolve(*state, CapabilityType::SignatureState) {
                    Ok(st) => backend.sign(st.algorithm, &st.secret, &st.absorbed),
                    Err(e) => {
                        return Err(e);
                    },
                };
                let sig = match accept_output(out, None) {
                    Ok(b) => b,
                    Err(e) => {
                        return Err(e);
                    },
                };
                let nothing: Vec<u8> = Vec::new();
                self.table.advance(*state, Phase::Finalized, &nothing);
                proof {
                    let o = obj(old(self).table_view(), *state);
                    assert(o.absorbed + nothing@ =~= o.absorbed);
                    assert(ObjView { phase: Phase::Finalized, absorbed: o.absorbed + nothing@, ..o }
                        == ObjView { phase: Phase::Finalized, ..o });
                }
                Ok(Reply::Bytes(sig))
            },
            Operation::VerificationStateOpen { public_key } => {
                let (algorithm, material) = match self.table.resolve(*public_key, CapabilityType::PublicKey) {
                    Ok(pk) => (pk.algorithm, copy_bytes(&pk.secret)),
                    Err(e) => {
                        return Err(e);
                    },
                };
                let usage = Usage { encrypt: false, decrypt: false, sign: false, verify: true, derive: false };
                self.register_new(CapObject::new(CapabilityType::VerificationState, algorithm, usage, material))
            },
            Operation::VerificationStateUpdate { state, data } => {
                self.table.advance(*state, Phase::Updating, data);
                Ok(Reply::Done)
            },
            Operation::VerificationStateVerify { state, signature } => {
                let out = match self.table.resolve(*state, CapabilityType::VerificationState) {
                    Ok(st) => backend.verify(st.algorithm, &st.secret, &st.absorbed, signature),
                    Err(e) => {
                        return Err(e);
                    },
                };
                match out {
                    Ok(()) => {},
                    Err(reason) => {
                        return Err(CryptoError::AlgorithmFailure { reason });
                    },
                }
                let nothing: Vec<u8> = Vec::new();
                self.table.advance(*state, Phase::Finalized, &nothing);
                proof {
                    let o = obj(old(self).table_view(), *state);
                    assert(o.absorbed + nothing@ =~= o.absorbed);
                    assert(ObjView { phase: Phase::Finalized, absorbed: o.absorbed + nothing@, ..o }
                        == ObjView { phase: Phase::Finalized, ..o });
                }
                Ok(Reply::Done)
            },
            Operation::KeyExchange { key_pair, public_key } => {
                let out = match (
                    self.table.resolve(*key_pair, CapabilityType::KeyPair),
                    self.table.resolve(*public_key, CapabilityType::PublicKey),
                ) {
                    (Ok(kp), Ok(pk)) => backend.derive_shared(kp.algorithm, &kp.secret, &pk.secret),
                    _ => {
                        return Err(CryptoError::InvalidHandle);
                    },
                };
                match accept_output(out, None) {
                    Ok(b) => Ok(Reply::Bytes(b)),
                    Err(e) => Err(e),
                }
            },
            Operation::Close { handle } => {
                match self.table.close(*handle) {
                    Ok(_) => Ok(Reply::Done),
                    Err(e) => Err(e),
                }
            },
        }
    }

    fn register_new(&mut self, o: CapObject) -> (r: Result<Reply, CryptoError>)
        requires
            old(self).wf(),
            has_room(old(self).table_view(), old(self).max_open()),
        ensures
            final(self).wf(),
            final(self).is_open() == old(self).is_open(),
            final(self).enabled() == old(self).enabled(),
            final(self).max_open() == old(self).max_open(),
            evolves(old(self).table_view(), final(self).table_view()),
            r is Ok,
            r->Ok_0 == Reply::Handle(old(self).table_view().len() as u32),
            final(self).table_view() == old(self).table_view().push(Some(o@)),
            final(self).table_view().drop_last() == old(self).table_view(),
    {
        let ghost v = o@;
        proof {
            assert(old(self).table_view().push(Some(v)).drop_last() =~= old(self).table_view());
        }
        match self.table.register(o) {
            Ok(h) => Ok(Reply::Handle(h)),
            Err(e) => Err(e),
        }
    }

    /// Erases and removes every remaining object; afterwards every operation
    /// fails with `ContextClosed`.
    pub fn shutdown(&mut self) -> (r: Vec<CapObject>)
        requires
            old(self).wf(),
        ensures
            final(self).wf(),
            !final(self).is_open(),
            final(self).table_view().len() == old(self).table_view().len(),
            live_count(final(self).table_view()) == 0,
            forall|h: int| 0 <= h < final(self).table_view().len() ==> #[trigger] final(self).table_view()[h] is None,
            r@.len() == live_count(old(self).table_view()),
            all_wiped(r@),
    {
        let r = self.table.close_all();
        self.open = false;
        proof {
            lemma_live_count_none(self.table@);
        }
        r
    }
}

pub fn copy_bytes(src: &Vec<u8>) -> (r: Vec<u8>)
    ensures
        r@ == src@,
{
    let mut out: Vec<u8> = Vec::new();
    let mut i: usize = 0;
    while i < src.len()
        invariant
            i <= src@.len(),
            out@ == src@.subrange(0, i as int),
        decreases src@.len() - i,
    {
        out.push(src[i]);
        assert(src@.subrange(0, i + 1) =~= src@.subrange(0, i as int).push(src@[i as int]));
        i = i + 1;
    }
    assert(src@.subrange(0, src@.len() as int) =~= src@);
    out
}

} // verus!
