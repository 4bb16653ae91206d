use std::collections::HashSet;

use wasi_crypto::capability::{Algorithm, CapObject, CapabilityType, Phase, Usage};
use wasi_crypto::context::{accept_output, Config, Context, CryptoBackend, Operation, Reply, MALFORMED_OUTPUT};
use wasi_crypto::error::CryptoError;
use wasi_crypto::table::HandleTable;
use wasi_crypto::witx_interfaces;

/// A toy backend: keys are filled with a constant, "encryption" flips bits
/// and appends a zero tag.
struct ToyBackend;

impl CryptoBackend for ToyBackend {
    fn generate(&mut self, algorithm: Algorithm) -> Result<Vec<u8>, u32> {
        let n = if algorithm.key_len() > 0 { algorithm.key_len() } else { 32 };
        Ok(vec![0x42; n])
    }

    fn encrypt(&mut self, algorithm: Algorithm, _key: &Vec<u8>, _nonce: &Vec<u8>, plaintext: &Vec<u8>) -> Result<Vec<u8>, u32> {
        let mut out: Vec<u8> = plaintext.iter().map(|b| b ^ 0xff).collect();
        out.extend(vec![0u8; algorithm.tag_len()]);
        Ok(out)
    }

    fn decrypt(&mut self, algorithm: Algorithm, _key: &Vec<u8>, _nonce: &Vec<u8>, ciphertext: &Vec<u8>) -> Result<Vec<u8>, u32> {
        let n = ciphertext.len() - algorithm.tag_len();
        Ok(ciphertext[..n].iter().map(|b| b ^ 0xff).collect())
    }

    fn sign(&mut self, _algorithm: Algorithm, _secret: &Vec<u8>, message: &Vec<u8>) -> Result<Vec<u8>, u32> {
        Ok(vec![message.len() as u8; 64])
    }

    fn verify(&mut self, _algorithm: Algorithm, _public: &Vec<u8>, message: &Vec<u8>, signature: &Vec<u8>) -> Result<(), u32> {
        if *signature == vec![message.len() as u8; 64] {
            Ok(())
        } else {
            Err(10)
        }
    }

    fn derive_shared(&mut self, _algorithm: Algorithm, _secret: &Vec<u8>, _public: &Vec<u8>) -> Result<Vec<u8>, u32> {
        Ok(vec![7u8; 32])
    }
}

/// A backend whose every call fails with the same reason.
struct BrokenBackend;

impl CryptoBackend for BrokenBackend {
    fn generate(&mut self, _a: Algorithm) -> Result<Vec<u8>, u32> {
        Err(5)
    }
    fn encrypt(&mut self, _a: Algorithm, _k: &Vec<u8>, _n: &Vec<u8>, _p: &Vec<u8>) -> Result<Vec<u8>, u32> {
        Err(5)
    }
    fn decrypt(&mut self, _a: Algorithm, _k: &Vec<u8>, _n: &Vec<u8>, _c: &Vec<u8>) -> Result<Vec<u8>, u32> {
        Err(5)
    }
    fn sign(&mut self, _a: Algorithm, _s: &Vec<u8>, _m: &Vec<u8>) -> Result<Vec<u8>, u32> {
        Err(5)
    }
    fn verify(&mut self, _a: Algorithm, _p: &Vec<u8>, _m: &Vec<u8>, _s: &Vec<u8>) -> Result<(), u32> {
        Err(5)
    }
    fn derive_shared(&mut self, _a: Algorithm, _s: &Vec<u8>, _p: &Vec<u8>) -> Result<Vec<u8>, u32> {
        Err(5)
    }
}

fn all_usage() -> Usage {
    Usage { encrypt: true, decrypt: true, sign: true, verify: true, derive: true }
}

fn context(max_open: usize) -> Context {
    Context::new(Config {
        max_open_handles: max_open,
        enabled_algorithms: vec![Algorithm::Aes256Gcm, Algorithm::Ed25519, Algorithm::X25519],
    })
}

fn handle_of(r: Result<Reply, CryptoError>) -> u32 {
    match r {
        Ok(Reply::Handle(h)) => h,
        other => panic!("expected a handle, got {:?}", other),
    }
}

fn bytes_of(r: Result<Reply, CryptoError>) -> Vec<u8> {
    match r {
        Ok(Reply::Bytes(b)) => b,
        other => panic!("expected bytes, got {:?}", other),
    }
}

fn err_of(r: Result<Reply, CryptoError>) -> CryptoError {
    match r {
        Err(e) => e,
        other => panic!("expected an error, got {:?}", other),
    }
}

fn sym_key(ctx: &mut Context) -> u32 {
    handle_of(ctx.dispatch(&mut ToyBackend, &Operation::SymmetricKeyGenerate { algorithm: Algorithm::Aes256Gcm, usage: all_usage() }))
}

fn sig_state(ctx: &mut Context) -> u32 {
    let kp = handle_of(ctx.dispatch(&mut ToyBackend, &Operation::KeyPairGenerate { algorithm: Algorithm::Ed25519, usage: all_usage() }));
    handle_of(ctx.dispatch(&mut ToyBackend, &Operation::SignatureStateOpen { key_pair: kp }))
}

fn object(kind: CapabilityType, secret: Vec<u8>) -> CapObject {
    CapObject::new(kind, Algorithm::Aes256Gcm, all_usage(), secret)
}

#[test]
fn witx_interfaces_lists_every_schema_document() {
    let docs = witx_interfaces();
    assert_eq!(docs.len(), 7);
    assert_eq!(docs[0], ("proposal_common.witx", "wasi_ephemeral_crypto_common"));
    assert_eq!(docs[6], ("wasi_ephemeral_crypto.witx", "wasi_ephemeral_crypto"));
    assert!(docs.iter().any(|d| d.0 == "proposal_kx.witx"));
}

#[test]
fn aes_key_scenario() {
    let mut ctx = context(8);
    let h1 = sym_key(&mut ctx);
    assert_eq!(err_of(ctx.dispatch(&mut ToyBackend, &Operation::SignatureStateOpen { key_pair: h1 })), CryptoError::InvalidHandle);
    let plaintext = b"attack at dawn".to_vec();
    let ct = bytes_of(ctx.dispatch(&mut ToyBackend, &Operation::SymmetricEncrypt { key: h1, nonce: vec![0u8; 12], plaintext: plaintext.clone() }));
    assert_eq!(ct.len(), plaintext.len() + 16);
    assert!(matches!(ctx.dispatch(&mut ToyBackend, &Operation::Close { handle: h1 }), Ok(Reply::Done)));
    assert_eq!(ctx.resolve(h1, CapabilityType::SymmetricKey).err(), Some(CryptoError::InvalidHandle));
    assert_eq!(err_of(ctx.dispatch(&mut ToyBackend, &Operation::SymmetricEncrypt { key: h1, nonce: vec![0u8; 12], plaintext })), CryptoError::InvalidHandle);
}

#[test]
fn exhaustion_scenario() {
    let mut ctx = context(2);
    let a = sym_key(&mut ctx);
    let _b = sym_key(&mut ctx);
    let op = Operation::SymmetricKeyImport { algorithm: Algorithm::Aes256Gcm, raw: vec![1u8; 32], usage: all_usage() };
    assert_eq!(err_of(ctx.dispatch(&mut ToyBackend, &op)), CryptoError::ResourceExhausted);
    assert!(ctx.close(a).is_ok());
    let c = handle_of(ctx.dispatch(&mut ToyBackend, &op));
    assert_ne!(c, a);
    assert_eq!(ctx.open_handles(), 2);
}

#[test]
fn closed_handle_never_resolves_again() {
    let mut t = HandleTable::new(4);
    let h = t.register(object(CapabilityType::SymmetricKey, vec![9u8; 32])).unwrap();
    assert!(t.close(h).is_ok());
    for _ in 0..3 {
        let g = t.register(object(CapabilityType::SymmetricKey, vec![9u8; 32])).unwrap();
        assert_ne!(g, h);
    }
    assert_eq!(t.resolve(h, CapabilityType::SymmetricKey).err(), Some(CryptoError::InvalidHandle));
    assert_eq!(t.close(h).err(), Some(CryptoError::InvalidHandle));
}

#[test]
fn double_close_is_an_error() {
    let mut t = HandleTable::new(4);
    let h = t.register(object(CapabilityType::KeyPair, vec![1, 2, 3])).unwrap();
    assert!(t.close(h).is_ok());
    assert_eq!(t.close(h).err(), Some(CryptoError::InvalidHandle));
    assert_eq!(t.close(99).err(), Some(CryptoError::InvalidHandle));
}

#[test]
fn resolve_rejects_every_other_type() {
    let mut t = HandleTable::new(4);
    let h = t.register(object(CapabilityType::PublicKey, vec![5u8; 32])).unwrap();
    let kinds = [
        CapabilityType::KeyPair,
        CapabilityType::SecretKey,
        CapabilityType::SymmetricKey,
        CapabilityType::SymmetricState,
        CapabilityType::SignatureState,
        CapabilityType::VerificationState,
        CapabilityType::KeyExchangeState,
        CapabilityType::ArrayOutput,
    ];
    for k in kinds {
        assert_eq!(t.resolve(h, k).err(), Some(CryptoError::InvalidHandle));
    }
    let o = t.resolve(h, CapabilityType::PublicKey).unwrap();
    assert_eq!(o.secret, vec![5u8; 32]);
}

#[test]
fn close_erases_secret_material() {
    let mut t = HandleTable::new(4);
    let h = t.register(object(CapabilityType::SymmetricKey, vec![0xaa; 32])).unwrap();
    let wiped = t.close(h).unwrap();
    assert_eq!(wiped.secret.len(), 32);
    assert!(wiped.secret.iter().all(|b| *b == 0));
    assert!(wiped.is_erased());
    assert_eq!(wiped.kind, CapabilityType::SymmetricKey);
}

#[test]
fn failing_dispatch_leaves_table_unchanged() {
    let mut ctx = context(8);
    let key = sym_key(&mut ctx);
    let before = ctx.open_handles();
    let bad_nonce = Operation::SymmetricEncrypt { key, nonce: vec![0u8; 11], plaintext: vec![1, 2, 3] };
    assert_eq!(err_of(ctx.dispatch(&mut ToyBackend, &bad_nonce)), CryptoError::InvalidArgument);
    assert_eq!(err_of(ctx.dispatch(&mut BrokenBackend, &Operation::SymmetricKeyGenerate { algorithm: Algorithm::Aes256Gcm, usage: all_usage() })), CryptoError::AlgorithmFailure { reason: 5 });
    assert_eq!(ctx.open_handles(), before);
    let st = sig_state(&mut ctx);
    assert_eq!(err_of(ctx.dispatch(&mut BrokenBackend, &Operation::SignatureStateSign { state: st })), CryptoError::AlgorithmFailure { reason: 5 });
    assert_eq!(ctx.resolve(st, CapabilityType::SignatureState).unwrap().phase, Phase::Created);
    assert!(ctx.resolve(key, CapabilityType::SymmetricKey).is_ok());
}

#[test]
fn finalized_state_rejects_update_and_sign() {
    let mut ctx = context(8);
    let st = sig_state(&mut ctx);
    assert!(matches!(ctx.dispatch(&mut ToyBackend, &Operation::SignatureStateUpdate { state: st, data: vec![1, 2] }), Ok(Reply::Done)));
    assert!(matches!(ctx.dispatch(&mut ToyBackend, &Operation::SignatureStateUpdate { state: st, data: vec![3] }), Ok(Reply::Done)));
    {
        let o = ctx.resolve(st, CapabilityType::SignatureState).unwrap();
        assert_eq!(o.phase, Phase::Updating);
        assert_eq!(o.absorbed, vec![1, 2, 3]);
    }
    let sig = bytes_of(ctx.dispatch(&mut ToyBackend, &Operation::SignatureStateSign { state: st }));
    assert_eq!(sig, vec![3u8; 64]);
    assert_eq!(err_of(ctx.dispatch(&mut ToyBackend, &Operation::SignatureStateSign { state: st })), CryptoError::InvalidState);
    assert_eq!(err_of(ctx.dispatch(&mut ToyBackend, &Operation::SignatureStateUpdate { state: st, data: vec![4] })), CryptoError::InvalidState);
    assert!(matches!(ctx.dispatch(&mut ToyBackend, &Operation::Close { handle: st }), Ok(Reply::Done)));
}

#[test]
fn close_is_legal_from_created_state() {
    let mut ctx = context(8);
    let st = sig_state(&mut ctx);
    assert!(matches!(ctx.dispatch(&mut ToyBackend, &Operation::Close { handle: st }), Ok(Reply::Done)));
}

#[test]
fn many_registrations_give_distinct_handles() {
    let mut t = HandleTable::new(1000);
    let mut seen = HashSet::new();
    for _ in 0..4 {
        for _ in 0..25 {
            let h = t.register(object(CapabilityType::ArrayOutput, vec![])).unwrap();
            assert!(seen.insert(h));
        }
    }
    assert_eq!(seen.len(), 100);
    assert_eq!(t.open_count(), 100);
}

#[test]
fn shutdown_erases_all_and_refuses_calls() {
    let mut ctx = context(8);
    let a = sym_key(&mut ctx);
    let _st = sig_state(&mut ctx);
    let wiped = ctx.shutdown();
    assert_eq!(wiped.len(), 3);
    assert!(wiped.iter().all(|o| o.is_erased()));
    assert!(!ctx.open());
    assert_eq!(ctx.open_handles(), 0);
    assert_eq!(err_of(ctx.dispatch(&mut ToyBackend, &Operation::Close { handle: a })), CryptoError::ContextClosed);
    assert_eq!(ctx.resolve(a, CapabilityType::SymmetricKey).err(), Some(CryptoError::ContextClosed));
}

#[test]
fn disabled_algorithm_is_unsupported() {
    let mut ctx = context(8);
    let op = Operation::SymmetricKeyGenerate { algorithm: Algorithm::ChaCha20Poly1305, usage: all_usage() };
    assert_eq!(err_of(ctx.dispatch(&mut ToyBackend, &op)), CryptoError::UnsupportedOperation);
    let op = Operation::KeyPairGenerate { algorithm: Algorithm::Aes256Gcm, usage: all_usage() };
    assert_eq!(err_of(ctx.dispatch(&mut ToyBackend, &op)), CryptoError::UnsupportedOperation);
}

#[test]
fn usage_flags_are_enforced() {
    let mut ctx = context(8);
    let encrypt_only = Usage { encrypt: true, decrypt: false, sign: false, verify: false, derive: false };
    let key = handle_of(ctx.dispatch(&mut ToyBackend, &Operation::SymmetricKeyImport { algorithm: Algorithm::Aes256Gcm, raw: vec![3u8; 32], usage: encrypt_only }));
    let op = Operation::SymmetricDecrypt { key, nonce: vec![0u8; 12], ciphertext: vec![0u8; 20] };
    assert_eq!(err_of(ctx.dispatch(&mut ToyBackend, &op)), CryptoError::NotAuthorized);
    let kp = handle_of(ctx.dispatch(&mut ToyBackend, &Operation::KeyPairGenerate { algorithm: Algorithm::Ed25519, usage: Usage::none() }));
    assert_eq!(err_of(ctx.dispatch(&mut ToyBackend, &Operation::SignatureStateOpen { key_pair: kp })), CryptoError::NotAuthorized);
}

#[test]
fn encrypt_then_decrypt_round_trips() {
    let mut ctx = context(8);
    let key = sym_key(&mut ctx);
    let ct = bytes_of(ctx.dispatch(&mut ToyBackend, &Operation::SymmetricEncrypt { key, nonce: vec![1u8; 12], plaintext: vec![10, 20, 30] }));
    assert_eq!(ct, vec![245, 235, 225, 0, 0, 0, 0, 0, 0, 0, 0, 0, 0, 0, 0, 0, 0, 0, 0]);
    let pt = bytes_of(ctx.dispatch(&mut ToyBackend, &Operation::SymmetricDecrypt { key, nonce: vec![1u8; 12], ciphertext: ct }));
    assert_eq!(pt, vec![10, 20, 30]);
    let short = Operation::SymmetricDecrypt { key, nonce: vec![1u8; 12], ciphertext: vec![0u8; 15] };
    assert_eq!(err_of(ctx.dispatch(&mut ToyBackend, &short)), CryptoError::InvalidArgument);
}

#[test]
fn import_checks_key_length() {
    let mut ctx = context(8);
    let op = Operation::SymmetricKeyImport { algorithm: Algorithm::Aes256Gcm, raw: vec![3u8; 16], usage: all_usage() };
    assert_eq!(err_of(ctx.dispatch(&mut ToyBackend, &op)), CryptoError::InvalidArgument);
    let op = Operation::PublicKeyImport { algorithm: Algorithm::X25519, raw: vec![] };
    assert_eq!(err_of(ctx.dispatch(&mut ToyBackend, &op)), CryptoError::InvalidArgument);
    assert_eq!(ctx.open_handles(), 0);
}

#[test]
fn key_exchange_checks_algorithms() {
    let mut ctx = context(8);
    let kp = handle_of(ctx.dispatch(&mut ToyBackend, &Operation::KeyPairGenerate { algorithm: Algorithm::X25519, usage: all_usage() }));
    let pk = handle_of(ctx.dispatch(&mut ToyBackend, &Operation::PublicKeyImport { algorithm: Algorithm::X25519, raw: vec![1u8; 32] }));
    let other = handle_of(ctx.dispatch(&mut ToyBackend, &Operation::PublicKeyImport { algorithm: Algorithm::Ed25519, raw: vec![1u8; 32] }));
    assert_eq!(bytes_of(ctx.dispatch(&mut ToyBackend, &Operation::KeyExchange { key_pair: kp, public_key: pk })), vec![7u8; 32]);
    assert_eq!(err_of(ctx.dispatch(&mut ToyBackend, &Operation::KeyExchange { key_pair: kp, public_key: other })), CryptoError::InvalidArgument);
    assert_eq!(err_of(ctx.dispatch(&mut ToyBackend, &Operation::KeyExchange { key_pair: pk, public_key: kp })), CryptoError::InvalidHandle);
    let sig_kp = handle_of(ctx.dispatch(&mut ToyBackend, &Operation::KeyPairGenerate { algorithm: Algorithm::Ed25519, usage: all_usage() }));
    assert_eq!(err_of(ctx.dispatch(&mut ToyBackend, &Operation::KeyExchange { key_pair: sig_kp, public_key: other })), CryptoError::UnsupportedOperation);
}

#[test]
fn backend_output_is_checked() {
    assert_eq!(accept_output(Ok(vec![1, 2, 3]), Some(3)).unwrap(), vec![1, 2, 3]);
    assert_eq!(accept_output(Ok(vec![1, 2]), Some(3)).err(), Some(CryptoError::AlgorithmFailure { reason: MALFORMED_OUTPUT }));
    assert_eq!(accept_output(Ok(vec![]), None).unwrap(), Vec::<u8>::new());
    assert_eq!(accept_output(Err(9), None).err(), Some(CryptoError::AlgorithmFailure { reason: 9 }));
}

#[test]
fn error_codes_are_fixed_and_distinct() {
    let all = [
        CryptoError::InvalidHandle,
        CryptoError::InvalidState,
        CryptoError::InvalidArgument,
        CryptoError::NotAuthorized,
        CryptoError::UnsupportedOperation,
        CryptoError::ResourceExhausted,
        CryptoError::ContextClosed,
        CryptoError::AlgorithmFailure { reason: 1 },
    ];
    let codes: Vec<u16> = all.iter().map(|e| e.code()).collect();
    assert_eq!(codes, vec![15, 22, 9, 4, 6, 18, 14, 12]);
    let distinct: HashSet<u16> = codes.iter().copied().collect();
    assert_eq!(distinct.len(), all.len());
    assert_eq!(CryptoError::AlgorithmFailure { reason: 2 }.code(), 12);
}

#[test]
fn algorithm_parameters() {
    assert_eq!(Algorithm::Aes128Gcm.key_len(), 16);
    assert_eq!(Algorithm::Aes256Gcm.key_len(), 32);
    assert_eq!(Algorithm::ChaCha20Poly1305.nonce_len(), 12);
    assert_eq!(Algorithm::Aes256Gcm.tag_len(), 16);
    assert_eq!(Algorithm::Ed25519.tag_len(), 0);
}

#[test]
fn verification_state_lifecycle() {
    let mut ctx = context(8);
    let pk = handle_of(ctx.dispatch(&mut ToyBackend, &Operation::PublicKeyImport { algorithm: Algorithm::Ed25519, raw: vec![2u8; 32] }));
    let st = handle_of(ctx.dispatch(&mut ToyBackend, &Operation::VerificationStateOpen { public_key: pk }));
    assert!(matches!(ctx.dispatch(&mut ToyBackend, &Operation::VerificationStateUpdate { state: st, data: vec![1, 2, 3, 4] }), Ok(Reply::Done)));
    let bad = Operation::VerificationStateVerify { state: st, signature: vec![0u8; 64] };
    assert_eq!(err_of(ctx.dispatch(&mut ToyBackend, &bad)), CryptoError::AlgorithmFailure { reason: 10 });
    assert_eq!(ctx.resolve(st, CapabilityType::VerificationState).unwrap().phase, Phase::Updating);
    let good = Operation::VerificationStateVerify { state: st, signature: vec![4u8; 64] };
    assert!(matches!(ctx.dispatch(&mut ToyBackend, &good), Ok(Reply::Done)));
    assert_eq!(err_of(ctx.dispatch(&mut ToyBackend, &good)), CryptoError::InvalidState);
    assert_eq!(err_of(ctx.dispatch(&mut ToyBackend, &Operation::VerificationStateUpdate { state: st, data: vec![5] })), CryptoError::InvalidState);
    assert_eq!(err_of(ctx.dispatch(&mut ToyBackend, &Operation::SignatureStateSign { state: st })), CryptoError::InvalidHandle);
    assert!(ctx.close(st).is_ok());
}

#[test]
fn verification_needs_a_signature_public_key() {
    let mut ctx = context(8);
    let kx_pk = handle_of(ctx.dispatch(&mut ToyBackend, &Operation::PublicKeyImport { algorithm: Algorithm::X25519, raw: vec![2u8; 32] }));
    assert_eq!(err_of(ctx.dispatch(&mut ToyBackend, &Operation::VerificationStateOpen { public_key: kx_pk })), CryptoError::UnsupportedOperation);
    let key = sym_key(&mut ctx);
    assert_eq!(err_of(ctx.dispatch(&mut ToyBackend, &Operation::VerificationStateOpen { public_key: key })), CryptoError::InvalidHandle);
}
