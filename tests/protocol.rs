use ed25519_dalek::{Signer, SigningKey};
use prism_gateway::bytes::push_frame;
use prism_gateway::transaction::{encode_data_message, encode_tx_message};
use prism_gateway::{
    apply, build_add_data, build_add_key, build_create_account, conclude, plan_add_data,
    plan_add_key, plan_create_account, plan_register_service, verify_signature, Account,
    AccountError, Config, Operation, ServiceIdentity, SignatureBundle, Step, UnsignedTransaction,
};

const SERVICE_SECRET: [u8; 32] = [9u8; 32];

fn secret(n: u8) -> SigningKey {
    SigningKey::from_bytes(&[n; 32])
}

fn public(sk: &SigningKey) -> Vec<u8> {
    sk.verifying_key().to_bytes().to_vec()
}

fn sign(sk: &SigningKey, msg: &[u8]) -> SignatureBundle {
    SignatureBundle::new(public(sk), sk.sign(msg).to_bytes().to_vec())
}

fn service() -> ServiceIdentity {
    ServiceIdentity::new(b"gateway".to_vec(), SERVICE_SECRET.to_vec()).unwrap()
}

/// Stands for the engine: counts submissions and accepts or refuses them.
struct Engine {
    submissions: usize,
    accepts: bool,
}

impl Engine {
    fn new() -> Self {
        Engine { submissions: 0, accepts: true }
    }

    fn carry_out(&mut self, step: Step) -> Result<Account, AccountError> {
        if let Step::Submit(_, _) = step {
            self.submissions += 1;
        }
        conclude(step, self.accepts)
    }
}

fn create(svc: &ServiceIdentity, id: &[u8], owner: &SigningKey, engine: &mut Engine) -> Account {
    let unsigned = build_create_account(id, &public(owner), &svc.service_id, &svc.signing_key);
    let bundle = sign(owner, &unsigned.message());
    let step = plan_create_account(svc, id, None, bundle).unwrap();
    engine.carry_out(step).unwrap()
}

fn add_key_bundle(account: &Account, new_key: &[u8], signer: &SigningKey) -> SignatureBundle {
    let unsigned = build_add_key(&account.id, new_key);
    sign(signer, &unsigned.message())
}

fn add_data_bundle(account: &Account, data: &[u8], data_sig: &SignatureBundle, signer: &SigningKey) -> SignatureBundle {
    let ds = SignatureBundle::new(data_sig.verifying_key.clone(), data_sig.signature.clone());
    let unsigned = build_add_data(&account.id, data, ds);
    sign(signer, &unsigned.message())
}

#[test]
fn create_account_gives_one_key_and_no_data() {
    let svc = service();
    let mut engine = Engine::new();
    let k1 = secret(1);
    let alice = create(&svc, b"alice", &k1, &mut engine);
    assert_eq!(alice.id, b"alice".to_vec());
    assert_eq!(alice.keys, vec![public(&k1)]);
    assert!(alice.data_entries.is_empty());
    assert_eq!(engine.submissions, 1);
}

#[test]
fn create_existing_account_returns_it_without_submission() {
    let svc = service();
    let mut engine = Engine::new();
    let k1 = secret(1);
    let alice = create(&svc, b"alice", &k1, &mut engine);
    let k2 = secret(2);
    let unsigned = build_create_account(b"alice", &public(&k2), &svc.service_id, &svc.signing_key);
    let bundle = sign(&k2, &unsigned.message());
    let step = plan_create_account(&svc, b"alice", Some(alice), bundle).unwrap();
    let again = engine.carry_out(step).unwrap();
    assert_eq!(again.keys, vec![public(&k1)]);
    assert_eq!(engine.submissions, 1);
}

#[test]
fn create_with_bad_requester_signature_is_unauthorized() {
    let svc = service();
    let k1 = secret(1);
    let bundle = sign(&k1, b"something else");
    let r = plan_create_account(&svc, b"alice", None, bundle);
    assert!(matches!(r, Err(AccountError::Unauthorized)));
}

#[test]
fn create_vouched_by_another_service_is_unauthorized() {
    let svc = service();
    let other = ServiceIdentity::new(b"gateway".to_vec(), vec![8u8; 32]).unwrap();
    let k1 = secret(1);
    let unsigned = build_create_account(b"alice", &public(&k1), &other.service_id, &other.signing_key);
    let bundle = sign(&k1, &unsigned.message());
    let tx = unsigned.externally_signed(bundle);
    assert!(matches!(apply(None, &tx, &svc.verifying_key), Err(AccountError::Unauthorized)));
    assert!(apply(None, &tx, &other.verifying_key).is_ok());
}

#[test]
fn alice_adds_a_key_then_readding_the_first_is_duplicate() {
    let svc = service();
    let mut engine = Engine::new();
    let (k1, k2) = (secret(1), secret(2));
    let alice = create(&svc, b"alice", &k1, &mut engine);
    let bundle = add_key_bundle(&alice, &public(&k2), &k1);
    let step = plan_add_key(Some(alice), &public(&k2), bundle, &svc.verifying_key).unwrap();
    let alice = engine.carry_out(step).unwrap();
    assert_eq!(alice.keys, vec![public(&k1), public(&k2)]);
    let bundle = add_key_bundle(&alice, &public(&k1), &k2);
    let r = plan_add_key(Some(alice), &public(&k1), bundle, &svc.verifying_key);
    assert!(matches!(r, Err(AccountError::DuplicateKey)));
    assert_eq!(engine.submissions, 2);
}

#[test]
fn add_key_signed_by_unknown_key_is_unauthorized() {
    let svc = service();
    let mut engine = Engine::new();
    let (k1, k2, stranger) = (secret(1), secret(2), secret(7));
    let alice = create(&svc, b"alice", &k1, &mut engine);
    let bundle = add_key_bundle(&alice, &public(&k2), &stranger);
    let r = plan_add_key(Some(alice), &public(&k2), bundle, &svc.verifying_key);
    assert!(matches!(r, Err(AccountError::Unauthorized)));
    assert_eq!(engine.submissions, 1);
}

#[test]
fn add_key_to_missing_account_is_not_found() {
    let svc = service();
    let k1 = secret(1);
    let bundle = sign(&k1, b"anything");
    let r = plan_add_key(None, &public(&k1), bundle, &svc.verifying_key);
    assert!(matches!(r, Err(AccountError::NotFound)));
}

#[test]
fn add_data_signed_by_unknown_key_is_unauthorized() {
    let svc = service();
    let mut engine = Engine::new();
    let (k1, stranger) = (secret(1), secret(7));
    let bob = create(&svc, b"bob", &k1, &mut engine);
    let payload = b"payload".to_vec();
    let data_sig = sign(&k1, &encode_data_message(b"bob", &payload));
    let bundle = add_data_bundle(&bob, &payload, &data_sig, &stranger);
    let r = plan_add_data(Some(bob), &payload, data_sig, bundle, &svc.verifying_key);
    assert!(matches!(r, Err(AccountError::Unauthorized)));
    assert_eq!(engine.submissions, 1);
}

#[test]
fn bob_data_signed_by_a_stranger_is_unauthorized() {
    let svc = service();
    let mut engine = Engine::new();
    let (k1, stranger) = (secret(1), secret(7));
    let bob = create(&svc, b"bob", &k1, &mut engine);
    let payload = b"payload".to_vec();
    let data_sig = sign(&stranger, &encode_data_message(b"bob", &payload));
    let bundle = add_data_bundle(&bob, &payload, &data_sig, &k1);
    let r = plan_add_data(Some(bob), &payload, data_sig, bundle, &svc.verifying_key);
    assert!(matches!(r, Err(AccountError::Unauthorized)));
    assert_eq!(engine.submissions, 1);
}

#[test]
fn add_data_leaves_the_pair_as_last_entry() {
    let svc = service();
    let mut engine = Engine::new();
    let (k1, k2) = (secret(1), secret(2));
    let bob = create(&svc, b"bob", &k1, &mut engine);
    let bundle = add_key_bundle(&bob, &public(&k2), &k1);
    let bob = engine.carry_out(plan_add_key(Some(bob), &public(&k2), bundle, &svc.verifying_key).unwrap()).unwrap();
    let payload = vec![1u8, 2, 3];
    let data_sig = sign(&k2, &encode_data_message(b"bob", &payload));
    let bundle = add_data_bundle(&bob, &payload, &data_sig, &k1);
    let step = plan_add_data(Some(bob), &payload, SignatureBundle::new(data_sig.verifying_key.clone(), data_sig.signature.clone()), bundle, &svc.verifying_key).unwrap();
    let bob = engine.carry_out(step).unwrap();
    let last = bob.data_entries.last().unwrap();
    assert_eq!(last.data, payload);
    assert_eq!(last.signature.verifying_key, data_sig.verifying_key);
    assert_eq!(last.signature.signature, data_sig.signature);
    assert_eq!(bob.data_entries.len(), 1);
}

#[test]
fn add_data_to_missing_account_is_not_found() {
    let svc = service();
    let k1 = secret(1);
    let r = plan_add_data(None, b"x", sign(&k1, b"x"), sign(&k1, b"y"), &svc.verifying_key);
    assert!(matches!(r, Err(AccountError::NotFound)));
}

#[test]
fn refused_submission_is_submission_failed() {
    let svc = service();
    let k1 = secret(1);
    let unsigned = build_create_account(b"carol", &public(&k1), &svc.service_id, &svc.signing_key);
    let bundle = sign(&k1, &unsigned.message());
    let step = plan_create_account(&svc, b"carol", None, bundle).unwrap();
    let mut engine = Engine { submissions: 0, accepts: false };
    assert!(matches!(engine.carry_out(step), Err(AccountError::SubmissionFailed)));
    assert_eq!(engine.submissions, 1);
}

#[test]
fn transaction_for_another_account_is_invalid_payload() {
    let svc = service();
    let mut engine = Engine::new();
    let (k1, k2) = (secret(1), secret(2));
    let alice = create(&svc, b"alice", &k1, &mut engine);
    let unsigned = build_add_key(b"mallory", &public(&k2));
    let bundle = sign(&k1, &unsigned.message());
    let tx = unsigned.externally_signed(bundle);
    assert!(matches!(apply(Some(alice), &tx, &svc.verifying_key), Err(AccountError::InvalidPayload)));
}

#[test]
fn register_service_only_when_not_registered() {
    let svc = service();
    assert!(plan_register_service(&svc, true).is_none());
    let tx = plan_register_service(&svc, false).unwrap();
    assert_eq!(tx.id, b"gateway".to_vec());
    assert_eq!(tx.signature.verifying_key, public(&SigningKey::from_bytes(&SERVICE_SECRET)));
    let account = apply(None, &tx, &svc.verifying_key).unwrap();
    assert_eq!(account.keys, vec![svc.verifying_key.clone()]);
}

#[test]
fn service_identity_needs_a_32_byte_key() {
    assert!(ServiceIdentity::new(b"gateway".to_vec(), vec![1u8; 31]).is_none());
    let svc = service();
    assert_eq!(svc.verifying_key, public(&SigningKey::from_bytes(&SERVICE_SECRET)));
    assert_eq!(svc.verifying_key.len(), 32);
}

#[test]
fn guard_checks_signature_and_membership() {
    let (k1, k2) = (secret(1), secret(2));
    let msg = b"hello".to_vec();
    let bundle = sign(&k1, &msg);
    assert!(verify_signature(&msg, &bundle, &vec![public(&k2), public(&k1)]));
    assert!(!verify_signature(&msg, &bundle, &vec![public(&k2)]));
    assert!(!verify_signature(b"hullo", &bundle, &vec![public(&k1)]));
    let broken = SignatureBundle::new(public(&k1), vec![0u8; 10]);
    assert!(!verify_signature(&msg, &broken, &vec![public(&k1)]));
}

#[test]
fn frame_is_length_then_bytes() {
    let mut out = vec![7u8];
    push_frame(&mut out, b"ab");
    assert_eq!(out, vec![7, 2, 0, 0, 0, 0, 0, 0, 0, b'a', b'b']);
    let mut big = Vec::new();
    push_frame(&mut big, &vec![0u8; 300]);
    assert_eq!(&big[..8], &[44, 1, 0, 0, 0, 0, 0, 0]);
    assert_eq!(big.len(), 308);
}

#[test]
fn tx_message_layout() {
    let op = Operation::AddKey { key: vec![5u8] };
    let msg = encode_tx_message(b"a", &op);
    assert_eq!(msg, vec![12, 1, 0, 0, 0, 0, 0, 0, 0, b'a', 1, 0, 0, 0, 0, 0, 0, 0, 5]);
    let unsigned = UnsignedTransaction { id: b"a".to_vec(), operation: op };
    assert_eq!(unsigned.message(), msg);
}

#[test]
fn config_holds_its_values() {
    let c = Config::new("svc".to_string(), 8080);
    assert_eq!(c.service_id, "svc");
    assert_eq!(c.server.port, 8080);
}

#[test]
fn duplicate_key_from_a_stranger_is_unauthorized() {
    let svc = service();
    let mut engine = Engine::new();
    let (k1, stranger) = (secret(1), secret(7));
    let alice = create(&svc, b"alice", &k1, &mut engine);
    let bundle = add_key_bundle(&alice, &public(&k1), &stranger);
    let r = plan_add_key(Some(alice), &public(&k1), bundle, &svc.verifying_key);
    assert!(matches!(r, Err(AccountError::Unauthorized)));
}

#[test]
fn transitions_keep_earlier_keys_and_entries() {
    let svc = service();
    let mut engine = Engine::new();
    let (k1, k2, k3) = (secret(1), secret(2), secret(3));
    let dave = create(&svc, b"dave", &k1, &mut engine);
    let payload = b"first".to_vec();
    let data_sig = sign(&k1, &encode_data_message(b"dave", &payload));
    let bundle = add_data_bundle(&dave, &payload, &data_sig, &k1);
    let dave = engine.carry_out(plan_add_data(Some(dave), &payload, data_sig, bundle, &svc.verifying_key).unwrap()).unwrap();
    let before = dave.duplicate();
    let bundle = add_key_bundle(&dave, &public(&k2), &k1);
    let dave = engine.carry_out(plan_add_key(Some(dave), &public(&k2), bundle, &svc.verifying_key).unwrap()).unwrap();
    let bundle = add_key_bundle(&dave, &public(&k3), &k2);
    let dave = engine.carry_out(plan_add_key(Some(dave), &public(&k3), bundle, &svc.verifying_key).unwrap()).unwrap();
    assert_eq!(dave.id, before.id);
    assert_eq!(dave.keys, vec![public(&k1), public(&k2), public(&k3)]);
    assert_eq!(dave.data_entries.len(), 1);
    assert_eq!(dave.data_entries[0].data, before.data_entries[0].data);
    assert_eq!(engine.submissions, 4);
}
