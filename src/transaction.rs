use vstd::prelude::*;

use crate::bytes::{copy_bytes, frame, push_frame};
use crate::signature::{ed25519_sign, ed25519_signature, SignatureBundle};

verus! {

/// What a transaction does to the account it names.
pub enum Operation {
    /// Registers a service under the transaction's id, with `key` as the key
    /// that vouches for the accounts it creates.
    RegisterService { key: Vec<u8> },
    /// Creates an account holding `key`, vouched for by the service
    /// `service_id` through its signature `challenge`.
    CreateAccount { key: Vec<u8>, service_id: Vec<u8>, challenge: Vec<u8> },
    /// Adds `key` to the account's keys.
    AddKey { key: Vec<u8> },
    /// Attaches `data` to the account, with the signature that authorized it.
    AddData { data: Vec<u8>, data_signature: SignatureBundle },
}

/// A transaction before its submission signature is attached.
pub struct UnsignedTransaction {
    pub id: Vec<u8>,
    pub operation: Operation,
}

/// A transaction with the submission signature attached.
pub struct Transaction {
    pub id: Vec<u8>,
    pub operation: Operation,
    pub signature: SignatureBundle,
}

/// The message that a service signs to vouch for the creation of account
/// `id` holding `key`.
pub open spec fn challenge_message(id: Seq<u8>, key: Seq<u8>, service_id: Seq<u8>) -> Seq<u8> {
    seq![20u8] + frame(id) + frame(key) + frame(service_id)
}

/// The message that a data signature covers: `data` attached to account `id`.
pub open spec fn data_message(id: Seq<u8>, data: Seq<u8>) -> Seq<u8> {
    seq![30u8] + frame(id) + frame(data)
}

/// The message that the submission signature of a transaction covers.
pub open spec fn tx_message(id: Seq<u8>, op: Operation) -> Seq<u8> {
    match op {
        Operation::RegisterService { key } => seq![10u8] + frame(id) + frame(key@),
        Operation::CreateAccount { key, service_id, challenge } => seq![11u8] + frame(id) + frame(
            key@,
        ) + frame(service_id@) + frame(challenge@),
        Operation::AddKey { key } => seq![12u8] + frame(id) + frame(key@),
        Operation::AddData { data, data_signature } => seq![13u8] + frame(id) + frame(data@)
            + frame(data_signature.verifying_key@) + frame(data_signature.signature@),
    }
}

/// The two operations carry the same bytes.
pub open spec fn same_operation(a: Operation, b: Operation) -> bool {
    match (a, b) {
        (Operation::RegisterService { key: k1 }, Operation::RegisterService { key: k2 }) => k1@ == k2@,
        (
            Operation::CreateAccount { key: k1, service_id: s1, challenge: c1 },
            Operation::CreateAccount { key: k2, service_id: s2, challenge: c2 },
        ) => k1@ == k2@ && s1@ == s2@ && c1@ == c2@,
        (Operation::AddKey { key: k1 }, Operation::AddKey { key: k2 }) => k1@ == k2@,
        (
            Operation::AddData { data: d1, data_signature: s1 },
            Operation::AddData { data: d2, data_signature: s2 },
        ) => d1@ == d2@ && s1.verifying_key@ == s2.verifying_key@ && s1.signature@
            == s2.signature@,
        _ => false,
    }
}

/// Builds the message that a service signs to vouch for an account creation.
pub fn encode_challenge(id: &[u8], key: &[u8], service_id: &[u8]) -> (r: Vec<u8>)
    ensures
        r@ == challenge_message(id@, key@, service_id@),
{
    let mut out: Vec<u8> = Vec::new();
    out.push(20u8);
    push_frame(&mut out, id);
    push_frame(&mut out, key);
    push_frame(&mut out, service_id);
    assert(out@ =~= challenge_message(id@, key@, service_id@));
    out
}

/// Builds the message that a data signature covers.
pub fn encode_data_message(id: &[u8], data: &[u8]) -> (r: Vec<u8>)
    ensures
        r@ == data_message(id@, data@),
{
    let mut out: Vec<u8> = Vec::new();
    out.push(30u8);
    push_frame(&mut out, id);
    push_frame(&mut out, data);
    assert(out@ =~= data_message(id@, data@));
    out
}

/// Builds the message that the submission signature of a transaction covers.
pub fn encode_tx_message(id: &[u8], op: &Operation) -> (r: Vec<u8>)
    ensures
        r@ == tx_message(id@, *op),
{
    let mut out: Vec<u8> = Vec::new();
    match op {
        Operation::RegisterService { key } => {
            out.push(10u8);
            push_frame(&mut out, id);
            push_frame(&mut out, key.as_slice());
        },
        Operation::CreateAccount { key, service_id, challenge } => {
            out.push(11u8);
            push_frame(&mut out, id);
            push_frame(&mut out, key.as_slice());
            push_frame(&mut out, service_id.as_slice());
            push_frame(&mut out, challenge.as_slice());
        },
        Operation::AddKey { key } => {
            out.push(12u8);
            push_frame(&mut out, id);
            push_frame(&mut out, key.as_slice());
        },
        Operation::AddData { data, data_signature } => {
            out.push(13u8);
            push_frame(&mut out, id);
            push_frame(&mut out, data.as_slice());
            push_frame(&mut out, data_signature.verifying_key.as_slice());
            push_frame(&mut out, data_signature.signature.as_slice());
        },
    }
    assert(out@ =~= tx_message(id@, *op));
    out
}

impl Operation {
    /// A copy of the operation.
    pub fn duplicate(&self) -> (r: Self)
        ensures
            same_operation(r, *self),
    {
        match self {
            Operation::RegisterService { key } => Operation::RegisterService {
                key: copy_bytes(key.as_slice()),
            },
            Operation::CreateAccount { key, service_id, challenge } => Operation::CreateAccount {
                key: copy_bytes(key.as_slice()),
                service_id: copy_bytes(service_id.as_slice()),
                challenge: copy_bytes(challenge.as_slice()),
            },
            Operation::AddKey { key } => Operation::AddKey { key: copy_bytes(key.as_slice()) },
            Operation::AddData { data, data_signature } => Operation::AddData {
                data: copy_bytes(data.as_slice()),
                data_signature: data_signature.duplicate(),
            },
        }
    }
}

impl UnsignedTransaction {
    /// The message that the submission signature must cover.
    pub fn message(&self) -> (r: Vec<u8>)
        ensures
            r@ == tx_message(self.id@, self.operation),
    {
        encode_tx_message(self.id.as_slice(), &self.operation)
    }

    /// Attaches the submission signature; the payload is kept as it is.
    pub fn externally_signed(self, signature: SignatureBundle) -> (r: Transaction)
        ensures
            r.id == self.id,
            r.operation == self.operation,
            r.signature == signature,
    {
        Transaction { id: self.id, operation: self.operation, signature }
    }
}

impl Transaction {
    /// The message that the submission signature covers.
    pub fn message(&self) -> (r: Vec<u8>)
        ensures
            r@ == tx_message(self.id@, self.operation),
    {
        encode_tx_message(self.id.as_slice(), &self.operation)
    }

    /// A copy of the transaction.
    pub fn duplicate(&self) -> (r: Self)
        ensures
            r.id@ == self.id@,
            same_operation(r.operation, self.operation),
            r.signature.verifying_key@ == self.signature.verifying_key@,
            r.signature.signature@ == self.signature.signature@,
    {
        Transaction {
            id: copy_bytes(self.id.as_slice()),
            operation: self.operation.duplicate(),
            signature: self.signature.duplicate(),
        }
    }
}

/// A service's registration of itself, signed with its own secret key over
/// its id and its public key.
pub fn build_register_service(service_id: &[u8], verifying_key: &[u8], signing_key: &[u8]) -> (r:
    Transaction)
    requires
        signing_key@.len() == 32,
    ensures
        r.id@ == service_id@,
        r.operation matches Operation::RegisterService { key } && key@ == verifying_key@,
        r.signature.verifying_key@ == verifying_key@,
        r.signature.signature@ == ed25519_signature(signing_key@, tx_message(service_id@, r.operation)),
{
    let operation = Operation::RegisterService { key: copy_bytes(verifying_key) };
    let msg = encode_tx_message(service_id, &operation);
    let sig = ed25519_sign(signing_key, msg.as_slice());
    Transaction {
        id: copy_bytes(service_id),
        operation,
        signature: SignatureBundle::new(copy_bytes(verifying_key), sig),
    }
}

/// An account creation for `user_id` holding `requested_key`, vouched for by
/// the service `service_id` with its secret key.
pub fn build_create_account(
    user_id: &[u8],
    requested_key: &[u8],
    service_id: &[u8],
    service_signing_key: &[u8],
) -> (r: UnsignedTransaction)
    requires
        service_signing_key@.len() == 32,
    ensures
        r.id@ == user_id@,
        r.operation matches Operation::CreateAccount { key, service_id: s, challenge } && key@
            == requested_key@ && s@ == service_id@ && challenge@ == ed25519_signature(
            service_signing_key@,
            challenge_message(user_id@, requested_key@, service_id@),
        ),
{
    let challenge_msg = encode_challenge(user_id, requested_key, service_id);
    let challenge = ed25519_sign(service_signing_key, challenge_msg.as_slice());
    UnsignedTransaction {
        id: copy_bytes(user_id),
        operation: Operation::CreateAccount {
            key: copy_bytes(requested_key),
            service_id: copy_bytes(service_id),
            challenge,
        },
    }
}

/// A request to add `new_key` to account `id`; its authorization is the
/// submission signature, attached afterwards.
pub fn build_add_key(id: &[u8], new_key: &[u8]) -> (r: UnsignedTransaction)
    ensures
        r.id@ == id@,
        r.operation matches Operation::AddKey { key } && key@ == new_key@,
{
    UnsignedTransaction { id: copy_bytes(id), operation: Operation::AddKey { key: copy_bytes(new_key) } }
}

/// A request to attach `data`, with the signature that authorized it, to
/// account `id`.
pub fn build_add_data(id: &[u8], data: &[u8], data_signature: SignatureBundle) -> (r:
    UnsignedTransaction)
    ensures
        r.id@ == id@,
        r.operation matches Operation::AddData { data: d, data_signature: s } && d@ == data@ && s
            == data_signature,
{
    UnsignedTransaction {
        id: copy_bytes(id),
        operation: Operation::AddData { data: copy_bytes(data), data_signature },
    }
}

} // verus!
