use vstd::prelude::*;

use crate::account::{apply_spec, fresh_account, Account, AccountError, AccountView};
use crate::service::{add_data_request, add_key_request, create_request, validated, ServiceIdentity, Step};
use crate::signature::{authorized, ed25519_accepts, SignatureBundle};
use crate::transaction::{challenge_message, tx_message, Operation, Transaction};

verus! {

/// An account's key set is never empty once it exists: a successful
/// transition from no account, or from an account that holds a key, gives an
/// account that holds a key.
pub proof fn lemma_keys_never_empty(current: Option<AccountView>, tx: Transaction, service_key: Seq<u8>)
    requires
        current matches Some(a) ==> a.keys.len() > 0,
    ensures
        apply_spec(current, tx, service_key) matches Ok(a) ==> a.keys.len() > 0,
{
}

/// Adding a key that the account already holds, with a valid authorization,
/// is refused as a duplicate.
pub proof fn lemma_add_key_duplicate(a: AccountView, tx: Transaction, service_key: Seq<u8>)
    requires
        tx.id@ == a.id,
        tx.operation matches Operation::AddKey { key } && a.keys.contains(key@),
        authorized(tx.signature, tx_message(tx.id@, tx.operation), a.keys),
    ensures
        apply_spec(Some(a), tx, service_key) == Err::<AccountView, AccountError>(
            AccountError::DuplicateKey,
        ),
{
}

/// Transitions only grow an account: a successful one keeps its id, and
/// its keys and data entries stand at the start of the new ones.
pub proof fn lemma_transitions_only_grow(a: AccountView, tx: Transaction, service_key: Seq<u8>)
    ensures
        apply_spec(Some(a), tx, service_key) matches Ok(b) ==> b.id == a.id && a.keys.len()
            <= b.keys.len() && b.keys.subrange(0, a.keys.len() as int) == a.keys
            && a.data_entries.len() <= b.data_entries.len() && b.data_entries.subrange(
            0,
            a.data_entries.len() as int,
        ) == a.data_entries,
{
    if let Ok(b) = apply_spec(Some(a), tx, service_key) {
        assert(b.keys.subrange(0, a.keys.len() as int) =~= a.keys);
        assert(b.data_entries.subrange(0, a.data_entries.len() as int) =~= a.data_entries);
    }
}

/// A creation that the service vouches for and that the requested key signs,
/// against an id with no account, gives an account holding exactly the
/// requested key and no data.
pub proof fn lemma_create_gives_one_key(
    tx: Transaction,
    service: ServiceIdentity,
    user_id: Seq<u8>,
    signature: SignatureBundle,
)
    requires
        create_request(tx, service, user_id, signature),
        tx.operation matches Operation::CreateAccount { challenge, .. } && ed25519_accepts(
            service.verifying_key@,
            challenge_message(user_id, signature.verifying_key@, service.service_id@),
            challenge@,
        ),
        authorized(signature, tx_message(user_id, tx.operation), seq![signature.verifying_key@]),
    ensures
        apply_spec(None, tx, service.verifying_key@) == Ok::<AccountView, AccountError>(
            fresh_account(user_id, signature.verifying_key@),
        ),
        fresh_account(user_id, signature.verifying_key@).keys == seq![signature.verifying_key@],
        fresh_account(user_id, signature.verifying_key@).data_entries.len() == 0,
{
}

/// Adding a key with a submission signature whose key the account does not
/// hold fails `Unauthorized`, and so nothing is handed on for submission.
pub proof fn lemma_add_key_unknown_signer(
    r: Result<Step, AccountError>,
    current: Account,
    new_key: Seq<u8>,
    signature: SignatureBundle,
    service_key: Seq<u8>,
)
    requires
        validated(
            r,
            |tx: Transaction| add_key_request(tx, current.id@, new_key, signature),
            Some(current),
            service_key,
        ),
        !current@.keys.contains(signature.verifying_key@),
    ensures
        r == Err::<Step, AccountError>(AccountError::Unauthorized),
{
    match r {
        Ok(Step::Submit(tx, acc)) => {
            assert(add_key_request(tx, current.id@, new_key, signature));
        },
        Ok(Step::Done(_)) => {},
        Err(e) => {
            let tx = choose|tx: Transaction|
                add_key_request(tx, current.id@, new_key, signature) && apply_spec(
                    Some(current@),
                    tx,
                    service_key,
                ) == Err::<AccountView, AccountError>(e);
        },
    }
}

/// Attaching data with a submission signature whose key the account does not
/// hold fails `Unauthorized`, and so nothing is handed on for submission.
pub proof fn lemma_add_data_unknown_signer(
    r: Result<Step, AccountError>,
    current: Account,
    data: Seq<u8>,
    data_signature: SignatureBundle,
    signature: SignatureBundle,
    service_key: Seq<u8>,
)
    requires
        validated(
            r,
            |tx: Transaction| add_data_request(tx, current.id@, data, data_signature, signature),
            Some(current),
            service_key,
        ),
        !current@.keys.contains(signature.verifying_key@),
    ensures
        r == Err::<Step, AccountError>(AccountError::Unauthorized),
{
    match r {
        Ok(Step::Submit(tx, acc)) => {
            assert(add_data_request(tx, current.id@, data, data_signature, signature));
        },
        Ok(Step::Done(_)) => {},
        Err(e) => {
            let tx = choose|tx: Transaction|
                add_data_request(tx, current.id@, data, data_signature, signature) && apply_spec(
                    Some(current@),
                    tx,
                    service_key,
                ) == Err::<AccountView, AccountError>(e);
        },
    }
}

/// A data-attaching transaction, applied with success to the account it
/// names, leaves the attached payload and its signature as the last entry.
pub proof fn lemma_add_data_round_trip(
    a: AccountView,
    tx: Transaction,
    data: Seq<u8>,
    data_signature: SignatureBundle,
    signature: SignatureBundle,
    service_key: Seq<u8>,
)
    requires
        add_data_request(tx, a.id, data, data_signature, signature),
        apply_spec(Some(a), tx, service_key) is Ok,
    ensures
        apply_spec(Some(a), tx, service_key) matches Ok(b) && b.data_entries.len() > 0
            && b.data_entries.last() == (
            data,
            data_signature.verifying_key@,
            data_signature.signature@,
        ) && b.keys == a.keys && b.data_entries.drop_last() == a.data_entries,
{
}

} // verus!
