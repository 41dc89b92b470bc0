use vstd::prelude::*;

use crate::account::{apply, apply_spec, option_view, Account, AccountError, AccountView};
use crate::signature::{ed25519_derive_public, ed25519_public_key, ed25519_signature, SignatureBundle};
use crate::transaction::{
    build_add_data, build_add_key, build_create_account, build_register_service,
    challenge_message, tx_message, Operation, Transaction,
};

verus! {

/// The gateway's own identity: its service id and its ed25519 key pair.
pub struct ServiceIdentity {
    pub service_id: Vec<u8>,
    pub signing_key: Vec<u8>,
    pub verifying_key: Vec<u8>,
}

impl ServiceIdentity {
    /// The secret key is 32 bytes and the public key belongs to it.
    pub open spec fn wf(&self) -> bool {
        &&& self.signing_key@.len() == 32
        &&& self.verifying_key@ == ed25519_public_key(self.signing_key@)
    }

    /// The identity with the given id and 32-byte secret key; `None` where
    /// the key has another length.
    pub fn new(service_id: Vec<u8>, signing_key: Vec<u8>) -> (r: Option<Self>)
        ensures
            r is Some <==> signing_key@.len() == 32,
            r matches Some(s) ==> s.wf() && s.service_id@ == service_id@ && s.signing_key@
                == signing_key@,
    {
        if signing_key.len() != 32 {
            return None;
        }
        let verifying_key = ed25519_derive_public(signing_key.as_slice());
        Some(ServiceIdentity { service_id, signing_key, verifying_key })
    }
}

/// What the gateway does next with a request.
pub enum Step {
    /// Nothing is submitted; the operation's result is this account.
    Done(Account),
    /// The transaction is submitted; once the engine accepts it, the result
    /// is the projected account.
    Submit(Transaction, Account),
}

/// `tx` is the creation of `user_id` that `service` builds for the holder of
/// `signature`'s key, signed with `signature`.
pub open spec fn create_request(
    tx: Transaction,
    service: ServiceIdentity,
    user_id: Seq<u8>,
    signature: SignatureBundle,
) -> bool {
    &&& tx.id@ == user_id
    &&& tx.operation matches Operation::CreateAccount { key, service_id, challenge } && key@
        == signature.verifying_key@ && service_id@ == service.service_id@ && challenge@
        == ed25519_signature(
        service.signing_key@,
        challenge_message(user_id, signature.verifying_key@, service.service_id@),
    )
    &&& tx.signature == signature
}

/// `tx` adds `new_key` to account `id`, signed with `signature`.
pub open spec fn add_key_request(tx: Transaction, id: Seq<u8>, new_key: Seq<u8>, signature: SignatureBundle) -> bool {
    &&& tx.id@ == id
    &&& tx.operation matches Operation::AddKey { key } && key@ == new_key
    &&& tx.signature == signature
}

/// `tx` attaches `data` with `data_signature` to account `id`, signed with
/// `signature`.
pub open spec fn add_data_request(
    tx: Transaction,
    id: Seq<u8>,
    data: Seq<u8>,
    data_signature: SignatureBundle,
    signature: SignatureBundle,
) -> bool {
    &&& tx.id@ == id
    &&& tx.operation matches Operation::AddData { data: d, data_signature: s } && d@ == data && s
        == data_signature
    &&& tx.signature == signature
}

/// Local validation of a built transaction against the state it was built
/// on: a transaction is handed on for submission, with the account it
/// projects, only where applying it succeeds; otherwise the error is the one
/// that applying it gives.
pub open spec fn validated(
    r: Result<Step, AccountError>,
    request: spec_fn(Transaction) -> bool,
    current: Option<Account>,
    service_key: Seq<u8>,
) -> bool {
    match r {
        Ok(Step::Submit(tx, acc)) => request(tx) && apply_spec(option_view(current), tx, service_key)
            == Ok::<_, AccountError>(acc@),
        Ok(Step::Done(_)) => false,
        Err(e) => exists|tx: Transaction| #[trigger] request(tx) && apply_spec(
            option_view(current),
            tx,
            service_key,
        ) == Err::<AccountView, AccountError>(e),
    }
}

fn validate(current: Option<Account>, tx: Transaction, service_key: &[u8]) -> (r: Result<Step, AccountError>)
    ensures
        match r {
            Ok(Step::Submit(t, acc)) => t == tx && apply_spec(option_view(current), tx, service_key@)
                == Ok::<_, AccountError>(acc@),
            Ok(Step::Done(_)) => false,
            Err(e) => apply_spec(option_view(current), tx, service_key@) == Err::<
                AccountView,
                AccountError,
            >(e),
        },
{
    match apply(current, &tx, service_key) {
        Ok(acc) => Ok(Step::Submit(tx, acc)),
        Err(e) => Err(e),
    }
}

/// `tx` registers `service` under its id with its public key, signed with
/// its own secret key.
pub open spec fn register_request(tx: Transaction, service: ServiceIdentity) -> bool {
    &&& tx.id@ == service.service_id@
    &&& tx.operation matches Operation::RegisterService { key } && key@ == service.verifying_key@
    &&& tx.signature.verifying_key@ == service.verifying_key@
    &&& tx.signature.signature@ == ed25519_signature(
        service.signing_key@,
        tx_message(service.service_id@, tx.operation),
    )
}

/// The registration of the service itself: nothing where an account already
/// stands under its id, else its self-signed registration.
pub fn plan_register_service(service: &ServiceIdentity, registered: bool) -> (r: Option<Transaction>)
    requires
        service.wf(),
    ensures
        registered ==> r is None,
        !registered ==> (r matches Some(tx) && register_request(tx, *service)),
{
    if registered {
        return None;
    }
    Some(
        build_register_service(
            service.service_id.as_slice(),
            service.verifying_key.as_slice(),
            service.signing_key.as_slice(),
        ),
    )
}

/// Account creation for `user_id`, given the account that the engine holds
/// under that id, if any. An existing account is the result as it stands,
/// with nothing to submit; otherwise the creation, vouched for by the
/// service and signed with `signature`, is validated locally.
pub fn plan_create_account(
    service: &ServiceIdentity,
    user_id: &[u8],
    current: Option<Account>,
    signature: SignatureBundle,
) -> (r: Result<Step, AccountError>)
    requires
        service.wf(),
    ensures
        current matches Some(a) ==> (r matches Ok(Step::Done(b)) && b == a),
        current is None ==> validated(
            r,
            |tx: Transaction| create_request(tx, *service, user_id@, signature),
            current,
            service.verifying_key@,
        ),
{
    match current {
        Some(a) => Ok(Step::Done(a)),
        None => {
            let ghost sig = signature;
            let unsigned = build_create_account(
                user_id,
                signature.verifying_key.as_slice(),
                service.service_id.as_slice(),
                service.signing_key.as_slice(),
            );
            let tx = unsigned.externally_signed(signature);
            let ghost built = tx;
            let r = validate(None, tx, service.verifying_key.as_slice());
            proof {
                let request = |tx: Transaction| create_request(tx, *service, user_id@, sig);
                assert(request(built));
            }
            r
        },
    }
}

/// Adding `new_key` to the account that the engine holds under the
/// requested id, signed with `signature`: refused where there is no account,
/// else validated locally.
pub fn plan_add_key(
    current: Option<Account>,
    new_key: &[u8],
    signature: SignatureBundle,
    service_key: &[u8],
) -> (r: Result<Step, AccountError>)
    ensures
        current is None ==> r == Err::<Step, AccountError>(AccountError::NotFound),
        current matches Some(a) ==> validated(
            r,
            |tx: Transaction| add_key_request(tx, a.id@, new_key@, signature),
            current,
            service_key@,
        ),
{
    match current {
        None => Err(AccountError::NotFound),
        Some(a) => {
            let ghost sig = signature;
            let ghost id = a.id@;
            let unsigned = build_add_key(a.id.as_slice(), new_key);
            let tx = unsigned.externally_signed(signature);
            let ghost built = tx;
            let r = validate(Some(a), tx, service_key);
            proof {
                let request = |tx: Transaction| add_key_request(tx, id, new_key@, sig);
                assert(request(built));
            }
            r
        },
    }
}

/// Attaching `data` with `data_signature` to the account that the engine
/// holds under the requested id, signed with `signature`: refused where there
/// is no account, else validated locally.
pub fn plan_add_data(
    current: Option<Account>,
    data: &[u8],
    data_signature: SignatureBundle,
    signature: SignatureBundle,
    service_key: &[u8],
) -> (r: Result<Step, AccountError>)
    ensures
        current is None ==> r == Err::<Step, AccountError>(AccountError::NotFound),
        current matches Some(a) ==> validated(
            r,
            |tx: Transaction| add_data_request(tx, a.id@, data@, data_signature, signature),
            current,
            service_key@,
        ),
{
    match current {
        None => Err(AccountError::NotFound),
        Some(a) => {
            let ghost sig = signature;
            let ghost dsig = data_signature;
            let ghost id = a.id@;
            let unsigned = build_add_data(a.id.as_slice(), data, data_signature);
            let tx = unsigned.externally_signed(signature);
            let ghost built = tx;
            let r = validate(Some(a), tx, service_key);
            proof {
                let request = |tx: Transaction| add_data_request(tx, id, data@, dsig, sig);
                assert(request(built));
            }
            r
        },
    }
}

/// The result of an operation once its step is carried out: a step with
/// nothing to submit gives its account; a submitted one gives the projected
/// account where the engine accepted it, and `SubmissionFailed` otherwise.
pub fn conclude(step: Step, accepted: bool) -> (r: Result<Account, AccountError>)
    ensures
        step matches Step::Done(a) ==> (r matches Ok(b) && b == a),
        step matches Step::Submit(_, a) ==> (accepted ==> (r matches Ok(b) && b == a)),
        step is Submit && !accepted ==> r == Err::<Account, AccountError>(
            AccountError::SubmissionFailed,
        ),
{
    match step {
        Step::Done(a) => Ok(a),
        Step::Submit(_, a) => {
            if accepted {
                Ok(a)
            } else {
                Err(AccountError::SubmissionFailed)
            }
        },
    }
}

} // verus!
