use vstd::prelude::*;

use crate::bytes::{bytes_eq, copy_bytes};
use crate::signature::{authorized, contains_key, ed25519_accepts, key_seqs, verify_signature, SignatureBundle};
use crate::transaction::{
    challenge_message, data_message, encode_challenge, encode_data_message, tx_message, Operation,
    Transaction,
};

verus! {

/// Why a transition was refused.
#[derive(Clone, Copy, Debug, PartialEq, Eq, Structural)]
pub enum AccountError {
    /// A signature does not verify, or its key may not authorize the operation.
    Unauthorized,
    /// The account that the operation needs does not exist.
    NotFound,
    /// The account that the operation would create exists already.
    AlreadyExists,
    /// The key to add is already one of the account's keys.
    DuplicateKey,
    /// The transaction does not fit the account it is applied to.
    InvalidPayload,
    /// The engine did not accept the transaction.
    SubmissionFailed,
}

/// A payload attached to an account, with the signature that authorized it.
pub struct DataEntry {
    pub data: Vec<u8>,
    pub signature: SignatureBundle,
}

/// An account: its id, its authorized keys in the order they were added, and
/// its data entries in the order they were attached.
pub struct Account {
    pub id: Vec<u8>,
    pub keys: Vec<Vec<u8>>,
    pub data_entries: Vec<DataEntry>,
}

/// A data entry as bytes: the payload, the signing key, the signature.
pub type EntryView = (Seq<u8>, Seq<u8>, Seq<u8>);

pub struct AccountView {
    pub id: Seq<u8>,
    pub keys: Seq<Seq<u8>>,
    pub data_entries: Seq<EntryView>,
}

pub open spec fn entry_view(e: DataEntry) -> EntryView {
    (e.data@, e.signature.verifying_key@, e.signature.signature@)
}

impl View for Account {
    type V = AccountView;

    open spec fn view(&self) -> AccountView {
        AccountView {
            id: self.id@,
            keys: key_seqs(self.keys@),
            data_entries: self.data_entries@.map_values(|e: DataEntry| entry_view(e)),
        }
    }
}

pub open spec fn option_view(a: Option<Account>) -> Option<AccountView> {
    match a {
        Some(a) => Some(a@),
        None => None,
    }
}

pub open spec fn result_view(r: Result<Account, AccountError>) -> Result<AccountView, AccountError> {
    match r {
        Ok(a) => Ok(a@),
        Err(e) => Err(e),
    }
}

/// A freshly created account that holds one key and no data.
pub open spec fn fresh_account(id: Seq<u8>, key: Seq<u8>) -> AccountView {
    AccountView { id, keys: seq![key], data_entries: seq![] }
}

/// What applying `tx` to the account state `current` gives, where
/// `service_key` is the key of the service that vouches for account creations.
pub open spec fn apply_spec(current: Option<AccountView>, tx: Transaction, service_key: Seq<u8>) -> Result<
    AccountView,
    AccountError,
> {
    let msg = tx_message(tx.id@, tx.operation);
    match tx.operation {
        Operation::RegisterService { key } => {
            if current is Some {
                Err(AccountError::AlreadyExists)
            } else if !authorized(tx.signature, msg, seq![key@]) {
                Err(AccountError::Unauthorized)
            } else {
                Ok(fresh_account(tx.id@, key@))
            }
        },
        Operation::CreateAccount { key, service_id, challenge } => {
            if current is Some {
                Err(AccountError::AlreadyExists)
            } else if !ed25519_accepts(
                service_key,
                challenge_message(tx.id@, key@, service_id@),
                challenge@,
            ) || !authorized(tx.signature, msg, seq![key@]) {
                Err(AccountError::Unauthorized)
            } else {
                Ok(fresh_account(tx.id@, key@))
            }
        },
        Operation::AddKey { key } => match current {
            None => Err(AccountError::NotFound),
            Some(a) => {
                if a.id != tx.id@ {
                    Err(AccountError::InvalidPayload)
                } else if !authorized(tx.signature, msg, a.keys) {
                    Err(AccountError::Unauthorized)
                } else if a.keys.contains(key@) {
                    Err(AccountError::DuplicateKey)
                } else {
                    Ok(AccountView { keys: a.keys.push(key@), ..a })
                }
            },
        },
        Operation::AddData { data, data_signature } => match current {
            None => Err(AccountError::NotFound),
            Some(a) => {
                if a.id != tx.id@ {
                    Err(AccountError::InvalidPayload)
                } else if !authorized(tx.signature, msg, a.keys) {
                    Err(AccountError::Unauthorized)
                } else if !authorized(data_signature, data_message(tx.id@, data@), a.keys) {
                    Err(AccountError::Unauthorized)
                } else {
                    Ok(
                        AccountView {
                            data_entries: a.data_entries.push(
                                (data@, data_signature.verifying_key@, data_signature.signature@),
                            ),
                            ..a
                        },
                    )
                }
            },
        },
    }
}

impl DataEntry {
    /// A copy of the entry.
    pub fn duplicate(&self) -> (r: Self)
        ensures
            entry_view(r) == entry_view(*self),
    {
        DataEntry { data: copy_bytes(self.data.as_slice()), signature: self.signature.duplicate() }
    }
}

impl Account {
    /// A copy of the account.
    pub fn duplicate(&self) -> (r: Self)
        ensures
            r@ == self@,
    {
        let mut keys: Vec<Vec<u8>> = Vec::new();
        let mut i: usize = 0;
        while i < self.keys.len()
            invariant
                0 <= i <= self.keys@.len(),
                keys@.len() == i,
                forall|k: int| 0 <= k < i ==> keys@[k]@ == self.keys@[k]@,
            decreases self.keys@.len() - i,
        {
            keys.push(copy_bytes(self.keys[i].as_slice()));
            i = i + 1;
        }
        let mut data_entries: Vec<DataEntry> = Vec::new();
        let mut j: usize = 0;
        while j < self.data_entries.len()
            invariant
                0 <= j <= self.data_entries@.len(),
                data_entries@.len() == j,
                forall|k: int| 0 <= k < j ==> entry_view(data_entries@[k]) == entry_view(self.data_entries@[k]),
            decreases self.data_entries@.len() - j,
        {
            data_entries.push(self.data_entries[j].duplicate());
            j = j + 1;
        }
        let r = Account { id: copy_bytes(self.id.as_slice()), keys, data_entries };
        assert(r@.keys =~= self@.keys);
        assert(r@.data_entries =~= self@.data_entries);
        r
    }
}

fn new_account(id: &[u8], key: &[u8]) -> (r: Account)
    ensures
        r@ == fresh_account(id@, key@),
{
    let mut keys: Vec<Vec<u8>> = Vec::new();
    keys.push(copy_bytes(key));
    let r = Account { id: copy_bytes(id), keys, data_entries: Vec::new() };
    assert(r@.keys =~= seq![key@]);
    assert(r@.data_entries =~= Seq::<EntryView>::empty());
    r
}

/// Applies a transaction to the current state of the account it names
/// (`None` where there is none yet). `service_key` is the public key of the
/// service that vouches for account creations. Deterministic and free of
/// side effects.
pub fn apply(current: Option<Account>, tx: &Transaction, service_key: &[u8]) -> (r: Result<
    Account,
    AccountError,
>)
    ensures
        result_view(r) == apply_spec(option_view(current), *tx, service_key@),
{
    let msg = tx.message();
    match &tx.operation {
        Operation::RegisterService { key } => {
            if current.is_some() {
                return Err(AccountError::AlreadyExists);
            }
            let mut permitted: Vec<Vec<u8>> = Vec::new();
            permitted.push(copy_bytes(key.as_slice()));
            assert(key_seqs(permitted@) =~= seq![key@]);
            if !verify_signature(msg.as_slice(), &tx.signature, &permitted) {
                return Err(AccountError::Unauthorized);
            }
            Ok(new_account(tx.id.as_slice(), key.as_slice()))
        },
        Operation::CreateAccount { key, service_id, challenge } => {
            if current.is_some() {
                return Err(AccountError::AlreadyExists);
            }
            let challenge_msg = encode_challenge(tx.id.as_slice(), key.as_slice(), service_id.as_slice());
            let vouched = SignatureBundle::new(copy_bytes(service_key), copy_bytes(challenge.as_slice()));
            if !vouched.accepts(challenge_msg.as_slice()) {
                return Err(AccountError::Unauthorized);
            }
            let mut permitted: Vec<Vec<u8>> = Vec::new();
            permitted.push(copy_bytes(key.as_slice()));
            assert(key_seqs(permitted@) =~= seq![key@]);
            if !verify_signature(msg.as_slice(), &tx.signature, &permitted) {
                return Err(AccountError::Unauthorized);
            }
            Ok(new_account(tx.id.as_slice(), key.as_slice()))
        },
        Operation::AddKey { key } => {
            match current {
                None => Err(AccountError::NotFound),
                Some(mut a) => {
                    if !bytes_eq(a.id.as_slice(), tx.id.as_slice()) {
                        return Err(AccountError::InvalidPayload);
                    }
                    if !verify_signature(msg.as_slice(), &tx.signature, &a.keys) {
                        return Err(AccountError::Unauthorized);
                    }
                    if contains_key(&a.keys, key.as_slice()) {
                        return Err(AccountError::DuplicateKey);
                    }
                    let ghost before = a@;
                    a.keys.push(copy_bytes(key.as_slice()));
                    assert(a@.keys =~= before.keys.push(key@));
                    Ok(a)
                },
            }
        },
        Operation::AddData { data, data_signature } => {
            match current {
                None => Err(AccountError::NotFound),
                Some(mut a) => {
                    if !bytes_eq(a.id.as_slice(), tx.id.as_slice()) {
                        return Err(AccountError::InvalidPayload);
                    }
                    if !verify_signature(msg.as_slice(), &tx.signature, &a.keys) {
                        return Err(AccountError::Unauthorized);
                    }
                    let data_msg = encode_data_message(tx.id.as_slice(), data.as_slice());
                    if !verify_signature(data_msg.as_slice(), data_signature, &a.keys) {
                        return Err(AccountError::Unauthorized);
                    }
                    let ghost before = a@;
                    a.data_entries.push(
                        DataEntry { data: copy_bytes(data.as_slice()), signature: data_signature.duplicate() },
                    );
                    assert(a@.data_entries =~= before.data_entries.push(
                        (data@, data_signature.verifying_key@, data_signature.signature@),
                    ));
                    Ok(a)
                },
            }
        },
    }
}

} // verus!
