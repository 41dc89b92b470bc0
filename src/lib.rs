use vstd::prelude::*;

pub mod account;
pub mod bytes;
pub mod config;
pub mod laws;
pub mod service;
pub mod signature;
pub mod transaction;

pub use account::{apply, Account, AccountError, DataEntry};
pub use config::{Config, ServerConfig};
pub use service::{
    conclude, plan_add_data, plan_add_key, plan_create_account, plan_register_service,
    ServiceIdentity, Step,
};
pub use signature::{verify_signature, SignatureBundle};
pub use transaction::{
    build_add_data, build_add_key, build_create_account, build_register_service, Operation,
    Transaction, UnsignedTransaction,
};

verus! {

} // verus!
