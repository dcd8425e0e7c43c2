//! Delegated transfer-authority records: an owner lets a transfer authority
//! move tokens to a fixed whitelist of destinations, with the record itself
//! acting as the signer through a program-derived address.

pub mod address;
pub mod base_account;
pub mod errors;
pub mod instructions;
pub mod key;
pub mod laws;

pub use address::{base_account_seed, base_account_seeds, base_account_signer_seeds};
pub use base_account::{BaseAccount, WHITELIST_CAPACITY};
pub use errors::Errors;
pub use instructions::{
    activate, authorize_transfer, check_initialize, create_base_account, deactivate, initialize,
    safe_transfer, Activate, Deactivate, Initialize, SafeTransfer, TokenAccountInfo,
    TransferOrder,
};
pub use key::Key;
