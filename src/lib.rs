//! A minimal account ledger: a total-issuance counter and a table of
//! account balances, changed only through minting and transfers that keep
//! the counter equal to the sum of the balances.
pub mod laws;
pub mod pallet;
pub mod store;
pub mod sum;

pub use pallet::{ensure_signed, Config, MintError, Origin, Pallet, TransferError};
pub use store::{AccountId, Balance, Store};
