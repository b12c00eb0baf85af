//! An asset ledger: kitties with gene data, derived from two parents by a
//! bitwise combination, owned by accounts and sold on a priced marketplace,
//! with the storage migrations of its record layout.
pub mod currency;
pub mod dna;
pub mod migrations;
pub mod pallet;
pub mod registry;
mod scale;

pub use currency::{AccountId, Balance, Balances, Currency, ExistenceRequirement, TransferError};
pub use dna::{combine_dna, random_value, Dna, SeedSource};
pub use pallet::Pallet;
pub use registry::{Error, Event, Kitty, KittyId, Registry};
