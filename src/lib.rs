//! A ledger of unique digital assets ("kitties"): creation, breeding,
//! transfer, listing for sale and purchase, each backed by a reserved deposit.
//! Also a single flippable flag.

pub mod balances;
pub mod fliper;
pub mod genome;
pub mod ledger;

pub use balances::{AccountData, BalanceError, Balances};
pub use fliper::Fliper;
pub use genome::{mix_genomes, random_value};
pub use ledger::{Error, Event, Kitty, KittyIndex, Pallet};
