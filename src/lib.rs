//! A name reservation registry: bounded byte-string names mapped to owning
//! accounts, reserved against a flat fee and handed on only by their owner.
mod currency;
mod laws;
mod pallet;
mod registry;
mod table;
mod types;

pub use currency::{moved, Balances, Currency};
pub use laws::{
    get_owner_idempotent, reserve_free_name_registers, reserve_pays_exactly_the_fee,
    reserve_taken_name_refused, reserve_too_long_refused, reserve_with_funds_succeeds, reserve_too_short_refused,
    reserve_without_fee_account_fails, transfer_by_owner_moves_ownership,
    transfer_of_free_name_not_found,
};
pub use pallet::{
    length_ok, paid_outcome, reserve_post, transfer_post, Config, Event, EventModel, GenesisConfig, Pallet,
};
pub use registry::Registry;
pub use table::{bytes_eq, Key, Table};
pub use types::{AccountId, Balance, Error, TransferError};
