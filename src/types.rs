use vstd::prelude::*;

verus! {

/// An account identity, as authenticated by the host.
pub type AccountId = u64;

/// An amount of currency.
pub type Balance = u128;

/// Why a transfer of value between two accounts was refused.
#[derive(Clone, Copy, Debug, PartialEq, Eq, Structural)]
pub enum TransferError {
    /// The sender holds less than the amount.
    InsufficientBalance,
    /// The receiver's balance would exceed what a `Balance` can hold.
    Overflow,
}

/// Why a reservation or a transfer of a name was refused.
#[derive(Clone, Copy, Debug, PartialEq, Eq, Structural)]
pub enum Error {
    /// A name is too short.
    TooShort,
    /// A name is too long.
    TooLong,
    /// The name is already taken.
    AlreadyReserved,
    /// The name has no reservation.
    NotFound,
    /// The caller does not own the name.
    NotOwner,
    /// No account is configured to receive reservation fees.
    ReserveAccountNotConfigured,
    /// Paying the reservation fee failed.
    Transfer(TransferError),
}

} // verus!
