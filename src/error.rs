use vstd::prelude::*;

verus! {

/// Why a ledger command did not take effect.
#[derive(Clone, Copy, Debug, PartialEq, Eq, Structural)]
pub enum LedgerError {
    /// A friend with this id is already registered.
    DuplicateId,
    /// No friend with this id is registered.
    NotFound,
    /// The new balance would not fit the representation of money.
    BalanceOverflow,
    /// The add-friend form lacks a name or an image.
    IncompleteForm,
    /// A split was submitted before a bill was entered.
    NoBillEntered,
}

} // verus!
