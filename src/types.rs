use vstd::prelude::*;

verus! {

/// An account that can own kitties.
pub type AccountId = u64;

/// The identifier of a kitty, handed out in increasing order from zero.
pub type KittyIndex = u32;

/// An amount of currency.
pub type Balance = u64;

/// A kitty: an immutable 16-byte genome.
#[derive(Clone, Copy, Debug, PartialEq, Eq)]
pub struct Kitty(pub [u8; 16]);

/// What a successful call records.
#[derive(Clone, Copy, Debug, PartialEq, Eq)]
pub enum Event {
    /// A kitty is created: owner, kitty id, kitty.
    KittyCreated(AccountId, KittyIndex, Kitty),
    /// A new kitty is bred: owner, kitty id, kitty.
    KittyBred(AccountId, KittyIndex, Kitty),
    /// A kitty is transferred: from, to, kitty id.
    KittyTransferred(AccountId, AccountId, KittyIndex),
    /// The price of a kitty is updated: owner, kitty id, price (`None` delists).
    KittyPriceUpdated(AccountId, KittyIndex, Option<Balance>),
    /// A kitty is sold: old owner, new owner, kitty id, price.
    KittySold(AccountId, AccountId, KittyIndex, Balance),
}

/// Why a call was refused. A refused call changes nothing.
#[derive(Clone, Copy, Debug, PartialEq, Eq)]
pub enum Error {
    /// The kitty is not owned by the account named (or was never issued).
    InvalidKittyId,
    /// Both parents are the same kitty.
    CannotSameParent,
    /// The caller does not own the kitty.
    NotOwner,
    /// The kitty has no listing.
    NotForSale,
    /// The listing asks more than the buyer offers.
    PriceTooLow,
    /// The buyer is the owner.
    CannotBuyFromSelf,
    /// The id allocator is exhausted.
    Overflow,
    /// The currency transfer could not be made.
    InsufficientBalance,
}

} // verus!
