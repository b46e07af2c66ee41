use vstd::prelude::*;

verus! {

/// Every way an operation on a pool can fail. A failed operation changes nothing.
#[derive(Clone, Copy, Debug, PartialEq, Eq, Structural)]
pub enum MyError {
    /// The depositor's asset account does not hold the asset.
    UserLacksNFT,
    /// The pool's derived address is already taken, or the asset is already in custody.
    AlreadyInitialized,
    /// The asset's metadata does not name the pool's collection.
    CollectionMismatch,
    /// The redeemer holds no unit of the pool's redeem token.
    InsufficientRedeemBalance,
    /// The presented seed tuple does not derive the pool's address.
    AuthorityMismatch,
    /// A custody record or a token account for the asset is missing.
    AccountNotFound,
    /// The seeds derive no program address (a seed longer than 32 bytes).
    InvalidSeeds,
    /// A count or a token balance would leave its integer range.
    Overflow,
}

} // verus!
