//! Escrow-backed redemption vaults: a collection's non-fungible asset is locked
//! in a pool-owned custody account against one freshly minted redeem token, and
//! the redeem token is later surrendered to take the asset back.
//!
//! Every address the pool signs for is derived from a seed tuple; presenting
//! that tuple is the pool's signature, so no private key is ever held.
pub mod address;
pub mod authority;
pub mod error;
pub mod instructions;
pub mod laws;
pub mod membership;
pub mod pool;
