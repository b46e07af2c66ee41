use vstd::prelude::*;
use crate::address::Address;
use crate::authority::{check_derivation, derives};
use crate::membership::TokenMetadata;

verus! {

/// A token account: `amount` units of the token `mint`, held for `owner`.
#[derive(Clone, Copy, Debug, PartialEq, Eq)]
pub struct TokenAccount {
    pub mint: Address,
    pub owner: Address,
    pub amount: u64,
}

/// The collection a pool is scoped to, and how many of its assets it holds.
#[derive(Clone, Debug)]
pub struct CollectionPool {
    pub col_creator: Address,
    pub col_symbol: Vec<u8>,
    pub nft_count: u32,
}

/// The record of one asset in custody: the address of its metadata record.
#[derive(Clone, Copy, Debug, PartialEq, Eq)]
pub struct VaultMetadata {
    pub nft_metadata: Address,
}

/// One open vault: its record and the custody account that holds the asset.
#[derive(Clone, Copy, Debug, PartialEq, Eq)]
pub struct Vault {
    pub record: VaultMetadata,
    pub custody: TokenAccount,
}

/// A pool with everything it owns: its derived address and bump, its redeem
/// token's mint and outstanding supply, and its open vaults.
#[derive(Debug)]
pub struct PoolState {
    /// The program under which the pool's addresses are derived.
    pub program: Address,
    pub address: Address,
    pub bump: u8,
    pub pool: CollectionPool,
    pub redeem_mint: Address,
    /// The only key that may mint the redeem token: the pool's own address.
    pub mint_authority: Address,
    /// The only key that may freeze redeem-token accounts: the pool's own address.
    pub freeze_authority: Address,
    pub redeem_supply: u64,
    pub vaults: Vec<Vault>,
}

/// Position of the last vault in `vaults` whose custody account holds the
/// asset `mint`, or -1 where there is none.
pub open spec fn index_of(vaults: Seq<Vault>, mint: Seq<u8>) -> int
    decreases vaults.len(),
{
    if vaults.len() == 0 {
        -1
    } else if vaults.last().custody.mint@ == mint {
        vaults.len() - 1
    } else {
        index_of(vaults.drop_last(), mint)
    }
}

impl PoolState {
    /// The pool's invariant: one open vault per custodied asset, each vault's
    /// custody account owned by the pool and holding one unit, the count and
    /// the redeem token's supply both equal to the number of open vaults, the
    /// pool alone the redeem token's mint and freeze authority, and the pool's
    /// address derived from its collection and bump.
    pub open spec fn wf(&self) -> bool {
        &&& self.pool.nft_count as int == self.vaults@.len()
        &&& self.redeem_supply as int == self.vaults@.len()
        &&& self.mint_authority == self.address
        &&& self.freeze_authority == self.address
        &&& derives(
            self.program@,
            self.pool.col_symbol@,
            self.pool.col_creator@,
            self.bump,
            self.address@,
        )
        &&& forall|i: int|
            0 <= i < self.vaults@.len() ==> {
                &&& (#[trigger] self.vaults@[i]).custody.owner == self.address
                &&& self.vaults@[i].custody.amount == 1
            }
        &&& forall|i: int, j: int|
            0 <= i < j < self.vaults@.len() ==> (#[trigger] self.vaults@[i]).custody.mint@
                != (#[trigger] self.vaults@[j]).custody.mint@
    }

    /// The fields that no operation changes are equal in `self` and `other`.
    pub open spec fn same_identity(&self, other: PoolState) -> bool {
        &&& self.program == other.program
        &&& self.address == other.address
        &&& self.bump == other.bump
        &&& self.redeem_mint == other.redeem_mint
        &&& self.mint_authority == other.mint_authority
        &&& self.freeze_authority == other.freeze_authority
        &&& self.pool.col_creator == other.pool.col_creator
        &&& self.pool.col_symbol@ == other.pool.col_symbol@
    }

    /// `self` and `other` are the same pool in the same state.
    pub open spec fn same_state(&self, other: PoolState) -> bool {
        &&& self.same_identity(other)
        &&& self.pool.nft_count == other.pool.nft_count
        &&& self.redeem_supply == other.redeem_supply
        &&& self.vaults@ == other.vaults@
    }

    /// Checks the pool's invariant, for a pool read from outside.
    pub fn check_wf(&self) -> (r: bool)
        ensures
            r == self.wf(),
    {
        let n = self.vaults.len();
        if self.pool.nft_count as usize != n || self.redeem_supply as usize != n
            || self.pool.nft_count as u64 != self.redeem_supply {
            return false;
        }
        if !self.mint_authority.same(&self.address) || !self.freeze_authority.same(&self.address) {
            return false;
        }
        if !check_derivation(
            &self.program,
            &self.pool.col_symbol,
            &self.pool.col_creator,
            self.bump,
            &self.address,
        ) {
            return false;
        }
        let mut i: usize = 0;
        while i < n
            invariant
                n == self.vaults@.len(),
                i <= n,
                forall|a: int|
                    0 <= a < i ==> {
                        &&& (#[trigger] self.vaults@[a]).custody.owner == self.address
                        &&& self.vaults@[a].custody.amount == 1
                    },
                forall|a: int, b: int|
                    0 <= a < b < n && a < i ==> (#[trigger] self.vaults@[a]).custody.mint@
                        != (#[trigger] self.vaults@[b]).custody.mint@,
            decreases n - i,
        {
            let v = &self.vaults[i];
            if !v.custody.owner.same(&self.address) || v.custody.amount != 1 {
                return false;
            }
            let mut j: usize = i + 1;
            while j < n
                invariant
                    n == self.vaults@.len(),
                    i < j <= n,
                    forall|b: int|
                        i < b < j ==> self.vaults@[i as int].custody.mint@
                            != (#[trigger] self.vaults@[b]).custody.mint@,
                decreases n - j,
            {
                if self.vaults[i].custody.mint.same(&self.vaults[j].custody.mint) {
                    return false;
                }
                j = j + 1;
            }
            i = i + 1;
        }
        true
    }

    /// Finds the vault that holds the asset `mint`.
    pub fn find_vault(&self, mint: &Address) -> (r: Option<usize>)
        ensures
            r matches Some(i) ==> i == index_of(self.vaults@, mint@),
            r is None <==> index_of(self.vaults@, mint@) == -1,
    {
        let mut i: usize = self.vaults.len();
        proof {
            assert(self.vaults@.subrange(0, i as int) =~= self.vaults@);
        }
        while i > 0
            invariant
                i <= self.vaults@.len(),
                index_of(self.vaults@, mint@) == index_of(self.vaults@.subrange(0, i as int), mint@),
            decreases i,
        {
            proof {
                assert(self.vaults@.subrange(0, i as int).drop_last() =~= self.vaults@.subrange(
                    0,
                    i - 1,
                ));
            }
            if self.vaults[i - 1].custody.mint.same(mint) {
                return Some(i - 1);
            }
            i = i - 1;
        }
        None
    }
}

} // verus!
