use vstd::prelude::*;
use crate::authority::Authority;
use crate::error::MyError;
use crate::instructions::{
    deposited, insert_error, lemma_index_of_absent, withdraw_error, withdrawn, Vault_Insert,
    Vault_Withdraw,
};
use crate::membership::is_member;
use crate::pool::{index_of, PoolState};

verus! {

/// In every pool that keeps its invariant, the count of custodied assets, the
/// outstanding supply of the redeem token and the number of open vault records
/// are one and the same number.
pub proof fn lemma_count_supply_records(p: PoolState)
    requires
        p.wf(),
    ensures
        p.pool.nft_count as int == p.redeem_supply as int,
        p.redeem_supply as int == p.vaults@.len(),
{
}

/// The redeem token is minted only under the pool's own seed tuple: the
/// pool's address is the mint's only mint authority, and a deposit of a
/// member asset that the depositor holds, made with a seed tuple that does not
/// derive the pool's address, fails with `AuthorityMismatch`.
pub proof fn lemma_mint_needs_pool_seeds(p: PoolState, authority: Authority, d: Vault_Insert)
    requires
        p.wf(),
        is_member(d.nft_metadata, p.pool.col_creator@, p.pool.col_symbol@),
        d.nft_user_token.amount > 0,
        !authority.signs_for(p.program@, p.address@),
    ensures
        p.mint_authority == p.address,
        insert_error(p, authority, d) == Some(MyError::AuthorityMismatch),
{
}

/// A deposit followed by a withdrawal of the same asset, made with the same
/// seed tuple and the accounts that the deposit left, succeeds, and brings the
/// pool, the asset account and the redeem-token account back to where they
/// stood before the deposit.
pub proof fn lemma_deposit_withdraw_round_trip(
    p0: PoolState,
    p1: PoolState,
    p2: PoolState,
    authority: Authority,
    d0: Vault_Insert,
    d1: Vault_Insert,
    w0: Vault_Withdraw,
    w1: Vault_Withdraw,
)
    requires
        p0.wf(),
        insert_error(p0, authority, d0) is None,
        deposited(p0, p1, d0, d1),
        w0.nft_mint == d0.nft_user_token.mint,
        w0.nft_user_token == d1.nft_user_token,
        w0.user_redeem_wallet == d1.user_redeem_wallet,
    ensures
        withdraw_error(p1, authority, w0) is None,
        withdrawn(p1, p2, w0, w1) ==> {
            &&& p2.same_state(p0)
            &&& w1.nft_user_token == d0.nft_user_token
            &&& w1.user_redeem_wallet == d0.user_redeem_wallet
        },
{
    assert(p1.vaults@.last().custody.mint@ == w0.nft_mint@);
    assert(index_of(p1.vaults@, w0.nft_mint@) == p0.vaults@.len());
    if withdrawn(p1, p2, w0, w1) {
        assert(p2.vaults@ =~= p0.vaults@);
    }
}

/// Once a withdrawal has closed an asset's vault, a second withdrawal of that
/// asset with the same seed tuple fails with `AccountNotFound`.
pub proof fn lemma_withdraw_twice(
    p0: PoolState,
    p1: PoolState,
    authority: Authority,
    w0: Vault_Withdraw,
    w1: Vault_Withdraw,
    w2: Vault_Withdraw,
)
    requires
        p0.wf(),
        withdraw_error(p0, authority, w0) is None,
        withdrawn(p0, p1, w0, w1),
        w2.nft_mint == w0.nft_mint,
    ensures
        withdraw_error(p1, authority, w2) == Some(MyError::AccountNotFound),
{
    let m = w0.nft_mint@;
    let i = index_of(p0.vaults@, m);
    lemma_index_of_absent(p0.vaults@, m);
    p0.vaults@.remove_ensures(i);
    assert forall|k: int| 0 <= k < p1.vaults@.len() implies (#[trigger] p1.vaults@[k]).custody.mint@
        != m by {
        if k < i {
            assert(p1.vaults@[k] == p0.vaults@[k]);
        } else {
            assert(p1.vaults@[k] == p0.vaults@[k + 1]);
        }
    }
    lemma_index_of_absent(p1.vaults@, m);
}

} // verus!
