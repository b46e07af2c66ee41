use vstd::prelude::*;
use crate::address::Address;
use crate::authority::{
    derives, mint_found, pool_found, pool_seed_list, pool_seeds, redeem_mint_seed_list, redeem_mint_tag, seeds_view,
    try_find_program_address, program_address_of, Authority,
};
use crate::error::MyError;
use crate::membership::{is_member, validate_membership, TokenMetadata};
use crate::pool::{index_of, CollectionPool, PoolState, TokenAccount, Vault, VaultMetadata};

verus! {

/// `Ok(())` where no error is due, else that error.
pub open spec fn outcome(e: Option<MyError>) -> Result<(), MyError> {
    match e {
        Some(e) => Err(e),
        None => Ok(()),
    }
}

/// The accounts that a deposit reads and changes, beside the pool.
#[allow(non_camel_case_types)]
#[derive(Clone, Debug)]
pub struct Vault_Insert {
    /// The address of the asset's metadata record.
    pub nft_metadata_key: Address,
    pub nft_metadata: TokenMetadata,
    /// The depositor's account of the asset; its mint is the asset's identity.
    pub nft_user_token: TokenAccount,
    /// The depositor's account of the pool's redeem token.
    pub user_redeem_wallet: TokenAccount,
}

/// The accounts that a withdrawal reads and changes, beside the pool.
#[allow(non_camel_case_types)]
#[derive(Clone, Copy, Debug)]
pub struct Vault_Withdraw {
    /// The asset to take out of custody.
    pub nft_mint: Address,
    /// The redeemer's account of the asset.
    pub nft_user_token: TokenAccount,
    /// The redeemer's account of the pool's redeem token.
    pub user_redeem_wallet: TokenAccount,
}

/// The error that a deposit into `pool` meets, in the order of the checks,
/// or `None` where it succeeds.
pub open spec fn insert_error(pool: PoolState, authority: Authority, ctx: Vault_Insert) -> Option<
    MyError,
> {
    if !is_member(ctx.nft_metadata, pool.pool.col_creator@, pool.pool.col_symbol@) {
        Some(MyError::CollectionMismatch)
    } else if ctx.nft_user_token.amount == 0 {
        Some(MyError::UserLacksNFT)
    } else if !authority.signs_for(pool.program@, pool.address@) {
        Some(MyError::AuthorityMismatch)
    } else if index_of(pool.vaults@, ctx.nft_user_token.mint@) != -1 {
        Some(MyError::AlreadyInitialized)
    } else if ctx.user_redeem_wallet.mint@ != pool.redeem_mint@ {
        Some(MyError::AccountNotFound)
    } else if pool.pool.nft_count == u32::MAX || ctx.user_redeem_wallet.amount == u64::MAX {
        Some(MyError::Overflow)
    } else {
        None
    }
}

/// `post` is `pre` with the asset of `cpre` moved into a new custody account of
/// the pool, one redeem token minted to the depositor, and the count raised by one.
pub open spec fn deposited(pre: PoolState, post: PoolState, cpre: Vault_Insert, cpost: Vault_Insert) -> bool {
    &&& post.same_identity(pre)
    &&& post.pool.nft_count == pre.pool.nft_count + 1
    &&& post.redeem_supply == pre.redeem_supply + 1
    &&& post.vaults@ == pre.vaults@.push(
        Vault {
            record: VaultMetadata { nft_metadata: cpre.nft_metadata_key },
            custody: TokenAccount { mint: cpre.nft_user_token.mint, owner: pre.address, amount: 1 },
        },
    )
    &&& cpost.nft_metadata_key == cpre.nft_metadata_key
    &&& cpost.nft_metadata == cpre.nft_metadata
    &&& cpost.nft_user_token.mint == cpre.nft_user_token.mint
    &&& cpost.nft_user_token.owner == cpre.nft_user_token.owner
    &&& cpost.nft_user_token.amount == cpre.nft_user_token.amount - 1
    &&& cpost.user_redeem_wallet.mint == cpre.user_redeem_wallet.mint
    &&& cpost.user_redeem_wallet.owner == cpre.user_redeem_wallet.owner
    &&& cpost.user_redeem_wallet.amount == cpre.user_redeem_wallet.amount + 1
}

/// The error that a withdrawal from `pool` meets, in the order of the checks,
/// or `None` where it succeeds.
pub open spec fn withdraw_error(pool: PoolState, authority: Authority, ctx: Vault_Withdraw) -> Option<
    MyError,
> {
    if !authority.signs_for(pool.program@, pool.address@) {
        Some(MyError::AuthorityMismatch)
    } else if index_of(pool.vaults@, ctx.nft_mint@) == -1 {
        Some(MyError::AccountNotFound)
    } else if ctx.nft_user_token.mint@ != ctx.nft_mint@ {
        Some(MyError::AccountNotFound)
    } else if ctx.user_redeem_wallet.mint@ != pool.redeem_mint@ || ctx.user_redeem_wallet.amount
        == 0 {
        Some(MyError::InsufficientRedeemBalance)
    } else if ctx.nft_user_token.amount == u64::MAX {
        Some(MyError::Overflow)
    } else {
        None
    }
}

/// `post` is `pre` with the asset of `cpre` moved from custody back to the
/// redeemer, its vault closed, one redeem token burned, and the count lowered by one.
pub open spec fn withdrawn(pre: PoolState, post: PoolState, cpre: Vault_Withdraw, cpost: Vault_Withdraw) -> bool {
    &&& post.same_identity(pre)
    &&& post.pool.nft_count == pre.pool.nft_count - 1
    &&& post.redeem_supply == pre.redeem_supply - 1
    &&& post.vaults@ == pre.vaults@.remove(index_of(pre.vaults@, cpre.nft_mint@))
    &&& cpost.nft_mint == cpre.nft_mint
    &&& cpost.nft_user_token.mint == cpre.nft_user_token.mint
    &&& cpost.nft_user_token.owner == cpre.nft_user_token.owner
    &&& cpost.nft_user_token.amount == cpre.nft_user_token.amount + 1
    &&& cpost.user_redeem_wallet.mint == cpre.user_redeem_wallet.mint
    &&& cpost.user_redeem_wallet.owner == cpre.user_redeem_wallet.owner
    &&& cpost.user_redeem_wallet.amount == cpre.user_redeem_wallet.amount - 1
}

/// Every pool created under one program, each at its own derived address.
#[derive(Debug)]
pub struct PoolRegistry {
    pub program_id: Address,
    pub pools: Vec<PoolState>,
}

impl PoolRegistry {
    /// An empty registry for the program `program_id`.
    pub fn new(program_id: Address) -> (r: PoolRegistry)
        ensures
            r.program_id == program_id,
            r.pools@.len() == 0,
            r.wf(),
    {
        PoolRegistry { program_id, pools: Vec::new() }
    }

    /// Each pool keeps its invariant and belongs to this program, and no two
    /// pools share an address.
    pub open spec fn wf(&self) -> bool {
        &&& forall|i: int| 0 <= i < self.pools@.len() ==> (#[trigger] self.pools@[i]).wf()
        &&& forall|i: int|
            0 <= i < self.pools@.len() ==> (#[trigger] self.pools@[i]).program == self.program_id
        &&& forall|i: int, j: int|
            0 <= i < j < self.pools@.len() ==> (#[trigger] self.pools@[i]).address
                != (#[trigger] self.pools@[j]).address
    }

    /// Some pool of the registry stands at `address`.
    pub open spec fn has_pool_at(&self, address: Seq<u8>) -> bool {
        exists|i: int| 0 <= i < self.pools@.len() && (#[trigger] self.pools@[i]).address@ == address
    }

    /// Finds the pool at `address`.
    pub fn find_pool(&self, address: &Address) -> (r: Option<usize>)
        ensures
            r matches Some(i) ==> i < self.pools@.len() && self.pools@[i as int].address@ == address@,
            r is None ==> forall|i: int|
                0 <= i < self.pools@.len() ==> (#[trigger] self.pools@[i]).address@ != address@,
    {
        let mut i: usize = 0;
        while i < self.pools.len()
            invariant
                i <= self.pools@.len(),
                forall|j: int| 0 <= j < i ==> (#[trigger] self.pools@[j]).address@ != address@,
            decreases self.pools@.len() - i,
        {
            if self.pools[i].address.same(address) {
                return Some(i);
            }
            i = i + 1;
        }
        None
    }
}

/// The accounts that creating a pool brings into being.
#[allow(non_camel_case_types)]
#[derive(Clone, Copy, Debug)]
pub struct Initialize_Pool {
    /// The new pool's position in the registry.
    pub index: usize,
    /// The pool's address, derived from its collection.
    pub collection_pool: Address,
    /// The bump seed that, after the collection's seeds, derives the pool's address.
    pub collection_bump: u8,
    /// The mint of the pool's redeem token, derived from the pool's address.
    pub redeem_mint: Address,
    /// The bump seed that, after the redeem mint's seeds, derives its address.
    pub redeem_bump: u8,
}

/// Creates the pool of the collection `(col_creator, col_symbol)`, with no
/// asset in custody and no redeem token outstanding. Fails with
/// `AlreadyInitialized` where a pool already stands at the derived address,
/// and with `InvalidSeeds` where the collection derives no address.
pub fn initialize_pool(registry: &mut PoolRegistry, col_creator: Address, col_symbol: Vec<u8>) -> (r:
    Result<Initialize_Pool, MyError>)
    requires
        old(registry).wf(),
    ensures
        final(registry).wf(),
        r is Err ==> *final(registry) == *old(registry),
        r is Err ==> r == Err::<Initialize_Pool, MyError>(MyError::InvalidSeeds) || r == Err::<
            Initialize_Pool,
            MyError,
        >(MyError::AlreadyInitialized),
        col_symbol@.len() > 32 ==> r == Err::<Initialize_Pool, MyError>(MyError::InvalidSeeds),
        r == Err::<Initialize_Pool, MyError>(MyError::InvalidSeeds) <==> match pool_found(
            old(registry).program_id@,
            col_symbol@,
            col_creator@,
        ) {
            None => true,
            Some(f) => !old(registry).has_pool_at(f.0) && mint_found(
                old(registry).program_id@,
                f.0,
            ) is None,
        },
        r == Err::<Initialize_Pool, MyError>(MyError::AlreadyInitialized) <==> match pool_found(
            old(registry).program_id@,
            col_symbol@,
            col_creator@,
        ) {
            None => false,
            Some(f) => old(registry).has_pool_at(f.0),
        },
        r is Ok <==> match pool_found(old(registry).program_id@, col_symbol@, col_creator@) {
            None => false,
            Some(f) => !old(registry).has_pool_at(f.0) && mint_found(
                old(registry).program_id@,
                f.0,
            ) is Some,
        },
        r matches Ok(init) ==> {
            let p = final(registry).pools@[init.index as int];
            &&& init.index == old(registry).pools@.len()
            &&& final(registry).program_id == old(registry).program_id
            &&& final(registry).pools@.len() == old(registry).pools@.len() + 1
            &&& final(registry).pools@.drop_last() == old(registry).pools@
            &&& p.program == old(registry).program_id
            &&& p.address == init.collection_pool
            &&& p.bump == init.collection_bump
            &&& p.redeem_mint == init.redeem_mint
            &&& pool_found(p.program@, col_symbol@, col_creator@) == Some(
                (init.collection_pool@, init.collection_bump),
            )
            &&& mint_found(p.program@, init.collection_pool@) == Some(
                (init.redeem_mint@, init.redeem_bump),
            )
            &&& p.mint_authority == p.address
            &&& p.freeze_authority == p.address
            &&& p.pool.col_creator == col_creator
            &&& p.pool.col_symbol@ == col_symbol@
            &&& p.pool.nft_count == 0
            &&& p.redeem_supply == 0
            &&& p.vaults@.len() == 0
            &&& derives(p.program@, col_symbol@, col_creator@, p.bump, p.address@)
            &&& program_address_of(
                seq![redeem_mint_tag(), p.address@].push(seq![init.redeem_bump]),
                p.program@,
            ) == Some(p.redeem_mint@)
        },
{
    let seeds = pool_seed_list(&col_symbol, &col_creator);
    proof {
        assert(pool_seeds(col_symbol@, col_creator@).len() == 3);
        assert(seeds@.len() == 3);
        assert(seeds_view(seeds@)[1] == seeds@[1]@);
        assert(seeds@[1]@ == col_symbol@);
    }
    let (address, bump) = match try_find_program_address(&seeds, &registry.program_id) {
        Some(found) => found,
        None => {
            return Err(MyError::InvalidSeeds);
        },
    };
    match registry.find_pool(&address) {
        Some(i) => {
            proof {
                assert(derives(
                    registry.program_id@,
                    col_symbol@,
                    col_creator@,
                    bump,
                    registry.pools@[i as int].address@,
                ));
            }
            return Err(MyError::AlreadyInitialized);
        },
        None => {},
    }
    let mint_seeds = redeem_mint_seed_list(&address);
    let (redeem_mint, mint_bump) = match try_find_program_address(&mint_seeds, &registry.program_id) {
        Some(found) => found,
        None => {
            return Err(MyError::InvalidSeeds);
        },
    };
    let pool = PoolState {
        program: registry.program_id,
        address,
        bump,
        pool: CollectionPool { col_creator, col_symbol, nft_count: 0 },
        redeem_mint,
        mint_authority: address,
        freeze_authority: address,
        redeem_supply: 0,
        vaults: Vec::new(),
    };
    let index = registry.pools.len();
    let ghost pre = registry.pools@;
    registry.pools.push(pool);
    proof {
        assert(registry.pools@.drop_last() =~= pre);
        assert forall|i: int, j: int|
            0 <= i < j < registry.pools@.len() implies (#[trigger] registry.pools@[i]).address
                != (#[trigger] registry.pools@[j]).address by {
            assert(registry.pools@[i] == pre[i]);
            if j < pre.len() {
                assert(registry.pools@[j] == pre[j]);
            }
        }
        assert forall|i: int| 0 <= i < registry.pools@.len() implies (#[trigger] registry.pools@[i]).wf()
            && registry.pools@[i].program == registry.program_id by {
            if i < pre.len() {
                assert(registry.pools@[i] == pre[i]);
            }
        }
    }
    Ok(Initialize_Pool { index, collection_pool: address, collection_bump: bump, redeem_mint, redeem_bump: mint_bump })
}

/// Deposits the asset of `ctx.nft_user_token` into `pool`: checks membership,
/// the depositor's balance and the pool's seed tuple, then mints one redeem
/// token to the depositor, moves one unit of the asset into a new custody
/// account of the pool, records the vault and counts it.
pub fn vault_insert(pool: &mut PoolState, ctx: &mut Vault_Insert, authority: &Authority) -> (r:
    Result<(), MyError>)
    requires
        old(pool).wf(),
    ensures
        r == outcome(insert_error(*old(pool), *authority, *old(ctx))),
        !is_member(old(ctx).nft_metadata, old(pool).pool.col_creator@, old(pool).pool.col_symbol@)
            ==> r == Err::<(), MyError>(MyError::CollectionMismatch),
        final(pool).redeem_supply != old(pool).redeem_supply ==> authority.signs_for(
            old(pool).program@,
            old(pool).address@,
        ),
        r is Err ==> *final(pool) == *old(pool) && *final(ctx) == *old(ctx),
        r is Ok ==> deposited(*old(pool), *final(pool), *old(ctx), *final(ctx)),
        final(pool).wf(),
{
    if !validate_membership(&ctx.nft_metadata, &pool.pool.col_creator, &pool.pool.col_symbol) {
        return Err(MyError::CollectionMismatch);
    }
    if ctx.nft_user_token.amount == 0 {
        return Err(MyError::UserLacksNFT);
    }
    match authority.check(&pool.program, &pool.address) {
        Ok(()) => {},
        Err(e) => {
            return Err(e);
        },
    }
    match pool.find_vault(&ctx.nft_user_token.mint) {
        Some(_) => {
            return Err(MyError::AlreadyInitialized);
        },
        None => {},
    }
    if !ctx.user_redeem_wallet.mint.same(&pool.redeem_mint) {
        return Err(MyError::AccountNotFound);
    }
    if pool.pool.nft_count == u32::MAX || ctx.user_redeem_wallet.amount == u64::MAX {
        return Err(MyError::Overflow);
    }
    // mint one redeem token to the depositor, signed by the pool's seed tuple
    pool.redeem_supply = pool.redeem_supply + 1;
    ctx.user_redeem_wallet.amount = ctx.user_redeem_wallet.amount + 1;
    // move one unit of the asset into a new custody account owned by the pool
    ctx.nft_user_token.amount = ctx.nft_user_token.amount - 1;
    let custody = TokenAccount { mint: ctx.nft_user_token.mint, owner: pool.address, amount: 1 };
    let ghost pre = pool.vaults@;
    pool.vaults.push(Vault { record: VaultMetadata { nft_metadata: ctx.nft_metadata_key }, custody });
    pool.pool.nft_count = pool.pool.nft_count + 1;
    proof {
        lemma_index_of_absent(pre, ctx.nft_user_token.mint@);
        assert forall|i: int, j: int|
            0 <= i < j < pool.vaults@.len() implies (#[trigger] pool.vaults@[i]).custody.mint@
                != (#[trigger] pool.vaults@[j]).custody.mint@ by {
            if j == pre.len() {
                assert(pool.vaults@[i] == pre[i]);
            } else {
                assert(pool.vaults@[i] == pre[i]);
                assert(pool.vaults@[j] == pre[j]);
            }
        }
        assert forall|i: int| 0 <= i < pool.vaults@.len() implies {
            &&& (#[trigger] pool.vaults@[i]).custody.owner == pool.address
            &&& pool.vaults@[i].custody.amount == 1
        } by {
            if i < pre.len() {
                assert(pool.vaults@[i] == pre[i]);
            }
        }
    }
    Ok(())
}

/// Withdraws the asset `ctx.nft_mint` from `pool`: checks the pool's seed
/// tuple, the vault, and the redeemer's redeem token, then moves the asset
/// from custody back to the redeemer, burns one redeem token from the
/// redeemer, closes the custody account and the vault record, and uncounts it.
pub fn vault_withdraw(pool: &mut PoolState, ctx: &mut Vault_Withdraw, authority: &Authority) -> (r:
    Result<(), MyError>)
    requires
        old(pool).wf(),
    ensures
        r == outcome(withdraw_error(*old(pool), *authority, *old(ctx))),
        r is Err ==> *final(pool) == *old(pool) && *final(ctx) == *old(ctx),
        r is Ok ==> withdrawn(*old(pool), *final(pool), *old(ctx), *final(ctx)),
        final(pool).wf(),
{
    match authority.check(&pool.program, &pool.address) {
        Ok(()) => {},
        Err(e) => {
            return Err(e);
        },
    }
    let i = match pool.find_vault(&ctx.nft_mint) {
        Some(i) => i,
        None => {
            return Err(MyError::AccountNotFound);
        },
    };
    if !ctx.nft_user_token.mint.same(&ctx.nft_mint) {
        return Err(MyError::AccountNotFound);
    }
    if !ctx.user_redeem_wallet.mint.same(&pool.redeem_mint) || ctx.user_redeem_wallet.amount == 0 {
        return Err(MyError::InsufficientRedeemBalance);
    }
    if ctx.nft_user_token.amount == u64::MAX {
        return Err(MyError::Overflow);
    }
    proof {
        lemma_index_of_absent(pool.vaults@, ctx.nft_mint@);
    }
    // move the asset out of custody, signed by the pool's seed tuple
    ctx.nft_user_token.amount = ctx.nft_user_token.amount + 1;
    // burn one redeem token, on the redeemer's own authority
    ctx.user_redeem_wallet.amount = ctx.user_redeem_wallet.amount - 1;
    pool.redeem_supply = pool.redeem_supply - 1;
    // close the custody account and the vault record
    let ghost pre = pool.vaults@;
    pool.vaults.remove(i);
    pool.pool.nft_count = pool.pool.nft_count - 1;
    proof {
        pre.remove_ensures(i as int);
        assert forall|a: int, b: int|
            0 <= a < b < pool.vaults@.len() implies (#[trigger] pool.vaults@[a]).custody.mint@
                != (#[trigger] pool.vaults@[b]).custody.mint@ by {
            let pa = if a < i { a } else { a + 1 };
            let pb = if b < i { b } else { b + 1 };
            assert(pool.vaults@[a] == pre[pa]);
            assert(pool.vaults@[b] == pre[pb]);
        }
        assert forall|a: int| 0 <= a < pool.vaults@.len() implies {
            &&& (#[trigger] pool.vaults@[a]).custody.owner == pool.address
            &&& pool.vaults@[a].custody.amount == 1
        } by {
            let pa = if a < i { a } else { a + 1 };
            assert(pool.vaults@[a] == pre[pa]);
        }
    }
    Ok(())
}

/// Where `index_of` finds nothing, no vault holds `mint`; where it finds a
/// position, the vault there holds `mint`.
pub proof fn lemma_index_of_absent(vaults: Seq<Vault>, mint: Seq<u8>)
    ensures
        index_of(vaults, mint) == -1 <==> forall|i: int|
            0 <= i < vaults.len() ==> (#[trigger] vaults[i]).custody.mint@ != mint,
        index_of(vaults, mint) != -1 ==> 0 <= index_of(vaults, mint) < vaults.len()
            && vaults[index_of(vaults, mint)].custody.mint@ == mint,
    decreases vaults.len(),
{
    if vaults.len() > 0 {
        lemma_index_of_absent(vaults.drop_last(), mint);
        if vaults.last().custody.mint@ != mint {
            assert forall|i: int| 0 <= i < vaults.drop_last().len() implies vaults.drop_last()[i]
                == #[trigger] vaults[i] by {}
        }
    }
}

} // verus!
