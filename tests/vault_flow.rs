use nftamm::address::Address;
use nftamm::authority::Authority;
use nftamm::error::MyError;
use nftamm::instructions::{
    initialize_pool, vault_insert, vault_withdraw, Initialize_Pool, PoolRegistry, Vault_Insert,
    Vault_Withdraw,
};
use nftamm::membership::{trimmed_len, validate_membership, TokenMetadata};
use nftamm::pool::TokenAccount;

fn program() -> Address {
    Address::new([7u8; 32])
}

fn creator() -> Address {
    Address::new([1u8; 32])
}

fn user() -> Address {
    Address::new([2u8; 32])
}

fn asset() -> Address {
    Address::new([9u8; 32])
}

fn foo_pool() -> (PoolRegistry, Initialize_Pool) {
    let mut reg = PoolRegistry::new(program());
    let init = initialize_pool(&mut reg, creator(), b"FOO".to_vec()).unwrap();
    (reg, init)
}

fn authority(init: &Initialize_Pool) -> Authority {
    Authority { col_symbol: b"FOO".to_vec(), col_creator: creator(), collection_bump: init.collection_bump }
}

fn deposit_ctx(init: &Initialize_Pool, symbol: &[u8], creators: Vec<Address>) -> Vault_Insert {
    Vault_Insert {
        nft_metadata_key: Address::new([5u8; 32]),
        nft_metadata: TokenMetadata { symbol: symbol.to_vec(), creators },
        nft_user_token: TokenAccount { mint: asset(), owner: user(), amount: 1 },
        user_redeem_wallet: TokenAccount { mint: init.redeem_mint, owner: user(), amount: 0 },
    }
}

fn withdraw_ctx(ins: &Vault_Insert) -> Vault_Withdraw {
    Vault_Withdraw {
        nft_mint: asset(),
        nft_user_token: ins.nft_user_token,
        user_redeem_wallet: ins.user_redeem_wallet,
    }
}

#[test]
fn initialize_deposit_withdraw_scenario() {
    let (mut reg, init) = foo_pool();
    assert_eq!(reg.pools[init.index].pool.nft_count, 0);
    assert_eq!(reg.pools[init.index].redeem_supply, 0);
    assert_eq!(reg.pools[init.index].pool.col_creator, creator());
    assert_eq!(reg.pools[init.index].pool.col_symbol, b"FOO".to_vec());
    assert_eq!(reg.pools[init.index].address, init.collection_pool);
    assert_eq!(reg.pools[init.index].mint_authority, init.collection_pool);
    assert_eq!(reg.pools[init.index].freeze_authority, init.collection_pool);
    assert_eq!(reg.pools[init.index].redeem_mint, init.redeem_mint);
    let auth = authority(&init);
    let mut ins = deposit_ctx(&init, b"FOO", vec![creator()]);
    assert_eq!(vault_insert(&mut reg.pools[init.index], &mut ins, &auth), Ok(()));
    let pool = &reg.pools[init.index];
    assert_eq!(pool.pool.nft_count, 1);
    assert_eq!(pool.redeem_supply, 1);
    assert_eq!(ins.user_redeem_wallet.amount, 1);
    assert_eq!(ins.nft_user_token.amount, 0);
    assert_eq!(pool.vaults.len(), 1);
    assert_eq!(pool.vaults[0].custody.mint, asset());
    assert_eq!(pool.vaults[0].custody.owner, init.collection_pool);
    assert_eq!(pool.vaults[0].custody.amount, 1);
    assert_eq!(pool.vaults[0].record.nft_metadata, Address::new([5u8; 32]));

    let mut wd = withdraw_ctx(&ins);
    assert_eq!(vault_withdraw(&mut reg.pools[init.index], &mut wd, &auth), Ok(()));
    let pool = &reg.pools[init.index];
    assert_eq!(pool.pool.nft_count, 0);
    assert_eq!(pool.redeem_supply, 0);
    assert_eq!(pool.vaults.len(), 0);
    assert_eq!(wd.nft_user_token.amount, 1);
    assert_eq!(wd.nft_user_token.owner, user());
    assert_eq!(wd.user_redeem_wallet.amount, 0);
}

#[test]
fn membership_mismatch_changes_nothing() {
    let (mut reg, init) = foo_pool();
    let auth = authority(&init);
    let cases: Vec<(Vec<u8>, Vec<Address>)> = vec![
        (b"BAR".to_vec(), vec![creator()]),
        (b"FOO".to_vec(), vec![user()]),
        (b"FOO".to_vec(), vec![]),
        (b"FOOX".to_vec(), vec![creator()]),
        (b"\0FOO".to_vec(), vec![creator()]),
    ];
    for (symbol, creators) in cases {
        let mut ins = deposit_ctx(&init, &symbol, creators);
        let before = ins.clone();
        assert_eq!(
            vault_insert(&mut reg.pools[init.index], &mut ins, &auth),
            Err(MyError::CollectionMismatch)
        );
        assert_eq!(reg.pools[init.index].pool.nft_count, 0);
        assert_eq!(reg.pools[init.index].redeem_supply, 0);
        assert_eq!(reg.pools[init.index].vaults.len(), 0);
        assert_eq!(ins.nft_user_token, before.nft_user_token);
        assert_eq!(ins.user_redeem_wallet, before.user_redeem_wallet);
    }
}

#[test]
fn padded_symbol_is_accepted() {
    let (mut reg, init) = foo_pool();
    let auth = authority(&init);
    let mut ins = deposit_ctx(&init, b"FOO\0\0\0\0\0\0\0", vec![creator(), user()]);
    assert_eq!(vault_insert(&mut reg.pools[init.index], &mut ins, &auth), Ok(()));
    assert_eq!(reg.pools[init.index].pool.nft_count, 1);
}

#[test]
fn second_withdraw_fails_account_not_found() {
    let (mut reg, init) = foo_pool();
    let auth = authority(&init);
    let mut ins = deposit_ctx(&init, b"FOO", vec![creator()]);
    assert_eq!(vault_insert(&mut reg.pools[init.index], &mut ins, &auth), Ok(()));
    let mut wd = withdraw_ctx(&ins);
    assert_eq!(vault_withdraw(&mut reg.pools[init.index], &mut wd, &auth), Ok(()));
    let mut again = withdraw_ctx(&ins);
    assert_eq!(
        vault_withdraw(&mut reg.pools[init.index], &mut again, &auth),
        Err(MyError::AccountNotFound)
    );
    assert_eq!(reg.pools[init.index].pool.nft_count, 0);
    assert_eq!(again.user_redeem_wallet.amount, 1);
}

#[test]
fn wrong_seed_tuple_cannot_mint() {
    let (mut reg, init) = foo_pool();
    let bad = vec![
        Authority { col_symbol: b"FOO".to_vec(), col_creator: creator(), collection_bump: init.collection_bump.wrapping_sub(1) },
        Authority { col_symbol: b"FOP".to_vec(), col_creator: creator(), collection_bump: init.collection_bump },
        Authority { col_symbol: b"FOO".to_vec(), col_creator: user(), collection_bump: init.collection_bump },
    ];
    for auth in bad {
        let mut ins = deposit_ctx(&init, b"FOO", vec![creator()]);
        assert_eq!(
            vault_insert(&mut reg.pools[init.index], &mut ins, &auth),
            Err(MyError::AuthorityMismatch)
        );
        assert_eq!(reg.pools[init.index].redeem_supply, 0);
        assert_eq!(ins.user_redeem_wallet.amount, 0);
    }
}

#[test]
fn wrong_seed_tuple_cannot_release() {
    let (mut reg, init) = foo_pool();
    let auth = authority(&init);
    let mut ins = deposit_ctx(&init, b"FOO", vec![creator()]);
    assert_eq!(vault_insert(&mut reg.pools[init.index], &mut ins, &auth), Ok(()));
    let bad = Authority { col_symbol: b"FOO".to_vec(), col_creator: creator(), collection_bump: init.collection_bump.wrapping_sub(1) };
    let mut wd = withdraw_ctx(&ins);
    assert_eq!(vault_withdraw(&mut reg.pools[init.index], &mut wd, &bad), Err(MyError::AuthorityMismatch));
    assert_eq!(reg.pools[init.index].pool.nft_count, 1);
}

#[test]
fn seed_tuple_check_matches_derived_address() {
    let (_reg, init) = foo_pool();
    let auth = authority(&init);
    assert_eq!(auth.check(&program(), &init.collection_pool), Ok(()));
    assert_eq!(auth.check(&program(), &init.redeem_mint), Err(MyError::AuthorityMismatch));
    assert_eq!(auth.check(&Address::new([8u8; 32]), &init.collection_pool), Err(MyError::AuthorityMismatch));
}

#[test]
fn derived_addresses_are_fresh_and_deterministic() {
    let (_reg, init) = foo_pool();
    assert_ne!(init.collection_pool, program());
    assert_ne!(init.collection_pool, creator());
    assert_ne!(init.redeem_mint, init.collection_pool);
    let (_reg2, again) = foo_pool();
    assert_eq!(again.collection_pool, init.collection_pool);
    assert_eq!(again.collection_bump, init.collection_bump);
    assert_eq!(again.redeem_mint, init.redeem_mint);
}

#[test]
fn second_initialize_is_rejected() {
    let (mut reg, _init) = foo_pool();
    assert_eq!(
        initialize_pool(&mut reg, creator(), b"FOO".to_vec()).map(|i| i.index),
        Err(MyError::AlreadyInitialized)
    );
    assert_eq!(reg.pools.len(), 1);
    let other = initialize_pool(&mut reg, creator(), b"BAR".to_vec()).unwrap();
    assert_eq!(other.index, 1);
    assert_ne!(other.collection_pool, reg.pools[0].address);
}

#[test]
fn overlong_symbol_derives_nothing() {
    let mut reg = PoolRegistry::new(program());
    let symbol = vec![b'A'; 33];
    assert_eq!(initialize_pool(&mut reg, creator(), symbol).map(|i| i.index), Err(MyError::InvalidSeeds));
    assert_eq!(reg.pools.len(), 0);
    assert!(initialize_pool(&mut reg, creator(), vec![b'A'; 32]).is_ok());
}

#[test]
fn depositor_without_asset_is_rejected() {
    let (mut reg, init) = foo_pool();
    let auth = authority(&init);
    let mut ins = deposit_ctx(&init, b"FOO", vec![creator()]);
    ins.nft_user_token.amount = 0;
    assert_eq!(vault_insert(&mut reg.pools[init.index], &mut ins, &auth), Err(MyError::UserLacksNFT));
    assert_eq!(reg.pools[init.index].pool.nft_count, 0);
}

#[test]
fn asset_already_in_custody_is_rejected() {
    let (mut reg, init) = foo_pool();
    let auth = authority(&init);
    let mut ins = deposit_ctx(&init, b"FOO", vec![creator()]);
    ins.nft_user_token.amount = 2;
    assert_eq!(vault_insert(&mut reg.pools[init.index], &mut ins, &auth), Ok(()));
    assert_eq!(vault_insert(&mut reg.pools[init.index], &mut ins, &auth), Err(MyError::AlreadyInitialized));
    assert_eq!(reg.pools[init.index].pool.nft_count, 1);
}

#[test]
fn redeem_wallet_of_another_mint_is_rejected() {
    let (mut reg, init) = foo_pool();
    let auth = authority(&init);
    let mut ins = deposit_ctx(&init, b"FOO", vec![creator()]);
    ins.user_redeem_wallet.mint = asset();
    assert_eq!(vault_insert(&mut reg.pools[init.index], &mut ins, &auth), Err(MyError::AccountNotFound));
}

#[test]
fn full_redeem_wallet_overflows() {
    let (mut reg, init) = foo_pool();
    let auth = authority(&init);
    let mut ins = deposit_ctx(&init, b"FOO", vec![creator()]);
    ins.user_redeem_wallet.amount = u64::MAX;
    assert_eq!(vault_insert(&mut reg.pools[init.index], &mut ins, &auth), Err(MyError::Overflow));
}

#[test]
fn redeemer_without_redeem_token_is_rejected() {
    let (mut reg, init) = foo_pool();
    let auth = authority(&init);
    let mut ins = deposit_ctx(&init, b"FOO", vec![creator()]);
    assert_eq!(vault_insert(&mut reg.pools[init.index], &mut ins, &auth), Ok(()));
    let mut wd = withdraw_ctx(&ins);
    wd.user_redeem_wallet.amount = 0;
    assert_eq!(vault_withdraw(&mut reg.pools[init.index], &mut wd, &auth), Err(MyError::InsufficientRedeemBalance));
    let mut wd = withdraw_ctx(&ins);
    wd.nft_user_token.mint = user();
    assert_eq!(vault_withdraw(&mut reg.pools[init.index], &mut wd, &auth), Err(MyError::AccountNotFound));
    let mut wd = withdraw_ctx(&ins);
    wd.nft_user_token.amount = u64::MAX;
    assert_eq!(vault_withdraw(&mut reg.pools[init.index], &mut wd, &auth), Err(MyError::Overflow));
    assert_eq!(reg.pools[init.index].pool.nft_count, 1);
}

#[test]
fn trailing_nul_padding_is_trimmed() {
    assert_eq!(trimmed_len(&b"FOO\0\0".to_vec()), 3);
    assert_eq!(trimmed_len(&b"\0F\0O".to_vec()), 4);
    assert_eq!(trimmed_len(&b"\0\0".to_vec()), 0);
    assert_eq!(trimmed_len(&Vec::new()), 0);
}

#[test]
fn membership_needs_first_creator() {
    let sym = b"FOO".to_vec();
    let meta = TokenMetadata { symbol: b"FOO\0".to_vec(), creators: vec![user(), creator()] };
    assert!(!validate_membership(&meta, &creator(), &sym));
    let meta = TokenMetadata { symbol: b"FOO\0".to_vec(), creators: vec![creator(), user()] };
    assert!(validate_membership(&meta, &creator(), &sym));
    let meta = TokenMetadata { symbol: b"FO".to_vec(), creators: vec![creator()] };
    assert!(!validate_membership(&meta, &creator(), &sym));
}

#[test]
fn deposit_then_withdraw_restores_prior_state() {
    let (mut reg, init) = foo_pool();
    let auth = authority(&init);
    let mut first = deposit_ctx(&init, b"FOO", vec![creator()]);
    first.nft_user_token.mint = Address::new([4u8; 32]);
    assert_eq!(vault_insert(&mut reg.pools[init.index], &mut first, &auth), Ok(()));
    let vaults_before = reg.pools[init.index].vaults.clone();

    let mut ins = deposit_ctx(&init, b"FOO", vec![creator()]);
    ins.user_redeem_wallet.amount = 3;
    let before = ins.clone();
    assert_eq!(vault_insert(&mut reg.pools[init.index], &mut ins, &auth), Ok(()));
    assert_eq!(reg.pools[init.index].pool.nft_count, 2);
    assert_eq!(reg.pools[init.index].redeem_supply, 2);
    let mut wd = withdraw_ctx(&ins);
    assert_eq!(vault_withdraw(&mut reg.pools[init.index], &mut wd, &auth), Ok(()));
    let pool = &reg.pools[init.index];
    assert_eq!(pool.pool.nft_count, 1);
    assert_eq!(pool.redeem_supply, 1);
    assert_eq!(pool.vaults, vaults_before);
    assert_eq!(wd.nft_user_token, before.nft_user_token);
    assert_eq!(wd.user_redeem_wallet, before.user_redeem_wallet);
    assert!(pool.check_wf());
}

#[test]
fn pool_invariant_check() {
    let (mut reg, init) = foo_pool();
    assert!(reg.pools[init.index].check_wf());
    let auth = authority(&init);
    let mut ins = deposit_ctx(&init, b"FOO", vec![creator()]);
    assert_eq!(vault_insert(&mut reg.pools[init.index], &mut ins, &auth), Ok(()));
    assert!(reg.pools[init.index].check_wf());

    let pool = &mut reg.pools[init.index];
    pool.redeem_supply = 2;
    assert!(!pool.check_wf());
    pool.redeem_supply = 1;
    let dup = pool.vaults[0];
    pool.vaults.push(dup);
    pool.pool.nft_count = 2;
    pool.redeem_supply = 2;
    assert!(!pool.check_wf());
    pool.vaults.pop();
    pool.pool.nft_count = 1;
    pool.redeem_supply = 1;
    pool.vaults[0].custody.owner = user();
    assert!(!pool.check_wf());
    pool.vaults[0].custody.owner = init.collection_pool;
    pool.mint_authority = user();
    assert!(!pool.check_wf());
    pool.mint_authority = init.collection_pool;
    pool.freeze_authority = user();
    assert!(!pool.check_wf());
    pool.freeze_authority = init.collection_pool;
    assert!(pool.check_wf());
    pool.bump = pool.bump.wrapping_sub(1);
    assert!(!pool.check_wf());
}
