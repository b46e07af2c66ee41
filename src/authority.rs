use vstd::prelude::*;
use crate::address::Address;
use crate::error::MyError;
use solana_program::pubkey::Pubkey;

verus! {

/// The address that `Pubkey::create_program_address` derives from a seed list
/// and a program id, or `None` where the seeds derive no valid program address.
pub uninterp spec fn program_address_of(seeds: Seq<Seq<u8>>, program: Seq<u8>) -> Option<Seq<u8>>;

/// The address and bump seed that `Pubkey::try_find_program_address` finds
/// for a seed list and a program id, or `None` where it finds none.
pub uninterp spec fn found_address_of(seeds: Seq<Seq<u8>>, program: Seq<u8>) -> Option<(Seq<u8>, u8)>;

/// The views of a list of seeds.
pub open spec fn seeds_view(seeds: Seq<Vec<u8>>) -> Seq<Seq<u8>> {
    seeds.map_values(|s: Vec<u8>| s@)
}

/// Relies on solana_program's `Pubkey::create_program_address`: the derived
/// address is a function of the seeds and the program id; more than 16 seeds,
/// or a seed longer than 32 bytes, derive nothing.
#[verifier::external_body]
fn create_program_address(seeds: &Vec<Vec<u8>>, program: &Address) -> (r: Option<Address>)
    ensures
        r matches Some(a) ==> program_address_of(seeds_view(seeds@), program@) == Some(a@),
        r is None ==> program_address_of(seeds_view(seeds@), program@) is None,
        seeds@.len() > 16 ==> r is None,
        (exists|i: int| 0 <= i < seeds@.len() && seeds@[i]@.len() > 32) ==> r is None,
{
    let refs: std::vec::Vec<&[u8]> = seeds.iter().map(|s| s.as_slice()).collect();
    let id = Pubkey::new_from_array(program.bytes);
    Pubkey::create_program_address(&refs, &id).ok().map(|p| Address { bytes: p.to_bytes() })
}

/// Relies on solana_program's `Pubkey::try_find_program_address`: its result
/// is a function of the seeds and the program id, and where it finds an
/// address, that address is what the seeds followed by the one-byte bump seed
/// derive.
#[verifier::external_body]
pub(crate) fn try_find_program_address(seeds: &Vec<Vec<u8>>, program: &Address) -> (r: Option<(Address, u8)>)
    ensures
        r matches Some(found) ==> program_address_of(
            seeds_view(seeds@).push(seq![found.1]),
            program@,
        ) == Some(found.0@),
        r matches Some(found) ==> found_address_of(seeds_view(seeds@), program@) == Some(
            (found.0@, found.1),
        ),
        r is None ==> found_address_of(seeds_view(seeds@), program@) is None,
        (exists|i: int| 0 <= i < seeds@.len() && seeds@[i]@.len() > 32) ==> r is None,
{
    let refs: std::vec::Vec<&[u8]> = seeds.iter().map(|s| s.as_slice()).collect();
    let id = Pubkey::new_from_array(program.bytes);
    Pubkey::try_find_program_address(&refs, &id).map(|(p, b)| (Address { bytes: p.to_bytes() }, b))
}

/// The domain tag of a pool's seeds: the bytes of "collection_pool".
pub open spec fn pool_tag() -> Seq<u8> {
    seq![99u8, 111, 108, 108, 101, 99, 116, 105, 111, 110, 95, 112, 111, 111, 108]
}

/// The domain tag of a redeem mint's seeds: the bytes of "redeem_mint".
pub open spec fn redeem_mint_tag() -> Seq<u8> {
    seq![114u8, 101, 100, 101, 101, 109, 95, 109, 105, 110, 116]
}

/// The seeds, without the bump, from which a collection's pool address is derived.
pub open spec fn pool_seeds(symbol: Seq<u8>, creator: Seq<u8>) -> Seq<Seq<u8>> {
    seq![pool_tag(), symbol, creator]
}

/// The pool address and bump found for the collection `(creator, symbol)` under `program`.
pub open spec fn pool_found(program: Seq<u8>, symbol: Seq<u8>, creator: Seq<u8>) -> Option<
    (Seq<u8>, u8),
> {
    found_address_of(pool_seeds(symbol, creator), program)
}

/// The redeem mint address and bump found for the pool at `pool` under `program`.
pub open spec fn mint_found(program: Seq<u8>, pool: Seq<u8>) -> Option<(Seq<u8>, u8)> {
    found_address_of(seq![redeem_mint_tag(), pool], program)
}

/// `target` is the address that the pool seed tuple `(symbol, creator, bump)`
/// derives under `program`.
pub open spec fn derives(
    program: Seq<u8>,
    symbol: Seq<u8>,
    creator: Seq<u8>,
    bump: u8,
    target: Seq<u8>,
) -> bool {
    program_address_of(pool_seeds(symbol, creator).push(seq![bump]), program) == Some(target)
}

/// The seed tuple that a pool presents in place of a signature.
#[derive(Clone, Debug)]
pub struct Authority {
    pub col_symbol: Vec<u8>,
    pub col_creator: Address,
    pub collection_bump: u8,
}

impl Authority {
    /// This seed tuple derives `target` under `program`.
    pub open spec fn signs_for(&self, program: Seq<u8>, target: Seq<u8>) -> bool {
        derives(program, self.col_symbol@, self.col_creator@, self.collection_bump, target)
    }

    /// Checks that this seed tuple derives `target`, the address it signs for.
    pub fn check(&self, program: &Address, target: &Address) -> (r: Result<(), MyError>)
        ensures
            r is Ok <==> self.signs_for(program@, target@),
            r is Err ==> r == Err::<(), MyError>(MyError::AuthorityMismatch),
    {
        if check_derivation(program, &self.col_symbol, &self.col_creator, self.collection_bump, target) {
            Ok(())
        } else {
            Err(MyError::AuthorityMismatch)
        }
    }
}

/// Checks that the pool seed tuple `(symbol, creator, bump)` derives `target` under `program`.
pub fn check_derivation(
    program: &Address,
    symbol: &Vec<u8>,
    creator: &Address,
    bump: u8,
    target: &Address,
) -> (r: bool)
    ensures
        r == derives(program@, symbol@, creator@, bump, target@),
{
    let mut seeds = pool_seed_list(symbol, creator);
    let ghost base = seeds@;
    let bump_seed: Vec<u8> = vec![bump];
    seeds.push(bump_seed);
    proof {
        assert(bump_seed@ =~= seq![bump]);
        assert(seeds@ == base.push(bump_seed));
        assert(seeds_view(seeds@) =~= seeds_view(base).push(bump_seed@));
        assert(seeds_view(seeds@) =~= pool_seeds(symbol@, creator@).push(seq![bump]));
    }
    match create_program_address(&seeds, program) {
        Some(a) => a.same(target),
        None => false,
    }
}

/// The pool seeds of the collection `(creator, symbol)`, without the bump.
pub fn pool_seed_list(symbol: &Vec<u8>, creator: &Address) -> (r: Vec<Vec<u8>>)
    ensures
        seeds_view(r@) == pool_seeds(symbol@, creator@),
{
    let tag: Vec<u8> = vec![99u8, 111, 108, 108, 101, 99, 116, 105, 111, 110, 95, 112, 111, 111, 108];
    let mut sym: Vec<u8> = Vec::new();
    let mut i: usize = 0;
    while i < symbol.len()
        invariant
            i <= symbol@.len(),
            sym@ == symbol@.subrange(0, i as int),
        decreases symbol@.len() - i,
    {
        sym.push(symbol[i]);
        i = i + 1;
        proof {
            assert(sym@ =~= symbol@.subrange(0, i as int));
        }
    }
    proof {
        assert(sym@ =~= symbol@);
    }
    let r = vec![tag, sym, creator.to_vec()];
    proof {
        assert(seeds_view(r@) =~= pool_seeds(symbol@, creator@));
    }
    r
}

/// The seeds, without the bump, from which the redeem mint of the pool at `pool` is derived.
pub fn redeem_mint_seed_list(pool: &Address) -> (r: Vec<Vec<u8>>)
    ensures
        seeds_view(r@) == seq![redeem_mint_tag(), pool@],
{
    let tag: Vec<u8> = vec![114u8, 101, 100, 101, 101, 109, 95, 109, 105, 110, 116];
    let r = vec![tag, pool.to_vec()];
    proof {
        assert(seeds_view(r@) =~= seq![redeem_mint_tag(), pool@]);
    }
    r
}

} // verus!
