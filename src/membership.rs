use vstd::prelude::*;
use crate::address::Address;

verus! {

/// The creator attribution and symbol that a metadata record gives an asset.
/// Both come from the asset's owner and are not to be trusted.
#[derive(Clone, Debug)]
pub struct TokenMetadata {
    /// The collection symbol, possibly padded with trailing zero bytes.
    pub symbol: Vec<u8>,
    /// The creators' addresses, first creator first; possibly empty.
    pub creators: Vec<Address>,
}

/// `s` without its trailing zero bytes.
pub open spec fn trim_trailing_nul(s: Seq<u8>) -> Seq<u8>
    decreases s.len(),
{
    if s.len() > 0 && s.last() == 0 {
        trim_trailing_nul(s.drop_last())
    } else {
        s
    }
}

/// The asset belongs to the collection `(creator, symbol)`: its symbol, without
/// trailing zero bytes, is `symbol`, and its first creator is `creator`.
pub open spec fn is_member(meta: TokenMetadata, creator: Seq<u8>, symbol: Seq<u8>) -> bool {
    &&& trim_trailing_nul(meta.symbol@) == symbol
    &&& meta.creators@.len() > 0
    &&& meta.creators@[0]@ == creator
}

/// Length of `s` once its trailing zero bytes are removed.
pub fn trimmed_len(s: &Vec<u8>) -> (r: usize)
    ensures
        r <= s@.len(),
        trim_trailing_nul(s@) == s@.subrange(0, r as int),
{
    let mut end: usize = s.len();
    proof {
        assert(s@.subrange(0, end as int) =~= s@);
    }
    while end > 0 && s[end - 1] == 0
        invariant
            end <= s@.len(),
            trim_trailing_nul(s@) == trim_trailing_nul(s@.subrange(0, end as int)),
        decreases end,
    {
        proof {
            assert(s@.subrange(0, end as int).drop_last() =~= s@.subrange(0, end - 1));
        }
        end = end - 1;
    }
    end
}

/// Checks that `meta` names the collection `(creator, symbol)`.
pub fn validate_membership(meta: &TokenMetadata, creator: &Address, symbol: &Vec<u8>) -> (r: bool)
    ensures
        r == is_member(*meta, creator@, symbol@),
{
    if meta.creators.len() == 0 {
        return false;
    }
    if !meta.creators[0].same(creator) {
        return false;
    }
    let n = trimmed_len(&meta.symbol);
    if n != symbol.len() {
        proof {
            assert(trim_trailing_nul(meta.symbol@).len() == n);
        }
        return false;
    }
    let mut i: usize = 0;
    while i < n
        invariant
            n <= meta.symbol@.len(),
            n == symbol@.len(),
            trim_trailing_nul(meta.symbol@) == meta.symbol@.subrange(0, n as int),
            i <= n,
            forall|j: int| 0 <= j < i ==> meta.symbol@[j] == symbol@[j],
        decreases n - i,
    {
        if meta.symbol[i] != symbol[i] {
            proof {
                assert(trim_trailing_nul(meta.symbol@)[i as int] != symbol@[i as int]);
            }
            return false;
        }
        i = i + 1;
    }
    proof {
        assert(meta.symbol@.subrange(0, n as int) =~= symbol@);
    }
    true
}

} // verus!
