use vstd::prelude::*;

use crate::errors::GumError;
use anchor_lang::solana_program::pubkey::Pubkey;

verus! {

broadcast use vstd::array::group_array_axioms;

/// The fixed 32-byte identifier of this record-management core. Every
/// derivation is scoped to it, so addresses derived here can never collide
/// with addresses derived by another core.
pub open spec fn program_id_spec() -> Seq<u8> {
    Seq::new(32, |_i: int| 71u8)
}

/// The ASCII tag that scopes user-record derivations.
pub open spec fn user_tag_spec() -> Seq<u8> {
    seq![117u8, 115u8, 101u8, 114u8]
}

/// The ASCII tag that scopes profile-record derivations.
pub open spec fn profile_tag_spec() -> Seq<u8> {
    seq![112u8, 114u8, 111u8, 102u8, 105u8, 108u8, 101u8]
}

/// The address and index that the derivation scheme assigns to a seed list
/// under a program identifier, or `None` where the bounded index search finds
/// no valid address. The scheme is a collision-resistant hash; its value on
/// given seeds is not stated here, only that it is a function of the seeds
/// and the program identifier alone.
pub uninterp spec fn pda_of(program_id: Seq<u8>, seeds: Seq<Seq<u8>>) -> Option<(Seq<u8>, u8)>;

/// Relies on `Pubkey::try_find_program_address` (anchor_lang's re-export of
/// solana-pubkey): a sha-256 based search over derivation indices whose
/// outcome depends on the seed bytes and the program id alone, `None` when
/// the seed list is over the scheme's bounds or no index yields a valid
/// address.
#[verifier::external_body]
fn try_find_pda(seeds: &Vec<Vec<u8>>, program_id: &[u8; 32]) -> (r: Option<([u8; 32], u8)>)
    ensures
        match r {
            Some(p) => pda_of(program_id@, seeds.deep_view()) == Some((p.0@, p.1)),
            None => pda_of(program_id@, seeds.deep_view()) is None,
        },
{
    let refs: Vec<&[u8]> = seeds.iter().map(|s| s.as_slice()).collect();
    let pid = Pubkey::new_from_array(*program_id);
    Pubkey::try_find_program_address(&refs, &pid).map(|(pk, bump)| (pk.to_bytes(), bump))
}

/// The derivation of this core: tag and components hashed under the core's
/// own program identifier.
pub open spec fn derive_spec(tag: Seq<u8>, components: Seq<Seq<u8>>) -> Option<(Seq<u8>, u8)> {
    pda_of(program_id_spec(), seq![tag] + components)
}

pub fn program_id() -> (r: [u8; 32])
    ensures
        r@ == program_id_spec(),
{
    let r: [u8; 32] = [71u8; 32];
    proof {
        assert(r@ =~= program_id_spec());
    }
    r
}

pub fn user_tag() -> (r: Vec<u8>)
    ensures
        r@ == user_tag_spec(),
{
    let mut v: Vec<u8> = Vec::new();
    v.push(117u8);
    v.push(115u8);
    v.push(101u8);
    v.push(114u8);
    proof {
        assert(v@ =~= user_tag_spec());
    }
    v
}

pub fn profile_tag() -> (r: Vec<u8>)
    ensures
        r@ == profile_tag_spec(),
{
    let mut v: Vec<u8> = Vec::new();
    v.push(112u8);
    v.push(114u8);
    v.push(111u8);
    v.push(102u8);
    v.push(105u8);
    v.push(108u8);
    v.push(101u8);
    proof {
        assert(v@ =~= profile_tag_spec());
    }
    v
}

/// Copy a 32-byte address into an owned byte vector.
pub fn addr_to_vec(a: &[u8; 32]) -> (r: Vec<u8>)
    ensures
        r@ == a@,
{
    let mut v: Vec<u8> = Vec::new();
    let mut i: usize = 0;
    while i < 32
        invariant
            i <= 32,
            v@ == a@.subrange(0, i as int),
        decreases 32 - i,
    {
        v.push(a[i]);
        proof {
            assert(v@ =~= a@.subrange(0, i + 1 as int));
        }
        i = i + 1;
    }
    proof {
        assert(v@ =~= a@);
    }
    v
}

/// Byte-for-byte equality of two 32-byte addresses.
pub fn addr_eq(a: &[u8; 32], b: &[u8; 32]) -> (r: bool)
    ensures
        r == (a@ == b@),
{
    let mut i: usize = 0;
    while i < 32
        invariant
            i <= 32,
            forall|j: int| 0 <= j < i ==> a@[j] == b@[j],
        decreases 32 - i,
    {
        if a[i] != b[i] {
            return false;
        }
        i = i + 1;
    }
    proof {
        assert(a@ =~= b@);
    }
    true
}

/// Byte-for-byte equality of two byte vectors.
pub fn bytes_eq(a: &Vec<u8>, b: &Vec<u8>) -> (r: bool)
    ensures
        r == (a@ == b@),
{
    if a.len() != b.len() {
        return false;
    }
    let mut i: usize = 0;
    while i < a.len()
        invariant
            i <= a.len(),
            a.len() == b.len(),
            forall|j: int| 0 <= j < i ==> a@[j] == b@[j],
        decreases a.len() - i,
    {
        if a[i] != b[i] {
            return false;
        }
        i = i + 1;
    }
    proof {
        assert(a@ =~= b@);
    }
    true
}

/// Copy a byte vector.
pub fn bytes_clone(a: &Vec<u8>) -> (r: Vec<u8>)
    ensures
        r@ == a@,
{
    let mut v: Vec<u8> = Vec::new();
    let mut i: usize = 0;
    while i < a.len()
        invariant
            i <= a.len(),
            v@ == a@.subrange(0, i as int),
        decreases a.len() - i,
    {
        v.push(a[i]);
        proof {
            assert(v@ =~= a@.subrange(0, i + 1 as int));
        }
        i = i + 1;
    }
    proof {
        assert(v@ =~= a@);
    }
    v
}

/// Determinism: two derivations from identical tags and identical component
/// lists yield the identical outcome, address and index alike.
pub proof fn lemma_derive_deterministic(
    tag1: Seq<u8>,
    components1: Seq<Seq<u8>>,
    tag2: Seq<u8>,
    components2: Seq<Seq<u8>>,
)
    requires
        tag1 == tag2,
        components1 == components2,
    ensures
        derive_spec(tag1, components1) == derive_spec(tag2, components2),
{
}

/// The deep view of a byte vector is its view.
proof fn lemma_bytes_deep_view(v: Vec<u8>)
    ensures
        v.deep_view() == v@,
{
    assert(v.deep_view() =~= v@);
}

/// Derive the canonical address and derivation index for a record kind
/// (named by `tag`) from its ordered seed components. The result is a pure
/// function of the inputs: any party holding the same tag and components
/// recomputes the same address and index, with no directory lookup.
pub fn derive(tag: &Vec<u8>, components: &Vec<Vec<u8>>) -> (r: Result<([u8; 32], u8), GumError>)
    ensures
        match derive_spec(tag@, components.deep_view()) {
            Some(p) => r matches Ok(q) && q.0@ == p.0 && q.1 == p.1,
            None => r == Err::<([u8; 32], u8), GumError>(GumError::DerivationExhausted),
        },
{
    let mut seeds: Vec<Vec<u8>> = Vec::new();
    seeds.push(bytes_clone(tag));
    let mut i: usize = 0;
    while i < components.len()
        invariant
            i <= components.len(),
            seeds@.len() == 1 + i,
            seeds@[0]@ == tag@,
            forall|j: int| 0 <= j < i ==> #[trigger] seeds@[j + 1]@ == components@[j]@,
        decreases components.len() - i,
    {
        seeds.push(bytes_clone(&components[i]));
        i = i + 1;
    }
    proof {
        assert forall|j: int| 0 <= j < seeds@.len() implies seeds.deep_view()[j] == (seq![tag@]
            + components.deep_view())[j] by {
            lemma_bytes_deep_view(seeds@[j]);
            if j > 0 {
                lemma_bytes_deep_view(components@[j - 1]);
                assert(seeds@[(j - 1) + 1]@ == components@[j - 1]@);
            }
        }
        assert(seeds.deep_view() =~= seq![tag@] + components.deep_view());
    }
    let pid = program_id();
    match try_find_pda(&seeds, &pid) {
        Some(p) => Ok(p),
        None => Err(GumError::DerivationExhausted),
    }
}

} // verus!
