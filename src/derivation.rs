//! Deterministic derivation of program-owned addresses from seeds, and the
//! check that a supplied address is the derived one.
use crate::address::Address;
use vstd::prelude::*;
use vstd::string::StringSliceAdditionalSpecFns;
use vstd::string::StrSliceExecFns;

verus! {

/// The address that the program-address search yields for `seeds` under
/// `program_id` (`None` when no bump seed gives an off-curve address).
pub uninterp spec fn program_address(seeds: Seq<Seq<u8>>, program_id: Seq<u8>) -> Option<Seq<u8>>;

/// Relies on `solana_program::pubkey::Pubkey::try_find_program_address`: it
/// searches bump seeds from 255 downwards and returns the first program
/// address, which depends on the seeds and the program id alone.
#[verifier::external_body]
fn try_find_program_address(seeds: &Vec<Vec<u8>>, program_id: &Address) -> (r: Option<Address>)
    ensures
        r matches Some(a) ==> program_address(seeds.deep_view(), program_id.key()) == Some(a.key()),
        r is None ==> program_address(seeds.deep_view(), program_id.key()) is None,
{
    let slices: Vec<&[u8]> = seeds.iter().map(|s| s.as_slice()).collect();
    let program = solana_program::pubkey::Pubkey::new_from_array(program_id.bytes);
    solana_program::pubkey::Pubkey::try_find_program_address(&slices, &program).map(
        |(key, _bump)| Address::new(key.to_bytes()),
    )
}

/// The address derived from `seeds` under `program_id`, if there is one.
pub fn derive_address(seeds: &Vec<Vec<u8>>, program_id: &Address) -> (r: Option<Address>)
    ensures
        r matches Some(a) ==> program_address(seeds.deep_view(), program_id.key()) == Some(a.key()),
        r is None ==> program_address(seeds.deep_view(), program_id.key()) is None,
{
    try_find_program_address(seeds, program_id)
}

/// Whether `supplied` is the address derived from `seeds` under `program_id`.
pub open spec fn is_derived(seeds: Seq<Seq<u8>>, program_id: Seq<u8>, supplied: Seq<u8>) -> bool {
    program_address(seeds, program_id) == Some(supplied)
}

/// Whether the outcome of a derivation is the address `supplied`.
pub fn derivation_matches(derived: &Option<Address>, supplied: &Address) -> (r: bool)
    ensures
        r == (derived matches Some(d) && d.key() == supplied.key()),
{
    match derived {
        Some(d) => d.same(supplied),
        None => false,
    }
}

/// Checks that `supplied` is the address derived from `seeds` under `program_id`.
pub fn verify_derivation(seeds: &Vec<Vec<u8>>, program_id: &Address, supplied: &Address) -> (r: bool)
    ensures
        r == is_derived(seeds.deep_view(), program_id.key(), supplied.key()),
{
    let derived = try_find_program_address(seeds, program_id);
    derivation_matches(&derived, supplied)
}

/// A seed list made of one fixed label.
pub fn label_seeds(label: &str) -> (r: Vec<Vec<u8>>)
    ensures
        r.deep_view() == seq![label.spec_bytes()],
{
    let mut seeds: Vec<Vec<u8>> = Vec::new();
    seeds.push(label.as_bytes_vec());
    proof {
        assert(seeds.deep_view()[0] =~= label.spec_bytes());
        assert(seeds.deep_view() =~= seq![label.spec_bytes()]);
    }
    seeds
}

/// A seed list made of a fixed label followed by an address.
pub fn labelled_address_seeds(label: &str, address: &Address) -> (r: Vec<Vec<u8>>)
    ensures
        r.deep_view() == seq![label.spec_bytes(), address.key()],
{
    let mut seeds: Vec<Vec<u8>> = Vec::new();
    seeds.push(label.as_bytes_vec());
    seeds.push(address_bytes(address));
    proof {
        assert(seeds.deep_view()[0] =~= label.spec_bytes());
        assert(seeds.deep_view()[1] =~= address.key());
        assert(seeds.deep_view() =~= seq![label.spec_bytes(), address.key()]);
    }
    seeds
}

/// The bytes of an address as a vector.
pub fn address_bytes(address: &Address) -> (r: Vec<u8>)
    ensures
        r@ == address.key(),
{
    let mut out: Vec<u8> = Vec::new();
    let mut i: usize = 0;
    while i < 32
        invariant
            0 <= i <= 32,
            out@ == address.key().subrange(0, i as int),
        decreases 32 - i,
    {
        out.push(address.bytes[i]);
        i = i + 1;
        assert(out@ =~= address.key().subrange(0, i as int));
    }
    assert(out@ =~= address.key());
    out
}

/// The address of a single-label program account (the config record, or a
/// custody signer), if the search finds one.
pub fn labelled_key(label: &str, program_id: &Address) -> (r: Option<Address>)
    ensures
        r matches Some(a) ==> program_address(seq![label.spec_bytes()], program_id.key()) == Some(a.key()),
        r is None ==> program_address(seq![label.spec_bytes()], program_id.key()) is None,
{
    derive_address(&label_seeds(label), program_id)
}

/// Whether `supplied` is the single-label program account for `label`.
pub fn verify_labelled(label: &str, program_id: &Address, supplied: &Address) -> (r: bool)
    ensures
        r == is_derived(seq![label.spec_bytes()], program_id.key(), supplied.key()),
{
    verify_derivation(&label_seeds(label), program_id, supplied)
}

} // verus!
