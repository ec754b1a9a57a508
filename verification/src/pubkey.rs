//! Account addresses and their deterministic derivation.

use vstd::prelude::*;
use vstd::string::StringSliceAdditionalSpecFns;

verus! {

/// The address of an account or a program: 32 bytes.
#[derive(Clone, Copy, Debug, Hash)]
pub struct Pubkey {
    pub bytes: [u8; 32],
}

impl View for Pubkey {
    type V = Seq<u8>;

    open spec fn view(&self) -> Seq<u8> {
        self.bytes@
    }
}

impl PartialEq for Pubkey {
    fn eq(&self, other: &Pubkey) -> (same: bool) {
        let mut i: usize = 0;
        while i < 32
            invariant
                i <= 32,
                forall|j: int| 0 <= j < i ==> self.bytes[j] == other.bytes[j],
            decreases 32 - i,
        {
            if self.bytes[i] != other.bytes[i] {
                return false;
            }
            i += 1;
        }
        proof {
            assert(self.bytes =~= other.bytes);
        }
        true
    }
}

impl Eq for Pubkey {

}

impl vstd::std_specs::cmp::PartialEqSpecImpl for Pubkey {
    open spec fn obeys_eq_spec() -> bool {
        true
    }

    open spec fn eq_spec(&self, other: &Pubkey) -> bool {
        *self == *other
    }
}

/// The address and bump seed that `Pubkey::try_find_program_address` of
/// `solana_program` derives from a list of seeds and a program address, or
/// `None` where it derives none.
pub uninterp spec fn program_address(seeds: Seq<Seq<u8>>, program_id: Seq<u8>) -> Option<
    (Seq<u8>, u8),
>;

/// A derived address and bump seed, by their views.
pub open spec fn derived_view(found: Option<(Pubkey, u8)>) -> Option<(Seq<u8>, u8)> {
    match found {
        Some((key, bump)) => Some((key@, bump)),
        None => None,
    }
}

/// The seeds of a derivation, each as a sequence of bytes.
pub open spec fn seeds_view(seeds: Seq<Vec<u8>>) -> Seq<Seq<u8>> {
    Seq::new(seeds.len(), |i: int| seeds[i]@)
}

/// Calls `solana_program::pubkey::Pubkey::try_find_program_address`. The
/// contract only names what it returns: the search for a bump seed hashes
/// the seeds, and depends on nothing but the seeds and the program address.
#[verifier::external_body]
pub(crate) fn try_find_program_address(seeds: &Vec<Vec<u8>>, program_id: &Pubkey) -> (found: Option<
    (Pubkey, u8),
>)
    ensures
        derived_view(found) == program_address(seeds_view(seeds@), program_id@),
{
    let parts: Vec<&[u8]> = seeds.iter().map(|seed| seed.as_slice()).collect();
    let program = solana_program::pubkey::Pubkey::new_from_array(program_id.bytes);
    match solana_program::pubkey::Pubkey::try_find_program_address(&parts, &program) {
        Some((key, bump)) => Some((Pubkey { bytes: key.to_bytes() }, bump)),
        None => None,
    }
}

/// The seed that a text stands for: its bytes.
pub fn tag_seed(tag: &str) -> (seed: Vec<u8>)
    ensures
        seed@ == tag.spec_bytes(),
{
    vstd::slice::slice_to_vec(tag.as_bytes())
}

/// Appends the bump seed to the seeds of a derivation: the list that signs
/// for the derived address.
pub fn with_bump(seeds: Vec<Vec<u8>>, bump: u8) -> (signing: Vec<Vec<u8>>)
    ensures
        seeds_view(signing@) == seeds_view(seeds@).push(seq![bump]),
{
    let ghost before = seeds_view(seeds@);
    let mut signing = seeds;
    let mut last: Vec<u8> = Vec::new();
    last.push(bump);
    signing.push(last);
    assert(seeds_view(signing@) =~= before.push(seq![bump]));
    signing
}

impl Pubkey {
    /// The null address, which stands for "no account": every byte zero.
    pub open spec fn null() -> Pubkey {
        Pubkey { bytes: vstd::array::spec_array_fill_for_copy_type::<u8, 32>(0u8) }
    }

    /// The address made of the given bytes.
    pub fn new_from_array(bytes: [u8; 32]) -> (key: Self)
        ensures
            key.bytes == bytes,
    {
        Pubkey { bytes }
    }

    /// Two addresses with the same bytes are the same address.
    pub proof fn lemma_view_injective(a: Pubkey, b: Pubkey)
        ensures
            a@ == b@ <==> a == b,
    {
        if a@ == b@ {
            assert(a.bytes =~= b.bytes);
        }
    }

    /// The bytes of the address, as a seed of a derivation.
    pub fn to_vec(&self) -> (bytes: Vec<u8>)
        ensures
            bytes@ == self@,
    {
        let mut out: Vec<u8> = Vec::new();
        let mut i: usize = 0;
        while i < 32
            invariant
                i <= 32,
                out@ == self@.subrange(0, i as int),
            decreases 32 - i,
        {
            out.push(self.bytes[i]);
            i += 1;
        }
        out
    }
}

impl Default for Pubkey {
    /// The null address: every byte zero.
    fn default() -> (key: Self)
        ensures
            key == Pubkey::null(),
    {
        Pubkey { bytes: [0u8; 32] }
    }
}

} // verus!
