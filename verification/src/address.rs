//! Account addresses and program-derived addresses.

use vstd::prelude::*;

verus! {

/// A 32-byte account address, the key under which the host chain stores every
/// account, program and token mint.
#[derive(Clone, Copy, Debug)]
pub struct Address {
    pub bytes: [u8; 32],
}

impl View for Address {
    type V = Seq<u8>;

    open spec fn view(&self) -> Seq<u8> {
        self.bytes@
    }
}

impl Address {
    pub fn new(bytes: [u8; 32]) -> (r: Address)
        ensures
            r@ == bytes@,
    {
        Address { bytes }
    }

    /// Byte-for-byte equality of two addresses.
    pub fn same(&self, other: &Address) -> (r: bool)
        ensures
            r == (self@ == other@),
    {
        let mut i: usize = 0;
        while i < 32
            invariant
                i <= 32,
                forall|j: int| 0 <= j < i ==> self.bytes@[j] == other.bytes@[j],
            decreases 32 - i,
        {
            if self.bytes[i] != other.bytes[i] {
                return false;
            }
            i += 1;
        }
        proof {
            assert(self.bytes@ =~= other.bytes@);
        }
        true
    }

    /// The address's bytes as a fresh vector.
    pub fn to_vec(&self) -> (r: Vec<u8>)
        ensures
            r@ == self@,
    {
        let mut v: Vec<u8> = Vec::new();
        let mut i: usize = 0;
        while i < 32
            invariant
                i <= 32,
                v@ == self.bytes@.subrange(0, i as int),
            decreases 32 - i,
        {
            v.push(self.bytes[i]);
            i += 1;
        }
        proof {
            assert(v@ =~= self@);
        }
        v
    }
}

/// What `Pubkey::try_find_program_address` derives from a list of seeds and a
/// program id: the program-derived address with the highest workable bump
/// seed, if any bump works at all.  The derivation is a chain of SHA-256
/// digests and off-curve tests, a pure function of its arguments that would
/// take pages to state, so it is only named here.
pub uninterp spec fn derived_address(seeds: Seq<Seq<u8>>, program_id: Seq<u8>) -> Option<
    (Seq<u8>, u8),
>;

/// Relies on `anchor_lang`'s re-exported `Pubkey::try_find_program_address`:
/// the result depends on the seeds and the program id alone, and `None` comes
/// back exactly when no bump seed yields an off-curve address (or the seeds
/// break the derivation's own limits).
#[verifier::external_body]
pub(crate) fn find_program_address(seeds: &Vec<Vec<u8>>, program_id: &Address) -> (r: Option<
    (Address, u8),
>)
    ensures
        match r {
            Some(p) => derived_address(seeds.deep_view(), program_id@) == Some((p.0@, p.1)),
            None => derived_address(seeds.deep_view(), program_id@) is None,
        },
{
    let pid = anchor_lang::solana_program::pubkey::Pubkey::new_from_array(program_id.bytes);
    let refs: Vec<&[u8]> = seeds.iter().map(|s| s.as_slice()).collect();
    let derived = anchor_lang::solana_program::pubkey::Pubkey::try_find_program_address(
        &refs,
        &pid,
    );
    derived.map(|(pk, bump)| (Address { bytes: pk.to_bytes() }, bump))
}

} // verus!
