use vstd::prelude::*;

use anchor_lang::prelude::Pubkey as SolanaPubkey;

verus! {

/// The 32-byte address of an account.
#[derive(Clone, Copy, Debug, PartialEq, Eq)]
pub struct Pubkey {
    pub bytes: [u8; 32],
}

impl View for Pubkey {
    type V = Seq<u8>;

    open spec fn view(&self) -> Seq<u8> {
        self.bytes@
    }
}

impl Pubkey {
    pub fn new(bytes: [u8; 32]) -> (k: Pubkey)
        ensures
            k.bytes == bytes,
    {
        Pubkey { bytes }
    }

    /// Two keys are the same key when their bytes agree.
    pub fn same_key(&self, other: &Pubkey) -> (r: bool)
        ensures
            r == (self@ == other@),
    {
        let mut i: usize = 0;
        while i < 32
            invariant
                i <= 32,
                self@.len() == 32,
                other@.len() == 32,
                forall|j: int| 0 <= j < i ==> self@[j] == other@[j],
            decreases 32 - i,
        {
            if self.bytes[i] != other.bytes[i] {
                return false;
            }
            i += 1;
        }
        assert(self@ =~= other@);
        true
    }
}

/// The program address derived from the seeds `seeds` under the program `program_id`,
/// with the bump seed that derives it; `None` when no bump seed derives an address.
pub uninterp spec fn program_address(seeds: Seq<Seq<u8>>, program_id: Seq<u8>) -> Option<(Seq<u8>, u8)>;

/// Calls `Pubkey::try_find_program_address` of `solana_program` (as re-exported by
/// `anchor_lang`). The function searches the bump seeds from 255 down for one whose hash
/// with the seeds is off the curve and returns that address and bump seed, or `None`
/// (also when there are too many seeds or a seed is too long); it does not panic, and its
/// result depends on its arguments alone and is only named here.
#[verifier::external_body]
pub(crate) fn try_find_program_address(seeds: &Vec<Vec<u8>>, program_id: &Pubkey) -> (r: Option<(Pubkey, u8)>)
    ensures
        r is Some <==> program_address(seeds.deep_view(), program_id@) is Some,
        r is Some ==> program_address(seeds.deep_view(), program_id@) == Some((r.unwrap().0@, r.unwrap().1)),
{
    let program = SolanaPubkey::new_from_array(program_id.bytes);
    let seeds: Vec<&[u8]> = seeds.iter().map(|seed| seed.as_slice()).collect();
    SolanaPubkey::try_find_program_address(&seeds, &program)
        .map(|(address, bump)| (Pubkey { bytes: address.to_bytes() }, bump))
}

} // verus!
