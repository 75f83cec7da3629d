use vstd::prelude::*;

verus! {

/// A 32-byte account address.
#[derive(Clone, Copy, Debug, PartialEq, Eq)]
pub struct Pubkey(pub [u8; 32]);

impl View for Pubkey {
    type V = Seq<u8>;

    open spec fn view(&self) -> Seq<u8> {
        self.0@
    }
}

impl Pubkey {
    /// Byte-wise comparison of two addresses.
    pub fn same_as(&self, other: &Pubkey) -> (r: bool)
        ensures
            r == (self@ == other@),
    {
        let mut i: usize = 0;
        while i < 32
            invariant
                0 <= i <= 32,
                self@.len() == 32,
                other@.len() == 32,
                forall|j: int| 0 <= j < i ==> self@[j] == other@[j],
            decreases 32 - i,
        {
            if self.0[i] != other.0[i] {
                return false;
            }
            i = i + 1;
        }
        assert(self@ =~= other@);
        true
    }
}

/// Whether an optional address is present and equal to `key`.
pub open spec fn holds_key(opt: Option<Pubkey>, key: Pubkey) -> bool {
    match opt {
        Some(k) => k@ == key@,
        None => false,
    }
}

/// `Some(key) == opt`, compared by bytes.
pub fn option_holds_key(opt: &Option<Pubkey>, key: &Pubkey) -> (r: bool)
    ensures
        r == holds_key(*opt, *key),
{
    match opt {
        Some(k) => k.same_as(key),
        None => false,
    }
}

/// The program-derived address and bump seed that the runtime finds for `seeds` under
/// `program_id`, or `None` when no bump seed gives an address off the curve.
pub uninterp spec fn program_address(seeds: Seq<Seq<u8>>, program_id: Seq<u8>) -> Option<
    (Seq<u8>, u8),
>;

/// Calls `Pubkey::try_find_program_address` with three seeds. The contract names its
/// result `program_address(seeds, program_id)`; how the address is derived (a SHA-256 of
/// the seeds, a bump seed and the program id, kept only if off the ed25519 curve) is not
/// stated.
#[verifier::external_body]
pub(crate) fn try_find_program_address3(
    seed0: &[u8],
    seed1: &[u8],
    seed2: &[u8],
    program_id: &Pubkey,
) -> (r: Option<(Pubkey, u8)>)
    ensures
        match r {
            Some((address, bump)) => program_address(seq![seed0@, seed1@, seed2@], program_id@)
                == Some((address@, bump)),
            None => program_address(seq![seed0@, seed1@, seed2@], program_id@) == None::<
                (Seq<u8>, u8),
            >,
        },
{
    let seeds: [&[u8]; 3] = [seed0, seed1, seed2];
    let program = anchor_lang::prelude::Pubkey::new_from_array(program_id.0);
    match anchor_lang::prelude::Pubkey::try_find_program_address(&seeds, &program) {
        Some((address, bump)) => Some((Pubkey(address.to_bytes()), bump)),
        None => None,
    }
}

} // verus!
