//! Account identities.

use vstd::prelude::*;
use vstd::std_specs::cmp::PartialEqSpecImpl;

verus! {

/// The seed under which a program's signing authority is derived.
pub const PROGRAM_AUTHORITY_SEED: [u8; 19] = [
    112, 114, 111, 103, 114, 97, 109, 95, 97, 117, 116, 104, 111, 114, 105, 116, 121, 86, 49,
];

/// Identity of the token program that mints must belong to.
pub const TOKEN_2022_PROGRAM_ID: [u8; 32] = [
    6, 221, 246, 225, 238, 117, 143, 222, 24, 66, 93, 188, 228, 108, 205, 218,
    182, 26, 252, 77, 131, 185, 13, 39, 254, 189, 249, 40, 216, 161, 139, 252,
];

/// Identity of the staking program whose records the parameter store accepts.
pub const STAKING_CONTRACT_ID: [u8; 32] = [
    74, 149, 196, 62, 186, 45, 139, 185, 251, 25, 29, 160, 219, 195, 190, 37,
    119, 204, 125, 149, 195, 140, 58, 187, 38, 151, 180, 135, 195, 21, 140, 116,
];

/// A 32-byte account identity. Two identities are the same exactly when their
/// bytes are.
#[derive(Clone, Copy, Debug, Eq)]
pub struct Pubkey {
    pub bytes: [u8; 32],
}

impl View for Pubkey {
    type V = Seq<u8>;

    open spec fn view(&self) -> Seq<u8> {
        self.bytes@
    }
}

impl PartialEq for Pubkey {
    fn eq(&self, other: &Pubkey) -> (r: bool) {
        let mut i: usize = 0;
        while i < 32
            invariant
                i <= 32,
                forall|j: int| 0 <= j < i ==> self.bytes@[j] == other.bytes@[j],
            decreases 32 - i,
        {
            if self.bytes[i] != other.bytes[i] {
                return false;
            }
            i = i + 1;
        }
        assert(self.bytes =~= other.bytes);
        true
    }
}

impl PartialEqSpecImpl for Pubkey {
    open spec fn obeys_eq_spec() -> bool {
        true
    }

    open spec fn eq_spec(&self, other: &Pubkey) -> bool {
        *self == *other
    }
}

impl Default for Pubkey {
    /// The identity of all zero bytes, which marks a record nobody owns yet.
    fn default() -> (r: Pubkey)
        ensures
            r.is_unset(),
    {
        let r = Pubkey { bytes: [0u8; 32] };
        assert(r@ =~= Seq::new(32, |i: int| 0u8));
        r
    }
}

impl Pubkey {
    /// Whether this is the identity of all zero bytes.
    pub open spec fn is_unset(&self) -> bool {
        self@ == Seq::new(32, |i: int| 0u8)
    }

    /// Whether the identity consists of exactly these bytes.
    pub open spec fn has_bytes(&self, bytes: [u8; 32]) -> bool {
        self.bytes == bytes
    }

    /// The identity that consists of these bytes.
    pub fn new_from_array(bytes: [u8; 32]) -> (r: Pubkey)
        ensures
            r.bytes == bytes,
    {
        Pubkey { bytes }
    }

    /// The bytes that the identity consists of.
    pub fn to_bytes(&self) -> (r: [u8; 32])
        ensures
            r == self.bytes,
    {
        self.bytes
    }

    /// Tells whether nobody owns the record yet.
    pub fn is_default(&self) -> (r: bool)
        ensures
            r == self.is_unset(),
    {
        let mut i: usize = 0;
        while i < 32
            invariant
                i <= 32,
                forall|j: int| 0 <= j < i ==> self.bytes@[j] == 0u8,
            decreases 32 - i,
        {
            if self.bytes[i] != 0 {
                return false;
            }
            i = i + 1;
        }
        assert(self@ =~= Seq::new(32, |i: int| 0u8));
        true
    }
}

/// Identities with the same bytes are the same identity.
pub proof fn lemma_same_bytes_same_identity(a: Pubkey, b: Pubkey)
    ensures
        (a@ == b@) <==> (a == b),
{
    if a@ == b@ {
        assert(a.bytes =~= b.bytes);
    }
}

/// The address and bump seed that a program derives from one seed, where one
/// exists.
pub uninterp spec fn program_address(seed: Seq<u8>, program_id: Seq<u8>) -> Option<(Seq<u8>, u8)>;

/// Calls `solana_program::pubkey::Pubkey::try_find_program_address` with a
/// single seed. The contract gives the outcome a name and claims nothing
/// else. The search hashes the seed, a bump seed and the program's identity,
/// tries the bump seeds from 255 downwards and keeps the first candidate that
/// is no curve point; it gives up where no bump seed fits or the seed is
/// longer than 32 bytes. Nothing else enters, so the same seed and program
/// always yield the same answer.
#[verifier::external_body]
pub(crate) fn find_program_address(seed: &[u8], program_id: &Pubkey) -> (r: Option<(Pubkey, u8)>)
    ensures
        match r {
            Some((address, bump)) => program_address(seed@, program_id@) == Some((address@, bump)),
            None => program_address(seed@, program_id@) is None,
        },
{
    let id = solana_program::pubkey::Pubkey::new_from_array(program_id.bytes);
    match solana_program::pubkey::Pubkey::try_find_program_address(&[seed], &id) {
        Some((address, bump)) => Some((Pubkey { bytes: address.to_bytes() }, bump)),
        None => None,
    }
}

} // verus!
