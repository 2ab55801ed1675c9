//! Account addresses.

use vstd::prelude::*;
use vstd::std_specs::cmp::PartialEqSpecImpl;

verus! {

/// A 32-byte account address.
#[derive(Clone, Copy, Debug, Eq, Hash)]
pub struct Pubkey {
    pub bytes: [u8; 32],
}

impl View for Pubkey {
    type V = Seq<u8>;

    open spec fn view(&self) -> Seq<u8> {
        self.bytes@
    }
}

impl PartialEq for Pubkey {
    fn eq(&self, other: &Pubkey) -> (r: bool) {
        let mut i: usize = 0;
        while i < 32
            invariant
                i <= 32,
                forall|j: int| 0 <= j < i ==> self.bytes@[j] == other.bytes@[j],
            decreases 32 - i,
        {
            if self.bytes[i] != other.bytes[i] {
                return false;
            }
            i += 1;
        }
        assert(self.bytes =~= other.bytes);
        true
    }
}

impl PartialEqSpecImpl for Pubkey {
    open spec fn obeys_eq_spec() -> bool {
        true
    }

    open spec fn eq_spec(&self, other: &Pubkey) -> bool {
        *self == *other
    }
}

impl Default for Pubkey {
    /// The all-zero address, which stands for "not set".
    fn default() -> (r: Pubkey)
        ensures
            r == Pubkey::unset(),
    {
        system_program_id()
    }
}

impl Pubkey {
    /// The all-zero address.
    pub open spec fn unset() -> Pubkey {
        spec_system_program_id()
    }

    pub fn new_from_array(bytes: [u8; 32]) -> (r: Pubkey)
        ensures
            r.bytes == bytes,
    {
        Pubkey { bytes }
    }

    pub fn to_bytes(&self) -> (r: [u8; 32])
        ensures
            r == self.bytes,
    {
        self.bytes
    }
}

/// Address of the system program, `11111111111111111111111111111111`.
pub open spec fn spec_system_program_id() -> Pubkey {
    Pubkey {
        bytes: [
            0, 0, 0, 0, 0, 0, 0, 0, 0, 0, 0, 0, 0, 0, 0, 0,
            0, 0, 0, 0, 0, 0, 0, 0, 0, 0, 0, 0, 0, 0, 0, 0,
        ],
    }
}

/// Address of the token program, `TokenkegQfeZyiNwAJbNbGKPFXCWuBvf9Ss623VQ5DA`.
pub open spec fn spec_token_program_id() -> Pubkey {
    Pubkey {
        bytes: [
            6, 221, 246, 225, 215, 101, 161, 147, 217, 203, 225, 70, 206, 235, 121, 172,
            28, 180, 133, 237, 95, 91, 55, 145, 58, 140, 245, 133, 126, 255, 0, 169,
        ],
    }
}

/// Address of the rent sysvar, `SysvarRent111111111111111111111111111111111`.
pub open spec fn spec_rent_sysvar_id() -> Pubkey {
    Pubkey {
        bytes: [
            6, 167, 213, 23, 25, 44, 92, 81, 33, 140, 201, 76, 61, 74, 241, 127,
            88, 218, 238, 8, 155, 161, 253, 68, 227, 219, 217, 138, 0, 0, 0, 0,
        ],
    }
}

/// Address of the clock sysvar, `SysvarC1ock11111111111111111111111111111111`.
pub open spec fn spec_clock_sysvar_id() -> Pubkey {
    Pubkey {
        bytes: [
            6, 167, 213, 23, 24, 199, 116, 201, 40, 86, 99, 152, 105, 29, 94, 182,
            139, 94, 184, 163, 155, 75, 109, 92, 115, 85, 91, 33, 0, 0, 0, 0,
        ],
    }
}

#[verifier::when_used_as_spec(spec_system_program_id)]
pub fn system_program_id() -> (r: Pubkey)
    ensures
        r == spec_system_program_id(),
{
    Pubkey {
        bytes: [
            0, 0, 0, 0, 0, 0, 0, 0, 0, 0, 0, 0, 0, 0, 0, 0,
            0, 0, 0, 0, 0, 0, 0, 0, 0, 0, 0, 0, 0, 0, 0, 0,
        ],
    }
}

#[verifier::when_used_as_spec(spec_token_program_id)]
pub fn token_program_id() -> (r: Pubkey)
    ensures
        r == spec_token_program_id(),
{
    Pubkey {
        bytes: [
            6, 221, 246, 225, 215, 101, 161, 147, 217, 203, 225, 70, 206, 235, 121, 172,
            28, 180, 133, 237, 95, 91, 55, 145, 58, 140, 245, 133, 126, 255, 0, 169,
        ],
    }
}

#[verifier::when_used_as_spec(spec_rent_sysvar_id)]
pub fn rent_sysvar_id() -> (r: Pubkey)
    ensures
        r == spec_rent_sysvar_id(),
{
    Pubkey {
        bytes: [
            6, 167, 213, 23, 25, 44, 92, 81, 33, 140, 201, 76, 61, 74, 241, 127,
            88, 218, 238, 8, 155, 161, 253, 68, 227, 219, 217, 138, 0, 0, 0, 0,
        ],
    }
}

#[verifier::when_used_as_spec(spec_clock_sysvar_id)]
pub fn clock_sysvar_id() -> (r: Pubkey)
    ensures
        r == spec_clock_sysvar_id(),
{
    Pubkey {
        bytes: [
            6, 167, 213, 23, 24, 199, 116, 201, 40, 86, 99, 152, 105, 29, 94, 182,
            139, 94, 184, 163, 155, 75, 109, 92, 115, 85, 91, 33, 0, 0, 0, 0,
        ],
    }
}

/// The address that the program `program_id` derives from the one seed `seed`,
/// with the bump byte that completes the seed; `None` where no bump gives an
/// address off the curve.
pub uninterp spec fn program_address(seed: Seq<u8>, program_id: Seq<u8>) -> Option<(Seq<u8>, u8)>;

/// Calls `solana_program::pubkey::Pubkey::try_find_program_address` with the
/// single seed `seed`. The search hashes the seed, a bump byte counted down
/// from 255, the program's address and a fixed marker, and stops at the first
/// hash that is no curve point: its result depends on the two arguments alone,
/// and that is all the contract claims of it.
#[verifier::external_body]
pub(crate) fn find_program_address(seed: &[u8], program_id: &Pubkey) -> (r: Option<(Pubkey, u8)>)
    ensures
        match r {
            Some((address, bump)) => program_address(seed@, program_id@) == Some((address@, bump)),
            None => program_address(seed@, program_id@) is None,
        },
{
    let program = solana_program::pubkey::Pubkey::new_from_array(program_id.bytes);
    match solana_program::pubkey::Pubkey::try_find_program_address(&[seed], &program) {
        Some((address, bump)) => Some((Pubkey { bytes: address.to_bytes() }, bump)),
        None => None,
    }
}

} // verus!
