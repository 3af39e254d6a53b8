//! Addresses of participants, assets, programs and records, and the
//! derivation of record addresses from seeds.

use solana_program::pubkey::Pubkey;
use vstd::prelude::*;
use vstd::std_specs::cmp::PartialEqSpecImpl;

verus! {

/// A 32-byte identifier of a participant, an asset, a program or a record.
#[derive(Clone, Copy, Debug, Eq, Hash)]
pub struct Address {
    pub bytes: [u8; 32],
}

impl View for Address {
    type V = Seq<u8>;

    open spec fn view(&self) -> Seq<u8> {
        self.bytes@
    }
}

impl PartialEq for Address {
    fn eq(&self, other: &Address) -> (r: bool) {
        let mut i: usize = 0;
        while i < 32
            invariant
                i <= 32,
                forall|k: int| 0 <= k < i ==> self.bytes@[k] == other.bytes@[k],
            decreases 32 - i,
        {
            if self.bytes[i] != other.bytes[i] {
                return false;
            }
            i += 1;
        }
        proof {
            assert(self.bytes@ =~= other.bytes@);
        }
        true
    }
}

impl PartialEqSpecImpl for Address {
    open spec fn obeys_eq_spec() -> bool {
        true
    }

    open spec fn eq_spec(&self, other: &Address) -> bool {
        self@ == other@
    }
}

/// The 32 bytes of `input` from `offset` on.
pub fn read_array(input: &[u8], offset: usize) -> (bytes: [u8; 32])
    requires
        offset + 32 <= input@.len(),
    ensures
        bytes@ == input@.subrange(offset as int, offset + 32),
{
    let n: usize = input.len();
    let mut bytes: [u8; 32] = [0u8; 32];
    let mut i: usize = 0;
    while i < 32
        invariant
            i <= 32,
            n == input@.len(),
            offset + 32 <= n,
            forall|k: int| 0 <= k < i ==> bytes@[k] == input@[offset + k],
        decreases 32 - i,
    {
        bytes[i] = input[offset + i];
        i += 1;
    }
    bytes
}

/// Appends the 32 bytes to `out`.
pub fn append_array(out: &mut Vec<u8>, bytes: &[u8; 32])
    ensures
        final(out)@ == old(out)@ + bytes@,
{
    let mut i: usize = 0;
    while i < 32
        invariant
            i <= 32,
            out@ == old(out)@ + bytes@.subrange(0, i as int),
        decreases 32 - i,
    {
        out.push(bytes[i]);
        i += 1;
    }
}

impl Address {
    /// The address made of the given bytes.
    pub fn new(bytes: [u8; 32]) -> (a: Address)
        ensures
            a.bytes == bytes,
            a@ == bytes@,
    {
        Address { bytes }
    }

    /// The address whose bytes are the 32 bytes of `input` from `offset` on.
    pub fn from_bytes_at(input: &[u8], offset: usize) -> (a: Address)
        requires
            offset + 32 <= input@.len(),
        ensures
            a@ == input@.subrange(offset as int, offset + 32),
    {
        Address { bytes: read_array(input, offset) }
    }

    /// Appends the 32 bytes of this address to `out`.
    pub fn append_to(&self, out: &mut Vec<u8>)
        ensures
            final(out)@ == old(out)@ + self@,
    {
        append_array(out, &self.bytes)
    }
}

/// What `Pubkey::try_find_program_address` yields for the given seeds and
/// program: the derived address with its bump seed, or nothing.
pub uninterp spec fn derived_address(seeds: Seq<Seq<u8>>, program_id: Seq<u8>) -> Option<(Seq<u8>, u8)>;

/// The byte content of a derivation result.
pub open spec fn derivation_view(found: Option<(Address, u8)>) -> Option<(Seq<u8>, u8)> {
    match found {
        Some((address, bump)) => Some((address@, bump)),
        None => None,
    }
}

/// The seeds as sequences of bytes.
pub open spec fn seeds_view(seeds: &[&[u8]]) -> Seq<Seq<u8>> {
    Seq::new(seeds@.len(), |i: int| seeds@[i]@)
}

/// Calls `Pubkey::try_find_program_address`, which searches the bump seeds
/// from 255 downwards for the first one whose hash with the seeds and the
/// program is a valid derived address. The result depends on the arguments
/// alone and is named `derived_address`; nothing more is claimed of it.
#[verifier::external_body]
pub(crate) fn derive_program_address(seeds: &[&[u8]], program_id: &Address) -> (found: Option<(Address, u8)>)
    ensures
        derivation_view(found) == derived_address(seeds_view(seeds), program_id@),
{
    let program = Pubkey::new_from_array(program_id.bytes);
    match Pubkey::try_find_program_address(seeds, &program) {
        Some((key, bump)) => Some((Address { bytes: key.to_bytes() }, bump)),
        None => None,
    }
}

} // verus!
