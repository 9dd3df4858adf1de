use vstd::prelude::*;
use anchor_lang::prelude::Pubkey;
use crate::key::Key;

verus! {

/// What `Pubkey::try_find_program_address` yields for one seed and a program
/// id: the derived address and its bump seed, or nothing when no bump works.
pub uninterp spec fn derived_address_of(seed: Seq<u8>, program_id: Seq<u8>) -> Option<(Seq<u8>, u8)>;

/// The domain-separation tag of the custodian authority: `b"escrow"`.
pub open spec fn escrow_seed() -> Seq<u8> {
    seq![101u8, 115u8, 99u8, 114u8, 111u8, 119u8]
}

/// Relies on solana_program's `Pubkey::try_find_program_address`: the
/// program-derived address of the given seed, which depends on the seed and
/// the program id alone.
#[verifier::external_body]
fn try_find_program_address(seed: &Vec<u8>, program_id: &Key) -> (r: Option<(Key, u8)>)
    ensures
        r is Some <==> derived_address_of(seed@, program_id.bytes@) is Some,
        r is Some ==> derived_address_of(seed@, program_id.bytes@) == Some(
            ((r->0).0.bytes@, (r->0).1),
        ),
{
    let program = Pubkey::new_from_array(program_id.bytes);
    Pubkey::try_find_program_address(&[seed.as_slice()], &program)
        .map(|(pda, bump)| (Key { bytes: pda.to_bytes() }, bump))
}

/// The custodian authority of a program: the address derived from the
/// escrow tag, which no private key controls.
pub fn custodian_authority(program_id: &Key) -> (r: Option<Key>)
    ensures
        r is Some <==> derived_address_of(escrow_seed(), program_id.bytes@) is Some,
        r is Some ==> derived_address_of(escrow_seed(), program_id.bytes@).unwrap().0 == (r->0).bytes@,
{
    let seed: Vec<u8> = vec![101u8, 115u8, 99u8, 114u8, 111u8, 119u8];
    assert(seed@ =~= escrow_seed());
    match try_find_program_address(&seed, program_id) {
        Some((k, _bump)) => Some(k),
        None => None,
    }
}

} // verus!
