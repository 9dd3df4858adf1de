use vstd::prelude::*;

verus! {

/// A 32-byte ledger identity: a wallet, a token account or an authority.
#[derive(Clone, Copy, Debug, PartialEq, Eq)]
pub struct Key {
    pub bytes: [u8; 32],
}

} // verus!
