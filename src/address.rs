use anchor_lang::prelude::Pubkey;
use vstd::prelude::*;

verus! {

/// The bytes of this program's deployment address,
/// `F1sVUCiy8AMdmcQYgo4QueoZPayWvkYHEqyCK7cP66tZ` in base58.
pub const PROGRAM_ID: [u8; 32] = [
    208, 60, 181, 7, 187, 97, 43, 79, 51, 33, 90, 217, 118, 164, 232, 91,
    91, 11, 163, 205, 59, 213, 112, 22, 50, 73, 153, 33, 101, 76, 73, 234,
];

/// An on-chain address: the 32 bytes of a public key.
#[derive(Clone, Copy, Debug, PartialEq, Eq)]
pub struct Address {
    pub bytes: [u8; 32],
}

impl View for Address {
    type V = Seq<u8>;

    open spec fn view(&self) -> Seq<u8> {
        self.bytes@
    }
}

impl Address {
    pub fn new(bytes: [u8; 32]) -> (r: Address)
        ensures
            r.bytes == bytes,
            r@ == bytes@,
    {
        Address { bytes }
    }

    pub fn to_bytes(&self) -> (r: [u8; 32])
        ensures
            r == self.bytes,
    {
        self.bytes
    }
}

/// The address this program is deployed at.
pub fn id() -> (r: Address)
    ensures
        r.bytes == PROGRAM_ID,
{
    Address { bytes: PROGRAM_ID }
}

/// The text that a public key with these bytes is shown as (its base58 encoding).
pub uninterp spec fn pubkey_text(key: Seq<u8>) -> Seq<char>;

/// Relies on the `Debug` impl of `Pubkey` (solana-program, re-exported by
/// anchor-lang): it writes the base58 encoding of the key's bytes, which
/// depends on those bytes alone.
#[verifier::external_body]
pub(crate) fn key_text(key: &Address) -> (r: String)
    ensures
        r@ == pubkey_text(key@),
{
    format!("{:?}", Pubkey::new_from_array(key.bytes))
}

} // verus!
