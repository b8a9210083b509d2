//! Account identities and the two facts about them that come from outside.
use vstd::prelude::*;

verus! {

/// Number of bytes in an account identity.
pub const PUBKEY_BYTES: usize = 32;

/// The identity of an account or a program: 32 opaque bytes.
#[derive(Clone, Copy, Debug, PartialEq, Eq, Hash)]
pub struct Pubkey(pub [u8; 32]);

impl View for Pubkey {
    type V = Seq<u8>;

    open spec fn view(&self) -> Seq<u8> {
        self.0@
    }
}

impl Pubkey {
    /// Wraps 32 bytes as an identity.
    pub fn new_from_array(bytes: [u8; 32]) -> (key: Pubkey)
        ensures
            key@ == bytes@,
    {
        Pubkey(bytes)
    }

    /// The 32 bytes of the identity.
    pub fn to_bytes(&self) -> (bytes: [u8; 32])
        ensures
            bytes@ == self@,
    {
        self.0
    }
}

/// The bytes of the token program's identity,
/// `TokenkegQfeZyiNwAJbNbGKPFXCWuBvf9Ss623VQ5DA` in base 58.
pub open spec fn token_program_id() -> Seq<u8> {
    seq![
        6u8, 221, 246, 225, 215, 101, 161, 147, 217, 203, 225, 70, 206, 235, 121, 172,
        28, 180, 133, 237, 95, 91, 55, 145, 58, 140, 245, 133, 126, 255, 0, 169,
    ]
}

/// Calls `spl_token::id`. Trusted: the identity it returns is the constant
/// that the token program declares, whose bytes are `token_program_id()`.
#[verifier::external_body]
pub(crate) fn spl_token_id() -> (key: Pubkey)
    ensures
        key@ == token_program_id(),
{
    Pubkey(spl_token::id().to_bytes())
}

/// The address that the outside derivation finds for a program and one seed,
/// with the bump byte that made it valid; `None` where no bump byte does.
pub uninterp spec fn program_address(seed: Seq<u8>, program_id: Seq<u8>) -> Option<(Seq<u8>, u8)>;

/// Calls `Pubkey::try_find_program_address` of `solana_program` with the 32
/// bytes of `seed` as the only seed. Trusted: the outcome depends on the seed
/// and the program identity alone, so it is `program_address` of the two. The
/// search itself (hashing and a curve test per bump byte) is not modelled.
#[verifier::external_body]
pub(crate) fn find_program_address(seed: &Pubkey, program_id: &Pubkey) -> (found: Option<(Pubkey, u8)>)
    ensures
        match found {
            Some((address, bump)) => program_address(seed@, program_id@) == Some((address@, bump)),
            None => program_address(seed@, program_id@) is None,
        },
{
    let program = solana_program::pubkey::Pubkey::new_from_array(program_id.0);
    match solana_program::pubkey::Pubkey::try_find_program_address(&[&seed.0[..]], &program) {
        Some((address, bump)) => Some((Pubkey(address.to_bytes()), bump)),
        None => None,
    }
}

} // verus!
