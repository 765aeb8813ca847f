//! Account addresses and the derivation of a stream's escrow address.

use vstd::prelude::*;

verus! {

/// A 32-byte Solana account address, held as plain bytes so that the rest of
/// the crate can reason about it.
#[derive(Clone, Copy, PartialEq, Eq, Debug)]
pub struct Pubkey {
    pub bytes: [u8; 32],
}

impl View for Pubkey {
    type V = Seq<u8>;

    open spec fn view(&self) -> Seq<u8> {
        self.bytes@
    }
}

impl Pubkey {
    /// Builds an address from its raw bytes.
    pub fn new_from_array(bytes: [u8; 32]) -> (r: Pubkey)
        ensures
            r@ == bytes@,
    {
        Pubkey { bytes }
    }

    /// The raw bytes of the address.
    pub fn to_bytes(&self) -> (r: [u8; 32])
        ensures
            r@ == self@,
    {
        self.bytes
    }
}

/// The program-derived address and bump seed that the Solana runtime
/// associates with the given seed slices under the given program id, or
/// `None` where no bump seed yields a valid address.
pub uninterp spec fn program_address_of(seeds: Seq<Seq<u8>>, program_id: Seq<u8>) -> Option<
    (Seq<u8>, u8),
>;

/// Relies on `Pubkey::try_find_program_address` of `anchor_lang` (the
/// `solana-pubkey` crate): the derived address and bump seed are computed
/// from the seed slices and the program id alone, and `None` is returned
/// instead of a panic when no bump seed yields a valid address.
#[verifier::external_body]
fn solana_program_address(prefix: &[u8; 4], seed: &[u8], program_id: &Pubkey) -> (r: Option<
    (Pubkey, u8),
>)
    ensures
        match r {
            Some(found) => program_address_of(seq![prefix@, seed@], program_id@) == Some(
                (found.0@, found.1),
            ),
            None => program_address_of(seq![prefix@, seed@], program_id@) is None,
        },
{
    let pid = anchor_lang::prelude::Pubkey::new_from_array(program_id.bytes);
    anchor_lang::prelude::Pubkey::try_find_program_address(&[prefix, seed], &pid)
        .map(|(address, bump)| (Pubkey { bytes: address.to_bytes() }, bump))
}

/// The seed prefix used to derive an escrow account address, as a sequence
/// of bytes: the ASCII string "strm".
pub open spec fn spec_escrow_seed_prefix() -> Seq<u8> {
    seq![115u8, 116u8, 114u8, 109u8]
}

/// Prefix used to derive Escrow account address: the ASCII bytes of "strm".
pub fn escrow_seed_prefix() -> (r: [u8; 4])
    ensures
        r@ == spec_escrow_seed_prefix(),
{
    let r: [u8; 4] = [115u8, 116u8, 114u8, 109u8];
    proof {
        assert(r@ =~= spec_escrow_seed_prefix());
    }
    r
}

/// The escrow account address of a stream: the program-derived address for
/// the escrow seed prefix followed by the given seed, under the given
/// program id. `None` in the statistically improbable case that no bump
/// seed yields a valid address, or where `seed` is longer than the runtime
/// accepts.
pub fn find_escrow_account(seed: &[u8], pid: &Pubkey) -> (r: Option<(Pubkey, u8)>)
    ensures
        match r {
            Some(found) => program_address_of(
                seq![spec_escrow_seed_prefix(), seed@],
                pid@,
            ) == Some((found.0@, found.1)),
            None => program_address_of(seq![spec_escrow_seed_prefix(), seed@], pid@) is None,
        },
{
    let prefix = escrow_seed_prefix();
    let r = solana_program_address(&prefix, seed, pid);
    proof {
        assert(seq![prefix@, seed@] =~= seq![spec_escrow_seed_prefix(), seed@]);
    }
    r
}

} // verus!
