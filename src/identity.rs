//! Public identities (32-byte account addresses) and the address services of
//! the ledger's SDK that the registry relies on.
use vstd::prelude::*;

verus! {

/// Number of bytes in an identity.
pub const IDENTITY_BYTES: usize = 32;

/// A fixed-length public identity: an account address or a signer's key.
#[derive(Clone, Copy, Debug)]
pub struct Identity {
    pub bytes: [u8; 32],
}

impl View for Identity {
    type V = Seq<u8>;

    open spec fn view(&self) -> Seq<u8> {
        self.bytes@
    }
}

impl Identity {
    /// Wraps 32 raw bytes.
    pub fn new(bytes: [u8; 32]) -> (r: Identity)
        ensures
            r.bytes == bytes,
    {
        Identity { bytes }
    }

    /// Byte-wise equality of two identities.
    pub fn same_as(&self, other: &Identity) -> (r: bool)
        ensures
            r == (self@ == other@),
    {
        proof {
            vstd::array::array_len_matches_n(&self.bytes);
            vstd::array::array_len_matches_n(&other.bytes);
        }
        let mut i: usize = 0;
        while i < IDENTITY_BYTES
            invariant
                i <= IDENTITY_BYTES,
                self@.len() == 32,
                other@.len() == 32,
                forall|j: int| 0 <= j < i ==> self@[j] == other@[j],
            decreases IDENTITY_BYTES - i,
        {
            if self.bytes[i] != other.bytes[i] {
                return false;
            }
            i = i + 1;
        }
        proof {
            assert(self@ =~= other@);
        }
        true
    }
}

impl PartialEq for Identity {
    fn eq(&self, other: &Identity) -> (r: bool) {
        self.same_as(other)
    }
}

impl vstd::std_specs::cmp::PartialEqSpecImpl for Identity {
    open spec fn obeys_eq_spec() -> bool {
        true
    }

    open spec fn eq_spec(&self, other: &Identity) -> bool {
        self@ == other@
    }
}

impl Eq for Identity {
}

/// The identity an optional identity carries, as bytes.
pub open spec fn opt_view(r: Option<Identity>) -> Option<Seq<u8>> {
    match r {
        Some(id) => Some(id@),
        None => None,
    }
}

/// The 32 bytes that a base58 text denotes as an address, if it denotes one.
pub uninterp spec fn decoded_address(text: Seq<char>) -> Option<Seq<u8>>;

/// The canonical program-derived address for `seed` under `program`, if the
/// search for a bump seed finds one.
pub uninterp spec fn program_address(seed: Seq<u8>, program: Seq<u8>) -> Option<Seq<u8>>;

/// The all-zero identity.
pub open spec fn zero_identity() -> Seq<u8> {
    Seq::new(32, |i: int| 0u8)
}

/// Relies on `FromStr for Pubkey` (base58 decoding into exactly 32 bytes):
/// what it yields depends on the text alone.
#[verifier::external_body]
pub(crate) fn parse_identity(text: &str) -> (r: Option<Identity>)
    ensures
        opt_view(r) == decoded_address(text@),
{
    <anchor_lang::prelude::Pubkey as std::str::FromStr>::from_str(text).ok().map(
        |k| Identity::new(k.to_bytes()),
    )
}

/// Relies on `Pubkey::try_find_program_address` with the single seed `seed`:
/// the address found (the bump seed is dropped) depends on its arguments alone.
#[verifier::external_body]
pub(crate) fn find_program_address(seed: &[u8], program_id: &Identity) -> (r: Option<Identity>)
    ensures
        opt_view(r) == program_address(seed@, program_id@),
{
    let program = anchor_lang::prelude::Pubkey::new_from_array(program_id.bytes);
    anchor_lang::prelude::Pubkey::try_find_program_address(&[seed], &program).map(
        |found| Identity::new(found.0.to_bytes()),
    )
}

/// Relies on `anchor_lang::system_program::ID`, the system program's address
/// "11111111111111111111111111111111", which is base58 for 32 zero bytes.
#[verifier::external_body]
pub(crate) fn system_program_id() -> (r: Identity)
    ensures
        r@ == zero_identity(),
{
    Identity::new(anchor_lang::system_program::ID.to_bytes())
}

} // verus!
