//! On-chain addresses and the deterministic metadata-address derivation.
//!
//! An address is a 32-byte value. The metadata account of a mint sits at a
//! program-derived address computed from the fixed seed label, the token
//! metadata program identifier, and the mint address, in that order.
use crate::error::MetaError;
use vstd::prelude::*;
use vstd::slice::slice_to_vec;
use vstd::string::StrSliceExecFns;

verus! {

/// A fixed-length binary on-chain address.
#[derive(Debug)]
pub struct Address {
    pub bytes: Vec<u8>,
}

impl View for Address {
    type V = Seq<u8>;

    open spec fn view(&self) -> Seq<u8> {
        self.bytes@
    }
}

impl Address {
    /// A well-formed address holds exactly 32 bytes.
    pub open spec fn wf(&self) -> bool {
        self.bytes@.len() == 32
    }

    /// An owned copy of this address.
    pub fn dup(&self) -> (r: Address)
        ensures
            r@ == self@,
    {
        Address { bytes: slice_to_vec(self.bytes.as_slice()) }
    }
}

/// The seed label that begins the derivation, the bytes of `"metadata"`.
pub open spec fn metadata_seed() -> Seq<u8> {
    seq![109u8, 101u8, 116u8, 97u8, 100u8, 97u8, 116u8, 97u8]
}

/// The 32 bytes of the token metadata program identifier.
pub open spec fn program_id() -> Seq<u8> {
    seq![
        11u8, 112u8, 101u8, 177u8, 227u8, 209u8, 124u8, 69u8, 56u8, 157u8, 82u8, 127u8, 107u8,
        4u8, 195u8, 205u8, 88u8, 184u8, 108u8, 115u8, 26u8, 160u8, 253u8, 181u8, 73u8, 182u8,
        209u8, 188u8, 3u8, 248u8, 41u8, 70u8,
    ]
}

/// The seed label as an owned byte vector.
pub fn metadata_seed_bytes() -> (r: Vec<u8>)
    ensures
        r@ == metadata_seed(),
{
    let r: Vec<u8> = vec![109u8, 101u8, 116u8, 97u8, 100u8, 97u8, 116u8, 97u8];
    proof {
        assert(r@ =~= metadata_seed());
    }
    r
}

/// The token metadata program identifier as an owned byte vector.
pub fn program_id_bytes() -> (r: Vec<u8>)
    ensures
        r@ == program_id(),
{
    let r: Vec<u8> = vec![
        11u8, 112u8, 101u8, 177u8, 227u8, 209u8, 124u8, 69u8, 56u8, 157u8, 82u8, 127u8, 107u8,
        4u8, 195u8, 205u8, 88u8, 184u8, 108u8, 115u8, 26u8, 160u8, 253u8, 181u8, 73u8, 182u8,
        209u8, 188u8, 3u8, 248u8, 41u8, 70u8,
    ];
    proof {
        assert(r@ =~= program_id());
    }
    r
}

/// The canonical program-derived address for three seeds and an owning
/// program: the address that the chain's derivation algorithm yields (the
/// accompanying bump byte is discarded), or `None` where no bump byte yields
/// a valid address. A pure function of its arguments.
pub uninterp spec fn pda_opt_of(
    seed0: Seq<u8>,
    seed1: Seq<u8>,
    seed2: Seq<u8>,
    owner: Seq<u8>,
) -> Option<Seq<u8>>;

/// The 32-byte value that a piece of text denotes in the chain's base-58
/// address notation, if it denotes one.
pub uninterp spec fn decoded_address(s: Seq<char>) -> Option<Seq<u8>>;

/// Relies on `solana_sdk::pubkey::Pubkey::try_find_program_address`: the
/// canonical program-derived address for the given seeds and owning program,
/// a pure function of its arguments; `None` in the (practically unreachable)
/// case that no bump byte yields a valid address. The returned option is
/// exactly the derivation's outcome, in both branches.
#[verifier::external_body]
fn find_program_address_3(s0: &Vec<u8>, s1: &Vec<u8>, s2: &Vec<u8>, owner: &Vec<u8>) -> (r: Option<
    Vec<u8>,
>)
    requires
        owner@.len() == 32,
    ensures
        (match r {
            Some(v) => pda_opt_of(s0@, s1@, s2@, owner@) == Some(v@) && v@.len() == 32,
            None => pda_opt_of(s0@, s1@, s2@, owner@) is None,
        }),
{
    let owner_pk = solana_sdk::pubkey::Pubkey::try_from(owner.as_slice()).ok()?;
    let seeds: [&[u8]; 3] = [s0.as_slice(), s1.as_slice(), s2.as_slice()];
    let (pk, _bump) = solana_sdk::pubkey::Pubkey::try_find_program_address(&seeds, &owner_pk)?;
    Some(pk.to_bytes().to_vec())
}

/// Relies on `solana_sdk::pubkey::Pubkey::from_str`: decodes the base-58 text
/// form of an address, succeeding exactly when the text decodes to 32 bytes;
/// a pure function of the input text.
#[verifier::external_body]
fn pubkey_bytes_from_str(s: &str) -> (r: Option<Vec<u8>>)
    ensures
        (match r {
            Some(v) => decoded_address(s@) == Some(v@) && v@.len() == 32,
            None => decoded_address(s@) is None,
        }),
{
    match <solana_sdk::pubkey::Pubkey as core::str::FromStr>::from_str(s) {
        Ok(pk) => Some(pk.to_bytes().to_vec()),
        Err(_) => None,
    }
}

/// The metadata account address that a mint derives to: the canonical
/// program-derived address over the seed label, the program identifier, and
/// the mint bytes, owned by the program itself; `None` exactly where the
/// derivation admits no address.
pub open spec fn derived_metadata_address(mint: Seq<u8>) -> Option<Seq<u8>> {
    pda_opt_of(metadata_seed(), program_id(), mint, program_id())
}

/// Compute the metadata account address for a mint: exactly the derivation's
/// outcome, which is `None` only in the (practically unreachable) case that
/// it admits no address for these seeds.
pub fn derive_metadata_address(mint: &Address) -> (r: Option<Address>)
    requires
        mint.wf(),
    ensures
        (match r {
            Some(a) => derived_metadata_address(mint@) == Some(a@) && a.wf(),
            None => derived_metadata_address(mint@) is None,
        }),
{
    let label = metadata_seed_bytes();
    let owner = program_id_bytes();
    match find_program_address_3(&label, &owner, &mint.bytes, &owner) {
        Some(v) => Some(Address { bytes: v }),
        None => None,
    }
}

/// Parse the textual form of a mint address; rejects exactly the inputs that
/// do not denote a 32-byte address.
pub fn parse_mint_address(s: &str) -> (r: Result<Address, MetaError>)
    ensures
        (match r {
            Ok(a) => decoded_address(s@) == Some(a@) && a.wf(),
            Err(e) => decoded_address(s@) is None && (e matches MetaError::InvalidAddress {
                input,
            } && input@ == s@),
        }),
{
    match pubkey_bytes_from_str(s) {
        Some(v) => Ok(Address { bytes: v }),
        None => Err(MetaError::InvalidAddress { input: s.to_owned() }),
    }
}

} // verus!
