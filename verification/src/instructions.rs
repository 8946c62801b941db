//! Trusted boundary to the instruction-building library.
//!
//! The record and address types of this crate are plain values; the
//! instruction library consumes its own types. Everything here either
//! declares one of those outside types or converts values one for one and
//! makes the one builder call. Nothing here is proved; the callers in
//! `pipeline` are.
use crate::address::Address;
use crate::record::CollectionRef;
use crate::record::CreatorEntry;
use crate::record::TokenData;
use crate::record::TokenDataV;
use crate::record::UseMethod;
use crate::record::UsageLimits;
use crate::record::collection_v_wf;
use crate::record::creators_v_wf;
use vstd::prelude::*;

verus! {

#[verifier::external_type_specification]
#[verifier::external_body]
pub struct ExInstruction(solana_sdk::instruction::Instruction);

#[verifier::external_type_specification]
#[verifier::external_body]
pub struct ExDataV2(mpl_token_metadata::types::DataV2);

#[verifier::external_type_specification]
#[verifier::external_body]
pub struct ExMplCreator(mpl_token_metadata::types::Creator);

#[verifier::external_type_specification]
#[verifier::external_body]
pub struct ExMplCollection(mpl_token_metadata::types::Collection);

#[verifier::external_type_specification]
#[verifier::external_body]
pub struct ExMplUses(mpl_token_metadata::types::Uses);

/// The create-variant instruction that the builder assembles from a metadata
/// address, a mint, an authority (used as mint authority, fee payer and
/// signing update authority), a record, and a mutability flag. A pure
/// function of those values.
pub uninterp spec fn create_ix_of(
    metadata: Seq<u8>,
    mint: Seq<u8>,
    authority: Seq<u8>,
    data: TokenDataV,
    is_mutable: bool,
) -> solana_sdk::instruction::Instruction;

/// The update-variant instruction that the builder assembles from a metadata
/// address, the signing update authority, and the merged record; it
/// designates no new authority and touches no other on-chain state. A pure
/// function of those values.
pub uninterp spec fn update_ix_of(
    metadata: Seq<u8>,
    authority: Seq<u8>,
    data: TokenDataV,
) -> solana_sdk::instruction::Instruction;

/// Relies on `mpl_token_metadata::types::Creator`: re-expresses each creator
/// entry, field for field, in the instruction library's own type.
#[verifier::external_body]
pub(crate) fn creators_to_mpl(c: &Option<Vec<CreatorEntry>>) -> Option<
    Vec<mpl_token_metadata::types::Creator>,
>
    requires
        creators_v_wf(match *c {
            Some(v) => Some(v@.map_values(|cr: CreatorEntry| cr@)),
            None => None,
        }),
{
    c.as_ref().map(
        |v|
            v.iter().map(
                |cr|
                    mpl_token_metadata::types::Creator {
                        address: solana_sdk::pubkey::Pubkey::try_from(
                            cr.address.bytes.as_slice(),
                        ).unwrap(),
                        verified: cr.verified,
                        share: cr.share,
                    },
            ).collect(),
    )
}

/// Relies on `mpl_token_metadata::types::Collection`: re-expresses the
/// collection reference as its {verified flag, key} pair.
#[verifier::external_body]
pub(crate) fn collection_to_mpl(c: &Option<CollectionRef>) -> Option<
    mpl_token_metadata::types::Collection,
>
    requires
        collection_v_wf(match *c {
            Some(cc) => Some(cc@),
            None => None,
        }),
{
    c.as_ref().map(
        |cc|
            mpl_token_metadata::types::Collection {
                verified: cc.verified,
                key: solana_sdk::pubkey::Pubkey::try_from(cc.key.bytes.as_slice()).unwrap(),
            },
    )
}

/// Relies on `mpl_token_metadata::types::Uses`: re-expresses the usage-limit
/// descriptor as its {method, remaining, total} triple.
#[verifier::external_body]
pub(crate) fn uses_to_mpl(u: &Option<UsageLimits>) -> Option<mpl_token_metadata::types::Uses> {
    u.as_ref().map(
        |uu|
            mpl_token_metadata::types::Uses {
                use_method: match uu.use_method {
                    UseMethod::Burn => mpl_token_metadata::types::UseMethod::Burn,
                    UseMethod::Multiple => mpl_token_metadata::types::UseMethod::Multiple,
                    UseMethod::Single => mpl_token_metadata::types::UseMethod::Single,
                },
                remaining: uu.remaining,
                total: uu.total,
            },
    )
}

/// Relies on `mpl_token_metadata::types::DataV2`: re-expresses the record in
/// the instruction library's record type, each field converted one for one.
/// The result is determined by the record's value.
#[verifier::external_body]
pub(crate) fn to_data_v2(d: &TokenData) -> mpl_token_metadata::types::DataV2
    requires
        d.wf(),
{
    mpl_token_metadata::types::DataV2 {
        name: d.name.clone(),
        symbol: d.symbol.clone(),
        uri: d.uri.clone(),
        seller_fee_basis_points: d.seller_fee_basis_points,
        creators: creators_to_mpl(&d.creators),
        collection: collection_to_mpl(&d.collection),
        uses: uses_to_mpl(&d.uses),
    }
}

/// Relies on `mpl_token_metadata::instructions::CreateMetadataAccountV3Builder`:
/// assembles the create-variant instruction with the authority as mint
/// authority, fee payer, and signing update authority; a pure function of
/// the converted arguments, named `create_ix_of`.
#[verifier::external_body]
pub(crate) fn build_create_instruction(
    metadata: &Address,
    mint: &Address,
    authority: &Address,
    data: &TokenData,
    is_mutable: bool,
) -> (r: solana_sdk::instruction::Instruction)
    requires
        metadata.wf(),
        mint.wf(),
        authority.wf(),
        data.wf(),
    ensures
        r == create_ix_of(metadata@, mint@, authority@, data@, is_mutable),
{
    let metadata_pk = solana_sdk::pubkey::Pubkey::try_from(metadata.bytes.as_slice()).unwrap();
    let mint_pk = solana_sdk::pubkey::Pubkey::try_from(mint.bytes.as_slice()).unwrap();
    let authority_pk = solana_sdk::pubkey::Pubkey::try_from(authority.bytes.as_slice()).unwrap();
    mpl_token_metadata::instructions::CreateMetadataAccountV3Builder::new().metadata(
        metadata_pk,
    ).mint(mint_pk).mint_authority(authority_pk).payer(authority_pk).update_authority(
        authority_pk,
        true,
    ).data(to_data_v2(data)).is_mutable(is_mutable).instruction()
}

/// Relies on `mpl_token_metadata::instructions::UpdateMetadataAccountV2Builder`:
/// assembles the update-variant instruction naming only the metadata account
/// and the signing authority, and carrying the merged record; a pure
/// function of the converted arguments, named `update_ix_of`.
#[verifier::external_body]
pub(crate) fn build_update_instruction(
    metadata: &Address,
    authority: &Address,
    data: &TokenData,
) -> (r: solana_sdk::instruction::Instruction)
    requires
        metadata.wf(),
        authority.wf(),
        data.wf(),
    ensures
        r == update_ix_of(metadata@, authority@, data@),
{
    let metadata_pk = solana_sdk::pubkey::Pubkey::try_from(metadata.bytes.as_slice()).unwrap();
    let authority_pk = solana_sdk::pubkey::Pubkey::try_from(authority.bytes.as_slice()).unwrap();
    mpl_token_metadata::instructions::UpdateMetadataAccountV2Builder::new().metadata(
        metadata_pk,
    ).update_authority(authority_pk).data(to_data_v2(data)).instruction()
}

} // verus!
