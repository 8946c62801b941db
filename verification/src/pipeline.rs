//! The compute part of the two operations.
//!
//! Everything here is pure: the surrounding program reads the key file and
//! the network, hands plain values in, and submits what comes out. A plan
//! holds everything an invocation is going to submit, pinned by the
//! contracts below; turning a plan into the library's opaque instruction
//! value is the one unproved step, delegated to `instructions`.
use crate::address::Address;
use crate::address::derive_metadata_address;
use crate::address::derived_metadata_address;
use crate::decode::interpret_account_fetch;
use crate::decode::p_metadata;
use crate::error::MetaError;
use crate::instructions::build_create_instruction;
use crate::instructions::build_update_instruction;
use crate::instructions::create_ix_of;
use crate::instructions::update_ix_of;
use crate::record::TokenData;
use crate::record::data_of;
use crate::record::merge_spec;
use crate::record::merge_update;
use crate::record::new_token_data;
use crate::record::opt_str_view;
use vstd::prelude::*;

verus! {

/// Everything the create path submits: the derived metadata address, the
/// mint, the fresh record, and the mutability flag.
#[derive(Debug)]
pub struct CreatePlan {
    pub metadata: Address,
    pub mint: Address,
    pub data: TokenData,
    pub is_mutable: bool,
}

/// Everything the update path submits: the derived metadata address and the
/// merged record, along with the previously fetched values of the three
/// overridable fields, kept for display.
#[derive(Debug)]
pub struct UpdatePlan {
    pub metadata: Address,
    pub data: TokenData,
    pub old_name: String,
    pub old_symbol: String,
    pub old_uri: String,
}

/// Resolve a create invocation: derive the metadata address and build the
/// fresh record with the caller's fields and the fixed defaults. `None` only
/// in the (practically unreachable) case that the address derivation admits
/// no address.
pub fn plan_create(
    mint: Address,
    name: String,
    symbol: String,
    uri: String,
    seller_fee_basis_points: u16,
    is_mutable: bool,
) -> (r: Option<CreatePlan>)
    requires
        mint.wf(),
    ensures
        (match r {
            Some(p) => {
                &&& derived_metadata_address(mint@) == Some(p.metadata@)
                &&& p.metadata.wf()
                &&& p.mint@ == mint@
                &&& p.mint.wf()
                &&& p.data@.name == name@
                &&& p.data@.symbol == symbol@
                &&& p.data@.uri == uri@
                &&& p.data@.seller_fee_basis_points == seller_fee_basis_points
                &&& p.data@.creators is None
                &&& p.data@.collection is None
                &&& p.data@.uses is None
                &&& p.data.wf()
                &&& p.is_mutable == is_mutable
            },
            None => derived_metadata_address(mint@) is None,
        }),
{
    match derive_metadata_address(&mint) {
        Some(metadata) => Some(
            CreatePlan {
                metadata,
                mint,
                data: new_token_data(name, symbol, uri, seller_fee_basis_points),
                is_mutable,
            },
        ),
        None => None,
    }
}

/// Resolve an update invocation from the fetched account bytes: an absent
/// account or undecodable bytes fail with their own errors; otherwise the
/// plan carries the merged record (caller overrides over fetched values, the
/// protected fields verbatim) and the fetched values of the three
/// overridable fields.
pub fn plan_update(
    metadata: Address,
    fetched: Option<Vec<u8>>,
    name: Option<String>,
    symbol: Option<String>,
    uri: Option<String>,
) -> (r: Result<UpdatePlan, MetaError>)
    requires
        metadata.wf(),
    ensures
        (match r {
            Ok(p) => {
                &&& fetched matches Some(b) && (match p_metadata(b@) {
                    Some(m) => p.data@ == merge_spec(
                        data_of(m),
                        opt_str_view(name),
                        opt_str_view(symbol),
                        opt_str_view(uri),
                    ) && p.old_name@ == m.name && p.old_symbol@ == m.symbol && p.old_uri@ == m.uri,
                    None => false,
                })
                &&& p.metadata@ == metadata@
                &&& p.metadata.wf()
                &&& p.data.wf()
            },
            Err(e) => (match fetched {
                None => e matches MetaError::AccountNotFound,
                Some(b) => p_metadata(b@) is None && (e matches MetaError::Decode { .. }),
            }),
        }),
{
    let existing = match interpret_account_fetch(fetched) {
        Ok(m) => m,
        Err(e) => {
            return Err(e);
        },
    };
    let old_name = existing.name.clone();
    let old_symbol = existing.symbol.clone();
    let old_uri = existing.uri.clone();
    let data = merge_update(existing, name, symbol, uri);
    Ok(UpdatePlan { metadata, data, old_name, old_symbol, old_uri })
}

/// Turn a create plan into the single instruction the transaction carries:
/// exactly the create-variant instruction over the plan's metadata address,
/// mint, record and mutability flag, with the authority as mint authority,
/// fee payer and signing update authority.
pub fn create_instruction(plan: &CreatePlan, authority: &Address) -> (ix:
    solana_sdk::instruction::Instruction)
    requires
        plan.metadata.wf(),
        plan.mint.wf(),
        plan.data.wf(),
        authority.wf(),
    ensures
        ix == create_ix_of(plan.metadata@, plan.mint@, authority@, plan.data@, plan.is_mutable),
{
    build_create_instruction(&plan.metadata, &plan.mint, authority, &plan.data, plan.is_mutable)
}

/// Turn an update plan into the single instruction the transaction carries:
/// exactly the update-variant instruction naming the plan's metadata address
/// and the signing authority and carrying the merged record.
pub fn update_instruction(plan: &UpdatePlan, authority: &Address) -> (ix:
    solana_sdk::instruction::Instruction)
    requires
        plan.metadata.wf(),
        plan.data.wf(),
        authority.wf(),
    ensures
        ix == update_ix_of(plan.metadata@, authority@, plan.data@),
{
    build_update_instruction(&plan.metadata, authority, &plan.data)
}

} // verus!
