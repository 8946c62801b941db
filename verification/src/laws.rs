//! The general properties of the library, stated and proved once.
use crate::address::derived_metadata_address;
use crate::record::TokenDataV;
use crate::record::merge_spec;
use vstd::prelude::*;

verus! {

/// Law: the metadata address derivation is deterministic — its outcome is a
/// function of the mint alone, so repeated derivations on equal mints yield
/// the identical outcome (the same address, or in the unreachable case no
/// address both times). `derive_metadata_address` returns exactly this
/// outcome, so the law carries to repeated calls.
pub proof fn lemma_derivation_deterministic(m1: Seq<u8>, m2: Seq<u8>)
    requires
        m1 == m2,
    ensures
        derived_metadata_address(m1) == derived_metadata_address(m2),
{
}

/// Law: an update that supplies none of name, symbol and URI merges to
/// exactly the fetched record.
pub proof fn lemma_merge_no_overrides(d: TokenDataV)
    ensures
        merge_spec(d, None, None, None) == d,
{
    assert(merge_spec(d, None, None, None) =~= d);
}

/// Law: an update that supplies only a name changes only the name; every
/// other field keeps its fetched value.
pub proof fn lemma_merge_only_name(d: TokenDataV, n: Seq<char>)
    ensures
        merge_spec(d, Some(n), None, None).name == n,
        merge_spec(d, Some(n), None, None).symbol == d.symbol,
        merge_spec(d, Some(n), None, None).uri == d.uri,
        merge_spec(d, Some(n), None, None).seller_fee_basis_points == d.seller_fee_basis_points,
        merge_spec(d, Some(n), None, None).creators == d.creators,
        merge_spec(d, Some(n), None, None).collection == d.collection,
        merge_spec(d, Some(n), None, None).uses == d.uses,
{
}

/// Law: an update that supplies only a symbol changes only the symbol.
pub proof fn lemma_merge_only_symbol(d: TokenDataV, s: Seq<char>)
    ensures
        merge_spec(d, None, Some(s), None).symbol == s,
        merge_spec(d, None, Some(s), None).name == d.name,
        merge_spec(d, None, Some(s), None).uri == d.uri,
        merge_spec(d, None, Some(s), None).seller_fee_basis_points == d.seller_fee_basis_points,
        merge_spec(d, None, Some(s), None).creators == d.creators,
        merge_spec(d, None, Some(s), None).collection == d.collection,
        merge_spec(d, None, Some(s), None).uses == d.uses,
{
}

/// Law: an update that supplies only a URI changes only the URI.
pub proof fn lemma_merge_only_uri(d: TokenDataV, u: Seq<char>)
    ensures
        merge_spec(d, None, None, Some(u)).uri == u,
        merge_spec(d, None, None, Some(u)).name == d.name,
        merge_spec(d, None, None, Some(u)).symbol == d.symbol,
        merge_spec(d, None, None, Some(u)).seller_fee_basis_points == d.seller_fee_basis_points,
        merge_spec(d, None, None, Some(u)).creators == d.creators,
        merge_spec(d, None, None, Some(u)).collection == d.collection,
        merge_spec(d, None, None, Some(u)).uses == d.uses,
{
}

/// Law: royalty basis points, creators, collection and uses can never be
/// altered through the update path — whatever the caller supplies, the
/// merged record carries the fetched values of these fields verbatim.
pub proof fn lemma_merge_protected_fields(
    d: TokenDataV,
    name: Option<Seq<char>>,
    symbol: Option<Seq<char>>,
    uri: Option<Seq<char>>,
)
    ensures
        merge_spec(d, name, symbol, uri).seller_fee_basis_points == d.seller_fee_basis_points,
        merge_spec(d, name, symbol, uri).creators == d.creators,
        merge_spec(d, name, symbol, uri).collection == d.collection,
        merge_spec(d, name, symbol, uri).uses == d.uses,
{
}

} // verus!
