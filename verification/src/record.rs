//! The metadata record: the descriptive fields attached to a mint, the
//! decoded on-chain account that carries them, and the merge that the update
//! path performs.
use crate::address::Address;
use vstd::prelude::*;
use vstd::string::StrSliceExecFns;

verus! {

/// A royalty recipient entry of the record.
#[derive(Debug)]
pub struct CreatorEntry {
    pub address: Address,
    pub verified: bool,
    pub share: u8,
}

/// A reference to the collection a token belongs to.
#[derive(Debug)]
pub struct CollectionRef {
    pub verified: bool,
    pub key: Address,
}

/// How usages of a token are consumed.
#[derive(Structural, PartialEq, Eq, Clone, Copy, Debug)]
pub enum UseMethod {
    Burn,
    Multiple,
    Single,
}

/// The usage-limit descriptor of the record.
#[derive(Debug)]
pub struct UsageLimits {
    pub use_method: UseMethod,
    pub remaining: u64,
    pub total: u64,
}

/// The collection-details descriptor stored after the record proper.
#[derive(Debug)]
pub enum CollectionDetails {
    V1 { size: u64 },
    V2 { padding: Vec<u8> },
}

/// The programmable-rule-set configuration stored after the record proper.
#[derive(Debug)]
pub struct ProgrammableConfig {
    pub rule_set: Option<Address>,
}

/// The mathematical value of a `CreatorEntry`.
#[verifier::ext_equal]
pub struct CreatorV {
    pub address: Seq<u8>,
    pub verified: bool,
    pub share: u8,
}

/// The mathematical value of a `CollectionRef`.
#[verifier::ext_equal]
pub struct CollectionV {
    pub verified: bool,
    pub key: Seq<u8>,
}

/// The mathematical value of a `UsageLimits`.
#[verifier::ext_equal]
pub struct UsesV {
    pub use_method: UseMethod,
    pub remaining: u64,
    pub total: u64,
}

/// The mathematical value of a `CollectionDetails`.
#[verifier::ext_equal]
pub enum CollectionDetailsV {
    V1 { size: u64 },
    V2 { padding: Seq<u8> },
}

/// The mathematical value of a `ProgrammableConfig`.
#[verifier::ext_equal]
pub struct ProgrammableConfigV {
    pub rule_set: Option<Seq<u8>>,
}

impl View for CreatorEntry {
    type V = CreatorV;

    open spec fn view(&self) -> CreatorV {
        CreatorV { address: self.address@, verified: self.verified, share: self.share }
    }
}

impl View for CollectionRef {
    type V = CollectionV;

    open spec fn view(&self) -> CollectionV {
        CollectionV { verified: self.verified, key: self.key@ }
    }
}

impl View for UsageLimits {
    type V = UsesV;

    open spec fn view(&self) -> UsesV {
        UsesV {
            use_method: self.use_method,
            remaining: self.remaining,
            total: self.total,
        }
    }
}

impl View for CollectionDetails {
    type V = CollectionDetailsV;

    open spec fn view(&self) -> CollectionDetailsV {
        match self {
            CollectionDetails::V1 { size } => CollectionDetailsV::V1 { size: *size },
            CollectionDetails::V2 { padding } => CollectionDetailsV::V2 { padding: padding@ },
        }
    }
}

impl View for ProgrammableConfig {
    type V = ProgrammableConfigV;

    open spec fn view(&self) -> ProgrammableConfigV {
        ProgrammableConfigV {
            rule_set: match self.rule_set {
                Some(a) => Some(a@),
                None => None,
            },
        }
    }
}

/// The descriptive record of a mint: what the create path constructs fresh
/// and the update path merges.
#[derive(Debug)]
pub struct TokenData {
    pub name: String,
    pub symbol: String,
    pub uri: String,
    pub seller_fee_basis_points: u16,
    pub creators: Option<Vec<CreatorEntry>>,
    pub collection: Option<CollectionRef>,
    pub uses: Option<UsageLimits>,
}

/// The mathematical value of a `TokenData`.
#[verifier::ext_equal]
pub struct TokenDataV {
    pub name: Seq<char>,
    pub symbol: Seq<char>,
    pub uri: Seq<char>,
    pub seller_fee_basis_points: u16,
    pub creators: Option<Seq<CreatorV>>,
    pub collection: Option<CollectionV>,
    pub uses: Option<UsesV>,
}

impl View for TokenData {
    type V = TokenDataV;

    open spec fn view(&self) -> TokenDataV {
        TokenDataV {
            name: self.name@,
            symbol: self.symbol@,
            uri: self.uri@,
            seller_fee_basis_points: self.seller_fee_basis_points,
            creators: match self.creators {
                Some(v) => Some(v@.map_values(|c: CreatorEntry| c@)),
                None => None,
            },
            collection: match self.collection {
                Some(c) => Some(c@),
                None => None,
            },
            uses: match self.uses {
                Some(u) => Some(u@),
                None => None,
            },
        }
    }
}

/// The full decoded metadata account: the account-type discriminator, the
/// fixed header addresses, the record, and the descriptors stored after it.
#[derive(Debug)]
pub struct MetadataAccount {
    pub key: u8,
    pub update_authority: Address,
    pub mint: Address,
    pub name: String,
    pub symbol: String,
    pub uri: String,
    pub seller_fee_basis_points: u16,
    pub creators: Option<Vec<CreatorEntry>>,
    pub primary_sale_happened: bool,
    pub is_mutable: bool,
    pub edition_nonce: Option<u8>,
    pub token_standard: Option<u8>,
    pub collection: Option<CollectionRef>,
    pub uses: Option<UsageLimits>,
    pub collection_details: Option<CollectionDetails>,
    pub programmable_config: Option<ProgrammableConfig>,
}

/// The mathematical value of a `MetadataAccount`.
#[verifier::ext_equal]
pub struct MetadataAccountV {
    pub key: u8,
    pub update_authority: Seq<u8>,
    pub mint: Seq<u8>,
    pub name: Seq<char>,
    pub symbol: Seq<char>,
    pub uri: Seq<char>,
    pub seller_fee_basis_points: u16,
    pub creators: Option<Seq<CreatorV>>,
    pub primary_sale_happened: bool,
    pub is_mutable: bool,
    pub edition_nonce: Option<u8>,
    pub token_standard: Option<u8>,
    pub collection: Option<CollectionV>,
    pub uses: Option<UsesV>,
    pub collection_details: Option<CollectionDetailsV>,
    pub programmable_config: Option<ProgrammableConfigV>,
}

impl View for MetadataAccount {
    type V = MetadataAccountV;

    open spec fn view(&self) -> MetadataAccountV {
        MetadataAccountV {
            key: self.key,
            update_authority: self.update_authority@,
            mint: self.mint@,
            name: self.name@,
            symbol: self.symbol@,
            uri: self.uri@,
            seller_fee_basis_points: self.seller_fee_basis_points,
            creators: match self.creators {
                Some(v) => Some(v@.map_values(|c: CreatorEntry| c@)),
                None => None,
            },
            primary_sale_happened: self.primary_sale_happened,
            is_mutable: self.is_mutable,
            edition_nonce: self.edition_nonce,
            token_standard: self.token_standard,
            collection: match self.collection {
                Some(c) => Some(c@),
                None => None,
            },
            uses: match self.uses {
                Some(u) => Some(u@),
                None => None,
            },
            collection_details: match self.collection_details {
                Some(d) => Some(d@),
                None => None,
            },
            programmable_config: match self.programmable_config {
                Some(p) => Some(p@),
                None => None,
            },
        }
    }
}

/// A well-formed creator entry carries a 32-byte address.
pub open spec fn creator_v_wf(c: CreatorV) -> bool {
    c.address.len() == 32
}

/// Every creator of the list, if there is one, is well-formed.
pub open spec fn creators_v_wf(cs: Option<Seq<CreatorV>>) -> bool {
    match cs {
        Some(s) => forall|i: int| 0 <= i < s.len() ==> creator_v_wf(#[trigger] s[i]),
        None => true,
    }
}

/// The collection reference, if there is one, carries a 32-byte key.
pub open spec fn collection_v_wf(c: Option<CollectionV>) -> bool {
    match c {
        Some(cc) => cc.key.len() == 32,
        None => true,
    }
}

/// A well-formed record: all addresses it carries have their fixed length.
pub open spec fn token_data_v_wf(d: TokenDataV) -> bool {
    creators_v_wf(d.creators) && collection_v_wf(d.collection)
}

/// A well-formed decoded account: the discriminator and every enumeration tag
/// is in range, and every address has its fixed length.
pub open spec fn metadata_v_wf(m: MetadataAccountV) -> bool {
    &&& m.key <= 14
    &&& m.update_authority.len() == 32
    &&& m.mint.len() == 32
    &&& creators_v_wf(m.creators)
    &&& collection_v_wf(m.collection)
    &&& (match m.token_standard {
        Some(t) => t <= 5,
        None => true,
    })
    &&& (match m.collection_details {
        Some(d) => match d {
            CollectionDetailsV::V1 { .. } => true,
            CollectionDetailsV::V2 { padding } => padding.len() == 8,
        },
        None => true,
    })
    &&& (match m.programmable_config {
        Some(p) => match p.rule_set {
            Some(k) => k.len() == 32,
            None => true,
        },
        None => true,
    })
}

impl TokenData {
    /// Well-formedness of the executable record, by its value.
    pub open spec fn wf(&self) -> bool {
        token_data_v_wf(self@)
    }
}

impl MetadataAccount {
    /// Well-formedness of the executable account, by its value.
    pub open spec fn wf(&self) -> bool {
        metadata_v_wf(self@)
    }
}

/// The record portion of a decoded metadata account.
pub open spec fn data_of(m: MetadataAccountV) -> TokenDataV {
    TokenDataV {
        name: m.name,
        symbol: m.symbol,
        uri: m.uri,
        seller_fee_basis_points: m.seller_fee_basis_points,
        creators: m.creators,
        collection: m.collection,
        uses: m.uses,
    }
}

/// The view of an optional caller-supplied string.
pub open spec fn opt_str_view(o: Option<String>) -> Option<Seq<char>> {
    match o {
        Some(s) => Some(s@),
        None => None,
    }
}

/// The record that an update submits: each of name, symbol and URI is the
/// caller's value where one was supplied and the existing value where not;
/// royalty basis points, creators, collection and uses are always the
/// existing values.
pub open spec fn merge_spec(
    d: TokenDataV,
    name: Option<Seq<char>>,
    symbol: Option<Seq<char>>,
    uri: Option<Seq<char>>,
) -> TokenDataV {
    TokenDataV {
        name: match name {
            Some(n) => n,
            None => d.name,
        },
        symbol: match symbol {
            Some(s) => s,
            None => d.symbol,
        },
        uri: match uri {
            Some(u) => u,
            None => d.uri,
        },
        seller_fee_basis_points: d.seller_fee_basis_points,
        creators: d.creators,
        collection: d.collection,
        uses: d.uses,
    }
}

/// Build the record for a fresh create: caller-supplied name, symbol, URI and
/// royalty basis points; never any creators, collection or uses.
pub fn new_token_data(name: String, symbol: String, uri: String, seller_fee_basis_points: u16) -> (r:
    TokenData)
    ensures
        r@.name == name@,
        r@.symbol == symbol@,
        r@.uri == uri@,
        r@.seller_fee_basis_points == seller_fee_basis_points,
        r@.creators is None,
        r@.collection is None,
        r@.uses is None,
        r.wf(),
{
    TokenData {
        name,
        symbol,
        uri,
        seller_fee_basis_points,
        creators: None,
        collection: None,
        uses: None,
    }
}

/// Merge caller-supplied overrides into the fetched record: any field not
/// supplied keeps its fetched value, and the fields the update path never
/// exposes are carried forward unchanged.
pub fn merge_update(
    existing: MetadataAccount,
    name: Option<String>,
    symbol: Option<String>,
    uri: Option<String>,
) -> (r: TokenData)
    ensures
        r@ == merge_spec(
            data_of(existing@),
            opt_str_view(name),
            opt_str_view(symbol),
            opt_str_view(uri),
        ),
        metadata_v_wf(existing@) ==> r.wf(),
{
    let ghost e0 = existing@;
    let r = TokenData {
        name: match name {
            Some(n) => n,
            None => existing.name,
        },
        symbol: match symbol {
            Some(s) => s,
            None => existing.symbol,
        },
        uri: match uri {
            Some(u) => u,
            None => existing.uri,
        },
        seller_fee_basis_points: existing.seller_fee_basis_points,
        creators: existing.creators,
        collection: existing.collection,
        uses: existing.uses,
    };
    proof {
        assert(r@ =~= merge_spec(
            data_of(e0),
            opt_str_view(name),
            opt_str_view(symbol),
            opt_str_view(uri),
        ));
    }
    r
}

/// The text with its trailing null padding removed.
pub open spec fn stripped(s: Seq<char>) -> Seq<char>
    decreases s.len(),
{
    if s.len() > 0 && s[s.len() - 1] == '\0' {
        stripped(s.drop_last())
    } else {
        s
    }
}

/// Strip the trailing null padding of a fixed-width on-chain string, for
/// human display; the padded form itself is never altered.
pub fn strip_trailing_nulls(s: &str) -> (r: String)
    ensures
        r@ == stripped(s@),
{
    let mut end = s.unicode_len();
    proof {
        assert(s@.subrange(0, end as int) =~= s@);
    }
    while end > 0 && s.get_char(end - 1) == '\0'
        invariant
            end <= s@.len(),
            stripped(s@) == stripped(s@.subrange(0, end as int)),
        decreases end,
    {
        proof {
            let pre = s@.subrange(0, end as int);
            assert(pre[pre.len() - 1] == '\0');
            assert(pre.drop_last() =~= s@.subrange(0, end - 1));
        }
        end = end - 1;
    }
    let r = s.substring_char(0, end);
    proof {
        let pre = s@.subrange(0, end as int);
        if end > 0 {
            assert(pre[pre.len() - 1] == s@[end - 1]);
        }
        assert(stripped(pre) == pre);
    }
    r.to_owned()
}

} // verus!
