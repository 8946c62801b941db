//! Decoding of raw metadata account bytes.
//!
//! The account's binary layout is fixed: a one-byte account-type
//! discriminator, two 32-byte addresses, the record's length-prefixed strings
//! and numeric fields, and a tail of optional descriptors. Integers are
//! little-endian; strings are length-prefixed UTF-8; an optional value is a
//! one-byte tag (0 or 1) followed, when the tag is 1, by the payload; an
//! enumeration is a one-byte variant index. Bytes after the last field are
//! padding and are ignored. `p_metadata` states the whole layout as a
//! mathematical function; the executable decoder returns exactly what it
//! yields.
use crate::error::MetaError;
use crate::record::CollectionRef;
use crate::record::CollectionDetails;
use crate::record::CollectionDetailsV;
use crate::record::CollectionV;
use crate::record::CreatorEntry;
use crate::record::CreatorV;
use crate::record::MetadataAccount;
use crate::record::MetadataAccountV;
use crate::record::ProgrammableConfig;
use crate::record::ProgrammableConfigV;
use crate::record::UseMethod;
use crate::record::UsageLimits;
use crate::record::UsesV;
use crate::record::creator_v_wf;
use crate::address::Address;
use vstd::prelude::*;

verus! {

/// The characters that a byte sequence holds when it is valid UTF-8, if it
/// is.
pub uninterp spec fn utf8_chars(bytes: Seq<u8>) -> Option<Seq<char>>;

/// Relies on `String::from_utf8`: succeeds exactly on valid UTF-8 and keeps
/// the character content; a pure function of the bytes. On bytes that are all
/// ASCII (below 128) it succeeds with one character per byte.
#[verifier::external_body]
fn bytes_to_string(v: Vec<u8>) -> (r: Option<String>)
    ensures
        (match r {
            Some(s) => utf8_chars(v@) == Some(s@) && ((forall|i: int|
                0 <= i < v@.len() ==> v@[i] < 128) ==> s@ == v@.map_values(|b: u8| b as char)),
            None => utf8_chars(v@) is None && (exists|i: int|
                0 <= i < v@.len() && v@[i] >= 128),
        }),
{
    String::from_utf8(v).ok()
}

/// One byte at position `i`.
pub open spec fn p_u8(b: Seq<u8>, i: int) -> Option<(u8, int)> {
    if 0 <= i && i + 1 <= b.len() {
        Some((b[i], i + 1))
    } else {
        None
    }
}

/// A little-endian two-byte integer at position `i`.
pub open spec fn p_u16(b: Seq<u8>, i: int) -> Option<(u16, int)> {
    if 0 <= i && i + 2 <= b.len() {
        Some((((b[i] as int) + (b[i + 1] as int) * 0x100) as u16, i + 2))
    } else {
        None
    }
}

/// A little-endian four-byte integer at position `i`.
pub open spec fn p_u32(b: Seq<u8>, i: int) -> Option<(u32, int)> {
    if 0 <= i && i + 4 <= b.len() {
        Some(
            (((b[i] as int) + (b[i + 1] as int) * 0x100 + (b[i + 2] as int) * 0x10000 + (b[i
                + 3] as int) * 0x1000000) as u32, i + 4),
        )
    } else {
        None
    }
}

/// A little-endian eight-byte integer at position `i`.
pub open spec fn p_u64(b: Seq<u8>, i: int) -> Option<(u64, int)> {
    if 0 <= i && i + 8 <= b.len() {
        Some(
            (((b[i] as int) + (b[i + 1] as int) * 0x100 + (b[i + 2] as int) * 0x10000 + (b[i
                + 3] as int) * 0x1000000 + (b[i + 4] as int) * 0x100000000 + (b[i + 5] as int)
                * 0x10000000000 + (b[i + 6] as int) * 0x1000000000000 + (b[i + 7] as int)
                * 0x100000000000000) as u64, i + 8),
        )
    } else {
        None
    }
}

/// `n` raw bytes at position `i`.
pub open spec fn p_bytes(b: Seq<u8>, i: int, n: int) -> Option<(Seq<u8>, int)> {
    if 0 <= i && 0 <= n && i + n <= b.len() {
        Some((b.subrange(i, i + n), i + n))
    } else {
        None
    }
}

/// A boolean: one byte that must be 0 or 1.
pub open spec fn p_bool(b: Seq<u8>, i: int) -> Option<(bool, int)> {
    match p_u8(b, i) {
        Some((v, j)) => if v == 0 {
            Some((false, j))
        } else if v == 1 {
            Some((true, j))
        } else {
            None
        },
        None => None,
    }
}

/// A length-prefixed UTF-8 string.
pub open spec fn p_string(b: Seq<u8>, i: int) -> Option<(Seq<char>, int)> {
    match p_u32(b, i) {
        Some((n, j)) => match p_bytes(b, j, n as int) {
            Some((bs, k)) => match utf8_chars(bs) {
                Some(cs) => Some((cs, k)),
                None => None,
            },
            None => None,
        },
        None => None,
    }
}

/// A creator entry: a 32-byte address, a verified flag, and a share.
pub open spec fn p_creator(b: Seq<u8>, i: int) -> Option<(CreatorV, int)> {
    match p_bytes(b, i, 32) {
        Some((addr, j)) => match p_bool(b, j) {
            Some((verified, k)) => match p_u8(b, k) {
                Some((share, m)) => Some((CreatorV { address: addr, verified, share }, m)),
                None => None,
            },
            None => None,
        },
        None => None,
    }
}

/// `n` consecutive creator entries.
pub open spec fn p_creators(b: Seq<u8>, i: int, n: nat) -> Option<(Seq<CreatorV>, int)>
    decreases n,
{
    if n == 0 {
        Some((Seq::empty(), i))
    } else {
        match p_creator(b, i) {
            Some((c, j)) => match p_creators(b, j, (n - 1) as nat) {
                Some((cs, k)) => Some((seq![c] + cs, k)),
                None => None,
            },
            None => None,
        }
    }
}

/// An optional length-prefixed creator list.
pub open spec fn p_opt_creators(b: Seq<u8>, i: int) -> Option<(Option<Seq<CreatorV>>, int)> {
    match p_u8(b, i) {
        Some((tag, j)) => if tag == 0 {
            Some((None, j))
        } else if tag == 1 {
            match p_u32(b, j) {
                Some((n, k)) => match p_creators(b, k, n as nat) {
                    Some((cs, m)) => Some((Some(cs), m)),
                    None => None,
                },
                None => None,
            }
        } else {
            None
        },
        None => None,
    }
}

/// An optional single byte.
pub open spec fn p_opt_u8(b: Seq<u8>, i: int) -> Option<(Option<u8>, int)> {
    match p_u8(b, i) {
        Some((tag, j)) => if tag == 0 {
            Some((None, j))
        } else if tag == 1 {
            match p_u8(b, j) {
                Some((v, k)) => Some((Some(v), k)),
                None => None,
            }
        } else {
            None
        },
        None => None,
    }
}

/// An optional token-standard tag, whose variant index must be in range.
pub open spec fn p_opt_token_standard(b: Seq<u8>, i: int) -> Option<(Option<u8>, int)> {
    match p_opt_u8(b, i) {
        Some((v, j)) => match v {
            Some(t) => if t <= 5 {
                Some((Some(t), j))
            } else {
                None
            },
            None => Some((None, j)),
        },
        None => None,
    }
}

/// An optional collection reference: a verified flag then a 32-byte key.
pub open spec fn p_opt_collection(b: Seq<u8>, i: int) -> Option<(Option<CollectionV>, int)> {
    match p_u8(b, i) {
        Some((tag, j)) => if tag == 0 {
            Some((None, j))
        } else if tag == 1 {
            match p_bool(b, j) {
                Some((verified, k)) => match p_bytes(b, k, 32) {
                    Some((key, m)) => Some((Some(CollectionV { verified, key }), m)),
                    None => None,
                },
                None => None,
            }
        } else {
            None
        },
        None => None,
    }
}

/// The use method a variant index denotes.
pub open spec fn use_method_of(t: u8) -> UseMethod {
    if t == 0 {
        UseMethod::Burn
    } else if t == 1 {
        UseMethod::Multiple
    } else {
        UseMethod::Single
    }
}

/// An optional usage-limit descriptor: a method tag and two counters.
pub open spec fn p_opt_uses(b: Seq<u8>, i: int) -> Option<(Option<UsesV>, int)> {
    match p_u8(b, i) {
        Some((tag, j)) => if tag == 0 {
            Some((None, j))
        } else if tag == 1 {
            match p_u8(b, j) {
                Some((t, k)) => if t <= 2 {
                    match p_u64(b, k) {
                        Some((remaining, m)) => match p_u64(b, m) {
                            Some((total, q)) => Some(
                                (Some(UsesV { use_method: use_method_of(t), remaining, total }), q),
                            ),
                            None => None,
                        },
                        None => None,
                    }
                } else {
                    None
                },
                None => None,
            }
        } else {
            None
        },
        None => None,
    }
}

/// An optional collection-details descriptor, one of two variants.
pub open spec fn p_opt_collection_details(b: Seq<u8>, i: int) -> Option<
    (Option<CollectionDetailsV>, int),
> {
    match p_u8(b, i) {
        Some((tag, j)) => if tag == 0 {
            Some((None, j))
        } else if tag == 1 {
            match p_u8(b, j) {
                Some((v, k)) => if v == 0 {
                    match p_u64(b, k) {
                        Some((size, m)) => Some((Some(CollectionDetailsV::V1 { size }), m)),
                        None => None,
                    }
                } else if v == 1 {
                    match p_bytes(b, k, 8) {
                        Some((padding, m)) => Some((Some(CollectionDetailsV::V2 { padding }), m)),
                        None => None,
                    }
                } else {
                    None
                },
                None => None,
            }
        } else {
            None
        },
        None => None,
    }
}

/// An optional programmable configuration: its single variant holds an
/// optional 32-byte rule-set address.
pub open spec fn p_opt_prog_config(b: Seq<u8>, i: int) -> Option<
    (Option<ProgrammableConfigV>, int),
> {
    match p_u8(b, i) {
        Some((tag, j)) => if tag == 0 {
            Some((None, j))
        } else if tag == 1 {
            match p_u8(b, j) {
                Some((v, k)) => if v == 0 {
                    match p_u8(b, k) {
                        Some((rtag, m)) => if rtag == 0 {
                            Some((Some(ProgrammableConfigV { rule_set: None }), m))
                        } else if rtag == 1 {
                            match p_bytes(b, m, 32) {
                                Some((rs, q)) => Some(
                                    (Some(ProgrammableConfigV { rule_set: Some(rs) }), q),
                                ),
                                None => None,
                            }
                        } else {
                            None
                        },
                        None => None,
                    }
                } else {
                    None
                },
                None => None,
            }
        } else {
            None
        },
        None => None,
    }
}

/// The whole account: every field of the fixed layout in order. Trailing
/// bytes after the last field are ignored.
pub open spec fn p_metadata(b: Seq<u8>) -> Option<MetadataAccountV> {
    match p_u8(b, 0) {
        Some((key, i1)) => if key <= 14 {
            match p_bytes(b, i1, 32) {
                Some((update_authority, i2)) => match p_bytes(b, i2, 32) {
                    Some((mint, i3)) => match p_string(b, i3) {
                        Some((name, i4)) => match p_string(b, i4) {
                            Some((symbol, i5)) => match p_string(b, i5) {
                                Some((uri, i6)) => match p_u16(b, i6) {
                                    Some((sfbp, i7)) => match p_opt_creators(b, i7) {
                                        Some((creators, i8)) => match p_bool(b, i8) {
                                            Some((primary, i9)) => match p_bool(b, i9) {
                                                Some((mutable, i10)) => match p_opt_u8(b, i10) {
                                                    Some((nonce, i11)) => match p_opt_token_standard(
                                                        b,
                                                        i11,
                                                    ) {
                                                        Some((ts, i12)) => match p_opt_collection(
                                                            b,
                                                            i12,
                                                        ) {
                                                            Some((coll, i13)) => match p_opt_uses(
                                                                b,
                                                                i13,
                                                            ) {
                                                                Some(
                                                                    (uses, i14),
                                                                ) => match p_opt_collection_details(
                                                                    b,
                                                                    i14,
                                                                ) {
                                                                    Some(
                                                                        (details, i15),
                                                                    ) => match p_opt_prog_config(
                                                                        b,
                                                                        i15,
                                                                    ) {
                                                                        Some((config, _i16)) => Some(
                                                                            MetadataAccountV {
                                                                                key,
                                                                                update_authority,
                                                                                mint,
                                                                                name,
                                                                                symbol,
                                                                                uri,
                                                                                seller_fee_basis_points:
                                                                                    sfbp,
                                                                                creators,
                                                                                primary_sale_happened:
                                                                                    primary,
                                                                                is_mutable: mutable,
                                                                                edition_nonce: nonce,
                                                                                token_standard: ts,
                                                                                collection: coll,
                                                                                uses,
                                                                                collection_details:
                                                                                    details,
                                                                                programmable_config:
                                                                                    config,
                                                                            },
                                                                        ),
                                                                        None => None,
                                                                    },
                                                                    None => None,
                                                                },
                                                                None => None,
                                                            },
                                                            None => None,
                                                        },
                                                        None => None,
                                                    },
                                                    None => None,
                                                },
                                                None => None,
                                            },
                                            None => None,
                                        },
                                        None => None,
                                    },
                                    None => None,
                                },
                                None => None,
                            },
                            None => None,
                        },
                        None => None,
                    },
                    None => None,
                },
                None => None,
            }
        } else {
            None
        },
        None => None,
    }
}

fn rd_u8(b: &Vec<u8>, i: usize) -> (r: Option<(u8, usize)>)
    ensures
        (match r {
            Some((v, j)) => p_u8(b@, i as int) == Some((v, j as int)),
            None => p_u8(b@, i as int) is None,
        }),
{
    if i < b.len() {
        Some((b[i], i + 1))
    } else {
        None
    }
}

fn rd_u16(b: &Vec<u8>, i: usize) -> (r: Option<(u16, usize)>)
    ensures
        (match r {
            Some((v, j)) => p_u16(b@, i as int) == Some((v, j as int)),
            None => p_u16(b@, i as int) is None,
        }),
{
    if b.len() >= 2 && i <= b.len() - 2 {
        let v = b[i] as u16 + (b[i + 1] as u16) * 0x100;
        Some((v, i + 2))
    } else {
        None
    }
}

fn rd_u32(b: &Vec<u8>, i: usize) -> (r: Option<(u32, usize)>)
    ensures
        (match r {
            Some((v, j)) => p_u32(b@, i as int) == Some((v, j as int)),
            None => p_u32(b@, i as int) is None,
        }),
{
    if b.len() >= 4 && i <= b.len() - 4 {
        let v = b[i] as u32 + (b[i + 1] as u32) * 0x100 + (b[i + 2] as u32) * 0x10000 + (b[i
            + 3] as u32) * 0x1000000;
        Some((v, i + 4))
    } else {
        None
    }
}

fn rd_u64(b: &Vec<u8>, i: usize) -> (r: Option<(u64, usize)>)
    ensures
        (match r {
            Some((v, j)) => p_u64(b@, i as int) == Some((v, j as int)),
            None => p_u64(b@, i as int) is None,
        }),
{
    if b.len() >= 8 && i <= b.len() - 8 {
        let v = b[i] as u64 + (b[i + 1] as u64) * 0x100 + (b[i + 2] as u64) * 0x10000 + (b[i
            + 3] as u64) * 0x1000000 + (b[i + 4] as u64) * 0x100000000 + (b[i + 5] as u64)
            * 0x10000000000 + (b[i + 6] as u64) * 0x1000000000000 + (b[i + 7] as u64)
            * 0x100000000000000;
        Some((v, i + 8))
    } else {
        None
    }
}

fn rd_bytes(b: &Vec<u8>, i: usize, n: usize) -> (r: Option<(Vec<u8>, usize)>)
    ensures
        (match r {
            Some((v, j)) => p_bytes(b@, i as int, n as int) == Some((v@, j as int)),
            None => p_bytes(b@, i as int, n as int) is None,
        }),
{
    if n <= b.len() && i <= b.len() - n {
        let mut v: Vec<u8> = Vec::new();
        let mut k: usize = 0;
        while k < n
            invariant
                i + n <= b@.len(),
                b@.len() <= usize::MAX,
                k <= n,
                v@ =~= b@.subrange(i as int, i + k),
            decreases n - k,
        {
            proof {
                assert(i + k < b@.len());
            }
            v.push(b[i + k]);
            proof {
                assert(v@ =~= b@.subrange(i as int, i + k + 1));
            }
            k = k + 1;
        }
        proof {
            assert(v@ =~= b@.subrange(i as int, i + n));
        }
        Some((v, i + n))
    } else {
        None
    }
}

fn rd_bool(b: &Vec<u8>, i: usize) -> (r: Option<(bool, usize)>)
    ensures
        (match r {
            Some((v, j)) => p_bool(b@, i as int) == Some((v, j as int)),
            None => p_bool(b@, i as int) is None,
        }),
{
    match rd_u8(b, i) {
        Some((v, j)) => if v == 0 {
            Some((false, j))
        } else if v == 1 {
            Some((true, j))
        } else {
            None
        },
        None => None,
    }
}

fn rd_string(b: &Vec<u8>, i: usize) -> (r: Option<(String, usize)>)
    ensures
        (match r {
            Some((s, j)) => p_string(b@, i as int) == Some((s@, j as int)),
            None => p_string(b@, i as int) is None,
        }),
{
    match rd_u32(b, i) {
        Some((n, j)) => match rd_bytes(b, j, n as usize) {
            Some((bs, k)) => match bytes_to_string(bs) {
                Some(s) => Some((s, k)),
                None => None,
            },
            None => None,
        },
        None => None,
    }
}

fn rd_address(b: &Vec<u8>, i: usize) -> (r: Option<(Address, usize)>)
    ensures
        (match r {
            Some((a, j)) => p_bytes(b@, i as int, 32) == Some((a@, j as int)) && a.wf(),
            None => p_bytes(b@, i as int, 32) is None,
        }),
{
    match rd_bytes(b, i, 32) {
        Some((v, j)) => Some((Address { bytes: v }, j)),
        None => None,
    }
}

fn rd_creator(b: &Vec<u8>, i: usize) -> (r: Option<(CreatorEntry, usize)>)
    ensures
        (match r {
            Some((c, j)) => p_creator(b@, i as int) == Some((c@, j as int)) && creator_v_wf(c@),
            None => p_creator(b@, i as int) is None,
        }),
{
    match rd_address(b, i) {
        Some((address, j)) => match rd_bool(b, j) {
            Some((verified, k)) => match rd_u8(b, k) {
                Some((share, m)) => Some((CreatorEntry { address, verified, share }, m)),
                None => None,
            },
            None => None,
        },
        None => None,
    }
}

fn rd_creators(b: &Vec<u8>, i: usize, n: u32) -> (r: Option<(Vec<CreatorEntry>, usize)>)
    ensures
        (match r {
            Some((v, j)) => p_creators(b@, i as int, n as nat) == Some(
                (v@.map_values(|c: CreatorEntry| c@), j as int),
            ) && (forall|q: int| 0 <= q < v@.len() ==> creator_v_wf(#[trigger] v@[q]@)),
            None => p_creators(b@, i as int, n as nat) is None,
        }),
{
    let mut v: Vec<CreatorEntry> = Vec::new();
    let mut pos: usize = i;
    let mut k: u32 = 0;
    proof {
        assert(v@.map_values(|c: CreatorEntry| c@) =~= Seq::<CreatorV>::empty());
    }
    while k < n
        invariant
            k <= n,
            forall|q: int| 0 <= q < v@.len() ==> creator_v_wf(#[trigger] v@[q]@),
            (match p_creators(b@, pos as int, (n - k) as nat) {
                Some((cs, j)) => p_creators(b@, i as int, n as nat) == Some(
                    (v@.map_values(|c: CreatorEntry| c@) + cs, j),
                ),
                None => p_creators(b@, i as int, n as nat) is None,
            }),
        decreases n - k,
    {
        let ghost prev = v@.map_values(|c: CreatorEntry| c@);
        match rd_creator(b, pos) {
            Some((c, j)) => {
                proof {
                    match p_creators(b@, j as int, (n - k - 1) as nat) {
                        Some((cs2, j2)) => {
                            assert(prev + (seq![c@] + cs2) =~= v@.push(c).map_values(
                                |cc: CreatorEntry| cc@,
                            ) + cs2);
                        },
                        None => {},
                    }
                }
                v.push(c);
                pos = j;
            },
            None => {
                return None;
            },
        }
        k = k + 1;
    }
    proof {
        assert(v@.map_values(|c: CreatorEntry| c@) + Seq::<CreatorV>::empty() =~= v@.map_values(
            |c: CreatorEntry| c@,
        ));
    }
    Some((v, pos))
}

fn rd_opt_creators(b: &Vec<u8>, i: usize) -> (r: Option<(Option<Vec<CreatorEntry>>, usize)>)
    ensures
        (match r {
            Some((x, j)) => p_opt_creators(b@, i as int) == Some(
                (
                    match x {
                        Some(v) => Some(v@.map_values(|c: CreatorEntry| c@)),
                        None => None,
                    },
                    j as int,
                ),
            ) && (match x {
                Some(v) => forall|q: int| 0 <= q < v@.len() ==> creator_v_wf(#[trigger] v@[q]@),
                None => true,
            }),
            None => p_opt_creators(b@, i as int) is None,
        }),
{
    match rd_u8(b, i) {
        Some((tag, j)) => if tag == 0 {
            Some((None, j))
        } else if tag == 1 {
            match rd_u32(b, j) {
                Some((n, k)) => match rd_creators(b, k, n) {
                    Some((v, m)) => Some((Some(v), m)),
                    None => None,
                },
                None => None,
            }
        } else {
            None
        },
        None => None,
    }
}

fn rd_opt_u8(b: &Vec<u8>, i: usize) -> (r: Option<(Option<u8>, usize)>)
    ensures
        (match r {
            Some((x, j)) => p_opt_u8(b@, i as int) == Some((x, j as int)),
            None => p_opt_u8(b@, i as int) is None,
        }),
{
    match rd_u8(b, i) {
        Some((tag, j)) => if tag == 0 {
            Some((None, j))
        } else if tag == 1 {
            match rd_u8(b, j) {
                Some((v, k)) => Some((Some(v), k)),
                None => None,
            }
        } else {
            None
        },
        None => None,
    }
}

fn rd_opt_token_standard(b: &Vec<u8>, i: usize) -> (r: Option<(Option<u8>, usize)>)
    ensures
        (match r {
            Some((x, j)) => p_opt_token_standard(b@, i as int) == Some((x, j as int)) && (match x {
                Some(t) => t <= 5,
                None => true,
            }),
            None => p_opt_token_standard(b@, i as int) is None,
        }),
{
    match rd_opt_u8(b, i) {
        Some((x, j)) => match x {
            Some(t) => if t <= 5 {
                Some((Some(t), j))
            } else {
                None
            },
            None => Some((None, j)),
        },
        None => None,
    }
}

fn rd_opt_collection(b: &Vec<u8>, i: usize) -> (r: Option<(Option<CollectionRef>, usize)>)
    ensures
        (match r {
            Some((x, j)) => p_opt_collection(b@, i as int) == Some(
                (
                    match x {
                        Some(c) => Some(c@),
                        None => None,
                    },
                    j as int,
                ),
            ) && (match x {
                Some(c) => c.key.wf(),
                None => true,
            }),
            None => p_opt_collection(b@, i as int) is None,
        }),
{
    match rd_u8(b, i) {
        Some((tag, j)) => if tag == 0 {
            Some((None, j))
        } else if tag == 1 {
            match rd_bool(b, j) {
                Some((verified, k)) => match rd_address(b, k) {
                    Some((key, m)) => Some((Some(CollectionRef { verified, key }), m)),
                    None => None,
                },
                None => None,
            }
        } else {
            None
        },
        None => None,
    }
}

fn rd_opt_uses(b: &Vec<u8>, i: usize) -> (r: Option<(Option<UsageLimits>, usize)>)
    ensures
        (match r {
            Some((x, j)) => p_opt_uses(b@, i as int) == Some(
                (
                    match x {
                        Some(u) => Some(u@),
                        None => None,
                    },
                    j as int,
                ),
            ),
            None => p_opt_uses(b@, i as int) is None,
        }),
{
    match rd_u8(b, i) {
        Some((tag, j)) => if tag == 0 {
            Some((None, j))
        } else if tag == 1 {
            match rd_u8(b, j) {
                Some((t, k)) => if t <= 2 {
                    let um = if t == 0 {
                        UseMethod::Burn
                    } else if t == 1 {
                        UseMethod::Multiple
                    } else {
                        UseMethod::Single
                    };
                    match rd_u64(b, k) {
                        Some((remaining, m)) => match rd_u64(b, m) {
                            Some((total, q)) => Some(
                                (Some(UsageLimits { use_method: um, remaining, total }), q),
                            ),
                            None => None,
                        },
                        None => None,
                    }
                } else {
                    None
                },
                None => None,
            }
        } else {
            None
        },
        None => None,
    }
}

fn rd_opt_collection_details(b: &Vec<u8>, i: usize) -> (r: Option<
    (Option<CollectionDetails>, usize),
>)
    ensures
        (match r {
            Some((x, j)) => p_opt_collection_details(b@, i as int) == Some(
                (
                    match x {
                        Some(d) => Some(d@),
                        None => None,
                    },
                    j as int,
                ),
            ) && (match x {
                Some(d) => match d {
                    CollectionDetails::V1 { .. } => true,
                    CollectionDetails::V2 { padding } => padding@.len() == 8,
                },
                None => true,
            }),
            None => p_opt_collection_details(b@, i as int) is None,
        }),
{
    match rd_u8(b, i) {
        Some((tag, j)) => if tag == 0 {
            Some((None, j))
        } else if tag == 1 {
            match rd_u8(b, j) {
                Some((v, k)) => if v == 0 {
                    match rd_u64(b, k) {
                        Some((size, m)) => Some((Some(CollectionDetails::V1 { size }), m)),
                        None => None,
                    }
                } else if v == 1 {
                    match rd_bytes(b, k, 8) {
                        Some((padding, m)) => Some((Some(CollectionDetails::V2 { padding }), m)),
                        None => None,
                    }
                } else {
                    None
                },
                None => None,
            }
        } else {
            None
        },
        None => None,
    }
}

fn rd_opt_prog_config(b: &Vec<u8>, i: usize) -> (r: Option<(Option<ProgrammableConfig>, usize)>)
    ensures
        (match r {
            Some((x, j)) => p_opt_prog_config(b@, i as int) == Some(
                (
                    match x {
                        Some(p) => Some(p@),
                        None => None,
                    },
                    j as int,
                ),
            ) && (match x {
                Some(p) => match p.rule_set {
                    Some(a) => a.wf(),
                    None => true,
                },
                None => true,
            }),
            None => p_opt_prog_config(b@, i as int) is None,
        }),
{
    match rd_u8(b, i) {
        Some((tag, j)) => if tag == 0 {
            Some((None, j))
        } else if tag == 1 {
            match rd_u8(b, j) {
                Some((v, k)) => if v == 0 {
                    match rd_u8(b, k) {
                        Some((rtag, m)) => if rtag == 0 {
                            Some((Some(ProgrammableConfig { rule_set: None }), m))
                        } else if rtag == 1 {
                            match rd_address(b, m) {
                                Some((rs, q)) => Some(
                                    (Some(ProgrammableConfig { rule_set: Some(rs) }), q),
                                ),
                                None => None,
                            }
                        } else {
                            None
                        },
                        None => None,
                    }
                } else {
                    None
                },
                None => None,
            }
        } else {
            None
        },
        None => None,
    }
}

fn decode_failure() -> (e: MetaError)
    ensures
        e matches MetaError::Decode { .. },
{
    MetaError::Decode { detail: "account bytes do not match the metadata layout".to_owned() }
}

/// Decode a metadata account from its raw bytes. Succeeds exactly when the
/// bytes begin with a well-formed account in the fixed layout, and returns
/// exactly the account that the layout denotes.
#[verifier::rlimit(30)]
pub fn decode_metadata(bytes: &Vec<u8>) -> (r: Result<MetadataAccount, MetaError>)
    ensures
        (match r {
            Ok(m) => p_metadata(bytes@) == Some(m@) && m.wf(),
            Err(e) => p_metadata(bytes@) is None && (e matches MetaError::Decode { .. }),
        }),
{
    let key: u8;
    let mut pos: usize;
    match rd_u8(bytes, 0) {
        Some((v, j)) => {
            key = v;
            pos = j;
        },
        None => {
            return Err(decode_failure());
        },
    }
    if key > 14 {
        return Err(decode_failure());
    }
    let update_authority: Address;
    match rd_address(bytes, pos) {
        Some((a, j)) => {
            update_authority = a;
            pos = j;
        },
        None => {
            return Err(decode_failure());
        },
    }
    let mint: Address;
    match rd_address(bytes, pos) {
        Some((a, j)) => {
            mint = a;
            pos = j;
        },
        None => {
            return Err(decode_failure());
        },
    }
    let name: String;
    match rd_string(bytes, pos) {
        Some((s, j)) => {
            name = s;
            pos = j;
        },
        None => {
            return Err(decode_failure());
        },
    }
    let symbol: String;
    match rd_string(bytes, pos) {
        Some((s, j)) => {
            symbol = s;
            pos = j;
        },
        None => {
            return Err(decode_failure());
        },
    }
    let uri: String;
    match rd_string(bytes, pos) {
        Some((s, j)) => {
            uri = s;
            pos = j;
        },
        None => {
            return Err(decode_failure());
        },
    }
    let seller_fee_basis_points: u16;
    match rd_u16(bytes, pos) {
        Some((v, j)) => {
            seller_fee_basis_points = v;
            pos = j;
        },
        None => {
            return Err(decode_failure());
        },
    }
    let creators: Option<Vec<CreatorEntry>>;
    match rd_opt_creators(bytes, pos) {
        Some((x, j)) => {
            creators = x;
            pos = j;
        },
        None => {
            return Err(decode_failure());
        },
    }
    let primary_sale_happened: bool;
    match rd_bool(bytes, pos) {
        Some((v, j)) => {
            primary_sale_happened = v;
            pos = j;
        },
        None => {
            return Err(decode_failure());
        },
    }
    let is_mutable: bool;
    match rd_bool(bytes, pos) {
        Some((v, j)) => {
            is_mutable = v;
            pos = j;
        },
        None => {
            return Err(decode_failure());
        },
    }
    let edition_nonce: Option<u8>;
    match rd_opt_u8(bytes, pos) {
        Some((x, j)) => {
            edition_nonce = x;
            pos = j;
        },
        None => {
            return Err(decode_failure());
        },
    }
    let token_standard: Option<u8>;
    match rd_opt_token_standard(bytes, pos) {
        Some((x, j)) => {
            token_standard = x;
            pos = j;
        },
        None => {
            return Err(decode_failure());
        },
    }
    let collection: Option<CollectionRef>;
    match rd_opt_collection(bytes, pos) {
        Some((x, j)) => {
            collection = x;
            pos = j;
        },
        None => {
            return Err(decode_failure());
        },
    }
    let uses: Option<UsageLimits>;
    match rd_opt_uses(bytes, pos) {
        Some((x, j)) => {
            uses = x;
            pos = j;
        },
        None => {
            return Err(decode_failure());
        },
    }
    let collection_details: Option<CollectionDetails>;
    match rd_opt_collection_details(bytes, pos) {
        Some((x, j)) => {
            collection_details = x;
            pos = j;
        },
        None => {
            return Err(decode_failure());
        },
    }
    let programmable_config: Option<ProgrammableConfig>;
    match rd_opt_prog_config(bytes, pos) {
        Some((x, j)) => {
            programmable_config = x;
            pos = j;
        },
        None => {
            return Err(decode_failure());
        },
    }
    let m = MetadataAccount {
        key,
        update_authority,
        mint,
        name,
        symbol,
        uri,
        seller_fee_basis_points,
        creators,
        primary_sale_happened,
        is_mutable,
        edition_nonce,
        token_standard,
        collection,
        uses,
        collection_details,
        programmable_config,
    };
    proof {
        match p_metadata(bytes@) {
            Some(mv) => {
                assert(mv =~= m@);
            },
            None => {
                assert(false);
            },
        }
    }
    Ok(m)
}

/// Interpret the outcome of the remote account read for the update path: an
/// absent account is its own failure, and present bytes are decoded.
pub fn interpret_account_fetch(fetched: Option<Vec<u8>>) -> (r: Result<MetadataAccount, MetaError>)
    ensures
        (match r {
            Ok(m) => fetched matches Some(b) && p_metadata(b@) == Some(m@) && m.wf(),
            Err(e) => match fetched {
                None => e matches MetaError::AccountNotFound,
                Some(b) => p_metadata(b@) is None && (e matches MetaError::Decode { .. }),
            },
        }),
{
    match fetched {
        Some(b) => decode_metadata(&b),
        None => Err(MetaError::AccountNotFound),
    }
}

} // verus!
