use token_metadata_cli::address::{derive_metadata_address, parse_mint_address, program_id_bytes, Address};
use token_metadata_cli::decode::{decode_metadata, interpret_account_fetch};
use token_metadata_cli::error::MetaError;
use token_metadata_cli::path::expand_home;
use token_metadata_cli::pipeline::{create_instruction, plan_create, plan_update, update_instruction};
use token_metadata_cli::record::{
    merge_update, new_token_data, strip_trailing_nulls, CollectionRef, CreatorEntry,
    MetadataAccount, UseMethod, UsageLimits,
};
use token_metadata_cli::submit::{classify_submission, SubmitOutcome};

use solana_sdk::pubkey::Pubkey;

const PROGRAM_ID_TEXT: &str = "metaqbxxUerdq28cj1RbAWkYQm3ybzjb6a8bt518x1s";

fn addr(fill: u8) -> Address {
    Address { bytes: vec![fill; 32] }
}

fn padded(s: &str, width: usize) -> String {
    let mut t = String::from(s);
    while t.len() < width {
        t.push('\0');
    }
    t
}

fn push_str(v: &mut Vec<u8>, s: &str) {
    let b = s.as_bytes();
    v.extend_from_slice(&(b.len() as u32).to_le_bytes());
    v.extend_from_slice(b);
}

/// A full metadata account image: every optional field present.
fn full_account_bytes() -> Vec<u8> {
    let mut v = Vec::new();
    v.push(4u8); // account-type discriminator: metadata
    v.extend_from_slice(&[7u8; 32]); // update authority
    v.extend_from_slice(&[9u8; 32]); // mint
    push_str(&mut v, &padded("Old Name", 32));
    push_str(&mut v, &padded("OLD", 10));
    push_str(&mut v, &padded("https://old/meta.json", 200));
    v.extend_from_slice(&500u16.to_le_bytes()); // seller fee basis points
    v.push(1); // creators: present
    v.extend_from_slice(&2u32.to_le_bytes()); // two creators
    v.extend_from_slice(&[11u8; 32]);
    v.push(1); // verified
    v.push(60); // share
    v.extend_from_slice(&[12u8; 32]);
    v.push(0); // not verified
    v.push(40); // share
    v.push(1); // primary sale happened
    v.push(1); // is mutable
    v.push(1); // edition nonce: present
    v.push(255);
    v.push(1); // token standard: present
    v.push(2); // fungible
    v.push(1); // collection: present
    v.push(1); // verified
    v.extend_from_slice(&[13u8; 32]); // collection key
    v.push(1); // uses: present
    v.push(1); // method: multiple
    v.extend_from_slice(&3u64.to_le_bytes()); // remaining
    v.extend_from_slice(&10u64.to_le_bytes()); // total
    v.push(1); // collection details: present
    v.push(0); // variant: size-tracked
    v.extend_from_slice(&77u64.to_le_bytes());
    v.push(1); // programmable config: present
    v.push(0); // variant
    v.push(1); // rule set: present
    v.extend_from_slice(&[14u8; 32]);
    v
}

/// A minimal account image: every optional field absent.
fn minimal_account_bytes() -> Vec<u8> {
    let mut v = Vec::new();
    v.push(4u8);
    v.extend_from_slice(&[7u8; 32]);
    v.extend_from_slice(&[9u8; 32]);
    push_str(&mut v, &padded("Min", 32));
    push_str(&mut v, &padded("M", 10));
    push_str(&mut v, &padded("", 200));
    v.extend_from_slice(&0u16.to_le_bytes());
    for _ in 0..9 {
        // creators, two booleans, nonce, standard, collection, uses,
        // collection details, programmable config: all absent
        v.push(0);
    }
    v
}

#[test]
fn derivation_is_deterministic() {
    let mint = addr(9);
    let a = derive_metadata_address(&mint).unwrap();
    let b = derive_metadata_address(&mint).unwrap();
    assert_eq!(a.bytes, b.bytes);
}

#[test]
fn derivation_depends_on_the_mint() {
    let a = derive_metadata_address(&addr(9)).unwrap();
    let b = derive_metadata_address(&addr(10)).unwrap();
    assert_ne!(a.bytes, b.bytes);
}

#[test]
fn derivation_matches_the_reference_program() {
    let mint_bytes = [9u8; 32];
    let ours = derive_metadata_address(&Address { bytes: mint_bytes.to_vec() }).unwrap();
    let mint = Pubkey::new_from_array(mint_bytes);
    let (expected, _bump) = mpl_token_metadata::accounts::Metadata::find_pda(&mint);
    assert_eq!(ours.bytes, expected.to_bytes().to_vec());
}

#[test]
fn program_id_matches_the_reference_program() {
    assert_eq!(program_id_bytes(), mpl_token_metadata::ID.to_bytes().to_vec());
}

#[test]
fn parse_accepts_a_valid_address() {
    let a = parse_mint_address(PROGRAM_ID_TEXT).unwrap();
    assert_eq!(a.bytes, program_id_bytes());
}

#[test]
fn parse_rejects_malformed_text() {
    let e = parse_mint_address("not-a-key!!").unwrap_err();
    assert!(matches!(e, MetaError::InvalidAddress { .. }));
    assert_eq!(e.message(), "invalid address: not-a-key!!");
}

#[test]
fn parse_rejects_wrong_length() {
    let e = parse_mint_address("abc").unwrap_err();
    assert!(matches!(e, MetaError::InvalidAddress { .. }));
}

#[test]
fn home_marker_expands() {
    let home = String::from("/home/u");
    assert_eq!(expand_home("~/wallet/id.json", Some(&home)), "/home/u/wallet/id.json");
}

#[test]
fn plain_path_is_unchanged() {
    let home = String::from("/home/u");
    assert_eq!(expand_home("/tmp/id.json", Some(&home)), "/tmp/id.json");
}

#[test]
fn marker_without_home_is_unchanged() {
    assert_eq!(expand_home("~/wallet/id.json", None), "~/wallet/id.json");
}

#[test]
fn stripping_removes_only_trailing_nulls() {
    assert_eq!(strip_trailing_nulls("ABC\0\0"), "ABC");
    assert_eq!(strip_trailing_nulls("\0\0"), "");
    assert_eq!(strip_trailing_nulls("ABC"), "ABC");
    assert_eq!(strip_trailing_nulls("A\0B\0"), "A\0B");
}

#[test]
fn create_record_has_the_fixed_defaults() {
    let d = new_token_data(
        String::from("Foo"),
        String::from("FOO"),
        String::from("https://x/y.json"),
        0,
    );
    assert_eq!(d.name, "Foo");
    assert_eq!(d.symbol, "FOO");
    assert_eq!(d.uri, "https://x/y.json");
    assert_eq!(d.seller_fee_basis_points, 0);
    assert!(d.creators.is_none());
    assert!(d.collection.is_none());
    assert!(d.uses.is_none());
}

#[test]
fn create_plan_carries_the_derived_address() {
    let mint = addr(9);
    let expected = derive_metadata_address(&mint).unwrap();
    let plan = plan_create(
        mint,
        String::from("Foo"),
        String::from("FOO"),
        String::new(),
        0,
        true,
    )
    .unwrap();
    assert_eq!(plan.metadata.bytes, expected.bytes);
    assert_eq!(plan.mint.bytes, vec![9u8; 32]);
    assert!(plan.is_mutable);
    assert!(plan.data.creators.is_none());
}

fn sample_account() -> MetadataAccount {
    MetadataAccount {
        key: 4,
        update_authority: addr(7),
        mint: addr(9),
        name: padded("Old Name", 32),
        symbol: padded("OLD", 10),
        uri: padded("https://old/meta.json", 200),
        seller_fee_basis_points: 500,
        creators: Some(vec![CreatorEntry { address: addr(11), verified: true, share: 100 }]),
        primary_sale_happened: true,
        is_mutable: true,
        edition_nonce: Some(255),
        token_standard: Some(2),
        collection: Some(CollectionRef { verified: true, key: addr(13) }),
        uses: Some(UsageLimits { use_method: UseMethod::Multiple, remaining: 3, total: 10 }),
        collection_details: None,
        programmable_config: None,
    }
}

#[test]
fn merge_without_overrides_keeps_the_record_identical() {
    let d = merge_update(sample_account(), None, None, None);
    assert_eq!(d.name, padded("Old Name", 32));
    assert_eq!(d.symbol, padded("OLD", 10));
    assert_eq!(d.uri, padded("https://old/meta.json", 200));
    assert_eq!(d.seller_fee_basis_points, 500);
    let creators = d.creators.unwrap();
    assert_eq!(creators.len(), 1);
    assert_eq!(creators[0].address.bytes, vec![11u8; 32]);
    assert!(creators[0].verified);
    assert_eq!(creators[0].share, 100);
    let coll = d.collection.unwrap();
    assert_eq!(coll.key.bytes, vec![13u8; 32]);
    let uses = d.uses.unwrap();
    assert_eq!(uses.use_method, UseMethod::Multiple);
    assert_eq!(uses.remaining, 3);
    assert_eq!(uses.total, 10);
}

#[test]
fn merge_with_only_a_name_changes_only_the_name() {
    let d = merge_update(sample_account(), Some(String::from("New Name")), None, None);
    assert_eq!(d.name, "New Name");
    assert_eq!(d.symbol, padded("OLD", 10));
    assert_eq!(d.uri, padded("https://old/meta.json", 200));
    assert_eq!(d.seller_fee_basis_points, 500);
}

#[test]
fn merge_never_alters_the_protected_fields() {
    let d = merge_update(
        sample_account(),
        Some(String::from("N")),
        Some(String::from("S")),
        Some(String::from("U")),
    );
    assert_eq!(d.name, "N");
    assert_eq!(d.symbol, "S");
    assert_eq!(d.uri, "U");
    assert_eq!(d.seller_fee_basis_points, 500);
    assert!(d.creators.is_some());
    assert!(d.collection.is_some());
    assert!(d.uses.is_some());
}

#[test]
fn full_account_decodes_field_by_field() {
    let bytes = full_account_bytes();
    let m = decode_metadata(&bytes).unwrap();
    assert_eq!(m.key, 4);
    assert_eq!(m.update_authority.bytes, vec![7u8; 32]);
    assert_eq!(m.mint.bytes, vec![9u8; 32]);
    assert_eq!(m.name, padded("Old Name", 32));
    assert_eq!(m.symbol, padded("OLD", 10));
    assert_eq!(m.uri, padded("https://old/meta.json", 200));
    assert_eq!(m.seller_fee_basis_points, 500);
    let creators = m.creators.unwrap();
    assert_eq!(creators.len(), 2);
    assert_eq!(creators[0].address.bytes, vec![11u8; 32]);
    assert!(creators[0].verified);
    assert_eq!(creators[0].share, 60);
    assert_eq!(creators[1].address.bytes, vec![12u8; 32]);
    assert!(!creators[1].verified);
    assert_eq!(creators[1].share, 40);
    assert!(m.primary_sale_happened);
    assert!(m.is_mutable);
    assert_eq!(m.edition_nonce, Some(255));
    assert_eq!(m.token_standard, Some(2));
    let coll = m.collection.unwrap();
    assert!(coll.verified);
    assert_eq!(coll.key.bytes, vec![13u8; 32]);
    let uses = m.uses.unwrap();
    assert_eq!(uses.use_method, UseMethod::Multiple);
    assert_eq!(uses.remaining, 3);
    assert_eq!(uses.total, 10);
}

#[test]
fn decoding_agrees_with_the_reference_deserializer() {
    for bytes in [full_account_bytes(), minimal_account_bytes()] {
        let ours = decode_metadata(&bytes).unwrap();
        let theirs = mpl_token_metadata::accounts::Metadata::from_bytes(&bytes).unwrap();
        assert_eq!(ours.name, theirs.name);
        assert_eq!(ours.symbol, theirs.symbol);
        assert_eq!(ours.uri, theirs.uri);
        assert_eq!(ours.seller_fee_basis_points, theirs.seller_fee_basis_points);
        assert_eq!(ours.update_authority.bytes, theirs.update_authority.to_bytes().to_vec());
        assert_eq!(ours.mint.bytes, theirs.mint.to_bytes().to_vec());
        assert_eq!(ours.primary_sale_happened, theirs.primary_sale_happened);
        assert_eq!(ours.is_mutable, theirs.is_mutable);
        assert_eq!(ours.edition_nonce, theirs.edition_nonce);
        assert_eq!(
            ours.creators.as_ref().map(|v| v.len()),
            theirs.creators.as_ref().map(|v| v.len())
        );
        assert_eq!(ours.collection.is_some(), theirs.collection.is_some());
        assert_eq!(ours.uses.is_some(), theirs.uses.is_some());
    }
}

#[test]
fn trailing_padding_is_tolerated() {
    let mut bytes = minimal_account_bytes();
    bytes.extend_from_slice(&[0u8; 200]);
    let m = decode_metadata(&bytes).unwrap();
    assert_eq!(m.name, padded("Min", 32));
    assert!(mpl_token_metadata::accounts::Metadata::from_bytes(&bytes).is_ok());
}

#[test]
fn non_ascii_name_decodes() {
    let mut v = Vec::new();
    v.push(4u8);
    v.extend_from_slice(&[7u8; 32]);
    v.extend_from_slice(&[9u8; 32]);
    push_str(&mut v, "Caf\u{e9} \u{2603}");
    push_str(&mut v, "");
    push_str(&mut v, "");
    v.extend_from_slice(&0u16.to_le_bytes());
    for _ in 0..9 {
        v.push(0);
    }
    let m = decode_metadata(&v).unwrap();
    assert_eq!(m.name, "Caf\u{e9} \u{2603}");
}

#[test]
fn truncated_bytes_fail_to_decode() {
    let mut bytes = minimal_account_bytes();
    bytes.truncate(40);
    let e = decode_metadata(&bytes).unwrap_err();
    assert!(matches!(e, MetaError::Decode { .. }));
    assert!(mpl_token_metadata::accounts::Metadata::from_bytes(&bytes).is_err());
}

#[test]
fn invalid_bool_byte_fails_to_decode() {
    let mut bytes = minimal_account_bytes();
    // primary_sale_happened is the eighth byte from the end
    let idx = bytes.len() - 8;
    bytes[idx] = 2;
    let e = decode_metadata(&bytes).unwrap_err();
    assert!(matches!(e, MetaError::Decode { .. }));
    assert!(mpl_token_metadata::accounts::Metadata::from_bytes(&bytes).is_err());
}

#[test]
fn invalid_option_tag_fails_to_decode() {
    let mut bytes = minimal_account_bytes();
    let idx = bytes.len() - 1;
    bytes[idx] = 3; // programmable config tag
    let e = decode_metadata(&bytes).unwrap_err();
    assert!(matches!(e, MetaError::Decode { .. }));
    assert!(mpl_token_metadata::accounts::Metadata::from_bytes(&bytes).is_err());
}

#[test]
fn invalid_utf8_name_fails_to_decode() {
    let mut v = Vec::new();
    v.push(4u8);
    v.extend_from_slice(&[7u8; 32]);
    v.extend_from_slice(&[9u8; 32]);
    v.extend_from_slice(&2u32.to_le_bytes());
    v.push(0xFF);
    v.push(0xFE);
    push_str(&mut v, "");
    push_str(&mut v, "");
    v.extend_from_slice(&0u16.to_le_bytes());
    for _ in 0..9 {
        v.push(0);
    }
    let e = decode_metadata(&v).unwrap_err();
    assert!(matches!(e, MetaError::Decode { .. }));
    assert!(mpl_token_metadata::accounts::Metadata::from_bytes(&v).is_err());
}

#[test]
fn out_of_range_discriminator_fails_to_decode() {
    let mut bytes = minimal_account_bytes();
    bytes[0] = 15;
    let e = decode_metadata(&bytes).unwrap_err();
    assert!(matches!(e, MetaError::Decode { .. }));
    assert!(mpl_token_metadata::accounts::Metadata::from_bytes(&bytes).is_err());
}

#[test]
fn missing_account_surfaces_account_not_found() {
    let e = interpret_account_fetch(None).unwrap_err();
    assert!(matches!(e, MetaError::AccountNotFound));
    assert_eq!(e.message(), "failed to fetch metadata account: does it exist?");
}

#[test]
fn present_account_is_decoded_not_missing() {
    let m = interpret_account_fetch(Some(full_account_bytes())).unwrap();
    assert_eq!(m.name, padded("Old Name", 32));
}

#[test]
fn update_plan_merges_and_keeps_old_values() {
    let metadata = addr(1);
    let plan = plan_update(
        metadata,
        Some(full_account_bytes()),
        Some(String::from("New Name")),
        None,
        None,
    )
    .unwrap();
    assert_eq!(plan.metadata.bytes, vec![1u8; 32]);
    assert_eq!(plan.data.name, "New Name");
    assert_eq!(plan.data.symbol, padded("OLD", 10));
    assert_eq!(plan.data.uri, padded("https://old/meta.json", 200));
    assert_eq!(plan.data.seller_fee_basis_points, 500);
    assert_eq!(plan.old_name, padded("Old Name", 32));
    assert_eq!(plan.old_symbol, padded("OLD", 10));
    assert_eq!(plan.old_uri, padded("https://old/meta.json", 200));
}

#[test]
fn update_plan_for_a_missing_account_fails_first() {
    let e = plan_update(addr(1), None, Some(String::from("X")), None, None).unwrap_err();
    assert!(matches!(e, MetaError::AccountNotFound));
}

#[test]
fn update_plan_for_undecodable_bytes_fails_with_decode() {
    let e = plan_update(addr(1), Some(vec![4u8, 1, 2]), None, None, None).unwrap_err();
    assert!(matches!(e, MetaError::Decode { .. }));
}

#[test]
fn confirmed_submission_yields_the_signature() {
    let r = classify_submission(SubmitOutcome::Confirmed { signature: String::from("5sig") });
    assert_eq!(r.unwrap(), "5sig");
}

#[test]
fn expired_checkpoint_surfaces_submission_expired() {
    let e = classify_submission(SubmitOutcome::BlockhashExpired).unwrap_err();
    assert!(matches!(e, MetaError::SubmissionExpired));
    assert_eq!(
        e.message(),
        "failed to send transaction: blockhash expired before submission"
    );
}

#[test]
fn rejection_keeps_the_reason_verbatim() {
    let e = classify_submission(SubmitOutcome::Rejected {
        reason: String::from("insufficient funds for rent"),
    })
    .unwrap_err();
    assert!(matches!(e, MetaError::Submission { .. }));
    assert_eq!(e.message(), "failed to send transaction: insufficient funds for rent");
}

#[test]
fn key_load_error_carries_path_and_cause() {
    let e = MetaError::KeyLoad {
        path: String::from("/home/u/id.json"),
        cause: String::from("No such file or directory"),
    };
    assert_eq!(
        e.message(),
        "failed to read keypair from '/home/u/id.json': No such file or directory"
    );
}

#[test]
fn create_instruction_wires_addresses_and_authority() {
    let mint = addr(9);
    let pda = derive_metadata_address(&mint).unwrap();
    let plan = plan_create(
        mint,
        String::from("Foo"),
        String::from("FOO"),
        String::new(),
        0,
        true,
    )
    .unwrap();
    let authority = addr(3);
    let ix = create_instruction(&plan, &authority);
    assert_eq!(ix.program_id.to_bytes().to_vec(), program_id_bytes());
    // accounts: metadata, mint, mint authority, payer, update authority, ...
    assert_eq!(ix.accounts[0].pubkey.to_bytes().to_vec(), pda.bytes);
    assert_eq!(ix.accounts[1].pubkey.to_bytes().to_vec(), vec![9u8; 32]);
    for i in [2usize, 3, 4] {
        assert_eq!(ix.accounts[i].pubkey.to_bytes().to_vec(), vec![3u8; 32]);
        assert!(ix.accounts[i].is_signer);
    }
    // payload: the instruction tag, then the record starting with the name
    assert_eq!(ix.data[0], 33);
    assert_eq!(&ix.data[1..5], &3u32.to_le_bytes());
    assert_eq!(&ix.data[5..8], b"Foo");
    // repeated assembly from the same plan yields the identical instruction
    let again = create_instruction(&plan, &authority);
    assert_eq!(ix, again);
}

#[test]
fn update_instruction_names_only_metadata_and_authority() {
    let plan = plan_update(
        addr(1),
        Some(full_account_bytes()),
        Some(String::from("New")),
        None,
        None,
    )
    .unwrap();
    let authority = addr(3);
    let ix = update_instruction(&plan, &authority);
    assert_eq!(ix.program_id.to_bytes().to_vec(), program_id_bytes());
    assert_eq!(ix.accounts.len(), 2);
    assert_eq!(ix.accounts[0].pubkey.to_bytes().to_vec(), vec![1u8; 32]);
    assert_eq!(ix.accounts[1].pubkey.to_bytes().to_vec(), vec![3u8; 32]);
    assert!(ix.accounts[1].is_signer);
    // payload: the instruction tag, the present record with the merged name,
    // and no new authority, sale flag or mutability override at the tail
    assert_eq!(ix.data[0], 15);
    assert_eq!(ix.data[1], 1);
    assert_eq!(&ix.data[2..6], &3u32.to_le_bytes());
    assert_eq!(&ix.data[6..9], b"New");
    assert_eq!(&ix.data[ix.data.len() - 3..], &[0u8, 0, 0]);
}
