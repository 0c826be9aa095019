use bubblegum::plan::{BUBBLEGUM_PROGRAM, TOKEN_METADATA_PROGRAM};
use bubblegum::{
    build_instruction, collection_accounts, convert_metadata_args, decode_signing_key, next_action,
    parse_leaf_proof, SubmitAction, SubmitEvent,
    parse_keypair, parse_pubkey, plan_create_tree, plan_mint_to_collection, plan_transfer,
    receipt, signed_transaction, tree_config_address, Address, AssetStandard, BubblegumError,
    CreatorNif, LeafProof, MetadataArgsNif, Operation, TokenProgram, TreeConfig, UsageMethod,
};
use solana_sdk::pubkey::Pubkey;
use solana_sdk::signature::Keypair;
use solana_sdk::signer::Signer;

fn key_text(k: &Keypair) -> String {
    bs58::encode(k.to_bytes()).into_string()
}

fn addr_text(byte: u8) -> String {
    bs58::encode([byte; 32]).into_string()
}

fn leaf() -> LeafProof {
    LeafProof { root: [1; 32], data_hash: [2; 32], creator_hash: [3; 32], nonce: 4, index: 5 }
}

fn metadata(creators: Vec<CreatorNif>, collection: Option<String>, uses: Option<u64>) -> MetadataArgsNif {
    MetadataArgsNif {
        name: "Leaf".to_string(),
        symbol: "LF".to_string(),
        uri: "https://example.org/leaf.json".to_string(),
        seller_fee_basis_points: 500,
        primary_sale_happened: false,
        is_mutable: true,
        edition_nonce: Some(9),
        creators,
        collection,
        uses,
    }
}

#[test]
fn address_text_round_trip() {
    let a = Address { bytes: [7; 32] };
    assert_eq!(parse_pubkey(&a.to_text()), Ok(a));
}

#[test]
fn address_text_exact_values() {
    assert_eq!(Address { bytes: [0; 32] }.to_text(), "11111111111111111111111111111111");
    assert_eq!(
        Address { bytes: BUBBLEGUM_PROGRAM }.to_text(),
        "BGUMAp9Gq7iTEuizy4pqaxsTyUCBK68MDfK752saRPUY"
    );
    assert_eq!(
        Address { bytes: TOKEN_METADATA_PROGRAM }.to_text(),
        "metaqbxxUerdq28cj1RbAWkYQm3ybzjb6a8bt518x1s"
    );
}

#[test]
fn address_of_wrong_length_is_rejected() {
    let short = bs58::encode([5u8; 31]).into_string();
    let long = bs58::encode([5u8; 33]).into_string();
    let wrong = BubblegumError::InvalidPublicKey("String is the wrong size".to_string());
    assert_eq!(parse_pubkey(&short), Err(wrong.clone()));
    assert_eq!(parse_pubkey(&long), Err(wrong));
    assert_eq!(parse_pubkey(""), Err(BubblegumError::InvalidPublicKey("String is the wrong size".to_string())));
}

#[test]
fn address_with_bad_character_is_rejected() {
    assert_eq!(
        parse_pubkey("0OIl0OIl"),
        Err(BubblegumError::InvalidPublicKey("Invalid Base58 string".to_string()))
    );
}

#[test]
fn keypair_bytes_accepted() {
    let k = Keypair::new();
    let parsed = parse_keypair(&k.to_bytes()).unwrap();
    assert_eq!(parsed.to_bytes(), k.to_bytes());
    assert_eq!(parsed.address().bytes, k.pubkey().to_bytes());
    assert_eq!(parsed.keypair().pubkey(), k.pubkey());
}

#[test]
fn keypair_bytes_rejected() {
    let k = Keypair::new();
    let bytes = k.to_bytes();
    assert!(matches!(parse_keypair(&bytes[..63]), Err(BubblegumError::InvalidKeypair(_))));
    let mut longer = bytes.to_vec();
    longer.push(0);
    assert!(matches!(parse_keypair(&longer), Err(BubblegumError::InvalidKeypair(_))));
    let other = Keypair::new().to_bytes();
    let mut mixed = bytes;
    mixed[32..].copy_from_slice(&other[32..]);
    assert!(matches!(parse_keypair(&mixed), Err(BubblegumError::InvalidKeypair(_))));
}

#[test]
fn key_text_errors_are_classified() {
    assert!(matches!(decode_signing_key("0OIl"), Err(BubblegumError::InvalidEncoding(_))));
    let ten = bs58::encode([3u8; 10]).into_string();
    assert!(matches!(decode_signing_key(&ten), Err(BubblegumError::InvalidKeypair(_))));
    let k = Keypair::new();
    assert_eq!(decode_signing_key(&key_text(&k)).unwrap().address().bytes, k.pubkey().to_bytes());
}

#[test]
fn metadata_without_creators_or_uses() {
    let m = convert_metadata_args(&metadata(vec![], None, None)).unwrap();
    assert!(m.creators.is_empty());
    assert!(m.collection.is_none());
    assert!(m.uses.is_none());
    assert_eq!(m.name, "Leaf");
    assert_eq!(m.symbol, "LF");
    assert_eq!(m.uri, "https://example.org/leaf.json");
    assert_eq!(m.seller_fee_basis_points, 500);
    assert!(!m.primary_sale_happened);
    assert!(m.is_mutable);
    assert_eq!(m.edition_nonce, Some(9));
    assert_eq!(m.token_program_version, TokenProgram::Original);
    assert_eq!(m.token_standard, Some(AssetStandard::NonFungible));
}

#[test]
fn metadata_creators_keep_order_and_flags() {
    let creators = vec![
        CreatorNif { address: addr_text(1), verified: true, share: 70 },
        CreatorNif { address: addr_text(2), verified: false, share: 30 },
    ];
    let m = convert_metadata_args(&metadata(creators, None, None)).unwrap();
    assert_eq!(m.creators.len(), 2);
    assert_eq!(m.creators[0].address.bytes, [1; 32]);
    assert!(m.creators[0].verified);
    assert_eq!(m.creators[0].share, 70);
    assert_eq!(m.creators[1].address.bytes, [2; 32]);
    assert!(!m.creators[1].verified);
    assert_eq!(m.creators[1].share, 30);
}

#[test]
fn metadata_collection_is_unverified() {
    let m = convert_metadata_args(&metadata(vec![], Some(addr_text(8)), None)).unwrap();
    let c = m.collection.unwrap();
    assert_eq!(c.key.bytes, [8; 32]);
    assert!(!c.verified);
}

#[test]
fn metadata_use_count_expands() {
    let m = convert_metadata_args(&metadata(vec![], None, Some(5))).unwrap();
    let u = m.uses.unwrap();
    assert_eq!(u.use_method, UsageMethod::Multiple);
    assert_eq!(u.remaining, 5);
    assert_eq!(u.total, 5);
    let zero = convert_metadata_args(&metadata(vec![], None, Some(0))).unwrap().uses.unwrap();
    assert_eq!((zero.remaining, zero.total), (0, 0));
}

#[test]
fn metadata_bad_addresses_are_errors() {
    let creators = vec![
        CreatorNif { address: addr_text(1), verified: true, share: 50 },
        CreatorNif { address: "not-an-address".to_string(), verified: false, share: 50 },
    ];
    assert!(matches!(
        convert_metadata_args(&metadata(creators, None, None)),
        Err(BubblegumError::InvalidPublicKey(_))
    ));
    assert!(matches!(
        convert_metadata_args(&metadata(vec![], Some("xyz0".to_string()), None)),
        Err(BubblegumError::InvalidPublicKey(_))
    ));
}

#[test]
fn tree_config_is_the_program_address() {
    let tree = Address { bytes: [9; 32] };
    let expected = Pubkey::find_program_address(
        &[&[9u8; 32]],
        &Pubkey::new_from_array(BUBBLEGUM_PROGRAM),
    )
    .0;
    assert_eq!(tree_config_address(&tree).unwrap().bytes, expected.to_bytes());
    assert_ne!(expected.to_bytes(), [9; 32]);
}

#[test]
fn collection_accounts_are_program_addresses() {
    let mint = Address { bytes: [6; 32] };
    let program = Pubkey::new_from_array(TOKEN_METADATA_PROGRAM);
    let meta = Pubkey::find_program_address(&[b"metadata", &TOKEN_METADATA_PROGRAM, &[6u8; 32]], &program).0;
    let edition = Pubkey::find_program_address(
        &[b"metadata", &TOKEN_METADATA_PROGRAM, &[6u8; 32], b"edition"],
        &program,
    )
    .0;
    let (m, e) = collection_accounts(&mint).unwrap();
    assert_eq!(m.bytes, meta.to_bytes());
    assert_eq!(e.bytes, edition.to_bytes());
}

#[test]
fn create_tree_plan_with_valid_key() {
    let payer = Keypair::new();
    let config = TreeConfig { max_depth: 14, max_buffer_size: 64, public: false };
    let plan = plan_create_tree(&key_text(&payer), config).unwrap();
    assert_eq!(plan.payer.address().bytes, payer.pubkey().to_bytes());
    match &plan.operation {
        Operation::CreateTree { tree, tree_config, config: c } => {
            assert_eq!(*c, config);
            assert_eq!(tree_config_address(&tree.address()).unwrap(), *tree_config);
            let done = receipt(&plan, Ok("sig".to_string())).unwrap();
            assert_eq!(done.signature, "sig");
            let text = done.tree_pubkey.unwrap();
            assert_eq!(parse_pubkey(&text), Ok(tree.address()));
        }
        _ => panic!("not a tree creation"),
    }
}

#[test]
fn invalid_key_text_stops_every_operation() {
    let bad = "0OIl-not-base58";
    let config = TreeConfig { max_depth: 14, max_buffer_size: 64, public: false };
    assert!(matches!(plan_create_tree(bad, config), Err(BubblegumError::InvalidEncoding(_))));
    assert!(matches!(
        plan_mint_to_collection(bad, &addr_text(1), &addr_text(2), &metadata(vec![], None, None)),
        Err(BubblegumError::InvalidEncoding(_))
    ));
    assert!(matches!(
        plan_transfer(bad, &addr_text(1), &addr_text(2), &addr_text(3), &addr_text(4), leaf()),
        Err(BubblegumError::InvalidEncoding(_))
    ));
}

#[test]
fn invalid_keypair_stops_tree_creation() {
    let config = TreeConfig { max_depth: 14, max_buffer_size: 64, public: true };
    let ten = bs58::encode([3u8; 10]).into_string();
    assert!(matches!(plan_create_tree(&ten, config), Err(BubblegumError::InvalidKeypair(_))));
}

#[test]
fn mint_with_malformed_creator_fails() {
    let payer = Keypair::new();
    let creators = vec![CreatorNif { address: "bad!".to_string(), verified: true, share: 100 }];
    let r = plan_mint_to_collection(&key_text(&payer), &addr_text(1), &addr_text(2), &metadata(creators, None, None));
    assert!(matches!(r, Err(BubblegumError::InvalidPublicKey(_))));
}

#[test]
fn mint_plan_and_signing() {
    let payer = Keypair::new();
    let creators = vec![CreatorNif { address: addr_text(5), verified: false, share: 100 }];
    let plan = plan_mint_to_collection(
        &key_text(&payer),
        &addr_text(1),
        &addr_text(2),
        &metadata(creators, Some(addr_text(2)), Some(3)),
    )
    .unwrap();
    match &plan.operation {
        Operation::MintToCollection { tree, collection, metadata, .. } => {
            assert_eq!(tree.bytes, [1; 32]);
            assert_eq!(collection.bytes, [2; 32]);
            assert_eq!(metadata.creators[0].address.bytes, [5; 32]);
        }
        _ => panic!("not a mint"),
    }
    let ix = build_instruction(&plan);
    assert_eq!(ix.program_id.bytes, BUBBLEGUM_PROGRAM);
    assert_eq!(ix.accounts.len(), 16);
    assert_eq!(ix.accounts[3].address.bytes, [1; 32]);
    assert!(ix.accounts[4].is_signer);
    assert_eq!(ix.accounts[4].address.bytes, payer.pubkey().to_bytes());
    assert_eq!(ix.accounts[8].address.bytes, [2; 32]);
    let signed = signed_transaction(&plan, Ok([4; 32])).unwrap();
    let tx = signed.transaction();
    assert_eq!(tx.message.recent_blockhash.to_bytes(), [4; 32]);
    assert_eq!(tx.message.account_keys[0], payer.pubkey());
    assert!(tx.is_signed());
    let done = receipt(&plan, Ok("abc".to_string())).unwrap();
    assert_eq!(done.signature, "abc");
    assert!(done.tree_pubkey.is_none());
}

#[test]
fn mint_with_bad_tree_or_collection_fails() {
    let payer = key_text(&Keypair::new());
    let m = metadata(vec![], None, None);
    assert!(matches!(
        plan_mint_to_collection(&payer, "short", &addr_text(2), &m),
        Err(BubblegumError::InvalidPublicKey(_))
    ));
    assert!(matches!(
        plan_mint_to_collection(&payer, &addr_text(1), "0", &m),
        Err(BubblegumError::InvalidPublicKey(_))
    ));
}

#[test]
fn transfer_ignores_asset_id() {
    let payer = key_text(&Keypair::new());
    let p1 = plan_transfer(&payer, &addr_text(1), &addr_text(2), &addr_text(3), &addr_text(4), leaf()).unwrap();
    let p2 = plan_transfer(&payer, &addr_text(1), &addr_text(2), &addr_text(3), &addr_text(9), leaf()).unwrap();
    let (i1, i2) = (build_instruction(&p1), build_instruction(&p2));
    assert_eq!(i1.accounts, i2.accounts);
    assert_eq!(i1.data, i2.data);
    assert_eq!(i1.program_id, i2.program_id);
    let other_owner =
        plan_transfer(&payer, &addr_text(1), &addr_text(7), &addr_text(3), &addr_text(4), leaf()).unwrap();
    assert_ne!(i1.accounts, build_instruction(&other_owner).accounts);
    assert_eq!(i1.accounts[1].address.bytes, [2; 32]);
    assert!(!i1.accounts[1].is_signer);
    assert_eq!(i1.accounts[3].address.bytes, [3; 32]);
}

#[test]
fn transfer_rejects_bad_asset_id() {
    let payer = key_text(&Keypair::new());
    let r = plan_transfer(&payer, &addr_text(1), &addr_text(2), &addr_text(3), "nope0", leaf());
    assert!(matches!(r, Err(BubblegumError::InvalidPublicKey(_))));
}

#[test]
fn fetch_failure_is_a_client_error() {
    let payer = key_text(&Keypair::new());
    let plan = plan_transfer(&payer, &addr_text(1), &addr_text(2), &addr_text(3), &addr_text(4), leaf()).unwrap();
    assert_eq!(
        signed_transaction(&plan, Err("node down".to_string())).err(),
        Some(BubblegumError::SolanaClientError("node down".to_string()))
    );
}

#[test]
fn rejection_is_a_transaction_error() {
    let payer = key_text(&Keypair::new());
    let plan = plan_transfer(&payer, &addr_text(1), &addr_text(2), &addr_text(3), &addr_text(4), leaf()).unwrap();
    assert_eq!(
        receipt(&plan, Err("blockhash expired".to_string())).err(),
        Some(BubblegumError::TransactionError("blockhash expired".to_string()))
    );
    assert!(signed_transaction(&plan, Ok([8; 32])).unwrap().transaction().is_signed());
}

#[test]
fn submission_steps_fetch_once_then_send_once() {
    let payer = key_text(&Keypair::new());
    let plan = plan_transfer(&payer, &addr_text(1), &addr_text(2), &addr_text(3), &addr_text(4), leaf()).unwrap();
    assert!(matches!(next_action(&plan, SubmitEvent::Start), SubmitAction::FetchBlockhash));
    match next_action(&plan, SubmitEvent::BlockhashFetched(Ok([2; 32]))) {
        SubmitAction::Send(tx) => assert!(tx.transaction().is_signed()),
        _ => panic!("expected a send"),
    }
    match next_action(&plan, SubmitEvent::Submitted(Ok("5ig".to_string()))) {
        SubmitAction::Finish(Ok(done)) => {
            assert_eq!(done.signature, "5ig");
            assert!(done.tree_pubkey.is_none());
        }
        _ => panic!("expected a finish"),
    }
}

#[test]
fn submission_steps_stop_on_failure() {
    let payer = key_text(&Keypair::new());
    let plan = plan_transfer(&payer, &addr_text(1), &addr_text(2), &addr_text(3), &addr_text(4), leaf()).unwrap();
    match next_action(&plan, SubmitEvent::BlockhashFetched(Err("timeout".to_string()))) {
        SubmitAction::Finish(Err(e)) => assert_eq!(e, BubblegumError::SolanaClientError("timeout".to_string())),
        _ => panic!("expected a finish"),
    }
    match next_action(&plan, SubmitEvent::Submitted(Err("rejected".to_string()))) {
        SubmitAction::Finish(Err(e)) => assert_eq!(e, BubblegumError::TransactionError("rejected".to_string())),
        _ => panic!("expected a finish"),
    }
}

#[test]
fn leaf_proof_texts_are_parsed() {
    let l = parse_leaf_proof(&addr_text(1), &addr_text(2), &addr_text(3), 7, 8).unwrap();
    assert_eq!(l, LeafProof { root: [1; 32], data_hash: [2; 32], creator_hash: [3; 32], nonce: 7, index: 8 });
    assert!(matches!(
        parse_leaf_proof(&addr_text(1), "bad0", &addr_text(3), 7, 8),
        Err(BubblegumError::InvalidPublicKey(_))
    ));
}

#[test]
fn create_tree_plan_signs_with_payer() {
    let payer = Keypair::new();
    let config = TreeConfig { max_depth: 14, max_buffer_size: 64, public: false };
    let plan = plan_create_tree(&key_text(&payer), config).unwrap();
    let ix = build_instruction(&plan);
    assert_eq!(ix.accounts.len(), 7);
    assert_eq!(ix.accounts[2].address.bytes, payer.pubkey().to_bytes());
    assert!(ix.accounts[3].is_signer);
    let signed = signed_transaction(&plan, Ok([6; 32])).unwrap();
    let tx = signed.transaction();
    assert!(tx.is_signed());
    assert_eq!(tx.message.account_keys[0], payer.pubkey());
    assert_eq!(tx.message.recent_blockhash.to_bytes(), [6; 32]);
    assert_eq!(tx.signatures.len(), 1);
}

#[test]
fn long_address_text_is_wrong_size() {
    let long = "1".repeat(45);
    assert_eq!(
        parse_pubkey(&long),
        Err(BubblegumError::InvalidPublicKey("String is the wrong size".to_string()))
    );
    let long_bad = "0".repeat(45);
    assert_eq!(
        parse_pubkey(&long_bad),
        Err(BubblegumError::InvalidPublicKey("String is the wrong size".to_string()))
    );
}

#[test]
fn first_failing_address_decides_the_message() {
    let payer = key_text(&Keypair::new());
    let r = plan_transfer(&payer, "0bad", &"1".repeat(50), &addr_text(3), &addr_text(4), leaf());
    assert_eq!(r.err(), Some(BubblegumError::InvalidPublicKey("Invalid Base58 string".to_string())));
    let r = plan_transfer(&payer, &addr_text(1), &"1".repeat(50), "0bad", &addr_text(4), leaf());
    assert_eq!(r.err(), Some(BubblegumError::InvalidPublicKey("String is the wrong size".to_string())));
}
