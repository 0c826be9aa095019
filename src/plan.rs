use vstd::prelude::*;

use crate::address::{address_of, base58_value, parse_pubkey, pubkey_parse, Address};
use crate::error::BubblegumError;
use crate::keys::{decode_signing_key, fresh_signing_key, key_text_outcome, SigningKey};
use crate::metadata::{
    convert_metadata_args, fails_with, metadata_error, metadata_parses, metadata_converted, AssetMetadata, MetadataArgsNif,
    TreeConfig,
};
use solana_sdk::pubkey::Pubkey;

verus! {

/// Address of the tree-management (bubblegum) program.
pub const BUBBLEGUM_PROGRAM: [u8; 32] = [
    152, 139, 128, 235, 121, 53, 40, 105, 178, 36, 116, 95, 89, 221, 191, 138,
    38, 88, 202, 19, 220, 104, 129, 33, 38, 53, 28, 174, 7, 193, 165, 165,
];

/// Address of the token-metadata program, which owns collection accounts.
pub const TOKEN_METADATA_PROGRAM: [u8; 32] = [
    11, 112, 101, 177, 227, 209, 124, 69, 56, 157, 82, 127, 107, 4, 195, 205,
    88, 184, 108, 115, 26, 160, 253, 181, 73, 182, 209, 188, 3, 248, 41, 70,
];

/// The seed word `metadata`.
pub const METADATA_SEED: [u8; 8] = [109, 101, 116, 97, 100, 97, 116, 97];

/// The seed word `edition`.
pub const EDITION_SEED: [u8; 7] = [101, 100, 105, 116, 105, 111, 110];

/// The address that a program derives from seeds (with the highest bump
/// that gives an address off the curve), or `None` where no bump does.
pub uninterp spec fn program_derived(seeds: Seq<Seq<u8>>, program: Seq<u8>) -> Option<Seq<u8>>;

/// Relies on `Pubkey::try_find_program_address` of solana-program.
#[verifier::external_body]
fn find_program_address(seeds: &Vec<Vec<u8>>, program: &[u8; 32]) -> (r: Option<Address>)
    ensures
        r is Some <==> program_derived(seeds@.map_values(|s: Vec<u8>| s@), program@) is Some,
        r matches Some(a) ==> program_derived(seeds@.map_values(|s: Vec<u8>| s@), program@)
            == Some(a@),
{
    let seeds: Vec<&[u8]> = seeds.iter().map(|s| s.as_slice()).collect();
    let program = Pubkey::new_from_array(*program);
    Pubkey::try_find_program_address(&seeds, &program).map(|(p, _)| Address { bytes: p.to_bytes() })
}

/// The configuration account of a tree.
pub open spec fn tree_config_of(tree: Seq<u8>) -> Option<Seq<u8>> {
    program_derived(seq![tree], BUBBLEGUM_PROGRAM@)
}

/// The metadata account of a collection's mint.
pub open spec fn collection_metadata_of(mint: Seq<u8>) -> Option<Seq<u8>> {
    program_derived(seq![METADATA_SEED@, TOKEN_METADATA_PROGRAM@, mint], TOKEN_METADATA_PROGRAM@)
}

/// The master-edition account of a collection's mint.
pub open spec fn collection_edition_of(mint: Seq<u8>) -> Option<Seq<u8>> {
    program_derived(
        seq![METADATA_SEED@, TOKEN_METADATA_PROGRAM@, mint, EDITION_SEED@],
        TOKEN_METADATA_PROGRAM@,
    )
}

fn bytes_of(a: &[u8]) -> (r: Vec<u8>)
    ensures
        r@ == a@,
{
    let mut r: Vec<u8> = Vec::new();
    let mut i: usize = 0;
    while i < a.len()
        invariant
            i <= a@.len(),
            r@ == a@.subrange(0, i as int),
        decreases a@.len() - i,
    {
        r.push(a[i]);
        i += 1;
    }
    r
}

fn derive(seeds: Vec<Vec<u8>>, program: &[u8; 32]) -> (r: Result<Address, BubblegumError>)
    ensures
        r is Ok <==> program_derived(seeds@.map_values(|s: Vec<u8>| s@), program@) is Some,
        r matches Ok(a) ==> program_derived(seeds@.map_values(|s: Vec<u8>| s@), program@)
            == Some(a@),
        r matches Err(e) ==> e is InvalidPublicKey,
{
    match find_program_address(&seeds, program) {
        Some(a) => Ok(a),
        None => Err(BubblegumError::InvalidPublicKey("no program address for these seeds".to_owned())),
    }
}

/// Derives the configuration account of a tree.
pub fn tree_config_address(tree: &Address) -> (r: Result<Address, BubblegumError>)
    ensures
        r is Ok <==> tree_config_of(tree@) is Some,
        r matches Ok(a) ==> tree_config_of(tree@) == Some(a@),
        r matches Err(e) ==> e is InvalidPublicKey,
{
    let mut seeds: Vec<Vec<u8>> = Vec::new();
    seeds.push(bytes_of(tree.bytes.as_slice()));
    proof {
        assert(seeds@.map_values(|s: Vec<u8>| s@) =~= seq![tree@]);
    }
    derive(seeds, &BUBBLEGUM_PROGRAM)
}

/// Derives the metadata and master-edition accounts of a collection's mint.
pub fn collection_accounts(mint: &Address) -> (r: Result<(Address, Address), BubblegumError>)
    ensures
        r is Ok <==> collection_metadata_of(mint@) is Some && collection_edition_of(mint@) is Some,
        r matches Ok((m, e)) ==> collection_metadata_of(mint@) == Some(m@)
            && collection_edition_of(mint@) == Some(e@),
        r matches Err(e) ==> e is InvalidPublicKey,
{
    let mut seeds: Vec<Vec<u8>> = Vec::new();
    seeds.push(bytes_of(METADATA_SEED.as_slice()));
    seeds.push(bytes_of(TOKEN_METADATA_PROGRAM.as_slice()));
    seeds.push(bytes_of(mint.bytes.as_slice()));
    proof {
        assert(seeds@.map_values(|s: Vec<u8>| s@)
            =~= seq![METADATA_SEED@, TOKEN_METADATA_PROGRAM@, mint@]);
    }
    let metadata = match derive(seeds, &TOKEN_METADATA_PROGRAM) {
        Ok(a) => a,
        Err(e) => return Err(e),
    };
    let mut seeds: Vec<Vec<u8>> = Vec::new();
    seeds.push(bytes_of(METADATA_SEED.as_slice()));
    seeds.push(bytes_of(TOKEN_METADATA_PROGRAM.as_slice()));
    seeds.push(bytes_of(mint.bytes.as_slice()));
    seeds.push(bytes_of(EDITION_SEED.as_slice()));
    proof {
        assert(seeds@.map_values(|s: Vec<u8>| s@)
            =~= seq![METADATA_SEED@, TOKEN_METADATA_PROGRAM@, mint@, EDITION_SEED@]);
    }
    let edition = match derive(seeds, &TOKEN_METADATA_PROGRAM) {
        Ok(a) => a,
        Err(e) => return Err(e),
    };
    Ok((metadata, edition))
}

/// The leaf that a transfer moves: the tree's current root, the leaf's
/// data and creator hashes, its nonce and its index in the tree.
#[derive(Debug, Clone, Copy, PartialEq, Eq)]
pub struct LeafProof {
    pub root: [u8; 32],
    pub data_hash: [u8; 32],
    pub creator_hash: [u8; 32],
    pub nonce: u64,
    pub index: u32,
}

/// What one operation will ask of the tree program, with every address
/// parsed and every derived account found.
pub enum Operation {
    CreateTree { tree: SigningKey, tree_config: Address, config: TreeConfig },
    MintToCollection {
        tree: Address,
        tree_config: Address,
        collection: Address,
        collection_metadata: Address,
        collection_edition: Address,
        metadata: AssetMetadata,
    },
    Transfer {
        tree: Address,
        tree_config: Address,
        leaf_owner: Address,
        new_owner: Address,
        leaf: LeafProof,
    },
}

/// A validated operation and the key that pays for it and signs first.
/// Nothing is sent to the ledger for an operation that has no plan.
pub struct Plan {
    pub payer: SigningKey,
    pub operation: Operation,
}

/// The payer address of a valid key text.
pub open spec fn payer_of(text: Seq<char>) -> Seq<u8> {
    base58_value(text)->0.subrange(32, 64)
}

/// Which step fails first on the given outcomes of the earlier steps: the key,
/// then the addresses in order. Its errors are those of `decode_signing_key`
/// and `parse_pubkey`.
pub open spec fn key_error_kind(key: Seq<char>, e: BubblegumError) -> bool {
    &&& (key_text_outcome(key) is None <==> e is InvalidEncoding)
    &&& (key_text_outcome(key) == Some(false) <==> e is InvalidKeypair)
    &&& (key_text_outcome(key) == Some(true) ==> e is InvalidPublicKey)
}

/// Plans the creation of a tree: the payer key is checked before a fresh
/// key pair is made for the tree.
pub fn plan_create_tree(payer: &str, config: TreeConfig) -> (r: Result<Plan, BubblegumError>)
    ensures
        key_text_outcome(payer@) != Some(true) ==> r is Err,
        r matches Err(e) ==> key_error_kind(payer@, e),
        r matches Ok(p) ==> p.payer.spec_address() == payer_of(payer@) && match p.operation {
            Operation::CreateTree { tree, tree_config, config: c } => {
                &&& tree_config_of(tree.spec_address()) == Some(tree_config@)
                &&& c == config
            },
            _ => false,
        },
{
    let payer = match decode_signing_key(payer) {
        Ok(k) => k,
        Err(e) => return Err(e),
    };
    let tree = fresh_signing_key();
    let tree_config = match tree_config_address(&tree.address()) {
        Ok(a) => a,
        Err(e) => return Err(e),
    };
    Ok(Plan { payer, operation: Operation::CreateTree { tree, tree_config, config } })
}

/// Whether every address of a mint parses and its derived accounts exist.
pub open spec fn mint_valid(
    payer: Seq<char>,
    tree: Seq<char>,
    collection: Seq<char>,
    metadata: MetadataArgsNif,
) -> bool {
    &&& key_text_outcome(payer) == Some(true)
    &&& address_of(tree) is Some
    &&& address_of(collection) is Some
    &&& metadata_parses(metadata)
    &&& tree_config_of(address_of(tree)->0) is Some
    &&& collection_metadata_of(address_of(collection)->0) is Some
    &&& collection_edition_of(address_of(collection)->0) is Some
}

/// The message of the first address of a mint that does not parse: the
/// tree, the collection, then those of the metadata.
pub open spec fn mint_address_error(
    tree: Seq<char>,
    collection: Seq<char>,
    metadata: MetadataArgsNif,
) -> Option<Seq<char>> {
    match pubkey_parse(tree) {
        Err(m) => Some(m),
        Ok(_) => match pubkey_parse(collection) {
            Err(m) => Some(m),
            Ok(_) => metadata_error(metadata),
        },
    }
}

/// The message of the first address of a transfer that does not parse: the
/// tree, the leaf owner, the new owner, then the asset id.
pub open spec fn transfer_address_error(
    tree: Seq<char>,
    leaf_owner: Seq<char>,
    new_owner: Seq<char>,
    asset_id: Seq<char>,
) -> Option<Seq<char>> {
    match pubkey_parse(tree) {
        Err(m) => Some(m),
        Ok(_) => match pubkey_parse(leaf_owner) {
            Err(m) => Some(m),
            Ok(_) => match pubkey_parse(new_owner) {
                Err(m) => Some(m),
                Ok(_) => match pubkey_parse(asset_id) {
                    Err(m) => Some(m),
                    Ok(_) => None,
                },
            },
        },
    }
}

/// Plans a mint into a collection: the payer key, then the tree and
/// collection addresses, then the metadata are checked, in that order.
pub fn plan_mint_to_collection(
    payer: &str,
    tree: &str,
    collection: &str,
    metadata: &MetadataArgsNif,
) -> (r: Result<Plan, BubblegumError>)
    ensures
        r is Ok <==> mint_valid(payer@, tree@, collection@, *metadata),
        r matches Err(e) ==> key_error_kind(payer@, e),
        key_text_outcome(payer@) == Some(true) && mint_address_error(tree@, collection@, *metadata)
            is Some ==> fails_with(r, mint_address_error(tree@, collection@, *metadata)),
        r matches Ok(p) ==> p.payer.spec_address() == payer_of(payer@) && match p.operation {
            Operation::MintToCollection {
                tree: t,
                tree_config,
                collection: c,
                collection_metadata,
                collection_edition,
                metadata: m,
            } => {
                &&& address_of(tree@) == Some(t@)
                &&& address_of(collection@) == Some(c@)
                &&& tree_config_of(t@) == Some(tree_config@)
                &&& collection_metadata_of(c@) == Some(collection_metadata@)
                &&& collection_edition_of(c@) == Some(collection_edition@)
                &&& metadata_converted(*metadata, m)
            },
            _ => false,
        },
{
    let payer = match decode_signing_key(payer) {
        Ok(k) => k,
        Err(e) => return Err(e),
    };
    let tree = match parse_pubkey(tree) {
        Ok(a) => a,
        Err(e) => return Err(e),
    };
    let collection = match parse_pubkey(collection) {
        Ok(a) => a,
        Err(e) => return Err(e),
    };
    let metadata = match convert_metadata_args(metadata) {
        Ok(m) => m,
        Err(e) => return Err(e),
    };
    let tree_config = match tree_config_address(&tree) {
        Ok(a) => a,
        Err(e) => return Err(e),
    };
    let (collection_metadata, collection_edition) = match collection_accounts(&collection) {
        Ok(pair) => pair,
        Err(e) => return Err(e),
    };
    Ok(Plan {
        payer,
        operation: Operation::MintToCollection {
            tree,
            tree_config,
            collection,
            collection_metadata,
            collection_edition,
            metadata,
        },
    })
}

/// The plain values that a transfer plan holds, in the order payer, tree,
/// tree configuration, leaf owner, new owner, leaf.
pub type TransferParts = (Seq<u8>, Seq<u8>, Seq<u8>, Seq<u8>, Seq<u8>, LeafProof);

/// The plain values of a plan, where it is a transfer.
pub open spec fn transfer_parts(p: Plan) -> Option<TransferParts> {
    match p.operation {
        Operation::Transfer { tree, tree_config, leaf_owner, new_owner, leaf } => Some(
            (p.payer.spec_address(), tree@, tree_config@, leaf_owner@, new_owner@, leaf),
        ),
        _ => None,
    }
}

/// What planning a transfer yields from its inputs: `None` where one of them
/// is rejected.
pub open spec fn transfer_outcome(
    payer: Seq<char>,
    tree: Seq<char>,
    leaf_owner: Seq<char>,
    new_owner: Seq<char>,
    asset_id: Seq<char>,
    leaf: LeafProof,
) -> Option<TransferParts> {
    if key_text_outcome(payer) == Some(true) && address_of(tree) is Some && address_of(
        leaf_owner,
    ) is Some && address_of(new_owner) is Some && address_of(asset_id) is Some
        && tree_config_of(address_of(tree)->0) is Some {
        Some(
            (
                payer_of(payer),
                address_of(tree)->0,
                tree_config_of(address_of(tree)->0)->0,
                address_of(leaf_owner)->0,
                address_of(new_owner)->0,
                leaf,
            ),
        )
    } else {
        None
    }
}

/// Plans a transfer of a leaf to a new owner. The asset id is checked but
/// takes no part in the plan: the leaf is named by `leaf`.
pub fn plan_transfer(
    payer: &str,
    tree: &str,
    leaf_owner: &str,
    new_owner: &str,
    asset_id: &str,
    leaf: LeafProof,
) -> (r: Result<Plan, BubblegumError>)
    ensures
        r is Ok <==> transfer_outcome(payer@, tree@, leaf_owner@, new_owner@, asset_id@, leaf) is Some,
        r matches Err(e) ==> key_error_kind(payer@, e),
        key_text_outcome(payer@) == Some(true) && transfer_address_error(
            tree@,
            leaf_owner@,
            new_owner@,
            asset_id@,
        ) is Some ==> fails_with(r, transfer_address_error(tree@, leaf_owner@, new_owner@, asset_id@)),
        r matches Ok(p) ==> transfer_parts(p) == transfer_outcome(
            payer@,
            tree@,
            leaf_owner@,
            new_owner@,
            asset_id@,
            leaf,
        ),
{
    let payer = match decode_signing_key(payer) {
        Ok(k) => k,
        Err(e) => return Err(e),
    };
    let tree = match parse_pubkey(tree) {
        Ok(a) => a,
        Err(e) => return Err(e),
    };
    let leaf_owner = match parse_pubkey(leaf_owner) {
        Ok(a) => a,
        Err(e) => return Err(e),
    };
    let new_owner = match parse_pubkey(new_owner) {
        Ok(a) => a,
        Err(e) => return Err(e),
    };
    match parse_pubkey(asset_id) {
        Ok(_) => {},
        Err(e) => return Err(e),
    }
    let tree_config = match tree_config_address(&tree) {
        Ok(a) => a,
        Err(e) => return Err(e),
    };
    Ok(Plan {
        payer,
        operation: Operation::Transfer { tree, tree_config, leaf_owner, new_owner, leaf },
    })
}

/// A transfer's plan does not depend on the asset id: any two ids that parse
/// give the same plan from the same other inputs.
pub proof fn lemma_transfer_ignores_asset_id(
    payer: Seq<char>,
    tree: Seq<char>,
    leaf_owner: Seq<char>,
    new_owner: Seq<char>,
    asset_a: Seq<char>,
    asset_b: Seq<char>,
    leaf: LeafProof,
)
    requires
        address_of(asset_a) is Some,
        address_of(asset_b) is Some,
    ensures
        transfer_outcome(payer, tree, leaf_owner, new_owner, asset_a, leaf) == transfer_outcome(
            payer,
            tree,
            leaf_owner,
            new_owner,
            asset_b,
            leaf,
        ),
{
}

/// Reads a leaf's root, data hash and creator hash from their base-58 texts.
pub fn parse_leaf_proof(
    root: &str,
    data_hash: &str,
    creator_hash: &str,
    nonce: u64,
    index: u32,
) -> (r: Result<LeafProof, BubblegumError>)
    ensures
        r is Ok <==> address_of(root@) is Some && address_of(data_hash@) is Some && address_of(
            creator_hash@,
        ) is Some,
        r matches Ok(l) ==> {
            &&& address_of(root@) == Some(l.root@)
            &&& address_of(data_hash@) == Some(l.data_hash@)
            &&& address_of(creator_hash@) == Some(l.creator_hash@)
            &&& l.nonce == nonce
            &&& l.index == index
        },
        r matches Err(e) ==> e is InvalidPublicKey,
{
    let root = match parse_pubkey(root) {
        Ok(a) => a.bytes,
        Err(e) => return Err(e),
    };
    let data_hash = match parse_pubkey(data_hash) {
        Ok(a) => a.bytes,
        Err(e) => return Err(e),
    };
    let creator_hash = match parse_pubkey(creator_hash) {
        Ok(a) => a.bytes,
        Err(e) => return Err(e),
    };
    Ok(LeafProof { root, data_hash, creator_hash, nonce, index })
}

} // verus!
