use vstd::prelude::*;

use crate::address::Address;
use crate::metadata::{
    CollectionRef, CreatorShare, AssetMetadata, TokenProgram, AssetStandard, TreeConfig, UsageMethod,
    UsageLimit,
};
use crate::plan::{LeafProof, BUBBLEGUM_PROGRAM};
use mpl_bubblegum::instructions::{
    CreateTreeConfigBuilder, MintToCollectionV1Builder, TransferBuilder,
};
use mpl_bubblegum::types as wire;
use solana_sdk::instruction::Instruction;
use solana_sdk::pubkey::Pubkey;

verus! {

#[verifier::external_type_specification]
#[verifier::external_body]
pub struct ExPubkey(Pubkey);

#[verifier::external_type_specification]
#[verifier::external_body]
pub struct ExInstruction(Instruction);

#[verifier::external_type_specification]
#[verifier::external_body]
pub struct ExWireCreator(wire::Creator);

#[verifier::external_type_specification]
#[verifier::external_body]
pub struct ExWireCollection(wire::Collection);

#[verifier::external_type_specification]
#[verifier::external_body]
pub struct ExWireUses(wire::Uses);

#[verifier::external_type_specification]
#[verifier::external_body]
pub struct ExWireTokenStandard(wire::TokenStandard);

#[verifier::external_type_specification]
#[verifier::external_body]
pub struct ExWireTokenProgramVersion(wire::TokenProgramVersion);

#[verifier::external_type_specification]
#[verifier::external_body]
pub struct ExWireMetadataArgs(wire::MetadataArgs);

pub assume_specification[ Pubkey::new_from_array ](pubkey_array: [u8; 32]) -> Pubkey;

impl Address {
    /// This address as the ledger library's key type.
    pub fn pubkey(&self) -> Pubkey {
        Pubkey::new_from_array(self.bytes)
    }
}

/// Relies on the field layout of `mpl_bubblegum::types::Creator`.
#[verifier::external_body]
fn wire_creator(c: &CreatorShare, address: Pubkey) -> wire::Creator {
    wire::Creator { address, verified: c.verified, share: c.share }
}

/// Relies on the field layout of `mpl_bubblegum::types::Collection`.
#[verifier::external_body]
fn wire_collection(c: &CollectionRef, key: Pubkey) -> wire::Collection {
    wire::Collection { verified: c.verified, key }
}

/// Relies on the field layout of `mpl_bubblegum::types::Uses` and the
/// variants of `UseMethod`.
#[verifier::external_body]
fn wire_uses(u: &UsageLimit) -> wire::Uses {
    let use_method = match u.use_method {
        UsageMethod::Burn => wire::UseMethod::Burn,
        UsageMethod::Multiple => wire::UseMethod::Multiple,
        UsageMethod::Single => wire::UseMethod::Single,
    };
    wire::Uses { use_method, remaining: u.remaining, total: u.total }
}

/// Relies on the variants of `mpl_bubblegum::types::TokenStandard`.
#[verifier::external_body]
fn wire_token_standard(t: AssetStandard) -> wire::TokenStandard {
    match t {
        AssetStandard::NonFungible => wire::TokenStandard::NonFungible,
        AssetStandard::FungibleAsset => wire::TokenStandard::FungibleAsset,
        AssetStandard::Fungible => wire::TokenStandard::Fungible,
        AssetStandard::NonFungibleEdition => wire::TokenStandard::NonFungibleEdition,
    }
}

/// Relies on the variants of `mpl_bubblegum::types::TokenProgramVersion`.
#[verifier::external_body]
fn wire_program_version(v: TokenProgram) -> wire::TokenProgramVersion {
    match v {
        TokenProgram::Original => wire::TokenProgramVersion::Original,
        TokenProgram::Token2022 => wire::TokenProgramVersion::Token2022,
    }
}

/// Relies on the field layout of `mpl_bubblegum::types::MetadataArgs`.
#[verifier::external_body]
fn wire_metadata_fields(
    m: &AssetMetadata,
    creators: Vec<wire::Creator>,
    collection: Option<wire::Collection>,
    uses: Option<wire::Uses>,
    token_standard: Option<wire::TokenStandard>,
    token_program_version: wire::TokenProgramVersion,
) -> wire::MetadataArgs {
    wire::MetadataArgs {
        name: m.name.clone(),
        symbol: m.symbol.clone(),
        uri: m.uri.clone(),
        seller_fee_basis_points: m.seller_fee_basis_points,
        primary_sale_happened: m.primary_sale_happened,
        is_mutable: m.is_mutable,
        edition_nonce: m.edition_nonce,
        token_standard,
        collection,
        uses,
        token_program_version,
        creators,
    }
}

/// The metadata in the tree program's own types.
pub(crate) fn wire_metadata(m: &AssetMetadata) -> wire::MetadataArgs {
    let mut creators: Vec<wire::Creator> = Vec::new();
    let mut i: usize = 0;
    while i < m.creators.len()
        invariant
            i <= m.creators@.len(),
        decreases m.creators@.len() - i,
    {
        let c = &m.creators[i];
        creators.push(wire_creator(c, c.address.pubkey()));
        i += 1;
    }
    let collection = match &m.collection {
        Some(c) => Some(wire_collection(c, c.key.pubkey())),
        None => None,
    };
    let uses = match &m.uses {
        Some(u) => Some(wire_uses(u)),
        None => None,
    };
    let token_standard = match m.token_standard {
        Some(t) => Some(wire_token_standard(t)),
        None => None,
    };
    let version = wire_program_version(m.token_program_version);
    wire_metadata_fields(m, creators, collection, uses, token_standard, version)
}

/// One account of an instruction and how the instruction uses it.
#[derive(Debug, Clone, Copy, PartialEq, Eq)]
pub struct AccountRole {
    pub address: Address,
    pub is_signer: bool,
    pub is_writable: bool,
}

/// An instruction as plain values: the program it calls, its accounts in
/// order, and its encoded arguments.
#[derive(Debug, Clone)]
pub struct PlannedInstruction {
    pub program_id: Address,
    pub accounts: Vec<AccountRole>,
    pub data: Vec<u8>,
}

/// Whether account `i` of `ix` is `address`, used as stated.
pub open spec fn role_is(ix: PlannedInstruction, i: int, address: Seq<u8>, signer: bool, writable: bool) -> bool {
    &&& ix.accounts@[i].address@ == address
    &&& ix.accounts@[i].is_signer == signer
    &&& ix.accounts@[i].is_writable == writable
}

/// Whether `ix` calls the tree program with `n` accounts, of which only the
/// first `k` may be signers.
pub open spec fn tree_program_call(ix: PlannedInstruction, n: int, k: int) -> bool {
    &&& ix.program_id.bytes@ == BUBBLEGUM_PROGRAM@
    &&& ix.accounts@.len() == n
    &&& forall|i: int| k <= i < n ==> !(#[trigger] ix.accounts@[i]).is_signer
}

/// The encoded arguments of a tree creation.
pub uninterp spec fn create_tree_data(max_depth: u32, max_buffer_size: u32, public: bool) -> Seq<u8>;

/// The encoded arguments of a transfer.
pub uninterp spec fn transfer_data(
    root: Seq<u8>,
    data_hash: Seq<u8>,
    creator_hash: Seq<u8>,
    nonce: u64,
    index: u32,
) -> Seq<u8>;

/// Relies on `CreateTreeConfigBuilder` of mpl-bubblegum (create_tree_config.rs):
/// seven accounts, the first four being the given ones with these flags, the
/// rest fixed programs that do not sign.
#[verifier::external_body]
pub(crate) fn create_tree_instruction(
    tree_config: &Address,
    merkle_tree: &Address,
    payer: &Address,
    tree_creator: &Address,
    config: &TreeConfig,
) -> (r: PlannedInstruction)
    ensures
        tree_program_call(r, 7, 4),
        role_is(r, 0, tree_config@, false, true),
        role_is(r, 1, merkle_tree@, false, true),
        role_is(r, 2, payer@, true, true),
        role_is(r, 3, tree_creator@, true, false),
        r.data@ == create_tree_data(config.max_depth, config.max_buffer_size, config.public),
{
    let ix = CreateTreeConfigBuilder::new()
        .tree_config(tree_config.pubkey())
        .merkle_tree(merkle_tree.pubkey())
        .payer(payer.pubkey())
        .tree_creator(tree_creator.pubkey())
        .max_depth(config.max_depth)
        .max_buffer_size(config.max_buffer_size)
        .public(config.public)
        .instruction();
    planned(ix)
}

/// The accounts of a mint into a collection, one per slot of the builder.
pub struct MintAccounts {
    pub tree_config: Address,
    pub leaf_owner: Address,
    pub leaf_delegate: Address,
    pub merkle_tree: Address,
    pub payer: Address,
    pub tree_creator_or_delegate: Address,
    pub collection_authority: Address,
    pub collection_mint: Address,
    pub collection_metadata: Address,
    pub collection_edition: Address,
    pub token_metadata_program: Address,
}

#[verifier::external_type_specification]
#[verifier::external_body]
pub struct ExMintBuilder(MintToCollectionV1Builder);

/// Relies on the account setters of `MintToCollectionV1Builder` of
/// mpl-bubblegum.
#[verifier::external_body]
fn mint_builder(a: &MintAccounts) -> MintToCollectionV1Builder {
    let mut b = MintToCollectionV1Builder::new();
    b.tree_config(a.tree_config.pubkey())
        .leaf_owner(a.leaf_owner.pubkey())
        .leaf_delegate(a.leaf_delegate.pubkey())
        .merkle_tree(a.merkle_tree.pubkey())
        .payer(a.payer.pubkey())
        .tree_creator_or_delegate(a.tree_creator_or_delegate.pubkey())
        .collection_authority(a.collection_authority.pubkey())
        .collection_mint(a.collection_mint.pubkey())
        .collection_metadata(a.collection_metadata.pubkey())
        .collection_edition(a.collection_edition.pubkey())
        .token_metadata_program(a.token_metadata_program.pubkey());
    b
}

/// Relies on `MintToCollectionV1Builder::instruction` of mpl-bubblegum
/// (mint_to_collection_v1.rs): sixteen accounts, the first eleven in the order
/// of the setters (the eighth being the absent authority record) with these
/// flags, the rest fixed programs that do not sign.
#[verifier::external_body]
pub(crate) fn mint_instruction(a: &MintAccounts, metadata: wire::MetadataArgs) -> (r: PlannedInstruction)
    ensures
        tree_program_call(r, 16, 7),
        role_is(r, 0, a.tree_config@, false, true),
        role_is(r, 1, a.leaf_owner@, false, false),
        role_is(r, 2, a.leaf_delegate@, false, false),
        role_is(r, 3, a.merkle_tree@, false, true),
        role_is(r, 4, a.payer@, true, false),
        role_is(r, 5, a.tree_creator_or_delegate@, true, false),
        role_is(r, 6, a.collection_authority@, true, false),
        !r.accounts@[7].is_signer,
        role_is(r, 8, a.collection_mint@, false, false),
        role_is(r, 9, a.collection_metadata@, false, true),
        role_is(r, 10, a.collection_edition@, false, false),
{
    planned(mint_builder(a).metadata(metadata).instruction())
}

/// The accounts of a transfer, one per slot of the builder, with whether the
/// owner and the delegate sign.
pub struct TransferAccounts {
    pub tree_config: Address,
    pub leaf_owner: Address,
    pub owner_signs: bool,
    pub leaf_delegate: Address,
    pub delegate_signs: bool,
    pub new_leaf_owner: Address,
    pub merkle_tree: Address,
}

/// Relies on `TransferBuilder` of mpl-bubblegum (transfer.rs): eight
/// accounts, the first five being the given ones with these flags, the rest
/// fixed programs that do not sign.
#[verifier::external_body]
pub(crate) fn transfer_instruction(a: &TransferAccounts, leaf: &LeafProof) -> (r: PlannedInstruction)
    ensures
        tree_program_call(r, 8, 5),
        role_is(r, 0, a.tree_config@, false, false),
        role_is(r, 1, a.leaf_owner@, a.owner_signs, false),
        role_is(r, 2, a.leaf_delegate@, a.delegate_signs, false),
        role_is(r, 3, a.new_leaf_owner@, false, false),
        role_is(r, 4, a.merkle_tree@, false, true),
        r.data@ == transfer_data(leaf.root@, leaf.data_hash@, leaf.creator_hash@, leaf.nonce, leaf.index),
{
    let ix = TransferBuilder::new()
        .tree_config(a.tree_config.pubkey())
        .leaf_owner(a.leaf_owner.pubkey(), a.owner_signs)
        .leaf_delegate(a.leaf_delegate.pubkey(), a.delegate_signs)
        .new_leaf_owner(a.new_leaf_owner.pubkey())
        .merkle_tree(a.merkle_tree.pubkey())
        .root(leaf.root)
        .data_hash(leaf.data_hash)
        .creator_hash(leaf.creator_hash)
        .nonce(leaf.nonce)
        .index(leaf.index)
        .instruction();
    planned(ix)
}

/// Relies on the public fields of solana-program's `Instruction`.
#[verifier::external_body]
fn planned(ix: Instruction) -> PlannedInstruction {
    let accounts = ix.accounts.iter().map(|m| AccountRole {
        address: Address { bytes: m.pubkey.to_bytes() },
        is_signer: m.is_signer,
        is_writable: m.is_writable,
    });
    PlannedInstruction {
        program_id: Address { bytes: ix.program_id.to_bytes() },
        accounts: accounts.collect(),
        data: ix.data,
    }
}

/// Relies on the public fields of solana-program's `Instruction` and
/// `AccountMeta`.
#[verifier::external_body]
pub(crate) fn to_instruction(ix: &PlannedInstruction) -> Instruction {
    let accounts = ix.accounts.iter().map(|a| solana_sdk::instruction::AccountMeta {
        pubkey: a.address.pubkey(),
        is_signer: a.is_signer,
        is_writable: a.is_writable,
    });
    Instruction { program_id: ix.program_id.pubkey(), accounts: accounts.collect(), data: ix.data.clone() }
}

} // verus!
