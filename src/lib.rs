//! Assembly of compressed-NFT transactions: key and address parsing,
//! metadata conversion, instruction planning, signing and the mapping of
//! submission outcomes.

pub mod address;
pub mod error;
pub mod keys;
pub mod metadata;
pub mod plan;
pub mod submit;
pub mod wire;

pub use address::{parse_pubkey, Address, ADDRESS_LEN};
pub use error::BubblegumError;
pub use keys::{decode_signing_key, parse_keypair, SigningKey, KEYPAIR_LEN};
pub use metadata::{
    convert_creators, convert_metadata_args, AssetMetadata, AssetStandard, CollectionRef,
    CreatorNif, CreatorShare, MetadataArgsNif, TokenProgram, TreeConfig, UsageLimit, UsageMethod,
};
pub use plan::{
    collection_accounts, plan_create_tree, plan_mint_to_collection, plan_transfer,
    parse_leaf_proof, tree_config_address, LeafProof, Operation, Plan,
};
pub use submit::{
    build_instruction, next_action, receipt, signed_transaction, Receipt, SignedTransaction,
    SubmitAction, SubmitEvent,
};
pub use wire::{AccountRole, PlannedInstruction};
