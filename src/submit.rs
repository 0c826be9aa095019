use vstd::prelude::*;

use crate::address::{base58_value, Address};
use crate::error::BubblegumError;
use crate::plan::{transfer_parts, Operation, Plan, TOKEN_METADATA_PROGRAM};
use crate::keys::SigningKey;
use crate::wire::{
    create_tree_instruction, mint_instruction, role_is, to_instruction, transfer_instruction,
    tree_program_call, wire_metadata, create_tree_data, transfer_data, MintAccounts,
    PlannedInstruction, TransferAccounts,
};
use solana_sdk::instruction::Instruction;
use solana_sdk::pubkey::Pubkey;
use solana_sdk::signature::Keypair;
use solana_sdk::transaction::Transaction;

verus! {

#[verifier::external_type_specification]
#[verifier::external_body]
pub struct ExTransaction(Transaction);

/// Whether `ix` is the instruction that `plan` asks for: the tree program
/// called with the plan's accounts in their roles. A new tree is configured
/// and created by the payer. A mint is paid for by the payer, who also owns
/// and delegates the new leaf, delegates the tree and holds the collection's
/// authority. A transfer names the owner as the leaf's delegate too, and
/// neither signs.
pub open spec fn instruction_for(plan: Plan, ix: PlannedInstruction) -> bool {
    let payer = plan.payer.spec_address();
    match plan.operation {
        Operation::CreateTree { tree, tree_config, config } => {
            &&& tree_program_call(ix, 7, 4)
            &&& role_is(ix, 0, tree_config@, false, true)
            &&& role_is(ix, 1, tree.spec_address(), false, true)
            &&& role_is(ix, 2, payer, true, true)
            &&& role_is(ix, 3, payer, true, false)
            &&& ix.data@ == create_tree_data(config.max_depth, config.max_buffer_size, config.public)
        },
        Operation::MintToCollection {
            tree,
            tree_config,
            collection,
            collection_metadata,
            collection_edition,
            ..
        } => {
            &&& tree_program_call(ix, 16, 7)
            &&& role_is(ix, 0, tree_config@, false, true)
            &&& role_is(ix, 1, payer, false, false)
            &&& role_is(ix, 2, payer, false, false)
            &&& role_is(ix, 3, tree@, false, true)
            &&& role_is(ix, 4, payer, true, false)
            &&& role_is(ix, 5, payer, true, false)
            &&& role_is(ix, 6, payer, true, false)
            &&& !ix.accounts@[7].is_signer
            &&& role_is(ix, 8, collection@, false, false)
            &&& role_is(ix, 9, collection_metadata@, false, true)
            &&& role_is(ix, 10, collection_edition@, false, false)
        },
        Operation::Transfer { tree, tree_config, leaf_owner, new_owner, leaf } => {
            &&& tree_program_call(ix, 8, 5)
            &&& role_is(ix, 0, tree_config@, false, false)
            &&& role_is(ix, 1, leaf_owner@, false, false)
            &&& role_is(ix, 2, leaf_owner@, false, false)
            &&& role_is(ix, 3, new_owner@, false, false)
            &&& role_is(ix, 4, tree@, false, true)
            &&& ix.data@ == transfer_data(leaf.root@, leaf.data_hash@, leaf.creator_hash@, leaf.nonce, leaf.index)
        },
    }
}

/// Two transfer plans with the same plain values ask for the same
/// instruction; as a transfer's plan does not depend on its asset id, neither
/// does its instruction.
pub proof fn lemma_transfer_instruction_ignores_asset_id(p1: Plan, p2: Plan, ix: PlannedInstruction)
    requires
        transfer_parts(p1) is Some,
        transfer_parts(p1) == transfer_parts(p2),
    ensures
        instruction_for(p1, ix) == instruction_for(p2, ix),
{
}

/// The one instruction that a plan asks for.
pub fn build_instruction(plan: &Plan) -> (r: PlannedInstruction)
    ensures
        instruction_for(*plan, r),
{
    let payer = plan.payer.address();
    match &plan.operation {
        Operation::CreateTree { tree, tree_config, config } => {
            let tree_address = tree.address();
            create_tree_instruction(tree_config, &tree_address, &payer, &payer, config)
        },
        Operation::MintToCollection {
            tree,
            tree_config,
            collection,
            collection_metadata,
            collection_edition,
            metadata,
        } => {
            let accounts = MintAccounts {
                tree_config: *tree_config,
                leaf_owner: payer,
                leaf_delegate: payer,
                merkle_tree: *tree,
                payer,
                tree_creator_or_delegate: payer,
                collection_authority: payer,
                collection_mint: *collection,
                collection_metadata: *collection_metadata,
                collection_edition: *collection_edition,
                token_metadata_program: Address { bytes: TOKEN_METADATA_PROGRAM },
            };
            mint_instruction(&accounts, wire_metadata(metadata))
        },
        Operation::Transfer { tree, tree_config, leaf_owner, new_owner, leaf } => {
            let accounts = TransferAccounts {
                tree_config: *tree_config,
                leaf_owner: *leaf_owner,
                owner_signs: false,
                leaf_delegate: *leaf_owner,
                delegate_signs: false,
                new_leaf_owner: *new_owner,
                merkle_tree: *tree,
            };
            transfer_instruction(&accounts, leaf)
        },
    }
}

/// The addresses whose signatures a transaction of `ix` paid by `payer`
/// needs: the payer and every signing account of the instruction.
pub open spec fn required_signers(payer: Seq<u8>, ix: PlannedInstruction) -> Set<Seq<u8>> {
    Set::new(
        |a: Seq<u8>|
            a == payer || exists|i: int|
                0 <= i < ix.accounts@.len() && (#[trigger] ix.accounts@[i]).is_signer
                    && ix.accounts@[i].address@ == a,
    )
}

/// A transaction of one instruction, with the plain values it was made of.
pub struct PendingTransaction {
    tx: Transaction,
    fee_payer: Address,
    instruction: PlannedInstruction,
}

impl PendingTransaction {
    /// The address that pays the fee.
    pub closed spec fn spec_fee_payer(&self) -> Seq<u8> {
        self.fee_payer@
    }

    /// The instruction the transaction carries.
    pub closed spec fn spec_instruction(&self) -> PlannedInstruction {
        self.instruction
    }
}

/// Relies on `Transaction::new_with_payer` of solana-sdk: an unsigned
/// transaction of one instruction, paid for by `payer`.
#[verifier::external_body]
fn new_with_payer(instruction: Instruction, payer: Pubkey) -> Transaction {
    Transaction::new_with_payer(&[instruction], Some(&payer))
}

/// An unsigned transaction of `ix`, paid for by `payer`.
fn unsigned_transaction(ix: PlannedInstruction, payer: Address) -> (r: PendingTransaction)
    ensures
        r.spec_fee_payer() == payer@,
        r.spec_instruction() == ix,
{
    let tx = new_with_payer(to_instruction(&ix), payer.pubkey());
    PendingTransaction { tx, fee_payer: payer, instruction: ix }
}

/// Relies on `Transaction::try_sign` of solana-sdk (transaction/mod.rs): with
/// one key, it signs under the blockhash exactly when that key's address is
/// the only one whose signature the message needs (the fee payer and each
/// signing account of the instruction); else it gives the reason.
#[verifier::external_body]
fn try_sign(p: &mut PendingTransaction, key: &SigningKey, blockhash: [u8; 32]) -> (r: Result<(), String>)
    ensures
        r is Ok <==> required_signers(old(p).spec_fee_payer(), old(p).spec_instruction())
            == set![key.spec_address()],
        final(p).spec_fee_payer() == old(p).spec_fee_payer(),
        final(p).spec_instruction() == old(p).spec_instruction(),
{
    let signers: Vec<&Keypair> = vec![key.keypair()];
    let hash = solana_sdk::hash::Hash::new_from_array(blockhash);
    p.tx.try_sign(&signers, hash).map_err(|e| e.to_string())
}

/// A transaction signed by the payer under a recent blockhash.
pub struct SignedTransaction {
    tx: Transaction,
    fee_payer: Address,
    instruction: PlannedInstruction,
    blockhash: [u8; 32],
}

impl SignedTransaction {
    /// The address that pays the fee and signs.
    pub closed spec fn spec_fee_payer(&self) -> Seq<u8> {
        self.fee_payer@
    }

    /// The instruction the transaction carries.
    pub closed spec fn spec_instruction(&self) -> PlannedInstruction {
        self.instruction
    }

    /// The blockhash the transaction was signed under.
    pub closed spec fn spec_blockhash(&self) -> Seq<u8> {
        self.blockhash@
    }

    /// The transaction, for sending.
    pub fn transaction(&self) -> &Transaction {
        &self.tx
    }
}

/// Whether the one signer that the instruction of `plan` needs is its payer.
pub open spec fn payer_signs_alone(plan: Plan, ix: PlannedInstruction) -> bool {
    required_signers(plan.payer.spec_address(), ix) == set![plan.payer.spec_address()]
}

/// Each planned instruction needs the payer's signature and no other.
pub proof fn lemma_payer_signs_alone(plan: Plan, ix: PlannedInstruction)
    requires
        instruction_for(plan, ix),
    ensures
        payer_signs_alone(plan, ix),
{
    let payer = plan.payer.spec_address();
    assert(required_signers(payer, ix) =~= set![payer]) by {
        assert forall|a: Seq<u8>| #[trigger] required_signers(payer, ix).contains(a) implies a == payer by {
            if a != payer {
                let i = choose|i: int|
                    0 <= i < ix.accounts@.len() && (#[trigger] ix.accounts@[i]).is_signer
                        && ix.accounts@[i].address@ == a;
                assert(ix.accounts@[i].is_signer);
            }
        }
    }
}

/// The signed transaction for a plan, given the outcome of fetching a recent
/// blockhash: a failed fetch is a client error and nothing is signed; else
/// the plan's instruction, paid for and signed by the payer alone, under that
/// blockhash. The key of a new tree only names the tree: the configuration
/// instruction does not ask for its signature.
pub fn signed_transaction(plan: &Plan, blockhash: Result<[u8; 32], String>) -> (r: Result<
    SignedTransaction,
    BubblegumError,
>)
    ensures
        blockhash matches Err(m) ==> r == Err::<SignedTransaction, _>(
            BubblegumError::SolanaClientError(m),
        ),
        blockhash matches Ok(h) ==> r matches Ok(t) && signed_for(*plan, t, h@),
{
    let hash = match blockhash {
        Ok(h) => h,
        Err(m) => return Err(BubblegumError::SolanaClientError(m)),
    };
    let ix = build_instruction(plan);
    proof {
        lemma_payer_signs_alone(*plan, ix);
    }
    let mut pending = unsigned_transaction(ix, plan.payer.address());
    match try_sign(&mut pending, &plan.payer, hash) {
        Ok(()) => Ok(
            SignedTransaction {
                tx: pending.tx,
                fee_payer: pending.fee_payer,
                instruction: pending.instruction,
                blockhash: hash,
            },
        ),
        Err(m) => Err(BubblegumError::SigningError(m)),
    }
}

/// Whether `t` carries the instruction of `plan`, paid for and signed by its
/// payer alone, under the blockhash `h`.
pub open spec fn signed_for(plan: Plan, t: SignedTransaction, h: Seq<u8>) -> bool {
    &&& t.spec_fee_payer() == plan.payer.spec_address()
    &&& instruction_for(plan, t.spec_instruction())
    &&& required_signers(t.spec_fee_payer(), t.spec_instruction()) == set![plan.payer.spec_address()]
    &&& t.spec_blockhash() == h
}

/// What a confirmed operation reports: the transaction's signature, and for a
/// new tree its address.
#[derive(Debug, Clone)]
pub struct Receipt {
    pub tree_pubkey: Option<String>,
    pub signature: String,
}

/// The result of an operation, given the outcome of submitting its
/// transaction: the node's rejection is a transaction error carrying the
/// node's message; a confirmation gives the signature, and for a new tree the
/// text of the tree's address.
pub fn receipt(plan: &Plan, submitted: Result<String, String>) -> (r: Result<
    Receipt,
    BubblegumError,
>)
    ensures
        submitted matches Err(m) ==> r == Err::<Receipt, _>(BubblegumError::TransactionError(m)),
        submitted matches Ok(sig) ==> r matches Ok(rc) && rc.signature@ == sig@ && match plan.operation {
            Operation::CreateTree { tree, .. } => rc.tree_pubkey matches Some(t) && base58_value(t@)
                == Some(tree.spec_address()),
            _ => rc.tree_pubkey is None,
        },
{
    let signature = match submitted {
        Ok(s) => s,
        Err(m) => return Err(BubblegumError::TransactionError(m)),
    };
    let tree_pubkey = match &plan.operation {
        Operation::CreateTree { tree, .. } => Some(tree.address().to_text()),
        _ => None,
    };
    Ok(Receipt { tree_pubkey, signature })
}

/// What the ledger node answered, handed back to `next_action`.
pub enum SubmitEvent {
    /// Nothing has been asked yet.
    Start,
    /// The outcome of asking for a recent blockhash.
    BlockhashFetched(Result<[u8; 32], String>),
    /// The outcome of sending the signed transaction and waiting for its
    /// confirmation: its signature, or the node's reason.
    Submitted(Result<String, String>),
}

/// What to do next with the ledger node.
pub enum SubmitAction {
    /// Ask for a recent blockhash.
    FetchBlockhash,
    /// Send this signed transaction once and wait for confirmation.
    Send(SignedTransaction),
    /// Stop with this result; nothing more is sent.
    Finish(Result<Receipt, BubblegumError>),
}

/// The submission of a plan as a sequence of decisions: a blockhash is
/// fetched once, the transaction is sent once, and any failure ends the
/// operation with no retry.
pub fn next_action(plan: &Plan, event: SubmitEvent) -> (r: SubmitAction)
    ensures
        event is Start ==> r is FetchBlockhash,
        event matches SubmitEvent::BlockhashFetched(Err(m)) ==> r == SubmitAction::Finish(
            Err(BubblegumError::SolanaClientError(m)),
        ),
        event matches SubmitEvent::BlockhashFetched(Ok(h)) ==> r matches SubmitAction::Send(t)
            && signed_for(*plan, t, h@),
        event matches SubmitEvent::Submitted(Err(m)) ==> r == SubmitAction::Finish(
            Err(BubblegumError::TransactionError(m)),
        ),
        event matches SubmitEvent::Submitted(Ok(sig)) ==> r matches SubmitAction::Finish(Ok(rc))
            && rc.signature@ == sig@,
{
    match event {
        SubmitEvent::Start => SubmitAction::FetchBlockhash,
        SubmitEvent::BlockhashFetched(fetched) => match signed_transaction(plan, fetched) {
            Ok(tx) => SubmitAction::Send(tx),
            Err(e) => SubmitAction::Finish(Err(e)),
        },
        SubmitEvent::Submitted(sent) => SubmitAction::Finish(receipt(plan, sent)),
    }
}

} // verus!
