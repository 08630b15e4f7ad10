//! Building the two transactions of a bundle against one recency checkpoint.

use vstd::prelude::*;
use solana_program::instruction::Instruction;
use solana_program::pubkey::Pubkey;
use solana_sdk::signature::{Keypair, Signature};
use solana_sdk::transaction::Transaction;
use crate::chain::{
    accounts_len, blockhash_of, compile_unsigned, data_bytes, data_len, first_signature,
    fits_message, key_mentions, keypair_pubkey, leading_signature, pubkey_of, recent_blockhash,
    sign_outcome, transfer, transfer_instruction, try_sign, unsigned_transaction, MAX_DATA_LEN,
    MAX_KEY_MENTIONS,
};

verus! {

/// What the relay operator is paid for carrying a bundle, in lamports.
pub const TIP_LAMPORTS: u64 = 1_000_000;

/// The two keys of a session: one signs and pays for the caller's
/// transactions, the other pays the relay's tip.
#[derive(Debug, PartialEq)]
pub struct Signer {
    pub tx_signer: Keypair,
    pub tip_signer: Keypair,
}

/// A block hash with the height up to which it is valid. A transaction
/// built against it expires with it.
#[derive(Clone, Copy, Debug, PartialEq, Eq)]
pub struct RecencyCheckpoint {
    pub hash: solana_program::hash::Hash,
    pub height: u64,
}

/// A transaction as it goes out, with the fee payer's signature and the
/// checkpoint it was built against.
#[derive(Debug, PartialEq, Eq)]
pub struct SignedTransaction {
    pub transaction: Transaction,
    pub signature: Signature,
    pub checkpoint: RecencyCheckpoint,
}

/// The primary transaction and the tip that pays for its carriage. The relay
/// takes both or neither.
#[derive(Debug, PartialEq, Eq)]
pub struct Bundle {
    pub primary: SignedTransaction,
    pub tip: SignedTransaction,
}

impl SignedTransaction {
    /// The label agrees with what is signed: the message carries the
    /// checkpoint's hash, and `signature` is the fee payer's.
    pub open spec fn wf(self) -> bool {
        &&& recent_blockhash(self.transaction) == self.checkpoint.hash
        &&& first_signature(self.transaction) == Some(self.signature)
    }

    /// The block hash that the signed message carries.
    pub fn blockhash(&self) -> (hash: solana_program::hash::Hash)
        requires
            self.wf(),
        ensures
            hash == self.checkpoint.hash,
    {
        blockhash_of(&self.transaction)
    }
}

impl Bundle {
    /// Both transactions are well formed and were built against one
    /// checkpoint, so they expire together.
    pub open spec fn wf(self) -> bool {
        &&& self.primary.wf()
        &&& self.tip.wf()
        &&& self.primary.checkpoint == self.tip.checkpoint
    }
}

/// Why no transaction could be built.
#[derive(Clone, Copy, Debug, PartialEq, Eq)]
pub enum AssembleError {
    /// The instructions mention more keys, or carry longer data, than a
    /// message can hold.
    TooLarge,
    /// The fee payer's key alone does not sign the transaction.
    SigningFailed,
}

/// The transaction that `key` pays for and signs, holding `ixs` in order,
/// built against `checkpoint`.
pub open spec fn signed_transaction(
    ixs: Seq<Instruction>,
    key: Keypair,
    checkpoint: RecencyCheckpoint,
) -> Result<SignedTransaction, AssembleError> {
    if !fits_message(ixs) {
        Err(AssembleError::TooLarge)
    } else {
        match sign_outcome(unsigned_transaction(ixs, keypair_pubkey(key)), key, checkpoint.hash) {
            None => Err(AssembleError::SigningFailed),
            Some(tx) => Ok(
                SignedTransaction {
                    transaction: tx,
                    signature: first_signature(tx)->0,
                    checkpoint,
                },
            ),
        }
    }
}

/// The one instruction of a tip transaction: a transfer from the tip key's
/// own account to the relay's tip account.
pub open spec fn tip_instructions(tip_signer: Keypair, tip_account: Pubkey, lamports: u64) -> Seq<
    Instruction,
> {
    seq![transfer_instruction(keypair_pubkey(tip_signer), tip_account, lamports)]
}

/// The bundle for one attempt: the caller's instructions signed by the
/// transaction key, and the tip signed by the tip key, both against
/// `checkpoint`.
pub open spec fn bundle_for(
    ixs: Seq<Instruction>,
    signer: Signer,
    tip_account: Pubkey,
    lamports: u64,
    checkpoint: RecencyCheckpoint,
) -> Result<Bundle, AssembleError> {
    match signed_transaction(ixs, signer.tx_signer, checkpoint) {
        Err(e) => Err(e),
        Ok(primary) => match signed_transaction(
            tip_instructions(signer.tip_signer, tip_account, lamports),
            signer.tip_signer,
            checkpoint,
        ) {
            Err(e) => Err(e),
            Ok(tip) => Ok(Bundle { primary, tip }),
        },
    }
}

/// Key mentions only grow as a list of instructions grows.
pub proof fn lemma_key_mentions_monotone(ixs: Seq<Instruction>, n: int)
    requires
        0 <= n <= ixs.len(),
    ensures
        key_mentions(ixs.take(n)) <= key_mentions(ixs),
    decreases ixs.len() - n,
{
    if n < ixs.len() {
        lemma_key_mentions_monotone(ixs, n + 1);
        assert(ixs.take(n + 1).drop_last() =~= ixs.take(n));
    } else {
        assert(ixs.take(n) =~= ixs);
    }
}

/// Whether a list of instructions fits one message.
pub fn fits(ixs: &Vec<Instruction>) -> (ok: bool)
    ensures
        ok == fits_message(ixs@),
{
    let mut mentions: usize = 0;
    let mut i: usize = 0;
    while i < ixs.len()
        invariant
            i <= ixs.len(),
            mentions == key_mentions(ixs@.take(i as int)),
            mentions <= MAX_KEY_MENTIONS,
            forall|j: int| 0 <= j < i ==> data_len(#[trigger] ixs@[j]) <= MAX_DATA_LEN,
        decreases ixs.len() - i,
    {
        let accounts: usize = accounts_len(&ixs[i]);
        let bytes: usize = data_bytes(&ixs[i]);
        if bytes > MAX_DATA_LEN {
            return false;
        }
        proof {
            assert(ixs@.take(i + 1).drop_last() =~= ixs@.take(i as int));
            assert(ixs@.take(i + 1).last() == ixs@[i as int]);
            lemma_key_mentions_monotone(ixs@, i + 1);
        }
        if accounts >= MAX_KEY_MENTIONS - mentions {
            return false;
        }
        mentions = mentions + 1 + accounts;
        i = i + 1;
    }
    proof {
        assert(ixs@.take(i as int) =~= ixs@);
    }
    true
}

/// Builds and signs one transaction: `ixs` in order, paid for and signed by
/// `key`, against `checkpoint`.
pub fn sign_with(ixs: &Vec<Instruction>, key: &Keypair, checkpoint: RecencyCheckpoint) -> (r:
    Result<SignedTransaction, AssembleError>)
    ensures
        r == signed_transaction(ixs@, *key, checkpoint),
        r matches Ok(signed) ==> signed.wf() && signed.checkpoint == checkpoint,
{
    if !fits(ixs) {
        return Err(AssembleError::TooLarge);
    }
    let payer = pubkey_of(key);
    let mut tx = compile_unsigned(ixs, &payer);
    match try_sign(&mut tx, key, &checkpoint.hash) {
        Err(_) => Err(AssembleError::SigningFailed),
        Ok(()) => match leading_signature(&tx) {
            Some(signature) => Ok(SignedTransaction { transaction: tx, signature, checkpoint }),
            None => Err(AssembleError::SigningFailed),
        },
    }
}

/// Builds the bundle for one attempt: the primary transaction from the
/// caller's instructions and the tip transfer, both against `checkpoint`.
pub fn assemble(
    ixs: &Vec<Instruction>,
    signer: &Signer,
    tip_account: &Pubkey,
    lamports: u64,
    checkpoint: RecencyCheckpoint,
) -> (r: Result<Bundle, AssembleError>)
    requires
        ixs@.len() >= 1,
    ensures
        r == bundle_for(ixs@, *signer, *tip_account, lamports, checkpoint),
        r matches Ok(bundle) ==> bundle.wf() && bundle.primary.checkpoint == checkpoint
            && bundle.tip.checkpoint == checkpoint,
{
    let primary = match sign_with(ixs, &signer.tx_signer, checkpoint) {
        Ok(signed) => signed,
        Err(e) => {
            return Err(e);
        },
    };
    let tip_payer = pubkey_of(&signer.tip_signer);
    let mut tip_ixs: Vec<Instruction> = Vec::new();
    tip_ixs.push(transfer(&tip_payer, tip_account, lamports));
    proof {
        assert(tip_ixs@ =~= tip_instructions(signer.tip_signer, *tip_account, lamports));
    }
    match sign_with(&tip_ixs, &signer.tip_signer, checkpoint) {
        Ok(tip) => Ok(Bundle { primary, tip }),
        Err(e) => Err(e),
    }
}

/// Whatever the instructions, as long as there is one, the two transactions
/// of a bundle carry the checkpoint the bundle was built against, and so the
/// same one.
pub proof fn lemma_bundle_shares_checkpoint(
    ixs: Seq<Instruction>,
    signer: Signer,
    tip_account: Pubkey,
    lamports: u64,
    checkpoint: RecencyCheckpoint,
)
    requires
        ixs.len() >= 1,
        bundle_for(ixs, signer, tip_account, lamports, checkpoint) is Ok,
    ensures
        bundle_for(ixs, signer, tip_account, lamports, checkpoint)->Ok_0.primary.checkpoint
            == checkpoint,
        bundle_for(ixs, signer, tip_account, lamports, checkpoint)->Ok_0.tip.checkpoint
            == checkpoint,
{
}

/// Transactions built against checkpoints with different hashes are
/// different transactions: nothing signed for one attempt can be the bytes
/// of another.
pub proof fn lemma_fresh_hash_fresh_transaction(a: SignedTransaction, b: SignedTransaction)
    requires
        a.wf(),
        b.wf(),
        a.checkpoint.hash != b.checkpoint.hash,
    ensures
        a.transaction != b.transaction,
{
}

} // verus!
