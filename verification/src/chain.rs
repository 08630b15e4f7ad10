//! The boundary to the ledger's own SDK: its types, carried through unread,
//! and the few calls the library makes into it. Nothing in this file is
//! proved; every contract here is taken on trust from the SDK's source.

use vstd::prelude::*;
use solana_program::instruction::Instruction;
use solana_program::pubkey::Pubkey;
use solana_sdk::signature::{Keypair, Signature};
use solana_sdk::signer::SignerError;
use solana_sdk::transaction::Transaction;

verus! {

/// `solana_sdk::signature::Keypair`, an ed25519 key pair. Opaque.
#[verifier::external_type_specification]
#[verifier::external_body]
pub struct ExKeypair(Keypair);

/// `solana_program::pubkey::Pubkey`, a 32-byte account address. Opaque.
#[verifier::external_type_specification]
#[verifier::external_body]
pub struct ExPubkey(Pubkey);

/// `solana_program::hash::Hash`, a 32-byte block hash. Opaque.
#[verifier::external_type_specification]
#[verifier::external_body]
pub struct ExHash(solana_program::hash::Hash);

/// `solana_sdk::signature::Signature`, a 64-byte ed25519 signature. Opaque.
#[verifier::external_type_specification]
#[verifier::external_body]
pub struct ExSignature(Signature);

/// `core::array::TryFromSliceError`, the error of the signature type's
/// conversion from a slice. Opaque, and never made here.
#[verifier::external_type_specification]
#[verifier::external_body]
pub struct ExTryFromSliceError(core::array::TryFromSliceError);

/// `solana_program::instruction::Instruction`. Opaque: the library embeds
/// instructions as they are given and never interprets them.
#[verifier::external_type_specification]
#[verifier::external_body]
pub struct ExInstruction(Instruction);

/// `solana_sdk::transaction::Transaction`, a legacy transaction. Opaque.
#[verifier::external_type_specification]
#[verifier::external_body]
pub struct ExTransaction(Transaction);

/// `solana_sdk::signer::SignerError`. Opaque.
#[verifier::external_type_specification]
#[verifier::external_body]
pub struct ExSignerError(SignerError);

/// The public half of a key pair, as `Signer::pubkey` gives it.
pub uninterp spec fn keypair_pubkey(key: Keypair) -> Pubkey;

/// The system-program transfer instruction that
/// `system_instruction::transfer` builds.
pub uninterp spec fn transfer_instruction(from: Pubkey, to: Pubkey, lamports: u64) -> Instruction;

/// How many account entries an instruction lists.
pub uninterp spec fn account_count(ix: Instruction) -> nat;

/// How many bytes of data an instruction carries.
pub uninterp spec fn data_len(ix: Instruction) -> nat;

/// The unsigned transaction that `Transaction::new_with_payer` compiles from
/// a list of instructions and a fee payer.
pub uninterp spec fn unsigned_transaction(ixs: Seq<Instruction>, payer: Pubkey) -> Transaction;

/// What `Transaction::try_sign` with one key makes of a transaction: the
/// signed transaction, or `None` where it reports an error.
pub uninterp spec fn sign_outcome(tx: Transaction, key: Keypair, blockhash: solana_program::hash::Hash) -> Option<
    Transaction,
>;

/// The first entry of a transaction's signature list, the fee payer's.
pub uninterp spec fn first_signature(tx: Transaction) -> Option<Signature>;

/// The block hash written in a transaction's message.
pub uninterp spec fn recent_blockhash(tx: Transaction) -> solana_program::hash::Hash;

/// Most key mentions a list of instructions may hold. With the fee payer
/// that makes at most 255 different keys, which the one-byte counts of a
/// message header can still express.
pub const MAX_KEY_MENTIONS: usize = 254;

/// Longest instruction data that the wire encoding can frame: its length
/// prefix holds sixteen bits.
pub const MAX_DATA_LEN: usize = 65535;

/// Every mention of an account key in a list of instructions: one for each
/// instruction's program and one for each account entry.
pub open spec fn key_mentions(ixs: Seq<Instruction>) -> nat
    decreases ixs.len(),
{
    if ixs.len() == 0 {
        0
    } else {
        key_mentions(ixs.drop_last()) + 1 + account_count(ixs.last())
    }
}

/// The instruction lists that fit a legacy message: few enough key mentions
/// that the compiled key table stays within one byte of index, and data
/// short enough to be framed.
pub open spec fn fits_message(ixs: Seq<Instruction>) -> bool {
    &&& key_mentions(ixs) <= MAX_KEY_MENTIONS
    &&& forall|i: int| 0 <= i < ixs.len() ==> data_len(#[trigger] ixs[i]) <= MAX_DATA_LEN
}

/// A transaction that was compiled, unsigned, from a list that fits.
pub open spec fn compiled_from_fitting(tx: Transaction) -> bool {
    exists|ixs: Seq<Instruction>, payer: Pubkey|
        fits_message(ixs) && tx == #[trigger] unsigned_transaction(ixs, payer)
}

/// Calls `Signer::pubkey` on a `Keypair`, which copies out the public key.
#[verifier::external_body]
pub(crate) fn pubkey_of(key: &Keypair) -> (pk: Pubkey)
    ensures
        pk == keypair_pubkey(*key),
{
    solana_sdk::signer::Signer::pubkey(key)
}

/// Calls `Keypair::insecure_clone`, which rebuilds the pair from its own
/// secret and public bytes: the copy is the same key.
#[verifier::external_body]
pub(crate) fn clone_keypair(key: &Keypair) -> (copy: Keypair)
    ensures
        copy == *key,
{
    key.insecure_clone()
}

/// Calls `system_instruction::transfer`. The instruction it builds lists two
/// accounts, sender and recipient, and carries the bincode form of
/// `SystemInstruction::Transfer`: a four-byte tag and the eight-byte amount.
#[verifier::external_body]
pub(crate) fn transfer(from: &Pubkey, to: &Pubkey, lamports: u64) -> (ix: Instruction)
    ensures
        ix == transfer_instruction(*from, *to, lamports),
        account_count(ix) == 2,
        data_len(ix) == 12,
{
    solana_program::system_instruction::transfer(from, to, lamports)
}

/// Reads the length of an instruction's `accounts` field.
#[verifier::external_body]
pub(crate) fn accounts_len(ix: &Instruction) -> (n: usize)
    ensures
        n == account_count(*ix),
{
    ix.accounts.len()
}

/// Reads the length of an instruction's `data` field.
#[verifier::external_body]
pub(crate) fn data_bytes(ix: &Instruction) -> (n: usize)
    ensures
        n == data_len(*ix),
{
    ix.data.len()
}

/// Calls `Transaction::new_with_payer`. It panics where the compiled key
/// table would need more than 255 entries of one class; a list within
/// `fits_message` mentions at most 254 keys beside the payer.
#[verifier::external_body]
pub(crate) fn compile_unsigned(ixs: &Vec<Instruction>, payer: &Pubkey) -> (tx: Transaction)
    requires
        fits_message(ixs@),
    ensures
        tx == unsigned_transaction(ixs@, *payer),
{
    Transaction::new_with_payer(ixs, Some(payer))
}

/// Calls `Transaction::try_sign` with a single key. On success the
/// message carries the given block hash, and the key's signature stands in
/// the slot of its account, so the signature list is not empty. It serialises the
/// message, which panics on a length over 65535: hence the demand that the
/// transaction came from a list that fits.
#[verifier::external_body]
pub(crate) fn try_sign(tx: &mut Transaction, key: &Keypair, blockhash: &solana_program::hash::Hash) -> (r: Result<
    (),
    SignerError,
>)
    requires
        compiled_from_fitting(*old(tx)),
    ensures
        r is Ok <==> sign_outcome(*old(tx), *key, *blockhash) is Some,
        r is Ok ==> sign_outcome(*old(tx), *key, *blockhash) == Some(*final(tx)),
        r is Ok ==> first_signature(*final(tx)) is Some,
        r is Ok ==> recent_blockhash(*final(tx)) == *blockhash,
{
    tx.try_sign(&[key], *blockhash)
}

/// Reads the first entry of a transaction's `signatures` field.
#[verifier::external_body]
pub(crate) fn leading_signature(tx: &Transaction) -> (sig: Option<Signature>)
    ensures
        sig == first_signature(*tx),
{
    tx.signatures.first().copied()
}

/// Reads the `recent_blockhash` field of a transaction's message.
#[verifier::external_body]
pub(crate) fn blockhash_of(tx: &Transaction) -> (hash: solana_program::hash::Hash)
    ensures
        hash == recent_blockhash(*tx),
{
    tx.message.recent_blockhash
}

} // verus!
