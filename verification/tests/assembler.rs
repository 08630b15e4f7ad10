use ore_cli::assembler::{
    assemble, fits, sign_with, AssembleError, RecencyCheckpoint, Signer, TIP_LAMPORTS,
};
use solana_program::instruction::{AccountMeta, Instruction};
use solana_program::pubkey::Pubkey;
use solana_sdk::signature::Keypair;
use solana_sdk::signer::keypair::keypair_from_seed;

fn key(seed: u8) -> Keypair {
    keypair_from_seed(&[seed; 32]).unwrap()
}

fn signer(tx_seed: u8, tip_seed: u8) -> Signer {
    Signer { tx_signer: key(tx_seed), tip_signer: key(tip_seed) }
}

fn pubkey(key: &Keypair) -> Pubkey {
    solana_sdk::signer::Signer::pubkey(key)
}

fn sign(key: &Keypair, message: &[u8]) -> solana_sdk::signature::Signature {
    solana_sdk::signer::Signer::sign_message(key, message)
}

fn address(tag: u8) -> Pubkey {
    Pubkey::new_from_array([tag; 32])
}

fn checkpoint(tag: u8, height: u64) -> RecencyCheckpoint {
    RecencyCheckpoint { hash: solana_sdk::hash::Hash::new_from_array([tag; 32]), height }
}

fn instruction(program: u8, account: u8, data: Vec<u8>) -> Instruction {
    Instruction {
        program_id: address(program),
        accounts: vec![AccountMeta::new(address(account), false)],
        data,
    }
}

fn wide_instruction(accounts: usize) -> Instruction {
    let mut metas = Vec::new();
    for i in 0..accounts {
        let mut bytes = [0u8; 32];
        bytes[0] = (i % 256) as u8;
        bytes[1] = (i / 256) as u8;
        bytes[31] = 1;
        metas.push(AccountMeta::new_readonly(Pubkey::new_from_array(bytes), false));
    }
    Instruction { program_id: address(200), accounts: metas, data: vec![] }
}

#[test]
fn bundle_transactions_share_checkpoint() {
    let cp = checkpoint(7, 1234);
    for n in 1..4u8 {
        let ixs: Vec<Instruction> = (0..n).map(|i| instruction(100 + i, 50 + i, vec![i])).collect();
        let bundle = assemble(&ixs, &signer(1, 2), &address(9), TIP_LAMPORTS, cp).unwrap();
        assert_eq!(bundle.primary.checkpoint, cp);
        assert_eq!(bundle.tip.checkpoint, cp);
        assert_eq!(bundle.primary.transaction.message.recent_blockhash, cp.hash);
        assert_eq!(bundle.tip.transaction.message.recent_blockhash, cp.hash);
        assert_eq!(bundle.primary.blockhash(), cp.hash);
        assert_eq!(bundle.tip.blockhash(), cp.hash);
        assert_ne!(bundle.primary.blockhash(), solana_sdk::hash::Hash::default());
    }
}

#[test]
fn primary_embeds_instructions_in_order() {
    let ixs = vec![
        instruction(100, 50, vec![1, 2, 3]),
        instruction(101, 51, vec![]),
        instruction(100, 52, vec![9]),
    ];
    let payer = key(1);
    let bundle = assemble(&ixs, &Signer { tx_signer: key(1), tip_signer: key(2) }, &address(9), TIP_LAMPORTS, checkpoint(3, 5)).unwrap();
    let message = &bundle.primary.transaction.message;
    assert_eq!(message.account_keys[0], pubkey(&payer));
    assert_eq!(message.header.num_required_signatures, 1);
    assert_eq!(message.instructions.len(), 3);
    for (compiled, given) in message.instructions.iter().zip(ixs.iter()) {
        assert_eq!(compiled.data, given.data);
        assert_eq!(message.account_keys[compiled.program_id_index as usize], given.program_id);
        assert_eq!(compiled.accounts.len(), 1);
        assert_eq!(message.account_keys[compiled.accounts[0] as usize], given.accounts[0].pubkey);
    }
}

#[test]
fn primary_is_signed_by_the_transaction_key() {
    let payer = key(1);
    let ixs = vec![instruction(100, 50, vec![1])];
    let bundle = assemble(&ixs, &Signer { tx_signer: key(1), tip_signer: key(2) }, &address(9), TIP_LAMPORTS, checkpoint(3, 5)).unwrap();
    let tx = &bundle.primary.transaction;
    assert!(tx.is_signed());
    assert!(tx.verify().is_ok());
    assert_eq!(tx.signatures.len(), 1);
    assert_eq!(bundle.primary.signature, tx.signatures[0]);
    assert_eq!(bundle.primary.signature, sign(&payer, &tx.message_data()));
    assert_ne!(bundle.primary.signature, solana_sdk::signature::Signature::default());
}

#[test]
fn tip_is_a_fixed_transfer_signed_by_the_tip_key() {
    let tipper = key(2);
    let tip_account = address(9);
    let ixs = vec![instruction(100, 50, vec![1])];
    let bundle = assemble(&ixs, &signer(1, 2), &tip_account, TIP_LAMPORTS, checkpoint(3, 5)).unwrap();
    let tx = &bundle.tip.transaction;
    assert_eq!(TIP_LAMPORTS, 1_000_000);
    assert!(tx.verify().is_ok());
    assert_eq!(bundle.tip.signature, tx.signatures[0]);
    assert_eq!(bundle.tip.signature, sign(&tipper, &tx.message_data()));
    let message = &tx.message;
    assert_eq!(message.account_keys, vec![pubkey(&tipper), tip_account, solana_program::system_program::id()]);
    assert_eq!(message.instructions.len(), 1);
    let transfer = &message.instructions[0];
    assert_eq!(transfer.program_id_index, 2);
    assert_eq!(transfer.accounts, vec![0, 1]);
    assert_eq!(transfer.data, vec![2, 0, 0, 0, 0x40, 0x42, 0x0f, 0, 0, 0, 0, 0]);
}

#[test]
fn tip_amount_is_the_one_given() {
    let ixs = vec![instruction(100, 50, vec![1])];
    let bundle = assemble(&ixs, &signer(1, 2), &address(9), 258, checkpoint(3, 5)).unwrap();
    assert_eq!(
        bundle.tip.transaction.message.instructions[0].data,
        vec![2, 0, 0, 0, 2, 1, 0, 0, 0, 0, 0, 0]
    );
}

#[test]
fn sign_with_labels_the_transaction() {
    let payer = key(4);
    let cp = checkpoint(8, 77);
    let ixs = vec![instruction(100, 50, vec![1, 2])];
    let signed = sign_with(&ixs, &payer, cp).unwrap();
    assert_eq!(signed.checkpoint, cp);
    assert_eq!(signed.transaction.message.recent_blockhash, cp.hash);
    assert_eq!(signed.signature, signed.transaction.signatures[0]);
    assert_eq!(signed.transaction.message.account_keys[0], pubkey(&payer));
}

#[test]
fn same_inputs_give_the_same_bundle() {
    let ixs = vec![instruction(100, 50, vec![1])];
    let cp = checkpoint(3, 5);
    let a = assemble(&ixs, &signer(1, 2), &address(9), TIP_LAMPORTS, cp).unwrap();
    let b = assemble(&ixs, &signer(1, 2), &address(9), TIP_LAMPORTS, cp).unwrap();
    assert_eq!(a, b);
}

#[test]
fn fresh_checkpoint_gives_fresh_transactions() {
    let ixs = vec![instruction(100, 50, vec![1])];
    let a = assemble(&ixs, &signer(1, 2), &address(9), TIP_LAMPORTS, checkpoint(3, 5)).unwrap();
    let b = assemble(&ixs, &signer(1, 2), &address(9), TIP_LAMPORTS, checkpoint(4, 6)).unwrap();
    assert_ne!(a.primary.transaction, b.primary.transaction);
    assert_ne!(a.tip.transaction, b.tip.transaction);
    assert_ne!(a.primary.signature, b.primary.signature);
    assert_ne!(a.tip.signature, b.tip.signature);
    assert_eq!(a.primary.transaction.message.instructions, b.primary.transaction.message.instructions);
}

#[test]
fn fits_counts_every_key_mention() {
    assert!(fits(&vec![]));
    assert!(fits(&vec![wide_instruction(253)]));
    assert!(!fits(&vec![wide_instruction(254)]));
    assert!(fits(&vec![wide_instruction(126), wide_instruction(126)]));
    assert!(!fits(&vec![wide_instruction(126), wide_instruction(127)]));
    assert!(!fits(&vec![wide_instruction(100_000)]));
}

#[test]
fn fits_bounds_the_data_of_each_instruction() {
    assert!(fits(&vec![instruction(100, 50, vec![0; 65535])]));
    assert!(!fits(&vec![instruction(100, 50, vec![0; 65536])]));
    assert!(!fits(&vec![instruction(100, 50, vec![]), instruction(100, 50, vec![0; 65536])]));
}

#[test]
fn widest_list_that_fits_is_assembled() {
    let ixs = vec![wide_instruction(253)];
    let bundle = assemble(&ixs, &signer(1, 2), &address(9), TIP_LAMPORTS, checkpoint(3, 5)).unwrap();
    assert_eq!(bundle.primary.transaction.message.account_keys.len(), 255);
    assert!(bundle.primary.transaction.verify().is_ok());
}

#[test]
fn longest_data_that_fits_is_assembled() {
    let ixs = vec![instruction(100, 50, vec![5; 65535])];
    let bundle = assemble(&ixs, &signer(1, 2), &address(9), TIP_LAMPORTS, checkpoint(3, 5)).unwrap();
    assert_eq!(bundle.primary.transaction.message.instructions[0].data.len(), 65535);
    assert!(bundle.primary.transaction.verify().is_ok());
}

#[test]
fn oversized_lists_are_too_large() {
    let cp = checkpoint(3, 5);
    assert_eq!(
        assemble(&vec![wide_instruction(254)], &signer(1, 2), &address(9), TIP_LAMPORTS, cp),
        Err(AssembleError::TooLarge)
    );
    assert_eq!(
        assemble(&vec![instruction(100, 50, vec![0; 65536])], &signer(1, 2), &address(9), TIP_LAMPORTS, cp),
        Err(AssembleError::TooLarge)
    );
    assert_eq!(sign_with(&vec![wide_instruction(300)], &key(1), cp), Err(AssembleError::TooLarge));
}

#[test]
fn a_signer_beside_the_payer_fails_signing() {
    let other = key(3);
    let ix = Instruction {
        program_id: address(100),
        accounts: vec![AccountMeta::new(pubkey(&other), true)],
        data: vec![1],
    };
    assert_eq!(
        assemble(&vec![ix], &signer(1, 2), &address(9), TIP_LAMPORTS, checkpoint(3, 5)),
        Err(AssembleError::SigningFailed)
    );
}

#[test]
fn the_payer_may_sign_inside_an_instruction() {
    let payer = key(1);
    let ix = Instruction {
        program_id: address(100),
        accounts: vec![AccountMeta::new(pubkey(&payer), true)],
        data: vec![1],
    };
    let bundle = assemble(&vec![ix], &Signer { tx_signer: key(1), tip_signer: key(2) }, &address(9), TIP_LAMPORTS, checkpoint(3, 5)).unwrap();
    assert!(bundle.primary.transaction.verify().is_ok());
}
