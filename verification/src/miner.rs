//! The session: the two keys, the tip account and the endpoints.

use vstd::prelude::*;
use solana_program::instruction::Instruction;
use solana_program::pubkey::Pubkey;
use solana_sdk::signature::Keypair;
use crate::assembler::Signer;
use crate::chain::clone_keypair;
use crate::coordinator::{Action, RetryCoordinator, RetryPolicy};

verus! {

/// What one invocation holds for its whole life: the key that signs and
/// pays for transactions, the key that pays tips, and where to send them.
pub struct Miner {
    pub signer: Signer,
    pub priority_fee: u64,
    pub cluster: String,
    pub regions: Vec<String>,
    pub tip_account: Pubkey,
}

impl Miner {
    /// A session with the transaction key `keypair` and the tip key
    /// `jito_keypair`.
    pub fn new(
        cluster: String,
        jito_keypair: Keypair,
        priority_fee: u64,
        regions: Vec<String>,
        keypair: Keypair,
        tip_account: Pubkey,
    ) -> (miner: Miner)
        ensures
            miner.signer == (Signer { tx_signer: keypair, tip_signer: jito_keypair }),
            miner.priority_fee == priority_fee,
            miner.cluster == cluster,
            miner.regions == regions,
            miner.tip_account == tip_account,
    {
        Miner {
            signer: Signer { tx_signer: keypair, tip_signer: jito_keypair },
            priority_fee,
            cluster,
            regions,
            tip_account,
        }
    }

    /// A copy of the key that pays tips.
    pub fn jito_keypair(&self) -> (key: Keypair)
        ensures
            key == self.signer.tip_signer,
    {
        clone_keypair(&self.signer.tip_signer)
    }

    /// A copy of the key that signs and pays for transactions.
    pub fn signer(&self) -> (key: Keypair)
        ensures
            key == self.signer.tx_signer,
    {
        clone_keypair(&self.signer.tx_signer)
    }

    /// The regions to ask the relay for.
    pub fn regions(&self) -> (regions: Vec<String>)
        ensures
            regions@ == self.regions@,
    {
        self.regions.clone()
    }

    /// The account that tips are paid to.
    pub fn tip_account(&self) -> (account: Pubkey)
        ensures
            account == self.tip_account,
    {
        self.tip_account
    }

    /// Opens the submission of `ixs`: the coordinator that sees it through
    /// under the usual budgets, and its first demand. Each later event goes
    /// to the coordinator's `step`, with this session and the same
    /// instructions.
    pub fn send_and_confirm(&self, ixs: &Vec<Instruction>, skip_confirm: bool) -> (r: (
        RetryCoordinator,
        Action,
    ))
        requires
            ixs@.len() >= 1,
        ensures
            r.0 == RetryCoordinator::initial(RetryPolicy::usual(skip_confirm)),
            r.0.wf(),
            r.1 is FetchBalance,
    {
        RetryCoordinator::new(RetryPolicy::standard(skip_confirm))
    }
}

} // verus!
