//! The relay side of the bridge: error taxonomy, the per-chain nonce cache,
//! the nonce decision for the next submission, the transaction plan a relay
//! submits, and the settlement step after the destination chain is asked for
//! the mined transaction.

use vstd::prelude::*;
use vstd::string::StringExecFns;
use crate::chain::{Chain, chain_id_spec, chain_id, paired_spec, token_address, token_address_spec};
use crate::numfmt::copy_bytes;
use crate::session::RelayCommand;

verus! {

/// Failures the bridge core surfaces to its callers.
#[derive(Clone, Copy, PartialEq, Eq, Structural, Debug)]
pub enum BridgeError {
    /// A session start while a session for that chain is active.
    SessionConflict,
    /// A submission went out but the mined transaction cannot be located.
    TransactionNotFound,
}

/// Operator-facing message of an error.
pub open spec fn message_spec(e: BridgeError) -> Seq<char> {
    match e {
        BridgeError::SessionConflict => "Already watching for logs."@,
        BridgeError::TransactionNotFound => "Could not get transaction."@,
    }
}

impl BridgeError {
    /// Returns the operator-facing message of this error.
    pub fn message(&self) -> (r: String)
        ensures
            r@ == message_spec(*self),
    {
        match self {
            BridgeError::SessionConflict => String::from_str("Already watching for logs."),
            BridgeError::TransactionNotFound => String::from_str("Could not get transaction."),
        }
    }
}

/// Last confirmed nonce of this process's signer, per destination chain.
pub struct NonceCache {
    pub sepolia: Option<u64>,
    pub base: Option<u64>,
}

impl NonceCache {
    /// Cached nonce for submissions onto `c`.
    pub open spec fn of_spec(self, c: Chain) -> Option<u64> {
        match c {
            Chain::Sepolia => self.sepolia,
            Chain::BaseSepolia => self.base,
        }
    }

    /// A cached nonce always leaves room for a successor.
    pub open spec fn wf(self) -> bool {
        &&& (self.sepolia matches Some(k) ==> k < u64::MAX)
        &&& (self.base matches Some(k) ==> k < u64::MAX)
    }

    /// An empty cache: no transaction confirmed yet on either chain.
    pub fn new() -> (c: NonceCache)
        ensures
            c.wf(),
            c.sepolia is None,
            c.base is None,
    {
        NonceCache { sepolia: None, base: None }
    }
}

/// How the nonce of the next submission is obtained.
#[derive(Clone, Copy, PartialEq, Eq, Structural, Debug)]
pub enum NoncePlan {
    /// Use this nonce, one past the last confirmed one.
    Use(u64),
    /// Nothing cached: query the destination chain for the signer's
    /// transaction count and use that.
    QueryChain,
}

/// Nonce decision for the next submission onto `dest`.
pub open spec fn nonce_plan_spec(cache: NonceCache, dest: Chain) -> NoncePlan {
    match cache.of_spec(dest) {
        Some(k) => NoncePlan::Use((k + 1) as u64),
        None => NoncePlan::QueryChain,
    }
}

/// Decides the nonce for the next submission onto `dest`: one past the
/// last confirmed nonce, or a chain query when nothing is cached.
pub fn nonce_plan(cache: &NonceCache, dest: Chain) -> (p: NoncePlan)
    requires
        cache.wf(),
    ensures
        p == nonce_plan_spec(*cache, dest),
{
    let cached = match dest {
        Chain::Sepolia => &cache.sepolia,
        Chain::BaseSepolia => &cache.base,
    };
    match cached {
        Some(k) => NoncePlan::Use(*k + 1),
        None => NoncePlan::QueryChain,
    }
}

/// A fully determined token transfer for the destination chain: what the
/// submission pipeline signs and sends.
pub struct TxPlan {
    /// Chain the transaction goes to.
    pub chain: Chain,
    /// Token contract called on that chain.
    pub token: Vec<u8>,
    /// Recipient of the token transfer.
    pub recipient: Vec<u8>,
    /// Amount, 32 bytes big-endian.
    pub amount: Vec<u8>,
    /// Sequential nonce of the submission.
    pub nonce: u64,
    /// Numeric chain id the signature commits to.
    pub chain_id: u64,
    /// Sender address of the signer.
    pub sender: Vec<u8>,
}

/// Builds the transaction a relay of `cmd` submits, with `nonce`, signed by
/// `sender`: a transfer of the deposited amount back to the depositor on
/// the destination chain's token contract.
pub fn build_transfer_tx(cmd: &RelayCommand, nonce: u64, sender: &Vec<u8>) -> (t: TxPlan)
    ensures
        t.chain == cmd.dest,
        t.token@ == token_address_spec(cmd.dest),
        t.recipient@ == cmd.to@,
        t.amount@ == cmd.value@,
        t.nonce == nonce,
        t.chain_id == chain_id_spec(cmd.dest),
        t.sender@ == sender@,
{
    TxPlan {
        chain: cmd.dest,
        token: token_address(cmd.dest),
        recipient: copy_bytes(&cmd.to),
        amount: copy_bytes(&cmd.value),
        nonce,
        chain_id: chain_id(cmd.dest),
        sender: copy_bytes(sender),
    }
}

/// The submitted transaction as the destination chain reports it mined.
pub struct MinedTx {
    /// Nonce the mined transaction actually consumed.
    pub nonce: u64,
    /// Description of the mined transaction, reported to the caller.
    pub description: String,
}

/// Settles a relay attempt from the destination chain's lookup of the
/// submitted transaction. When the transaction was found mined, the cache
/// for `dest` advances to the nonce the mined transaction reports — not
/// the locally computed one — and the other chain's cache is untouched.
/// When it was not found, nothing is mutated and the relay fails.
pub fn settle_relay(cache: &mut NonceCache, dest: Chain, lookup: Option<MinedTx>) -> (r: Result<
    String,
    BridgeError,
>)
    requires
        old(cache).wf(),
        lookup matches Some(tx) ==> tx.nonce < u64::MAX,
    ensures
        final(cache).wf(),
        match lookup {
            Some(tx) => {
                &&& final(cache).of_spec(dest) == Some(tx.nonce)
                &&& final(cache).of_spec(paired_spec(dest)) == old(cache).of_spec(
                    paired_spec(dest),
                )
                &&& r == Ok::<String, BridgeError>(tx.description)
            },
            None => {
                &&& *final(cache) == *old(cache)
                &&& r == Err::<String, BridgeError>(BridgeError::TransactionNotFound)
            },
        },
{
    match lookup {
        Some(tx) => {
            match dest {
                Chain::Sepolia => {
                    cache.sepolia = Some(tx.nonce);
                },
                Chain::BaseSepolia => {
                    cache.base = Some(tx.nonce);
                },
            }
            Ok(tx.description)
        },
        None => Err(BridgeError::TransactionNotFound),
    }
}

} // verus!
