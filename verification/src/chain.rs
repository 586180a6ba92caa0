//! Static configuration of the two chains the bridge connects: identifiers,
//! RPC endpoints, token and vault addresses, and the poll schedule.

use vstd::prelude::*;
use vstd::string::StringExecFns;

verus! {

/// A watch session polls this many times before it deactivates itself.
pub const POLL_LIMIT: u64 = 3;

/// Seconds between two poll ticks of a watch session.
pub const POLL_INTERVAL_SECS: u64 = 10;

/// The chains the bridge connects; each relays onto the other.
#[derive(Clone, Copy, PartialEq, Eq, Structural, Debug)]
pub enum Chain {
    Sepolia,
    BaseSepolia,
}

/// Chain a deposit observed on `c` is relayed onto.
pub open spec fn paired_spec(c: Chain) -> Chain {
    match c {
        Chain::Sepolia => Chain::BaseSepolia,
        Chain::BaseSepolia => Chain::Sepolia,
    }
}

/// Returns the destination chain paired with source chain `c`.
pub fn paired(c: Chain) -> (r: Chain)
    ensures
        r == paired_spec(c),
{
    match c {
        Chain::Sepolia => Chain::BaseSepolia,
        Chain::BaseSepolia => Chain::Sepolia,
    }
}

/// Numeric chain id used when signing a transaction for `c`.
pub open spec fn chain_id_spec(c: Chain) -> u64 {
    match c {
        Chain::Sepolia => 11155111u64,
        Chain::BaseSepolia => 84532u64,
    }
}

/// Returns the numeric chain id of `c`.
pub fn chain_id(c: Chain) -> (r: u64)
    ensures
        r == chain_id_spec(c),
{
    match c {
        Chain::Sepolia => 11155111u64,
        Chain::BaseSepolia => 84532u64,
    }
}

/// RPC endpoint URL of `c`.
pub open spec fn rpc_url_spec(c: Chain) -> Seq<char> {
    match c {
        Chain::Sepolia => "https://ic-alloy-evm-rpc-proxy.kristofer-977.workers.dev/eth-sepolia"@,
        Chain::BaseSepolia => "https://ic-alloy-evm-rpc-proxy.kristofer-977.workers.dev/base-sepolia"@,
    }
}

/// Returns the RPC endpoint URL of `c`.
pub fn rpc_url(c: Chain) -> (r: String)
    ensures
        r@ == rpc_url_spec(c),
{
    match c {
        Chain::Sepolia => String::from_str(
            "https://ic-alloy-evm-rpc-proxy.kristofer-977.workers.dev/eth-sepolia",
        ),
        Chain::BaseSepolia => String::from_str(
            "https://ic-alloy-evm-rpc-proxy.kristofer-977.workers.dev/base-sepolia",
        ),
    }
}

/// Address of the watched token contract on `c`, as 20 big-endian bytes.
pub open spec fn token_address_spec(c: Chain) -> Seq<u8> {
    match c {
        Chain::Sepolia => seq![
            0x1cu8, 0x7d, 0x4b, 0x19, 0x6c, 0xb0, 0xc7, 0xb0, 0x1d, 0x74,
            0x3f, 0xbc, 0x61, 0x16, 0xa9, 0x02, 0x37, 0x9c, 0x72, 0x38,
        ],
        Chain::BaseSepolia => seq![
            0x03u8, 0x6c, 0xbd, 0x53, 0x84, 0x2c, 0x54, 0x26, 0x63, 0x4e,
            0x79, 0x29, 0x54, 0x1e, 0xc2, 0x31, 0x8f, 0x3d, 0xcf, 0x7e,
        ],
    }
}

/// Returns the token contract address of `c`.
pub fn token_address(c: Chain) -> (r: Vec<u8>)
    ensures
        r@ == token_address_spec(c),
{
    match c {
        Chain::Sepolia => vec![
            0x1cu8, 0x7d, 0x4b, 0x19, 0x6c, 0xb0, 0xc7, 0xb0, 0x1d, 0x74,
            0x3f, 0xbc, 0x61, 0x16, 0xa9, 0x02, 0x37, 0x9c, 0x72, 0x38,
        ],
        Chain::BaseSepolia => vec![
            0x03u8, 0x6c, 0xbd, 0x53, 0x84, 0x2c, 0x54, 0x26, 0x63, 0x4e,
            0x79, 0x29, 0x54, 0x1e, 0xc2, 0x31, 0x8f, 0x3d, 0xcf, 0x7e,
        ],
    }
}

/// Vault address: a deposit to it on either chain triggers a relay.
pub open spec fn vault_address_spec() -> Seq<u8> {
    seq![
        0x7fu8, 0x73, 0x46, 0xb1, 0x2e, 0xc7, 0xd7, 0xaa, 0x8f, 0xad,
        0x8b, 0xc5, 0xe0, 0xa9, 0x14, 0x91, 0x93, 0x68, 0xa1, 0x39,
    ]
}

/// Returns the vault address watched on both chains.
pub fn vault_address() -> (r: Vec<u8>)
    ensures
        r@ == vault_address_spec(),
{
    vec![
        0x7fu8, 0x73, 0x46, 0xb1, 0x2e, 0xc7, 0xd7, 0xaa, 0x8f, 0xad,
        0x8b, 0xc5, 0xe0, 0xa9, 0x14, 0x91, 0x93, 0x68, 0xa1, 0x39,
    ]
}

/// Confirmation returned by a successful session start.
pub fn start_message() -> (r: String)
    ensures
        r@ == "Watching for logs, polling 3 times."@,
{
    String::from_str("Watching for logs, polling 3 times.")
}

/// Networks the signing key can be selected for.
#[derive(Clone, Copy, PartialEq, Eq, Structural, Debug)]
pub enum Network {
    Local,
    Ic,
}

/// Name of the managed ECDSA key used on `n`.
pub open spec fn ecdsa_key_name_spec(n: Network) -> Seq<char> {
    match n {
        Network::Local => "dfx_test_key"@,
        Network::Ic => "key_1"@,
    }
}

/// Returns the name of the managed ECDSA signing key for `network`.
pub fn get_ecdsa_key_name(network: Network) -> (r: String)
    ensures
        r@ == ecdsa_key_name_spec(network),
{
    match network {
        Network::Local => String::from_str("dfx_test_key"),
        Network::Ic => String::from_str("key_1"),
    }
}

} // verus!
