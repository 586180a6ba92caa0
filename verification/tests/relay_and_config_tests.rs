use icp_bridge::chain::{
    chain_id, get_ecdsa_key_name, paired, rpc_url, start_message, token_address, vault_address,
    Chain, Network, POLL_INTERVAL_SECS, POLL_LIMIT,
};
use icp_bridge::event::{transfer_signature, watch_filter, RawLog, TransferEvent};
use icp_bridge::event::{render_record, transfer_topic};
use icp_bridge::relay::{
    build_transfer_tx, nonce_plan, settle_relay, BridgeError, MinedTx, NoncePlan, NonceCache,
};
use icp_bridge::session::{Bridge, RelayCommand};

fn value_word(n: u128) -> Vec<u8> {
    let mut w = vec![0u8; 16];
    w.extend_from_slice(&n.to_be_bytes());
    w
}

#[test]
fn empty_cache_queries_the_chain() {
    let cache = NonceCache::new();
    assert_eq!(nonce_plan(&cache, Chain::Sepolia), NoncePlan::QueryChain);
    assert_eq!(nonce_plan(&cache, Chain::BaseSepolia), NoncePlan::QueryChain);
}

#[test]
fn populated_cache_uses_successor() {
    let mut cache = NonceCache::new();
    let mined = MinedTx { nonce: 41, description: String::from("tx mined") };
    let r = settle_relay(&mut cache, Chain::Sepolia, Some(mined));
    assert_eq!(r.unwrap(), "tx mined");
    assert_eq!(nonce_plan(&cache, Chain::Sepolia), NoncePlan::Use(42));
    assert_eq!(nonce_plan(&cache, Chain::BaseSepolia), NoncePlan::QueryChain);
}

#[test]
fn settlement_stores_the_mined_nonce_not_the_computed_one() {
    let mut cache = NonceCache::new();
    let first = MinedTx { nonce: 7, description: String::from("a") };
    settle_relay(&mut cache, Chain::BaseSepolia, Some(first)).unwrap();
    // A concurrent out-of-process submission made the mined nonce jump.
    let second = MinedTx { nonce: 12, description: String::from("b") };
    settle_relay(&mut cache, Chain::BaseSepolia, Some(second)).unwrap();
    assert_eq!(nonce_plan(&cache, Chain::BaseSepolia), NoncePlan::Use(13));
}

#[test]
fn missing_transaction_fails_without_mutating_cache() {
    let mut cache = NonceCache::new();
    let mined = MinedTx { nonce: 3, description: String::from("c") };
    settle_relay(&mut cache, Chain::Sepolia, Some(mined)).unwrap();
    let r = settle_relay(&mut cache, Chain::Sepolia, None);
    assert_eq!(r.unwrap_err(), BridgeError::TransactionNotFound);
    assert_eq!(
        BridgeError::TransactionNotFound.message(),
        "Could not get transaction."
    );
    assert_eq!(nonce_plan(&cache, Chain::Sepolia), NoncePlan::Use(4));
}

#[test]
fn transfer_tx_is_built_for_the_destination_chain() {
    let from = [0xabu8; 20];
    let cmd = RelayCommand {
        dest: Chain::BaseSepolia,
        to: from.to_vec(),
        value: value_word(1000),
    };
    let sender = [0xcdu8; 20].to_vec();
    let t = build_transfer_tx(&cmd, 9, &sender);
    assert_eq!(t.chain, Chain::BaseSepolia);
    assert_eq!(t.token, token_address(Chain::BaseSepolia));
    assert_eq!(t.recipient, from.to_vec());
    assert_eq!(t.amount, value_word(1000));
    assert_eq!(t.nonce, 9);
    assert_eq!(t.chain_id, 84532);
    assert_eq!(t.sender, sender);
}

#[test]
fn chain_configuration_is_fixed() {
    assert_eq!(POLL_LIMIT, 3);
    assert_eq!(POLL_INTERVAL_SECS, 10);
    assert_eq!(chain_id(Chain::Sepolia), 11155111);
    assert_eq!(chain_id(Chain::BaseSepolia), 84532);
    assert_eq!(paired(Chain::Sepolia), Chain::BaseSepolia);
    assert_eq!(paired(Chain::BaseSepolia), Chain::Sepolia);
    assert_eq!(
        rpc_url(Chain::Sepolia),
        "https://ic-alloy-evm-rpc-proxy.kristofer-977.workers.dev/eth-sepolia"
    );
    assert_eq!(
        rpc_url(Chain::BaseSepolia),
        "https://ic-alloy-evm-rpc-proxy.kristofer-977.workers.dev/base-sepolia"
    );
    assert_eq!(token_address(Chain::Sepolia).len(), 20);
    assert_eq!(token_address(Chain::BaseSepolia).len(), 20);
    assert_eq!(vault_address().len(), 20);
    assert_eq!(start_message(), "Watching for logs, polling 3 times.");
}

#[test]
fn ecdsa_key_names() {
    assert_eq!(get_ecdsa_key_name(Network::Local), "dfx_test_key");
    assert_eq!(get_ecdsa_key_name(Network::Ic), "key_1");
}

#[test]
fn filter_binds_token_signature_and_head() {
    let f = watch_filter(Chain::Sepolia);
    assert_eq!(f.address, token_address(Chain::Sepolia));
    assert_eq!(f.event_signature, "Transfer(address,address,uint256)");
    assert!(f.from_latest);
    assert_eq!(transfer_signature(), "Transfer(address,address,uint256)");
    assert_eq!(transfer_topic().len(), 32);
}

#[test]
fn record_renders_checksummed_addresses_and_decimal_value() {
    let ev = TransferEvent {
        from: [0x01u8; 20].to_vec(),
        to: vault_address(),
        value: value_word(0),
    };
    assert_eq!(
        render_record(&ev),
        "0x0101010101010101010101010101010101010101 -> \
         0x7f7346b12Ec7d7aa8fAD8Bc5E0a914919368a139, value: 0"
    );
}

#[test]
fn record_renders_large_values_in_decimal() {
    let mut data = vec![0u8; 16];
    data.extend_from_slice(&u128::MAX.to_be_bytes());
    let ev = TransferEvent {
        from: [0x00u8; 20].to_vec(),
        to: [0xffu8; 20].to_vec(),
        value: data,
    };
    assert_eq!(
        render_record(&ev),
        "0x0000000000000000000000000000000000000000 -> \
         0xFFfFfFffFFfffFFfFFfFFFFFffFFFffffFfFFFfF, \
         value: 340282366920938463463374607431768211455"
    );
}

#[test]
fn record_renders_a_high_word_value() {
    // The value 2^128: only the high half of the 32-byte word is set.
    let mut data = vec![0u8; 15];
    data.push(1);
    data.extend_from_slice(&[0u8; 16]);
    let ev = TransferEvent {
        from: [0x00u8; 20].to_vec(),
        to: [0x00u8; 20].to_vec(),
        value: data,
    };
    let line = render_record(&ev);
    assert!(line.ends_with("value: 340282366920938463463374607431768211456"));
}
