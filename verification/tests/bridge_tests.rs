use icp_bridge::chain::{vault_address, Chain};
use icp_bridge::event::{decode_transfer_log, transfer_topic, DecodeError, RawLog};
use icp_bridge::relay::BridgeError;
use icp_bridge::session::Bridge;

fn address_topic(addr: &[u8]) -> Vec<u8> {
    let mut t = vec![0u8; 12];
    t.extend_from_slice(addr);
    t
}

fn value_word(n: u128) -> Vec<u8> {
    let mut w = vec![0u8; 16];
    w.extend_from_slice(&n.to_be_bytes());
    w
}

fn transfer_log(from: &[u8], to: &[u8], value: u128) -> RawLog {
    RawLog {
        topics: vec![transfer_topic(), address_topic(from), address_topic(to)],
        data: value_word(value),
    }
}

#[test]
fn start_watch_returns_confirmation() {
    let mut b = Bridge::new();
    let r = b.start_watch(Chain::Sepolia);
    assert_eq!(r.unwrap(), "Watching for logs, polling 3 times.");
    assert!(b.is_watching(Chain::Sepolia));
    assert!(!b.is_watching(Chain::BaseSepolia));
}

#[test]
fn second_start_conflicts_and_leaves_history() {
    let mut b = Bridge::new();
    b.start_watch(Chain::Sepolia).unwrap();
    let from = [0x11u8; 20];
    let logs = vec![transfer_log(&from, &vault_address(), 5)];
    b.poll_tick(Chain::Sepolia, &logs);
    assert_eq!(b.history().len(), 1);

    let r = b.start_watch(Chain::Sepolia);
    assert_eq!(r.unwrap_err(), BridgeError::SessionConflict);
    assert_eq!(
        BridgeError::SessionConflict.message(),
        "Already watching for logs."
    );
    assert_eq!(b.history().len(), 1);
    assert!(b.is_watching(Chain::Sepolia));
}

#[test]
fn session_deactivates_after_three_ticks() {
    let mut b = Bridge::new();
    b.start_watch(Chain::BaseSepolia).unwrap();
    let empty: Vec<RawLog> = Vec::new();
    b.poll_tick(Chain::BaseSepolia, &empty);
    assert!(b.is_watching(Chain::BaseSepolia));
    b.poll_tick(Chain::BaseSepolia, &empty);
    assert!(b.is_watching(Chain::BaseSepolia));
    b.poll_tick(Chain::BaseSepolia, &empty);
    assert!(!b.is_watching(Chain::BaseSepolia));
}

#[test]
fn tick_on_inactive_session_does_nothing() {
    let mut b = Bridge::new();
    let from = [0x22u8; 20];
    let logs = vec![transfer_log(&from, &vault_address(), 9)];
    let cmds = b.poll_tick(Chain::Sepolia, &logs);
    assert!(cmds.is_empty());
    assert!(b.history().is_empty());
    assert!(!b.is_watching(Chain::Sepolia));
}

#[test]
fn matched_log_appends_once_and_dispatches_once() {
    let mut b = Bridge::new();
    b.start_watch(Chain::Sepolia).unwrap();
    let from = [0x33u8; 20];
    let other = [0x44u8; 20];
    let logs = vec![
        transfer_log(&from, &vault_address(), 77),
        transfer_log(&from, &other, 88),
    ];
    let cmds = b.poll_tick(Chain::Sepolia, &logs);
    assert_eq!(b.history().len(), 1);
    assert_eq!(cmds.len(), 1);
    assert_eq!(cmds[0].dest, Chain::BaseSepolia);
    assert_eq!(cmds[0].to, from.to_vec());
    assert_eq!(cmds[0].value, value_word(77));
}

#[test]
fn unmatched_log_appends_nothing() {
    let mut b = Bridge::new();
    b.start_watch(Chain::Sepolia).unwrap();
    let from = [0x33u8; 20];
    let other = [0x44u8; 20];
    let logs = vec![transfer_log(&from, &other, 88)];
    let cmds = b.poll_tick(Chain::Sepolia, &logs);
    assert!(b.history().is_empty());
    assert!(cmds.is_empty());
}

#[test]
fn malformed_log_is_skipped() {
    let mut b = Bridge::new();
    b.start_watch(Chain::Sepolia).unwrap();
    let from = [0x55u8; 20];
    let bad = RawLog {
        topics: vec![transfer_topic(), address_topic(&from)],
        data: value_word(1),
    };
    let good = transfer_log(&from, &vault_address(), 2);
    let logs = vec![bad, good];
    let cmds = b.poll_tick(Chain::Sepolia, &logs);
    assert_eq!(b.history().len(), 1);
    assert_eq!(cmds.len(), 1);
    assert_eq!(cmds[0].value, value_word(2));
}

#[test]
fn restart_after_completion_resets_history() {
    let mut b = Bridge::new();
    b.start_watch(Chain::Sepolia).unwrap();
    let from = [0x66u8; 20];
    let logs = vec![transfer_log(&from, &vault_address(), 3)];
    b.poll_tick(Chain::Sepolia, &logs);
    let empty: Vec<RawLog> = Vec::new();
    b.poll_tick(Chain::Sepolia, &empty);
    b.poll_tick(Chain::Sepolia, &empty);
    assert!(!b.is_watching(Chain::Sepolia));
    assert_eq!(b.history().len(), 1);

    b.start_watch(Chain::Sepolia).unwrap();
    assert!(b.history().is_empty());
}

#[test]
fn restart_keeps_other_chains_region() {
    let mut b = Bridge::new();
    b.start_watch(Chain::BaseSepolia).unwrap();
    let from = [0x77u8; 20];
    let logs = vec![transfer_log(&from, &vault_address(), 4)];
    b.poll_tick(Chain::BaseSepolia, &logs);
    assert_eq!(b.history().len(), 1);

    b.start_watch(Chain::Sepolia).unwrap();
    assert_eq!(b.history().len(), 1);
}

#[test]
fn decode_reports_topic_count() {
    let from = [0x01u8; 20];
    let log = RawLog {
        topics: vec![transfer_topic(), address_topic(&from)],
        data: value_word(1),
    };
    assert_eq!(decode_transfer_log(&log).unwrap_err(), DecodeError::TopicCount);
}

#[test]
fn decode_reports_wrong_signature() {
    let from = [0x01u8; 20];
    let mut sig = transfer_topic();
    sig[0] = 0x00;
    let log = RawLog {
        topics: vec![sig, address_topic(&from), address_topic(&from)],
        data: value_word(1),
    };
    assert_eq!(decode_transfer_log(&log).unwrap_err(), DecodeError::Signature);
}

#[test]
fn decode_reports_short_topic() {
    let from = [0x01u8; 20];
    let log = RawLog {
        topics: vec![transfer_topic(), from.to_vec(), address_topic(&from)],
        data: value_word(1),
    };
    assert_eq!(decode_transfer_log(&log).unwrap_err(), DecodeError::TopicLength);
}

#[test]
fn decode_reports_short_data() {
    let from = [0x01u8; 20];
    let log = RawLog {
        topics: vec![transfer_topic(), address_topic(&from), address_topic(&from)],
        data: vec![0u8; 31],
    };
    assert_eq!(decode_transfer_log(&log).unwrap_err(), DecodeError::DataLength);
}

#[test]
fn decode_extracts_fields() {
    let from = [0x0au8; 20];
    let to = [0x0bu8; 20];
    let log = transfer_log(&from, &to, 123);
    let ev = decode_transfer_log(&log).unwrap();
    assert_eq!(ev.from, from.to_vec());
    assert_eq!(ev.to, to.to_vec());
    assert_eq!(ev.value, value_word(123));
}

#[test]
fn end_to_end_deposit_relays_once() {
    let mut b = Bridge::new();
    b.start_watch(Chain::Sepolia).unwrap();
    let from = [0xaau8; 20];
    let logs = vec![transfer_log(&from, &vault_address(), 1000)];
    let cmds = b.poll_tick(Chain::Sepolia, &logs);

    let history = b.history();
    assert_eq!(history.len(), 1);
    assert_eq!(
        history[0],
        "0xaAaAaAaaAaAaAaaAaAAAAAAAAaaaAaAaAaaAaaAa -> \
         0x7f7346b12Ec7d7aa8fAD8Bc5E0a914919368a139, value: 1000"
    );

    assert_eq!(cmds.len(), 1);
    assert_eq!(cmds[0].dest, Chain::BaseSepolia);
    assert_eq!(cmds[0].to, from.to_vec());
    assert_eq!(cmds[0].value, value_word(1000));
}
