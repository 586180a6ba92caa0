//! Decoding of raw chain logs into transfer events, vault matching, and the
//! human-readable record a match leaves in the history log.

use vstd::prelude::*;
use vstd::string::StringExecFns;
use crate::chain::{Chain, token_address_spec, token_address, vault_address, vault_address_spec};
use crate::numfmt::{be_nat, dec_of, append_dec, copy_bytes};

verus! {

/// A raw log entry as the RPC layer returns it: indexed topics and data.
pub struct RawLog {
    pub topics: Vec<Vec<u8>>,
    pub data: Vec<u8>,
}

/// A transfer event decoded from a raw log: 20-byte sender and recipient
/// addresses and a 32-byte big-endian amount.
#[derive(Debug)]
pub struct TransferEvent {
    pub from: Vec<u8>,
    pub to: Vec<u8>,
    pub value: Vec<u8>,
}

/// Mathematical image of a transfer event.
#[verifier::ext_equal]
pub ghost struct TransferEventV {
    pub from: Seq<u8>,
    pub to: Seq<u8>,
    pub value: Seq<u8>,
}

/// Image of an event value.
pub open spec fn ev_view(e: TransferEvent) -> TransferEventV {
    TransferEventV { from: e.from@, to: e.to@, value: e.value@ }
}

/// Why a raw log is not a well-formed transfer event.
#[derive(Clone, Copy, PartialEq, Eq, Structural, Debug)]
pub enum DecodeError {
    /// Not exactly three topics.
    TopicCount,
    /// The first topic is not the transfer event signature.
    Signature,
    /// An address topic is not a 32-byte word.
    TopicLength,
    /// The data is not a single 32-byte word.
    DataLength,
}

/// First topic every transfer event log carries: the hash of the
/// transfer event signature.
pub open spec fn transfer_topic_spec() -> Seq<u8> {
    seq![
        0xddu8, 0xf2, 0x52, 0xad, 0x1b, 0xe2, 0xc8, 0x9b, 0x69, 0xc2, 0xb0, 0x68, 0xfc, 0x37,
        0x8d, 0xaa, 0x95, 0x2b, 0xa7, 0xf1, 0x63, 0xc4, 0xa1, 0x16, 0x28, 0xf5, 0x5a, 0x4d,
        0xf5, 0x23, 0xb3, 0xef,
    ]
}

/// Returns the 32-byte topic of the transfer event signature.
pub fn transfer_topic() -> (r: Vec<u8>)
    ensures
        r@ == transfer_topic_spec(),
{
    vec![
        0xddu8, 0xf2, 0x52, 0xad, 0x1b, 0xe2, 0xc8, 0x9b, 0x69, 0xc2, 0xb0, 0x68, 0xfc, 0x37,
        0x8d, 0xaa, 0x95, 0x2b, 0xa7, 0xf1, 0x63, 0xc4, 0xa1, 0x16, 0x28, 0xf5, 0x5a, 0x4d,
        0xf5, 0x23, 0xb3, 0xef,
    ]
}

/// Textual transfer event signature used in the log filter.
pub open spec fn transfer_signature_spec() -> Seq<char> {
    "Transfer(address,address,uint256)"@
}

/// Returns the textual transfer event signature.
pub fn transfer_signature() -> (r: String)
    ensures
        r@ == transfer_signature_spec(),
{
    String::from_str("Transfer(address,address,uint256)")
}

/// The log filter a watch session on `chain` subscribes with: the token
/// contract, the transfer event signature, and the current chain head.
pub struct LogFilter {
    pub address: Vec<u8>,
    pub event_signature: String,
    pub from_latest: bool,
}

/// Builds the log filter for a watch session on `chain`.
pub fn watch_filter(chain: Chain) -> (f: LogFilter)
    ensures
        f.address@ == token_address_spec(chain),
        f.event_signature@ == transfer_signature_spec(),
        f.from_latest,
{
    LogFilter { address: token_address(chain), event_signature: transfer_signature(), from_latest: true }
}

/// Decoding of a raw log: three 32-byte topics — the signature topic, then
/// the two addresses, each in the low 20 bytes of its word — and one
/// 32-byte data word holding the amount.
pub open spec fn decode_spec(log: RawLog) -> Result<TransferEventV, DecodeError> {
    if log.topics@.len() != 3 {
        Err(DecodeError::TopicCount)
    } else if log.topics@[0]@ != transfer_topic_spec() {
        Err(DecodeError::Signature)
    } else if log.topics@[1]@.len() != 32 || log.topics@[2]@.len() != 32 {
        Err(DecodeError::TopicLength)
    } else if log.data@.len() != 32 {
        Err(DecodeError::DataLength)
    } else {
        Ok(TransferEventV {
            from: log.topics@[1]@.subrange(12, 32),
            to: log.topics@[2]@.subrange(12, 32),
            value: log.data@,
        })
    }
}

/// Image of a decode result.
pub open spec fn decode_result_view(r: Result<TransferEvent, DecodeError>) -> Result<
    TransferEventV,
    DecodeError,
> {
    match r {
        Ok(e) => Ok(ev_view(e)),
        Err(x) => Err(x),
    }
}

/// Compares two byte strings.
pub fn bytes_eq(a: &Vec<u8>, b: &Vec<u8>) -> (r: bool)
    ensures
        r == (a@ == b@),
{
    if a.len() != b.len() {
        return false;
    }
    let mut i: usize = 0;
    while i < a.len()
        invariant
            a@.len() == b@.len(),
            i <= a@.len(),
            forall|j: int| 0 <= j < i ==> a@[j] == b@[j],
        decreases a@.len() - i,
    {
        if a[i] != b[i] {
            return false;
        }
        i += 1;
    }
    proof {
        assert(a@ =~= b@);
    }
    true
}

/// Copies `v[from..to]`.
fn copy_range(v: &Vec<u8>, from: usize, to: usize) -> (r: Vec<u8>)
    requires
        from <= to <= v@.len(),
    ensures
        r@ == v@.subrange(from as int, to as int),
{
    let mut r: Vec<u8> = Vec::new();
    let mut i: usize = from;
    while i < to
        invariant
            from <= i <= to <= v@.len(),
            r@ =~= v@.subrange(from as int, i as int),
        decreases to - i,
    {
        r.push(v[i]);
        i += 1;
    }
    r
}

/// Decodes a raw log as a transfer event, reporting exactly why a
/// malformed log is refused.
pub fn decode_transfer_log(log: &RawLog) -> (r: Result<TransferEvent, DecodeError>)
    ensures
        decode_result_view(r) == decode_spec(*log),
{
    if log.topics.len() != 3 {
        return Err(DecodeError::TopicCount);
    }
    let sig = transfer_topic();
    if !bytes_eq(&log.topics[0], &sig) {
        return Err(DecodeError::Signature);
    }
    if log.topics[1].len() != 32 || log.topics[2].len() != 32 {
        return Err(DecodeError::TopicLength);
    }
    if log.data.len() != 32 {
        return Err(DecodeError::DataLength);
    }
    let from = copy_range(&log.topics[1], 12, 32);
    let to = copy_range(&log.topics[2], 12, 32);
    let value = copy_bytes(&log.data);
    Ok(TransferEvent { from, to, value })
}

/// A transfer event pays into the vault.
pub open spec fn matches_vault_spec(e: TransferEventV) -> bool {
    e.to == vault_address_spec()
}

/// Tests whether `e` pays into the vault.
pub fn matches_vault(e: &TransferEvent) -> (r: bool)
    ensures
        r == matches_vault_spec(ev_view(*e)),
{
    let vault = vault_address();
    bytes_eq(&e.to, &vault)
}

/// EIP-55 checksummed rendering of a 20-byte address, `0x` prefix
/// included. The mixed-case form is fixed by a keccak-256 digest of the
/// address, so it is named rather than written out.
pub uninterp spec fn checksummed(addr: Seq<u8>) -> Seq<char>;

/// Relies on alloy_primitives::Address::to_checksum: the EIP-55
/// checksummed hex rendering of the address, with the 0x prefix,
/// determined by the 20 address bytes alone. Address::from_slice
/// panics unless the slice holds exactly 20 bytes.
#[verifier::external_body]
fn checksum_address(addr: &Vec<u8>) -> (r: String)
    requires
        addr@.len() == 20,
    ensures
        r@ == checksummed(addr@),
{
    alloy_primitives::Address::from_slice(addr).to_checksum(None)
}

/// History line recorded for a matched event: the two addresses in
/// EIP-55 checksummed hexadecimal and the amount in decimal.
pub open spec fn record_of(e: TransferEventV) -> Seq<char> {
    checksummed(e.from) + " -> "@ + checksummed(e.to) + ", value: "@ + dec_of(be_nat(e.value))
}

/// Renders the history line of `e`.
pub fn render_record(e: &TransferEvent) -> (r: String)
    requires
        e.from@.len() == 20,
        e.to@.len() == 20,
    ensures
        r@ == record_of(ev_view(*e)),
{
    let mut s = checksum_address(&e.from);
    s.append(" -> ");
    let to_part = checksum_address(&e.to);
    s.append(to_part.as_str());
    s.append(", value: ");
    append_dec(&mut s, &e.value);
    proof {
        assert(s@ =~= record_of(ev_view(*e)));
    }
    s
}

} // verus!
