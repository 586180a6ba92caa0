//! Properties of the bridge core that span several operations, stated over
//! the same spec functions the operations' contracts use.

use vstd::prelude::*;
use crate::chain::{Chain, paired_spec};
use crate::event::{RawLog, TransferEventV, DecodeError, decode_spec, matches_vault_spec, record_of};
use crate::relay::{NonceCache, NoncePlan, nonce_plan_spec};
use crate::session::{
    Bridge, HistoryEntryV, RelayCommandV, entries_view, history_without, start_allowed,
    start_transition, tick_transition, tick_entries, tick_commands,
};

verus! {

/// Number of logs in `logs` that decode and pay into the vault.
pub open spec fn match_count(logs: Seq<RawLog>) -> nat
    decreases logs.len(),
{
    if logs.len() == 0 {
        0
    } else {
        match_count(logs.drop_last()) + match decode_spec(logs.last()) {
            Ok(e) => if matches_vault_spec(e) {
                1nat
            } else {
                0nat
            },
            Err(_) => 0nat,
        }
    }
}

/// Starting a watch twice in succession: after one successful start the
/// session is active, so the second start is refused — and `start_watch`'s
/// contract then promises the conflict error with nothing mutated, the
/// history included.
pub proof fn lemma_second_start_conflicts(pre: Bridge, mid: Bridge, c: Chain)
    requires
        start_allowed(pre, c),
        start_transition(pre, mid, c),
    ensures
        !start_allowed(mid, c),
{
}

/// A freshly started session deactivates after exactly three delivered
/// ticks: it is still watching after the first and the second, and no
/// longer watching right after the third.
pub proof fn lemma_three_ticks_deactivate(
    b0: Bridge,
    b1: Bridge,
    b2: Bridge,
    b3: Bridge,
    b4: Bridge,
    c: Chain,
    l1: Seq<RawLog>,
    l2: Seq<RawLog>,
    l3: Seq<RawLog>,
)
    requires
        start_transition(b0, b1, c),
        tick_transition(b1, b2, c, l1),
        tick_transition(b2, b3, c, l2),
        tick_transition(b3, b4, c, l3),
    ensures
        b2.session_spec(c).active,
        b3.session_spec(c).active,
        !b4.session_spec(c).active,
{
}

/// A tick appends exactly one history entry and plans exactly one relay
/// per matched log; unmatched or malformed logs contribute neither.
pub proof fn lemma_tick_counts(c: Chain, logs: Seq<RawLog>)
    ensures
        tick_entries(c, logs).len() == match_count(logs),
        tick_commands(c, logs).len() == match_count(logs),
    decreases logs.len(),
{
    if logs.len() > 0 {
        lemma_tick_counts(c, logs.drop_last());
    }
}

/// A batch of one matched log appends exactly its record line and plans
/// exactly one relay of the deposited amount back to the sender, onto the
/// chain paired with the source.
pub proof fn lemma_single_matched_log(c: Chain, log: RawLog, e: TransferEventV)
    requires
        decode_spec(log) == Ok::<TransferEventV, DecodeError>(e),
        matches_vault_spec(e),
    ensures
        tick_entries(c, seq![log]) == seq![HistoryEntryV { chain: c, line: record_of(e) }],
        tick_commands(c, seq![log]) == seq![
            RelayCommandV { dest: paired_spec(c), to: e.from, value: e.value },
        ],
{
    assert(seq![log].drop_last() =~= Seq::<RawLog>::empty());
    assert(seq![log].last() == log);
    assert(tick_entries(c, Seq::<RawLog>::empty()).len() == 0);
    assert(tick_commands(c, Seq::<RawLog>::empty()).len() == 0);
    assert(tick_entries(c, seq![log]) =~~= seq![HistoryEntryV { chain: c, line: record_of(e) }]);
    assert(tick_commands(c, seq![log]) =~~= seq![
        RelayCommandV { dest: paired_spec(c), to: e.from, value: e.value },
    ]);
}

/// A batch of one log whose recipient is not the vault, or which does not
/// decode, appends nothing and plans nothing.
pub proof fn lemma_single_unmatched_log(c: Chain, log: RawLog)
    requires
        decode_spec(log) matches Ok(e) ==> !matches_vault_spec(e),
    ensures
        tick_entries(c, seq![log]).len() == 0,
        tick_commands(c, seq![log]).len() == 0,
{
    assert(seq![log].drop_last() =~= Seq::<RawLog>::empty());
    assert(seq![log].last() == log);
    assert(tick_entries(c, Seq::<RawLog>::empty()).len() == 0);
    assert(tick_commands(c, Seq::<RawLog>::empty()).len() == 0);
}

/// Removing one chain's region leaves no entry of that chain behind.
proof fn lemma_history_without_clears(s: Seq<HistoryEntryV>, c: Chain)
    ensures
        forall|j: int| 0 <= j < history_without(s, c).len() ==> history_without(s, c)[j].chain
            != c,
    decreases s.len(),
{
    if s.len() > 0 {
        lemma_history_without_clears(s.drop_last(), c);
        let h = history_without(s, c);
        let hd = history_without(s.drop_last(), c);
        assert forall|j: int| 0 <= j < h.len() implies h[j].chain != c by {
            if j < hd.len() {
                assert(h[j] == hd[j]);
            } else {
                assert(h[j] == s.last());
            }
        }
    }
}

/// Restarting a watch session resets that chain's history region: right
/// after a successful start for `c`, no recorded line belongs to `c`, so
/// the next match for `c` is recorded into an empty region.
pub proof fn lemma_restart_clears_history(pre: Bridge, post: Bridge, c: Chain)
    requires
        start_transition(pre, post, c),
    ensures
        forall|j: int| 0 <= j < entries_view(post.history@).len() ==> entries_view(
            post.history@,
        )[j].chain != c,
{
    lemma_history_without_clears(entries_view(pre.history@), c);
}

/// With nothing confirmed yet, the first relay must take its nonce from
/// the destination chain's transaction count.
pub proof fn lemma_first_relay_queries_chain(dest: Chain)
    ensures
        nonce_plan_spec(NonceCache { sepolia: None, base: None }, dest) == NoncePlan::QueryChain,
{
}

/// With `k` confirmed for `dest`, the next relay submits with `k + 1`.
/// Since settling a relay stores the nonce the mined transaction reports,
/// the submission after a settlement on mined nonce `m` uses `m + 1`,
/// whatever was computed before that submission.
pub proof fn lemma_nonce_sequencing(cache: NonceCache, dest: Chain, k: u64)
    requires
        cache.wf(),
        cache.of_spec(dest) == Some::<u64>(k),
    ensures
        nonce_plan_spec(cache, dest) == NoncePlan::Use((k + 1) as u64),
{
}

} // verus!
