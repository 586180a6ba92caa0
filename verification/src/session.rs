//! The watch session manager: per-chain poll lifecycle, the shared history
//! log, and the poll tick that matches a batch of logs and plans relays.

use vstd::prelude::*;
use crate::chain::{Chain, POLL_LIMIT, paired, paired_spec};
use crate::event::{
    RawLog, TransferEventV, DecodeError, decode_spec, decode_transfer_log, ev_view,
    matches_vault, matches_vault_spec, record_of, render_record,
};
use crate::relay::BridgeError;

verus! {

/// Poll lifecycle of one chain's watch session.
pub struct WatchState {
    /// A scheduler handle is held: ticks for this chain still fire.
    pub active: bool,
    /// Ticks delivered since the session started.
    pub poll_count: u64,
}

/// One recorded match, tagged with the chain it was observed on.
pub struct HistoryEntry {
    pub chain: Chain,
    pub line: String,
}

/// Mathematical image of a history entry.
#[verifier::ext_equal]
pub ghost struct HistoryEntryV {
    pub chain: Chain,
    pub line: Seq<char>,
}

/// Image of a history entry value.
pub open spec fn entry_view(e: HistoryEntry) -> HistoryEntryV {
    HistoryEntryV { chain: e.chain, line: e.line@ }
}

/// Images of a history, oldest first.
pub open spec fn entries_view(s: Seq<HistoryEntry>) -> Seq<HistoryEntryV> {
    s.map_values(|e: HistoryEntry| entry_view(e))
}

/// A planned relay: transfer `value` to `to` on chain `dest`.
pub struct RelayCommand {
    pub dest: Chain,
    pub to: Vec<u8>,
    pub value: Vec<u8>,
}

/// Mathematical image of a relay command.
#[verifier::ext_equal]
pub ghost struct RelayCommandV {
    pub dest: Chain,
    pub to: Seq<u8>,
    pub value: Seq<u8>,
}

/// Image of a relay command value.
pub open spec fn cmd_view(c: RelayCommand) -> RelayCommandV {
    RelayCommandV { dest: c.dest, to: c.to@, value: c.value@ }
}

/// Images of a batch of relay commands, in dispatch order.
pub open spec fn cmds_view(s: Seq<RelayCommand>) -> Seq<RelayCommandV> {
    s.map_values(|c: RelayCommand| cmd_view(c))
}

/// History entries a poll tick on `c` appends for the batch `logs`:
/// one per log that decodes and pays into the vault, in batch order.
pub open spec fn tick_entries(c: Chain, logs: Seq<RawLog>) -> Seq<HistoryEntryV>
    decreases logs.len(),
{
    if logs.len() == 0 {
        Seq::empty()
    } else {
        tick_entries(c, logs.drop_last()) + match decode_spec(logs.last()) {
            Ok(e) => if matches_vault_spec(e) {
                seq![HistoryEntryV { chain: c, line: record_of(e) }]
            } else {
                Seq::empty()
            },
            Err(_) => Seq::empty(),
        }
    }
}

/// Relay commands a poll tick on `c` plans for the batch `logs`: one per
/// matched log, paying the deposited amount back to the sender on the
/// paired chain, in batch order.
pub open spec fn tick_commands(c: Chain, logs: Seq<RawLog>) -> Seq<RelayCommandV>
    decreases logs.len(),
{
    if logs.len() == 0 {
        Seq::empty()
    } else {
        tick_commands(c, logs.drop_last()) + match decode_spec(logs.last()) {
            Ok(e) => if matches_vault_spec(e) {
                seq![RelayCommandV { dest: paired_spec(c), to: e.from, value: e.value }]
            } else {
                Seq::empty()
            },
            Err(_) => Seq::empty(),
        }
    }
}

/// The history with chain `c`'s region removed.
pub open spec fn history_without(s: Seq<HistoryEntryV>, c: Chain) -> Seq<HistoryEntryV>
    decreases s.len(),
{
    if s.len() == 0 {
        Seq::empty()
    } else {
        history_without(s.drop_last(), c) + if s.last().chain == c {
            Seq::empty()
        } else {
            seq![s.last()]
        }
    }
}

/// The in-memory bridge state: one watch session per chain and the shared
/// history log.
pub struct Bridge {
    pub sepolia: WatchState,
    pub base: WatchState,
    pub history: Vec<HistoryEntry>,
}

/// A session start is permitted: no session for `c` holds a handle.
pub open spec fn start_allowed(pre: Bridge, c: Chain) -> bool {
    !pre.session_spec(c).active
}

/// What a successful session start does: activates `c`'s session with a
/// fresh poll counter, clears `c`'s history region, and leaves the other
/// chain's session alone.
pub open spec fn start_transition(pre: Bridge, post: Bridge, c: Chain) -> bool {
    &&& post.session_spec(c).active
    &&& post.session_spec(c).poll_count == 0
    &&& post.session_spec(paired_spec(c)) == pre.session_spec(paired_spec(c))
    &&& entries_view(post.history@) == history_without(entries_view(pre.history@), c)
}

/// What one delivered poll tick does, apart from the relays it plans:
/// appends the batch's matches to the history, advances the poll counter,
/// and releases the handle once the poll limit is reached.
pub open spec fn tick_transition(pre: Bridge, post: Bridge, c: Chain, logs: Seq<RawLog>) -> bool {
    &&& pre.session_spec(c).active
    &&& post.session_spec(c).poll_count == pre.session_spec(c).poll_count + 1
    &&& post.session_spec(c).active == (pre.session_spec(c).poll_count + 1 < POLL_LIMIT)
    &&& entries_view(post.history@) == entries_view(pre.history@) + tick_entries(c, logs)
    &&& post.session_spec(paired_spec(c)) == pre.session_spec(paired_spec(c))
}

impl Bridge {
    /// Session state of chain `c`.
    pub open spec fn session_spec(self, c: Chain) -> WatchState {
        match c {
            Chain::Sepolia => self.sepolia,
            Chain::BaseSepolia => self.base,
        }
    }

    /// An active session has not yet used up its poll budget.
    pub open spec fn wf(self) -> bool {
        &&& self.sepolia.poll_count <= POLL_LIMIT
        &&& self.base.poll_count <= POLL_LIMIT
        &&& (self.sepolia.active ==> self.sepolia.poll_count < POLL_LIMIT)
        &&& (self.base.active ==> self.base.poll_count < POLL_LIMIT)
    }

    /// A fresh bridge: no session active, empty history.
    pub fn new() -> (b: Bridge)
        ensures
            b.wf(),
            !b.sepolia.active,
            !b.base.active,
            b.sepolia.poll_count == 0,
            b.base.poll_count == 0,
            b.history@.len() == 0,
    {
        Bridge {
            sepolia: WatchState { active: false, poll_count: 0 },
            base: WatchState { active: false, poll_count: 0 },
            history: Vec::new(),
        }
    }

    /// Side-effect-free read: is a session for `c` holding a handle?
    pub fn is_watching(&self, c: Chain) -> (r: bool)
        ensures
            r == self.session_spec(c).active,
    {
        match c {
            Chain::Sepolia => self.sepolia.active,
            Chain::BaseSepolia => self.base.active,
        }
    }

    /// Side-effect-free read of the recorded match lines, oldest first.
    pub fn history(&self) -> (r: Vec<String>)
        ensures
            r@.len() == self.history@.len(),
            forall|j: int| 0 <= j < r@.len() ==> r@[j]@ == self.history@[j].line@,
    {
        let mut r: Vec<String> = Vec::new();
        let mut i: usize = 0;
        while i < self.history.len()
            invariant
                i <= self.history@.len(),
                r@.len() == i,
                forall|j: int| 0 <= j < i ==> r@[j]@ == self.history@[j].line@,
            decreases self.history@.len() - i,
        {
            r.push(self.history[i].line.clone());
            i += 1;
        }
        r
    }

    /// Starts a watch session for `c`. Refused, with nothing mutated, while
    /// a session for `c` is active; otherwise clears `c`'s history region,
    /// resets the poll counter and activates the session.
    pub fn start_watch(&mut self, c: Chain) -> (r: Result<String, BridgeError>)
        requires
            old(self).wf(),
        ensures
            final(self).wf(),
            match r {
                Ok(m) => {
                    &&& start_allowed(*old(self), c)
                    &&& start_transition(*old(self), *final(self), c)
                    &&& m@ == "Watching for logs, polling 3 times."@
                },
                Err(e) => {
                    &&& !start_allowed(*old(self), c)
                    &&& e == BridgeError::SessionConflict
                    &&& *final(self) == *old(self)
                },
            },
    {
        if self.is_watching(c) {
            return Err(BridgeError::SessionConflict);
        }
        let mut kept: Vec<HistoryEntry> = Vec::new();
        let mut i: usize = 0;
        while i < self.history.len()
            invariant
                i <= self.history@.len(),
                entries_view(kept@) =~~= history_without(
                    entries_view(self.history@.subrange(0, i as int)),
                    c,
                ),
            decreases self.history@.len() - i,
        {
            let e = &self.history[i];
            proof {
                let pre = entries_view(self.history@.subrange(0, i as int));
                let post = entries_view(self.history@.subrange(0, i + 1));
                assert(post.drop_last() =~= pre);
                assert(post.last() == entry_view(self.history@[i as int]));
            }
            if e.chain != c {
                kept.push(HistoryEntry { chain: e.chain, line: e.line.clone() });
                proof {
                    assert(entries_view(kept@) =~~= entries_view(kept@.drop_last()).push(
                        entry_view(kept@.last()),
                    ));
                }
            }
            i += 1;
        }
        proof {
            assert(self.history@.subrange(0, self.history@.len() as int) =~= self.history@);
        }
        self.history = kept;
        match c {
            Chain::Sepolia => {
                self.sepolia = WatchState { active: true, poll_count: 0 };
            },
            Chain::BaseSepolia => {
                self.base = WatchState { active: true, poll_count: 0 };
            },
        }
        Ok(crate::chain::start_message())
    }

    /// One poll tick for `c`: decodes the batch, appends one history line
    /// per deposit into the vault, plans one relay per such deposit onto
    /// the paired chain, then advances the session lifecycle. Malformed
    /// logs are skipped. A tick on an inactive session does nothing.
    pub fn poll_tick(&mut self, c: Chain, logs: &Vec<RawLog>) -> (cmds: Vec<RelayCommand>)
        requires
            old(self).wf(),
        ensures
            final(self).wf(),
            !old(self).session_spec(c).active ==> {
                &&& *final(self) == *old(self)
                &&& cmds@.len() == 0
            },
            old(self).session_spec(c).active ==> {
                &&& tick_transition(*old(self), *final(self), c, logs@)
                &&& cmds_view(cmds@) == tick_commands(c, logs@)
            },
    {
        if !self.is_watching(c) {
            return Vec::new();
        }
        let mut cmds: Vec<RelayCommand> = Vec::new();
        let mut i: usize = 0;
        while i < logs.len()
            invariant
                i <= logs@.len(),
                self.sepolia == old(self).sepolia,
                self.base == old(self).base,
                entries_view(self.history@) =~~= entries_view(old(self).history@) + tick_entries(
                    c,
                    logs@.subrange(0, i as int),
                ),
                cmds_view(cmds@) =~~= tick_commands(c, logs@.subrange(0, i as int)),
            decreases logs@.len() - i,
        {
            proof {
                let pre = logs@.subrange(0, i as int);
                let post = logs@.subrange(0, i + 1);
                assert(post.drop_last() =~= pre);
                assert(post.last() == logs@[i as int]);
            }
            match decode_transfer_log(&logs[i]) {
                Ok(ev) => {
                    if matches_vault(&ev) {
                        proof {
                            assert(decode_spec(logs@[i as int]) == Ok::<TransferEventV, DecodeError>(
                                ev_view(ev),
                            ));
                            assert(ev.from@.len() == 20);
                            assert(ev.to@.len() == 20);
                        }
                        let ghost prev_h = self.history@;
                        let ghost prev_c = cmds@;
                        let line = render_record(&ev);
                        let dest = paired(c);
                        self.history.push(HistoryEntry { chain: c, line });
                        cmds.push(RelayCommand { dest, to: ev.from, value: ev.value });
                        proof {
                            let pre = logs@.subrange(0, i as int);
                            let post = logs@.subrange(0, i + 1);
                            let he = HistoryEntryV {
                                chain: c,
                                line: record_of(ev_view(ev)),
                            };
                            let rc = RelayCommandV {
                                dest: paired_spec(c),
                                to: ev_view(ev).from,
                                value: ev_view(ev).value,
                            };
                            assert(tick_entries(c, post) =~~= tick_entries(c, pre) + seq![he]);
                            assert(tick_commands(c, post) =~~= tick_commands(c, pre) + seq![rc]);
                            assert(entries_view(self.history@) =~~= entries_view(prev_h)
                                + seq![he]);
                            assert(cmds_view(cmds@) =~~= cmds_view(prev_c) + seq![rc]);
                            assert(entries_view(self.history@) =~~= entries_view(
                                old(self).history@,
                            ) + tick_entries(c, post));
                            assert(cmds_view(cmds@) =~~= tick_commands(c, post));
                        }
                    } else {
                        proof {
                            assert(tick_entries(c, logs@.subrange(0, i + 1)) =~~= tick_entries(
                                c,
                                logs@.subrange(0, i as int),
                            ));
                            assert(tick_commands(c, logs@.subrange(0, i + 1)) =~~= tick_commands(
                                c,
                                logs@.subrange(0, i as int),
                            ));
                        }
                    }
                },
                Err(_) => {
                    proof {
                        assert(tick_entries(c, logs@.subrange(0, i + 1)) =~~= tick_entries(
                            c,
                            logs@.subrange(0, i as int),
                        ));
                        assert(tick_commands(c, logs@.subrange(0, i + 1)) =~~= tick_commands(
                            c,
                            logs@.subrange(0, i as int),
                        ));
                    }
                },
            }
            i += 1;
        }
        proof {
            assert(logs@.subrange(0, logs@.len() as int) =~= logs@);
        }
        match c {
            Chain::Sepolia => {
                let n = self.sepolia.poll_count + 1;
                self.sepolia = WatchState { active: n < POLL_LIMIT, poll_count: n };
            },
            Chain::BaseSepolia => {
                let n = self.base.poll_count + 1;
                self.base = WatchState { active: n < POLL_LIMIT, poll_count: n };
            },
        }
        cmds
    }
}

} // verus!
