//! The subscription engine: cursor, control flags, and the per-tick decisions.

use vstd::prelude::*;
use std::sync::Arc;
use crate::transaction::IvaTransactionHandler;
use crate::transaction::VMDataTransaction;

verus! {

/// Most blocks one fetch window may span: a window is an inclusive block
/// range of at most this many blocks, however far the chain head has run
/// ahead of the cursor.
pub const MAX_WINDOW: u64 = 1000;

/// What the engine decides to do for one tick of the poll loop.
#[derive(Clone, Copy, Debug, PartialEq, Eq, Structural)]
pub enum TickPlan {
    /// The stop flag is set: the loop must exit.
    Exit,
    /// Nothing to do this tick: the engine is paused, the head query failed,
    /// or no new block has been confirmed. The worker idles and tries again.
    Skip,
    /// Fetch the transactions confirmed in blocks `from..=to` and report the
    /// outcome back.
    Fetch { from: u64, to: u64 },
}

/// Holds when `windows` is the exact chain of fetch windows that carried the
/// cursor from `start` to `cursor`: each window is a non-empty inclusive
/// range, the first begins at `start`, each later one begins right after the
/// previous one ends, and the last ends at `cursor - 1`.
pub open spec fn windows_chain(windows: Seq<(u64, u64)>, start: u64, cursor: u64) -> bool
    decreases windows.len(),
{
    if windows.len() == 0 {
        cursor == start
    } else {
        let last = windows.last();
        &&& last.0 <= last.1
        &&& cursor == last.1 + 1
        &&& windows_chain(windows.drop_last(), start, last.0)
    }
}

/// Total number of blocks covered by a chain of inclusive windows.
pub open spec fn windows_size_sum(windows: Seq<(u64, u64)>) -> int
    decreases windows.len(),
{
    if windows.len() == 0 {
        0
    } else {
        windows_size_sum(windows.drop_last()) + (windows.last().1 - windows.last().0 + 1)
    }
}

/// A chain of fetch windows partitions the blocks between `start` and
/// `cursor`: the cursor sits exactly `windows_size_sum(windows)` blocks past
/// the start, every window lies between the two, and earlier windows end
/// strictly before later ones begin, so no block number appears in two
/// windows.
pub proof fn lemma_windows_chain_partition(windows: Seq<(u64, u64)>, start: u64, cursor: u64)
    requires
        windows_chain(windows, start, cursor),
    ensures
        start <= cursor,
        cursor - start == windows_size_sum(windows),
        forall|i: int|
            0 <= i < windows.len() ==> start <= (#[trigger] windows[i]).0 && windows[i].0
                <= windows[i].1 && windows[i].1 < cursor,
        forall|i: int, j: int|
            0 <= i < j < windows.len() ==> (#[trigger] windows[i]).1 < (#[trigger] windows[j]).0,
    decreases windows.len(),
{
    if windows.len() > 0 {
        let prev = windows.drop_last();
        let last = windows.last();
        lemma_windows_chain_partition(prev, start, last.0);
        assert forall|i: int|
            0 <= i < windows.len() implies start <= (#[trigger] windows[i]).0 && windows[i].0
            <= windows[i].1 && windows[i].1 < cursor by {
            if i < windows.len() - 1 {
                assert(windows[i] == prev[i]);
            }
        }
        assert forall|i: int, j: int|
            0 <= i < j < windows.len() implies (#[trigger] windows[i]).1
            < (#[trigger] windows[j]).0 by {
            assert(windows[i] == prev[i]);
            if j < windows.len() - 1 {
                assert(windows[j] == prev[j]);
            }
        }
    }
}

/// Subscription engine for VM-scoped data transactions.
///
/// The engine owns the block cursor and the control-flag state machine. One
/// background worker (driven outside this crate) repeatedly asks the engine
/// to plan a tick, performs the chain queries the plan calls for, and reports
/// the outcome back; the engine alone decides what is fetched and when the
/// cursor advances.
///
/// The ghost fields record the engine's observable history: every window
/// successfully fetched so far, in order, and every transaction handed to the
/// handler, in delivery order.
pub struct IvaTransactionSubscription<H: IvaTransactionHandler + ?Sized> {
    pub vm_id: u64,
    pub starting_block: u64,
    pub poll_interval: u64,
    pub cursor: u64,
    pub latest_checked_block: u64,
    pub running: bool,
    pub paused: bool,
    pub stopping: bool,
    pub handler: Arc<H>,
    pub fetched_windows: Ghost<Seq<(u64, u64)>>,
    pub delivered: Ghost<Seq<VMDataTransaction>>,
}

impl<H: IvaTransactionHandler + ?Sized> IvaTransactionSubscription<H> {
    /// The engine's invariant: the fetched windows form a gapless chain from
    /// the starting block up to the cursor, and `latest_checked_block` is 0
    /// until the first successful fetch and the last fetched block after it.
    pub open spec fn wf(self) -> bool {
        &&& windows_chain(self.fetched_windows@, self.starting_block, self.cursor)
        &&& (self.fetched_windows@.len() == 0 ==> self.latest_checked_block == 0
            && self.delivered@.len() == 0)
        &&& (self.fetched_windows@.len() > 0 ==> self.latest_checked_block + 1 == self.cursor)
    }

    /// What `plan_tick` decides, as a function of the engine state and the
    /// reported chain head (`None` when the head query failed): stop wins
    /// over pause, pause and a failed or stale head skip the tick, and
    /// otherwise the window from the cursor up to the head is fetched,
    /// capped at `MAX_WINDOW` blocks.
    pub open spec fn plan_spec(self, chain_head: Option<u64>) -> TickPlan {
        if self.stopping {
            TickPlan::Exit
        } else if self.paused {
            TickPlan::Skip
        } else {
            match chain_head {
                None => TickPlan::Skip,
                Some(head) => {
                    if head < self.cursor {
                        TickPlan::Skip
                    } else if self.cursor + MAX_WINDOW - 1 <= head {
                        TickPlan::Fetch {
                            from: self.cursor,
                            to: (self.cursor + MAX_WINDOW - 1) as u64,
                        }
                    } else {
                        TickPlan::Fetch { from: self.cursor, to: head }
                    }
                },
            }
        }
    }

    /// Builds an engine in the stopped, non-running state: the cursor sits on
    /// the starting block and nothing has been checked or delivered yet. No
    /// I/O happens here.
    pub fn new(
        vm_id: u64,
        starting_block: u64,
        handler: Arc<H>,
        poll_interval: u64,
    ) -> (engine: Self)
        ensures
            engine.wf(),
            engine.vm_id == vm_id,
            engine.starting_block == starting_block,
            engine.poll_interval == poll_interval,
            engine.cursor == starting_block,
            engine.latest_checked_block == 0,
            !engine.running,
            !engine.paused,
            !engine.stopping,
            engine.handler == handler,
            engine.fetched_windows@ == Seq::<(u64, u64)>::empty(),
            engine.delivered@ == Seq::<VMDataTransaction>::empty(),
    {
        Self {
            vm_id,
            starting_block,
            poll_interval,
            cursor: starting_block,
            latest_checked_block: 0,
            running: false,
            paused: false,
            stopping: false,
            handler,
            fetched_windows: Ghost(Seq::empty()),
            delivered: Ghost(Seq::empty()),
        }
    }

    /// Marks the engine running and clears the pause and stop flags, so a
    /// fresh worker loop may begin ticking. A second `start` on an engine
    /// that is already running is a no-op: in particular it does not reset
    /// the cursor, so at most one worker ever drives the engine.
    pub fn start(&mut self)
        ensures
            old(self).running ==> *final(self) == *old(self),
            !old(self).running ==> *final(self) == (IvaTransactionSubscription {
                running: true,
                paused: false,
                stopping: false,
                ..*old(self)
            }),
    {
        if self.running {
            return;
        }
        self.running = true;
        self.paused = false;
        self.stopping = false;
    }

    /// Sets the pause flag: from the next tick boundary on, the loop plans no
    /// fetch or dispatch work until `resume` clears the flag, but it stays
    /// alive and still honors `stop`.
    pub fn pause(&mut self)
        ensures
            *final(self) == (IvaTransactionSubscription { paused: true, ..*old(self) }),
    {
        self.paused = true;
    }

    /// Clears the pause flag: the loop fetches again from its next tick.
    pub fn resume(&mut self)
        ensures
            *final(self) == (IvaTransactionSubscription { paused: false, ..*old(self) }),
    {
        self.paused = false;
    }

    /// Sets the stop flag. The worker observes it at its next tick boundary
    /// and exits; work already in flight is never interrupted. Stopping is
    /// not reversible.
    pub fn stop(&mut self)
        ensures
            *final(self) == (IvaTransactionSubscription { stopping: true, ..*old(self) }),
    {
        self.stopping = true;
    }

    /// The worker calls this once when it observes an `Exit` plan and leaves
    /// its loop; `is_running` reports false from then on.
    pub fn acknowledge_exit(&mut self)
        requires
            old(self).stopping,
        ensures
            *final(self) == (IvaTransactionSubscription { running: false, ..*old(self) }),
    {
        self.running = false;
    }

    /// Decides what one tick of the poll loop does, from the engine state and
    /// the outcome of the chain-head query (`None` when that query failed).
    /// Reads only; no state changes until the fetch outcome is reported.
    pub fn plan_tick(&self, chain_head: Option<u64>) -> (plan: TickPlan)
        ensures
            plan == self.plan_spec(chain_head),
            plan is Exit <==> self.stopping,
            plan matches TickPlan::Fetch { from, to } ==> {
                &&& from == self.cursor
                &&& from <= to
                &&& to - from < MAX_WINDOW
                &&& chain_head matches Some(head) && to <= head
            },
    {
        if self.stopping {
            TickPlan::Exit
        } else if self.paused {
            TickPlan::Skip
        } else {
            match chain_head {
                None => TickPlan::Skip,
                Some(head) => {
                    if head < self.cursor {
                        TickPlan::Skip
                    } else if head - self.cursor >= MAX_WINDOW - 1 {
                        TickPlan::Fetch { from: self.cursor, to: self.cursor + (MAX_WINDOW - 1) }
                    } else {
                        TickPlan::Fetch { from: self.cursor, to: head }
                    }
                },
            }
        }
    }

    /// Hands every transaction of one fetched batch to the handler, in the
    /// order the data source returned them, synchronously and one at a time.
    fn dispatch_all(handler: &Arc<H>, transactions: Vec<VMDataTransaction>) {
        let mut remaining = transactions;
        while remaining.len() != 0
            decreases remaining.len(),
        {
            let transaction = remaining.remove(0);
            handler.process_iva_transactions(transaction);
        }
    }

    /// Records the outcome of the fetch that a `Fetch { from, to }` plan asked
    /// for, where `to == window_end`. On success (`Some` batch) every
    /// transaction of the batch is first handed to the handler, in order, and
    /// only then does the cursor advance past the window; on failure (`None`)
    /// nothing at all changes, so the next tick plans exactly the same window
    /// again.
    pub fn apply_fetch_result(
        &mut self,
        window_end: u64,
        fetched: Option<Vec<VMDataTransaction>>,
    )
        requires
            old(self).wf(),
            old(self).cursor <= window_end,
            window_end < u64::MAX,
        ensures
            final(self).wf(),
            final(self).cursor >= old(self).cursor,
            final(self).latest_checked_block >= old(self).latest_checked_block,
            fetched is None ==> *final(self) == *old(self),
            fetched is None ==> forall|head: Option<u64>|
                #[trigger] final(self).plan_spec(head) == old(self).plan_spec(head),
            fetched matches Some(batch) ==> {
                &&& *final(self) == (IvaTransactionSubscription {
                    cursor: (window_end + 1) as u64,
                    latest_checked_block: window_end,
                    fetched_windows: Ghost(
                        old(self).fetched_windows@.push((old(self).cursor, window_end)),
                    ),
                    delivered: Ghost(old(self).delivered@ + batch@),
                    ..*old(self)
                })
            },
    {
        match fetched {
            None => {},
            Some(batch) => {
                let ghost batch_snapshot = batch@;
                let ghost window_start = self.cursor;
                Self::dispatch_all(&self.handler, batch);
                self.latest_checked_block = window_end;
                self.cursor = window_end + 1;
                proof {
                    self.fetched_windows@ = self.fetched_windows@.push((window_start, window_end));
                    self.delivered@ = self.delivered@ + batch_snapshot;
                    assert(self.fetched_windows@.drop_last() =~= old(self).fetched_windows@);
                }
            },
        }
    }

    pub fn is_running(&self) -> (r: bool)
        ensures
            r == self.running,
    {
        self.running
    }

    pub fn is_paused(&self) -> (r: bool)
        ensures
            r == self.paused,
    {
        self.paused
    }

    pub fn is_stopped(&self) -> (r: bool)
        ensures
            r == self.stopping,
    {
        self.stopping
    }

    pub fn get_latest_checked_block(&self) -> (r: u64)
        ensures
            r == self.latest_checked_block,
    {
        self.latest_checked_block
    }

    pub fn get_starting_block(&self) -> (r: u64)
        ensures
            r == self.starting_block,
    {
        self.starting_block
    }

    pub fn get_vm_id(&self) -> (r: u64)
        ensures
            r == self.vm_id,
    {
        self.vm_id
    }

    /// The configured idle period between ticks, in milliseconds. It is
    /// authoritative: the worker that drives the engine waits this long
    /// after every tick.
    pub fn get_poll_interval(&self) -> (r: u64)
        ensures
            r == self.poll_interval,
    {
        self.poll_interval
    }

    pub fn get_handler(&self) -> (h: &Arc<H>)
        ensures
            h == self.handler,
    {
        &self.handler
    }

    /// After any run of successful fetches, the cursor sits at the starting
    /// block plus the total size of the windows fetched so far, and no two
    /// fetched windows overlap: no block number is ever fetched twice.
    pub proof fn lemma_cursor_accounts_for_windows(self)
        requires
            self.wf(),
        ensures
            self.starting_block <= self.cursor,
            self.cursor - self.starting_block == windows_size_sum(self.fetched_windows@),
            forall|i: int, j: int|
                0 <= i < j < self.fetched_windows@.len() ==> (#[trigger] self.fetched_windows@[i]).1
                    < (#[trigger] self.fetched_windows@[j]).0,
    {
        lemma_windows_chain_partition(self.fetched_windows@, self.starting_block, self.cursor);
    }

    /// The planned window never spans more than `MAX_WINDOW` blocks, however
    /// far the chain head has run ahead of the cursor.
    pub proof fn lemma_window_never_exceeds_cap(self, chain_head: Option<u64>)
        ensures
            self.plan_spec(chain_head) matches TickPlan::Fetch { from, to } ==> from <= to && to
                + 1 - from <= MAX_WINDOW,
    {
    }

    /// While the engine is paused and not stopping, every tick is planned as
    /// `Skip`, whatever the head query reports: no fetch and no dispatch
    /// happen, while the running flag is untouched. Stopping still wins: with
    /// the stop flag also set the plan becomes `Exit`, paused or not.
    pub proof fn lemma_paused_tick_does_no_work(self, chain_head: Option<u64>)
        requires
            self.paused,
        ensures
            !self.stopping ==> self.plan_spec(chain_head) == TickPlan::Skip,
            (IvaTransactionSubscription { stopping: true, ..self }).plan_spec(chain_head)
                == TickPlan::Exit,
    {
    }

    /// Once the stop flag is set, every tick is planned as `Exit`: no window
    /// is fetched again and no further transaction reaches the handler.
    pub proof fn lemma_stopped_tick_exits(self, chain_head: Option<u64>)
        requires
            self.stopping,
        ensures
            self.plan_spec(chain_head) == TickPlan::Exit,
    {
    }
}

} // verus!
