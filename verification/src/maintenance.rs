//! The foreground maintenance loop.
//!
//! Each iteration races two events: the shutdown signal being observed, and
//! a periodic timer tick. Shutdown wins ties and ends the loop after one
//! final flush. A timer tick, while the chain is still synchronizing, logs
//! status, flushes on every tenth tick, dumps the peer list on every
//! twentieth, and advances the tick counter; once synchronization is done
//! the counter stops and ticks only log completion. The embedding runtime
//! performs the race and hands the winners in; the loop here is verified
//! against a specification of the whole run.

use vstd::prelude::*;

verus! {

use crate::FlorestaClient;
use crate::chain::ChainStore;
use crate::chain::StoreContent;

/// The winner of one iteration's race.
#[derive(Clone, Copy, PartialEq, Eq, Structural, Debug)]
pub enum MaintEvent {
    /// The shutdown signal was observed set. Favored on ties.
    ShutdownObserved,
    /// The periodic timer elapsed first.
    TimerTick,
}

/// One action the loop asks the runtime to perform.
#[derive(Clone, Copy, PartialEq, Eq, Structural, Debug)]
pub enum MaintAction {
    /// Log header height and validated height.
    StatusLog,
    /// Persist the chain state to the store.
    Flush,
    /// Query and log the connected-peer list.
    PeerDump,
    /// Log that synchronization has completed.
    CompletionLog,
    /// The flush performed once the shutdown signal is observed.
    FinalFlush,
}

/// The tick counter of a maintenance loop. It advances only while the
/// chain is still synchronizing.
#[derive(Clone, Copy, PartialEq, Eq, Structural, Debug)]
pub struct MaintenanceState {
    /// Ticks counted so far.
    pub ticks: u64,
}

/// A flush fires on a tick: on every tenth one.
pub open spec fn spec_flush_fires(tick: int) -> bool {
    tick % 10 == 0
}

/// A peer dump fires on a tick: on every twentieth one.
pub open spec fn spec_peer_dump_fires(tick: int) -> bool {
    tick % 20 == 0
}

/// What one tick asks the runtime to do.
#[derive(Clone, Copy, PartialEq, Eq, Structural, Debug)]
pub struct TickActions {
    /// Log sync status; exactly while still synchronizing.
    pub log_status: bool,
    /// Flush the chain state; on every tenth counted tick.
    pub flush: bool,
    /// Dump the peer list; on every twentieth counted tick.
    pub peer_dump: bool,
    /// Log completion; exactly once synchronization is done.
    pub completion_log: bool,
}

impl MaintenanceState {
    /// A counter that has seen no tick.
    pub fn new() -> (r: MaintenanceState)
        ensures
            r.ticks == 0,
    {
        MaintenanceState { ticks: 0 }
    }

    /// Handle one timer tick. While synchronizing, the counter advances and
    /// the flush and peer-dump cadences are read off the new count as two
    /// independent divisibility tests; once synchronization is done the
    /// counter stays put and only completion is logged.
    pub fn on_tick(&mut self, in_ibd: bool) -> (a: TickActions)
        requires
            old(self).ticks < u64::MAX,
        ensures
            in_ibd ==> final(self).ticks == old(self).ticks + 1,
            !in_ibd ==> final(self).ticks == old(self).ticks,
            a.log_status == in_ibd,
            a.completion_log == !in_ibd,
            a.flush == (in_ibd && spec_flush_fires(old(self).ticks + 1)),
            a.peer_dump == (in_ibd && spec_peer_dump_fires(old(self).ticks + 1)),
    {
        if in_ibd {
            let t = self.ticks + 1;
            self.ticks = t;
            TickActions {
                log_status: true,
                flush: t % 10 == 0,
                peer_dump: t % 20 == 0,
                completion_log: false,
            }
        } else {
            TickActions { log_status: false, flush: false, peer_dump: false, completion_log: true }
        }
    }
}

/// The actions one counted tick contributes to the run's log.
pub open spec fn spec_tick_log(tick: int, in_ibd: bool) -> Seq<MaintAction> {
    if in_ibd {
        seq![MaintAction::StatusLog] + (if spec_flush_fires(tick) {
            seq![MaintAction::Flush]
        } else {
            Seq::<MaintAction>::empty()
        }) + (if spec_peer_dump_fires(tick) {
            seq![MaintAction::PeerDump]
        } else {
            Seq::<MaintAction>::empty()
        })
    } else {
        seq![MaintAction::CompletionLog]
    }
}

/// A whole maintenance run over the raced events, starting from tick count
/// `ticks`: the final tick count, whether any flush was issued, and the
/// log of actions in order. The run ends at the first observed shutdown,
/// with one final flush and nothing after it.
pub open spec fn spec_run(ticks: int, in_ibd: bool, events: Seq<MaintEvent>) -> (
    int,
    bool,
    Seq<MaintAction>,
)
    decreases events.len(),
{
    if events.len() == 0 {
        (ticks, false, Seq::<MaintAction>::empty())
    } else if events[0] is ShutdownObserved {
        (ticks, true, seq![MaintAction::FinalFlush])
    } else {
        let t2 = if in_ibd {
            ticks + 1
        } else {
            ticks
        };
        let rest = spec_run(t2, in_ibd, events.drop_first());
        (rest.0, (in_ibd && spec_flush_fires(t2)) || rest.1, spec_tick_log(t2, in_ibd) + rest.2)
    }
}

/// Drive the maintenance loop over the raced events, from a fresh tick
/// counter. The returned log is exactly the specified run's log; the chain,
/// configuration and shutdown signal are untouched; and the store ends up
/// holding the chain's data exactly when the run issued some flush -
/// in particular always when a shutdown was observed.
pub fn run_maintenance(client: &mut FlorestaClient, events: &Vec<MaintEvent>) -> (log: Vec<
    MaintAction,
>)
    ensures
        log@ == spec_run(0, old(client).chain.data.ibd, events@).2,
        final(client).chain == old(client).chain,
        final(client).config == old(client).config,
        final(client).debug == old(client).debug,
        final(client).kill_signal == old(client).kill_signal,
        final(client).store == (if spec_run(0, old(client).chain.data.ibd, events@).1 {
            ChainStore { content: StoreContent::Saved(old(client).chain.data) }
        } else {
            old(client).store
        }),
{
    let ghost ibd0 = client.chain.data.ibd;
    let ghost total = spec_run(0, ibd0, events@);
    let mut m = MaintenanceState::new();
    let mut log: Vec<MaintAction> = Vec::new();
    let mut flushed: bool = false;
    let mut i: usize = 0;
    proof {
        assert(events@.skip(0) =~= events@);
        assert(Seq::<MaintAction>::empty() + total.2 =~= total.2);
    }
    while i < events.len()
        invariant
            0 <= i <= events@.len(),
            m.ticks <= i,
            client.chain == old(client).chain,
            client.config == old(client).config,
            client.debug == old(client).debug,
            client.kill_signal == old(client).kill_signal,
            ibd0 == old(client).chain.data.ibd,
            client.store == (if flushed {
                ChainStore { content: StoreContent::Saved(old(client).chain.data) }
            } else {
                old(client).store
            }),
            total == spec_run(0, ibd0, events@),
            total.1 == (flushed || spec_run(m.ticks as int, ibd0, events@.skip(i as int)).1),
            total.2 == log@ + spec_run(m.ticks as int, ibd0, events@.skip(i as int)).2,
        decreases events@.len() - i,
    {
        proof {
            assert(events@.skip(i as int)[0] == events@[i as int]);
            assert(events@.skip(i as int).drop_first() =~= events@.skip(i as int + 1));
        }
        let ev = events[i];
        match ev {
            MaintEvent::ShutdownObserved => {
                let ghost log_pre = log@;
                log.push(MaintAction::FinalFlush);
                let _ = client.flush();
                flushed = true;
                proof {
                    assert(log@ =~= log_pre + seq![MaintAction::FinalFlush]);
                }
                return log;
            }
            MaintEvent::TimerTick => {
                let in_ibd = client.is_in_ibd();
                let a = m.on_tick(in_ibd);
                let ghost t2 = m.ticks as int;
                let ghost log_pre = log@;
                if a.log_status {
                    log.push(MaintAction::StatusLog);
                }
                if a.flush {
                    let _ = client.flush();
                    flushed = true;
                    log.push(MaintAction::Flush);
                }
                if a.peer_dump {
                    log.push(MaintAction::PeerDump);
                }
                if a.completion_log {
                    log.push(MaintAction::CompletionLog);
                }
                proof {
                    assert(log@ =~= log_pre + spec_tick_log(t2, ibd0));
                    let rest = spec_run(t2, ibd0, events@.skip(i as int + 1));
                    assert((log_pre + spec_tick_log(t2, ibd0)) + rest.2 =~= log_pre + (spec_tick_log(
                        t2,
                        ibd0,
                    ) + rest.2));
                }
            }
        }
        i += 1;
    }
    proof {
        assert(events@.skip(i as int) =~= Seq::<MaintEvent>::empty());
        assert(log@ + Seq::<MaintAction>::empty() =~= log@);
    }
    log
}

/// The flush cadence hits exactly the positive multiples of ten: tick
/// `10 * k` flushes, and the nine ticks after it do not.
pub proof fn lemma_flush_cadence(k: int, d: int)
    requires
        k >= 0,
        1 <= d <= 9,
    ensures
        spec_flush_fires(10 * k),
        !spec_flush_fires(10 * k + d),
{
    assert((10 * k) % 10 == 0 && (10 * k + d) % 10 == d) by (nonlinear_arith)
        requires
            k >= 0 && 1 <= d <= 9,
    ;
}

/// The peer-dump cadence hits exactly the positive multiples of twenty,
/// and every peer-dump tick is also a flush tick.
pub proof fn lemma_peer_dump_cadence(tick: int)
    requires
        spec_peer_dump_fires(tick),
    ensures
        spec_flush_fires(tick),
{
    assert(tick % 20 == 0 ==> tick % 10 == 0) by (nonlinear_arith);
}

/// A run that observes a shutdown always flushes, and its very last action
/// is the one final flush: the loop returns control right after it, within
/// the iteration that saw the signal.
pub proof fn lemma_shutdown_ends_with_final_flush(
    ticks: int,
    in_ibd: bool,
    events: Seq<MaintEvent>,
)
    requires
        exists|k: int| 0 <= k < events.len() && events[k] is ShutdownObserved,
    ensures
        spec_run(ticks, in_ibd, events).1,
        spec_run(ticks, in_ibd, events).2.len() > 0,
        spec_run(ticks, in_ibd, events).2.last() == MaintAction::FinalFlush,
    decreases events.len(),
{
    if events[0] is ShutdownObserved {
    } else {
        let k = choose|k: int| 0 <= k < events.len() && events[k] is ShutdownObserved;
        assert(events.drop_first()[k - 1] is ShutdownObserved);
        let t2 = if in_ibd {
            ticks + 1
        } else {
            ticks
        };
        lemma_shutdown_ends_with_final_flush(t2, in_ibd, events.drop_first());
        let rest = spec_run(t2, in_ibd, events.drop_first());
        assert(spec_run(ticks, in_ibd, events).2 == spec_tick_log(t2, in_ibd) + rest.2);
        assert((spec_tick_log(t2, in_ibd) + rest.2).last() == rest.2.last());
    }
}

} // verus!
