use vstd::prelude::*;
use crate::delivery::{command_planned, Delivery, DeliveryContext};
use crate::error::ObservabilityError;
use crate::records::Command;

verus! {

/// The commands the worker executes when it dequeues `cmds` in turn: every
/// command up to, and not including, the first `Shutdown`.
pub open spec fn worker_trace(cmds: Seq<Command>) -> Seq<Command>
    decreases cmds.len(),
{
    if cmds.len() == 0 || cmds[0] is Shutdown {
        Seq::empty()
    } else {
        seq![cmds[0]] + worker_trace(cmds.drop_first())
    }
}

/// `cmds` holds a `Shutdown` command.
pub open spec fn has_shutdown(cmds: Seq<Command>) -> bool {
    exists|i: int| 0 <= i < cmds.len() && (#[trigger] cmds[i]) is Shutdown
}

/// What the worker does with a dequeued command.
pub enum WorkerAction {
    /// Submit this delivery; whatever comes of it, go on with the next command.
    Submit(Delivery),
    /// The command could not be planned; its error is dropped, go on.
    Discard(ObservabilityError),
    /// Stop: the shutdown signal came, or the queue is closed and drained.
    Stop,
}

/// The state of the single background worker.
pub struct Worker {
    /// The worker has stopped and takes no more commands.
    pub stopped: bool,
    /// Every command dequeued so far, in order.
    pub received: Ghost<Seq<Command>>,
    /// Every command executed so far, in order.
    pub executed: Ghost<Seq<Command>>,
}

impl Worker {
    pub open spec fn wf(&self) -> bool {
        &&& self.executed@ == worker_trace(self.received@)
        &&& !self.stopped ==> !has_shutdown(self.received@)
    }

    pub fn new() -> (r: Worker)
        ensures
            r.wf(),
            !r.stopped,
            r.received@.len() == 0,
            r.executed@.len() == 0,
    {
        Worker { stopped: false, received: Ghost(Seq::empty()), executed: Ghost(Seq::empty()) }
    }

    /// Handles what the queue gave: `None` when it is closed and drained.
    /// A record is executed: planned at `now_ms` into a delivery, or its
    /// planning error dropped. The shutdown signal, or a closed queue,
    /// stops the worker.
    pub fn step(&mut self, received: Option<Command>, ctx: &DeliveryContext, now_ms: u64) -> (r:
        WorkerAction)
        requires
            old(self).wf(),
            !old(self).stopped,
        ensures
            final(self).wf(),
            match received {
                None => r is Stop && final(self).stopped && final(self).received == old(
                    self,
                ).received && final(self).executed == old(self).executed,
                Some(c) => {
                    &&& final(self).received@ == old(self).received@.push(c)
                    &&& c is Shutdown ==> r is Stop && final(self).stopped
                        && final(self).executed == old(self).executed
                    &&& !(c is Shutdown) ==> {
                        &&& !final(self).stopped
                        &&& final(self).executed@ == old(self).executed@.push(c)
                        &&& match r {
                            WorkerAction::Submit(d) => command_planned(
                                c,
                                *ctx,
                                now_ms,
                                Ok::<Delivery, ObservabilityError>(d),
                            ),
                            WorkerAction::Discard(e) => command_planned(
                                c,
                                *ctx,
                                now_ms,
                                Err::<Delivery, ObservabilityError>(e),
                            ),
                            WorkerAction::Stop => false,
                        }
                    }
                },
            },
    {
        match received {
            None => {
                self.stopped = true;
                WorkerAction::Stop
            },
            Some(c) => {
                let ghost c_view = c;
                let ghost before = self.received@;
                proof {
                    lemma_trace_push(before, c_view);
                }
                self.received = Ghost(self.received@.push(c_view));
                match c.plan(ctx, now_ms) {
                    Ok(d) => {
                        self.executed = Ghost(self.executed@.push(c_view));
                        proof {
                            lemma_no_shutdown_push(before, c_view);
                        }
                        WorkerAction::Submit(d)
                    },
                    Err(e) => {
                        if e.is_shutdown() {
                            self.stopped = true;
                            WorkerAction::Stop
                        } else {
                            self.executed = Ghost(self.executed@.push(c_view));
                            proof {
                                lemma_no_shutdown_push(before, c_view);
                            }
                            WorkerAction::Discard(e)
                        }
                    },
                }
            },
        }
    }
}

proof fn lemma_trace_push(cmds: Seq<Command>, c: Command)
    requires
        !has_shutdown(cmds),
    ensures
        !(c is Shutdown) ==> worker_trace(cmds.push(c)) == worker_trace(cmds).push(c),
        c is Shutdown ==> worker_trace(cmds.push(c)) == worker_trace(cmds),
    decreases cmds.len(),
{
    if cmds.len() == 0 {
        assert(cmds.push(c).drop_first() =~= Seq::<Command>::empty());
        assert(worker_trace(cmds.push(c).drop_first()) == Seq::<Command>::empty());
        if !(c is Shutdown) {
            assert(worker_trace(cmds.push(c)) =~= seq![c]);
        }
    } else {
        assert(!(cmds[0] is Shutdown));
        let rest = cmds.drop_first();
        assert(!has_shutdown(rest)) by {
            if has_shutdown(rest) {
                let i = choose|i: int| 0 <= i < rest.len() && (#[trigger] rest[i]) is Shutdown;
                assert(cmds[i + 1] is Shutdown);
            }
        }
        lemma_trace_push(rest, c);
        assert(cmds.push(c).drop_first() =~= rest.push(c));
        assert(cmds.push(c)[0] == cmds[0]);
        if !(c is Shutdown) {
            assert(worker_trace(cmds.push(c)) =~= worker_trace(cmds).push(c));
        }
    }
}

proof fn lemma_no_shutdown_push(cmds: Seq<Command>, c: Command)
    requires
        !has_shutdown(cmds),
        !(c is Shutdown),
    ensures
        !has_shutdown(cmds.push(c)),
{
    if has_shutdown(cmds.push(c)) {
        let i = choose|i: int| 0 <= i < cmds.push(c).len() && (#[trigger] cmds.push(c)[i]) is Shutdown;
        if i < cmds.len() {
            assert(cmds[i] is Shutdown);
        }
    }
}

/// The worker executes the commands it dequeues in the order it dequeued
/// them: what it executes is always a leading part of what it received.
pub proof fn lemma_trace_is_leading_part(cmds: Seq<Command>)
    ensures
        worker_trace(cmds).len() <= cmds.len(),
        worker_trace(cmds) == cmds.subrange(0, worker_trace(cmds).len() as int),
    decreases cmds.len(),
{
    if cmds.len() > 0 && !(cmds[0] is Shutdown) {
        let rest = cmds.drop_first();
        lemma_trace_is_leading_part(rest);
        let n = worker_trace(rest).len();
        assert(worker_trace(cmds) =~= cmds.subrange(0, n as int + 1));
    } else {
        assert(worker_trace(cmds) =~= cmds.subrange(0, 0));
    }
}

/// A `Shutdown` dequeued after `k` other commands makes the worker execute
/// exactly those `k` commands; nothing that comes after it is executed.
pub proof fn lemma_shutdown_stops(cmds: Seq<Command>, k: int)
    requires
        0 <= k < cmds.len(),
        cmds[k] is Shutdown,
        forall|j: int| 0 <= j < k ==> !((#[trigger] cmds[j]) is Shutdown),
    ensures
        worker_trace(cmds) == cmds.subrange(0, k),
    decreases k,
{
    if k == 0 {
        assert(worker_trace(cmds) =~= cmds.subrange(0, 0));
    } else {
        let rest = cmds.drop_first();
        assert forall|j: int| 0 <= j < k - 1 implies !((#[trigger] rest[j]) is Shutdown) by {
            assert(rest[j] == cmds[j + 1]);
        }
        lemma_shutdown_stops(rest, k - 1);
        assert(worker_trace(cmds) =~= cmds.subrange(0, k));
    }
}

} // verus!
