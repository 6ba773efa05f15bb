//! The state shared by the network side and the render loop: the jobs waiting to be
//! rendered, in arrival order, whether a render is under way, and whether a shutdown was
//! requested.
use vstd::prelude::*;

use std::collections::VecDeque;

use crate::message::RenderJob;

verus! {

/// What woke the render loop.
pub enum LoopEvent {
    /// Ctrl-C arrived; it takes precedence over everything else, a render under way too.
    Interrupt,
    /// The loop is free to take the next job.
    Ready,
    /// The render under way has produced its answer.
    RenderDone,
}

/// What the render loop does next.
pub enum LoopAction {
    /// Leave the loop, dropping any render under way together with its answer channel.
    Stop,
    /// Render this job.
    Render(RenderJob),
    /// Send the answer of the render that just finished.
    Reply,
    /// Nothing to do: yield and look again.
    Idle,
}

/// The abstract state of a render server.
pub struct ServerState {
    /// The jobs waiting, oldest first.
    pub pending: Seq<RenderJob>,
    /// A job has been handed out for rendering and has not finished yet.
    pub rendering: bool,
    /// A shutdown was requested.
    pub stopped: bool,
}

/// The state after a job arrives: it waits behind those already waiting.
pub open spec fn pushed(s: ServerState, job: RenderJob) -> ServerState {
    ServerState { pending: s.pending.push(job), rendering: s.rendering, stopped: s.stopped }
}

/// One turn of the render loop: the state after `event` and what the loop does.
///
/// An interrupt, or any event once a shutdown was requested, stops the loop and abandons
/// the render under way. While a job renders only its completion moves the loop on, to
/// send the answer. Otherwise `Ready` hands out the oldest waiting job.
pub open spec fn step(s: ServerState, event: LoopEvent) -> (ServerState, LoopAction) {
    if s.stopped || event is Interrupt {
        (ServerState { pending: s.pending, rendering: false, stopped: true }, LoopAction::Stop)
    } else if s.rendering {
        if event is RenderDone {
            (ServerState { pending: s.pending, rendering: false, stopped: false }, LoopAction::Reply)
        } else {
            (s, LoopAction::Idle)
        }
    } else if event is Ready && s.pending.len() > 0 {
        (
            ServerState { pending: s.pending.drop_first(), rendering: true, stopped: false },
            LoopAction::Render(s.pending[0]),
        )
    } else {
        (s, LoopAction::Idle)
    }
}

/// The inbox of the render server, its render flag and its shutdown flag.
pub struct RenderServer {
    inbox: VecDeque<RenderJob>,
    rendering: bool,
    shutdown: bool,
}

impl View for RenderServer {
    type V = ServerState;

    closed spec fn view(&self) -> ServerState {
        ServerState { pending: self.inbox@, rendering: self.rendering, stopped: self.shutdown }
    }
}

impl RenderServer {
    /// An empty inbox, idle and running.
    pub fn new() -> (server: Self)
        ensures
            server@ == (ServerState { pending: Seq::empty(), rendering: false, stopped: false }),
    {
        RenderServer { inbox: VecDeque::new(), rendering: false, shutdown: false }
    }

    /// Number of jobs waiting.
    pub fn len(&self) -> (n: usize)
        ensures
            n == self@.pending.len(),
    {
        self.inbox.len()
    }

    /// Whether a shutdown was requested; the network side stops accepting connections
    /// once it was.
    pub fn shutdown_requested(&self) -> (stopped: bool)
        ensures
            stopped == self@.stopped,
    {
        self.shutdown
    }

    /// Queues a job behind those already waiting.
    pub fn push_job(&mut self, job: RenderJob)
        ensures
            final(self)@ == pushed(old(self)@, job),
    {
        self.inbox.push_back(job);
    }

    /// One turn of the render loop, as `step` describes it.
    pub fn next_action(&mut self, event: LoopEvent) -> (action: LoopAction)
        ensures
            (final(self)@, action) == step(old(self)@, event),
    {
        if let LoopEvent::Interrupt = event {
            self.shutdown = true;
        }
        if self.shutdown {
            self.rendering = false;
            return LoopAction::Stop;
        }
        if self.rendering {
            if let LoopEvent::RenderDone = event {
                self.rendering = false;
                return LoopAction::Reply;
            }
            return LoopAction::Idle;
        }
        if let LoopEvent::Ready = event {
            match self.inbox.pop_front() {
                Some(job) => {
                    self.rendering = true;
                    LoopAction::Render(job)
                },
                None => LoopAction::Idle,
            }
        } else {
            LoopAction::Idle
        }
    }
}

} // verus!

verus! {

/// The state after `jobs` arrive one after another.
pub open spec fn pushed_all(s: ServerState, jobs: Seq<RenderJob>) -> ServerState
    decreases jobs.len(),
{
    if jobs.len() == 0 {
        s
    } else {
        pushed(pushed_all(s, jobs.drop_last()), jobs.last())
    }
}

/// `n` render cycles with no interrupt: each takes the next job (`Ready`) and finishes
/// it (`RenderDone`). Gives the final state and the jobs rendered, in order.
pub open spec fn served(s: ServerState, n: nat) -> (ServerState, Seq<RenderJob>)
    decreases n,
{
    if n == 0 {
        (s, Seq::empty())
    } else {
        let (taken, action) = step(s, LoopEvent::Ready);
        let (finished, _) = step(taken, LoopEvent::RenderDone);
        let (last, rest) = served(finished, (n - 1) as nat);
        match action {
            LoopAction::Render(job) => (last, seq![job] + rest),
            _ => (last, rest),
        }
    }
}

/// A running server with no render under way.
pub open spec fn idle_and_running(s: ServerState) -> bool {
    !s.stopped && !s.rendering
}

/// Arrivals only lengthen the queue, at its back.
pub proof fn arrivals_queue_at_the_back(s: ServerState, jobs: Seq<RenderJob>)
    ensures
        pushed_all(s, jobs).pending == s.pending + jobs,
        pushed_all(s, jobs).rendering == s.rendering,
        pushed_all(s, jobs).stopped == s.stopped,
    decreases jobs.len(),
{
    if jobs.len() > 0 {
        arrivals_queue_at_the_back(s, jobs.drop_last());
        assert(s.pending + jobs =~= (s.pending + jobs.drop_last()).push(jobs.last()));
    }
}

/// Without an interrupt, `n` render cycles render the `n` oldest waiting jobs, oldest
/// first, each once, and leave the others waiting in order.
pub proof fn jobs_are_rendered_in_arrival_order(s: ServerState, n: nat)
    requires
        idle_and_running(s),
        n <= s.pending.len(),
    ensures
        served(s, n).1 == s.pending.take(n as int),
        served(s, n).0.pending == s.pending.skip(n as int),
        idle_and_running(served(s, n).0),
    decreases n,
{
    if n > 0 {
        let (taken, action) = step(s, LoopEvent::Ready);
        let (finished, _) = step(taken, LoopEvent::RenderDone);
        assert(finished.pending == s.pending.drop_first());
        jobs_are_rendered_in_arrival_order(finished, (n - 1) as nat);
        assert(seq![s.pending[0]] + s.pending.drop_first().take(n - 1) =~= s.pending.take(n as int));
        assert(s.pending.drop_first().skip(n - 1) =~= s.pending.skip(n as int));
    }
}

/// Jobs that arrive at an idle running server are rendered in the order they arrived,
/// after those already waiting.
pub proof fn arrivals_are_rendered_first_in_first_out(s: ServerState, jobs: Seq<RenderJob>)
    requires
        idle_and_running(s),
    ensures
        served(pushed_all(s, jobs), s.pending.len() + jobs.len()).1 == s.pending + jobs,
{
    arrivals_queue_at_the_back(s, jobs);
    let q = pushed_all(s, jobs);
    jobs_are_rendered_in_arrival_order(q, s.pending.len() + jobs.len());
    assert(q.pending.take(q.pending.len() as int) =~= q.pending);
}

/// Without an interrupt, the job waiting at position `i` is rendered in the render cycle
/// `i + 1`.
pub proof fn waiting_job_is_eventually_rendered(s: ServerState, i: nat)
    requires
        idle_and_running(s),
        i < s.pending.len(),
    ensures
        served(s, i + 1).1.len() == i + 1,
        served(s, i + 1).1[i as int] == s.pending[i as int],
{
    jobs_are_rendered_in_arrival_order(s, i + 1);
}

/// An interrupt during a render stops the loop and abandons that render: it is never
/// answered, and no job is rendered or answered afterwards, whatever happens next.
pub proof fn interrupt_abandons_the_render_under_way(s: ServerState, later: LoopEvent)
    requires
        s.rendering,
    ensures
        step(s, LoopEvent::Interrupt).1 is Stop,
        step(s, LoopEvent::Interrupt).0.stopped,
        !step(s, LoopEvent::Interrupt).0.rendering,
        step(step(s, LoopEvent::Interrupt).0, later).1 is Stop,
{
}

/// Once a shutdown was requested, every turn stops the loop, leaves the waiting jobs as
/// they are, and arrivals do not undo it.
pub proof fn shutdown_is_final(s: ServerState, event: LoopEvent, job: RenderJob)
    requires
        s.stopped,
    ensures
        step(s, event).1 is Stop,
        step(s, event).0.stopped,
        step(s, event).0.pending == s.pending,
        pushed(s, job).stopped,
{
}

} // verus!

verus! {

/// Ctrl-C stops the loop from any state, with or without jobs waiting or a render under
/// way, and leaves the waiting jobs as they are.
pub proof fn interrupt_always_stops(s: ServerState)
    ensures
        step(s, LoopEvent::Interrupt).1 is Stop,
        step(s, LoopEvent::Interrupt).0.stopped,
        !step(s, LoopEvent::Interrupt).0.rendering,
        step(s, LoopEvent::Interrupt).0.pending == s.pending,
{
}

} // verus!

verus! {

/// While a job renders no other job is handed out; its completion is answered, after
/// which the next waiting job can be taken. Arrivals never hand out or stop anything.
pub proof fn one_render_at_a_time(s: ServerState, job: RenderJob)
    ensures
        !s.stopped && s.rendering ==> step(s, LoopEvent::Ready).1 is Idle && step(s, LoopEvent::Ready).0 == s,
        !s.stopped && s.rendering ==> {
            &&& step(s, LoopEvent::RenderDone).1 is Reply
            &&& !step(s, LoopEvent::RenderDone).0.rendering
            &&& !step(s, LoopEvent::RenderDone).0.stopped
            &&& step(s, LoopEvent::RenderDone).0.pending == s.pending
        },
        !s.stopped && !s.rendering ==> step(s, LoopEvent::RenderDone).1 is Idle,
        !s.stopped && !s.rendering && s.pending.len() == 0 ==> step(s, LoopEvent::Ready).1 is Idle,
        pushed(s, job).pending.len() == s.pending.len() + 1,
        pushed(s, job).pending.last() == job,
        pushed(s, job).rendering == s.rendering,
        pushed(s, job).stopped == s.stopped,
{
}

} // verus!
