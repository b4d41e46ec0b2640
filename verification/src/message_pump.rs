//! The drain pass of a message-queue platform.
//!
//! Whenever the loop offers an idle opportunity, the adapter empties the
//! native queue with a retrieval that never blocks, hands every message to
//! its normal routing, stops at the platform's quit message, and only then
//! lets the runtime advance, once. The decisions of that pass live here; the
//! retrieval and the routing themselves are the caller's.

use vstd::prelude::*;

verus! {

/// The message number by which the platform announces that the application ends.
pub const QUIT_MESSAGE: u32 = 0x0012;

/// What the caller does with the outcome of one retrieval.
#[derive(Clone, Copy, Debug, PartialEq, Eq, Structural)]
pub enum PumpAction {
    /// Hand the retrieved message to its normal routing, and retrieve again.
    Dispatch,
    /// Tell the loop object to terminate and stop retrieving.
    SignalQuit,
    /// Stop retrieving: nothing is left to do in this pass.
    Finish,
}

/// How far a drain pass has come.
#[derive(Clone, Copy, Debug, PartialEq, Eq, Structural)]
pub enum PassPhase {
    /// Messages are still being retrieved.
    Draining,
    /// The queue was found empty.
    Drained,
    /// The quit message was retrieved.
    QuitSeen,
}

/// One observable step of an idle opportunity.
#[derive(Clone, Copy, Debug, PartialEq, Eq, Structural)]
pub enum IdleStep {
    /// The message was handed to its normal routing.
    Dispatched(u32),
    /// The loop object was told to terminate.
    QuitSignalled,
    /// The runtime advanced every task that was ready.
    Polled,
}

/// The transition of a drain pass: the phase it is in and the outcome of a
/// retrieval (`None` when the queue is empty) give the next phase and what
/// the caller is to do.
pub open spec fn pass_step(phase: PassPhase, retrieved: Option<u32>) -> (PassPhase, PumpAction) {
    match phase {
        PassPhase::Draining => match retrieved {
            None => (PassPhase::Drained, PumpAction::Finish),
            Some(m) => if m == QUIT_MESSAGE {
                (PassPhase::QuitSeen, PumpAction::SignalQuit)
            } else {
                (PassPhase::Draining, PumpAction::Dispatch)
            },
        },
        _ => (phase, PumpAction::Finish),
    }
}

/// The position of the first quit message in `queue`, or its length if it holds none.
pub open spec fn first_quit(queue: Seq<u32>) -> int
    decreases queue.len(),
{
    if queue.len() == 0 || queue[0] == QUIT_MESSAGE {
        0
    } else {
        1 + first_quit(queue.skip(1))
    }
}

/// Whether a pass over `queue` meets the quit message.
pub open spec fn quit_reached(queue: Seq<u32>) -> bool {
    first_quit(queue) < queue.len()
}

/// How many messages a pass over `queue` takes out of it: those before the
/// first quit message, and that message itself.
pub open spec fn consumed(queue: Seq<u32>) -> int {
    if quit_reached(queue) {
        first_quit(queue) + 1
    } else {
        first_quit(queue)
    }
}

/// What one idle opportunity does when `queue` is what the platform holds:
/// every message before the first quit message is dispatched in order, the
/// quit message (if there is one) is signalled, and the runtime is polled
/// once, last.
pub open spec fn idle_steps(queue: Seq<u32>) -> Seq<IdleStep> {
    let routed = Seq::new(first_quit(queue) as nat, |i: int| IdleStep::Dispatched(queue[i]));
    if quit_reached(queue) {
        routed.push(IdleStep::QuitSignalled).push(IdleStep::Polled)
    } else {
        routed.push(IdleStep::Polled)
    }
}

/// `first_quit` is a position in the queue, no message before it is the quit
/// message, and the message at it is, where it is a message at all.
pub proof fn lemma_first_quit_bounds(queue: Seq<u32>)
    ensures
        0 <= first_quit(queue) <= queue.len(),
        forall|i: int| 0 <= i < first_quit(queue) ==> queue[i] != QUIT_MESSAGE,
        quit_reached(queue) ==> queue[first_quit(queue)] == QUIT_MESSAGE,
    decreases queue.len(),
{
    if queue.len() == 0 || queue[0] == QUIT_MESSAGE {
    } else {
        let rest = queue.skip(1);
        lemma_first_quit_bounds(rest);
        assert forall|i: int| 0 <= i < first_quit(queue) implies queue[i] != QUIT_MESSAGE by {
            if i > 0 {
                assert(queue[i] == rest[i - 1]);
            }
        }
        if quit_reached(queue) {
            assert(queue[first_quit(queue)] == rest[first_quit(rest)]);
        }
    }
}

/// A position that no quit message precedes, and that is the queue's end or
/// holds a quit message, is `first_quit`.
pub proof fn lemma_first_quit_is(queue: Seq<u32>, at: int)
    requires
        0 <= at <= queue.len(),
        forall|i: int| 0 <= i < at ==> queue[i] != QUIT_MESSAGE,
        at < queue.len() ==> queue[at] == QUIT_MESSAGE,
    ensures
        first_quit(queue) == at,
{
    lemma_first_quit_bounds(queue);
    let found = first_quit(queue);
    if found < at {
        assert(queue[found] != QUIT_MESSAGE);
    } else if at < found {
        assert(queue[at] != QUIT_MESSAGE);
    }
}

/// The state of one drain pass.
pub struct DrainPass {
    phase: PassPhase,
}

impl DrainPass {
    /// The phase the pass is in.
    pub closed spec fn phase(&self) -> PassPhase {
        self.phase
    }

    /// A pass that has retrieved nothing yet.
    pub fn new() -> (pass: DrainPass)
        ensures
            pass.phase() == PassPhase::Draining,
    {
        DrainPass { phase: PassPhase::Draining }
    }

    /// Whether the pass has ended, by an empty queue or by the quit message.
    pub fn is_over(&self) -> (over: bool)
        ensures
            over == (self.phase() != PassPhase::Draining),
    {
        match self.phase {
            PassPhase::Draining => false,
            _ => true,
        }
    }

    /// Whether the pass ended on the quit message.
    pub fn quit_seen(&self) -> (seen: bool)
        ensures
            seen == (self.phase() == PassPhase::QuitSeen),
    {
        match self.phase {
            PassPhase::QuitSeen => true,
            _ => false,
        }
    }

    /// Takes the outcome of one non-blocking retrieval, `None` when the queue
    /// was empty, and says what to do with it. Once the pass is over it stays
    /// over: every later outcome is answered with `Finish`.
    pub fn on_retrieved(&mut self, retrieved: Option<u32>) -> (action: PumpAction)
        ensures
            (final(self).phase(), action) == pass_step(old(self).phase(), retrieved),
    {
        match self.phase {
            PassPhase::Draining => match retrieved {
                None => {
                    self.phase = PassPhase::Drained;
                    PumpAction::Finish
                },
                Some(m) => {
                    if m == QUIT_MESSAGE {
                        self.phase = PassPhase::QuitSeen;
                        PumpAction::SignalQuit
                    } else {
                        PumpAction::Dispatch
                    }
                },
            },
            _ => PumpAction::Finish,
        }
    }
}

/// What an idle opportunity did on a given queue.
pub struct IdleReport {
    /// The steps taken, in order.
    pub steps: Vec<IdleStep>,
    /// How many messages were taken out of the queue.
    pub consumed: usize,
    /// Whether the loop object was told to terminate.
    pub quit: bool,
}

/// Runs one idle opportunity against `queue`, the messages the platform holds
/// in the order it would hand them out, and reports what was done. Messages
/// behind the first quit message stay in the queue.
pub fn idle_pass(queue: &Vec<u32>) -> (report: IdleReport)
    ensures
        report.steps@ == idle_steps(queue@),
        report.consumed == consumed(queue@),
        report.quit == quit_reached(queue@),
{
    let mut pass = DrainPass::new();
    let mut steps: Vec<IdleStep> = Vec::new();
    let mut taken: usize = 0;
    while !pass.is_over()
        invariant
            taken <= queue.len(),
            forall|i: int| 0 <= i < taken ==> queue@[i] != QUIT_MESSAGE,
            match pass.phase() {
                PassPhase::Draining => steps@ == Seq::new(
                    taken as nat,
                    |i: int| IdleStep::Dispatched(queue@[i]),
                ),
                PassPhase::Drained => taken == queue.len() && steps@ == Seq::new(
                    taken as nat,
                    |i: int| IdleStep::Dispatched(queue@[i]),
                ),
                PassPhase::QuitSeen => taken < queue.len() && queue@[taken as int] == QUIT_MESSAGE
                    && steps@ == Seq::new(
                    taken as nat,
                    |i: int| IdleStep::Dispatched(queue@[i]),
                ).push(IdleStep::QuitSignalled),
            },
        decreases queue.len() - taken + (if pass.phase() == PassPhase::Draining { 1int } else { 0int }),
    {
        let retrieved = if taken < queue.len() {
            Some(queue[taken])
        } else {
            None
        };
        match pass.on_retrieved(retrieved) {
            PumpAction::Dispatch => {
                steps.push(IdleStep::Dispatched(queue[taken]));
                taken = taken + 1;
            },
            PumpAction::SignalQuit => {
                steps.push(IdleStep::QuitSignalled);
            },
            PumpAction::Finish => {},
        }
    }
    let quit = pass.quit_seen();
    proof {
        lemma_first_quit_is(queue@, taken as int);
    }
    steps.push(IdleStep::Polled);
    let used = if quit {
        taken + 1
    } else {
        taken
    };
    IdleReport { steps, consumed: used, quit }
}

/// Drain before poll: when `messages` holds no quit message, an idle
/// opportunity on `messages`, then a quit message, then anything at all,
/// dispatches every one of `messages` in order, signals the quit next, and
/// polls the runtime exactly once, as its last step; what stands behind the
/// quit message is left in the queue.
pub proof fn lemma_drain_before_poll(messages: Seq<u32>, behind: Seq<u32>)
    requires
        forall|i: int| 0 <= i < messages.len() ==> messages[i] != QUIT_MESSAGE,
    ensures
        ({
            let queue = messages.push(QUIT_MESSAGE) + behind;
            let steps = idle_steps(queue);
            &&& steps.len() == messages.len() + 2
            &&& forall|i: int| 0 <= i < messages.len() ==> steps[i] == IdleStep::Dispatched(messages[i])
            &&& steps[messages.len() as int] == IdleStep::QuitSignalled
            &&& steps[messages.len() as int + 1] == IdleStep::Polled
            &&& forall|i: int| 0 <= i < steps.len() && steps[i] == IdleStep::Polled ==> i == steps.len() - 1
            &&& consumed(queue) == messages.len() + 1
        }),
{
    let queue = messages.push(QUIT_MESSAGE) + behind;
    lemma_first_quit_is(queue, messages.len() as int);
}

/// Whatever the queue holds, an idle opportunity polls the runtime once, and
/// nothing follows the poll; every step before it routes a message or signals
/// the quit.
pub proof fn lemma_one_poll_per_pass(queue: Seq<u32>)
    ensures
        idle_steps(queue).len() >= 1,
        idle_steps(queue).last() == IdleStep::Polled,
        forall|i: int| 0 <= i < idle_steps(queue).len() - 1 ==> idle_steps(queue)[i] != IdleStep::Polled,
{
    lemma_first_quit_bounds(queue);
}

/// With nothing queued an idle opportunity routes nothing, signals nothing
/// and only polls.
pub proof fn lemma_empty_queue_only_polls()
    ensures
        idle_steps(Seq::<u32>::empty()) == seq![IdleStep::Polled],
        consumed(Seq::<u32>::empty()) == 0,
{
    assert(idle_steps(Seq::<u32>::empty()) =~= seq![IdleStep::Polled]);
}

} // verus!
