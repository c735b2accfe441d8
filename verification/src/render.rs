//! The order of calls in one render pass over a native window.
//!
//! A pass connects the window's buffer queue to EGL, dequeues a buffer with
//! its fence, passes the buffer through its hardware buffer and back, and
//! queues it again with the same fence. The calls are made by a driver
//! outside this library; `render_step` decides, from each outcome, what the
//! driver does next.
//!
//! The protocol does not look into buffers, fences or errors: it only hands
//! them on. They are therefore type parameters: `B` for a buffer, `F` for a
//! fence and `E` for the error of a failed call.

use vstd::prelude::*;

verus! {

/// How a render pass ended.
#[derive(Debug, PartialEq, Eq)]
pub enum RenderEnd<E> {
    /// The buffer was queued.
    Presented,
    /// The window could not be connected to EGL; the pass was skipped.
    Skipped(E),
    /// Dequeuing or queuing failed.
    Failed(E),
    /// The driver reported something other than the outcome of the call it
    /// was asked to make.
    OutOfTurn,
}

/// What the driver is asked to do.
#[derive(Debug, PartialEq, Eq)]
pub enum RenderAction<B, F, E> {
    /// Preallocate buffers and connect the buffer queue to EGL.
    Connect,
    /// Dequeue a buffer and its fence.
    Dequeue,
    /// Turn the buffer into a hardware buffer and back.
    Exchange(B),
    /// Queue the buffer with the fence.
    Queue(B, F),
    /// Make no further call.
    Stop(RenderEnd<E>),
}

/// What the driver reports back.
#[derive(Debug, PartialEq, Eq)]
pub enum RenderEvent<B, F, E> {
    /// Outcome of `RenderAction::Connect`.
    Connected(Result<(), E>),
    /// Outcome of `RenderAction::Dequeue`.
    Dequeued(Result<(B, F), E>),
    /// Outcome of `RenderAction::Exchange`.
    Exchanged(B),
    /// Outcome of `RenderAction::Queue`.
    Queued(Result<(), E>),
}

/// Where a render pass stands: which outcome it waits for.
#[derive(Debug, PartialEq, Eq)]
pub enum RenderState<F> {
    /// Waiting for `RenderEvent::Connected`.
    Connecting,
    /// Waiting for `RenderEvent::Dequeued`.
    Dequeuing,
    /// Waiting for `RenderEvent::Exchanged`, holding the dequeued fence.
    Exchanging(F),
    /// Waiting for `RenderEvent::Queued`.
    Queuing,
    /// The pass is over.
    Finished,
}

impl<F> RenderState<F> {
    /// An upper bound on the calls still to be made from this state.
    pub open spec fn calls_left(self) -> nat {
        match self {
            RenderState::Connecting => 4,
            RenderState::Dequeuing => 3,
            RenderState::Exchanging(_) => 2,
            RenderState::Queuing => 1,
            RenderState::Finished => 0,
        }
    }
}

/// The transition of a render pass: the state after `event` arrived in
/// `state`, and what the driver does next.
pub open spec fn render_next<B, F, E>(state: RenderState<F>, event: RenderEvent<B, F, E>) -> (
    RenderState<F>,
    RenderAction<B, F, E>,
) {
    match (state, event) {
        (RenderState::Connecting, RenderEvent::Connected(Ok(_))) => (
            RenderState::Dequeuing,
            RenderAction::Dequeue,
        ),
        (RenderState::Connecting, RenderEvent::Connected(Err(e))) => (
            RenderState::Finished,
            RenderAction::Stop(RenderEnd::Skipped(e)),
        ),
        (RenderState::Dequeuing, RenderEvent::Dequeued(Ok((buffer, fence)))) => (
            RenderState::Exchanging(fence),
            RenderAction::Exchange(buffer),
        ),
        (RenderState::Dequeuing, RenderEvent::Dequeued(Err(e))) => (
            RenderState::Finished,
            RenderAction::Stop(RenderEnd::Failed(e)),
        ),
        (RenderState::Exchanging(fence), RenderEvent::Exchanged(buffer)) => (
            RenderState::Queuing,
            RenderAction::Queue(buffer, fence),
        ),
        (RenderState::Queuing, RenderEvent::Queued(Ok(_))) => (
            RenderState::Finished,
            RenderAction::Stop(RenderEnd::Presented),
        ),
        (RenderState::Queuing, RenderEvent::Queued(Err(e))) => (
            RenderState::Finished,
            RenderAction::Stop(RenderEnd::Failed(e)),
        ),
        _ => (RenderState::Finished, RenderAction::Stop(RenderEnd::OutOfTurn)),
    }
}

/// Begins a render pass: the state it starts in and the first call to make.
pub fn render_start<B, F, E>() -> (start: (RenderState<F>, RenderAction<B, F, E>))
    ensures
        start == (RenderState::<F>::Connecting, RenderAction::<B, F, E>::Connect),
{
    (RenderState::Connecting, RenderAction::Connect)
}

/// Takes the outcome of the last call and decides the next one.
pub fn render_step<B, F, E>(state: RenderState<F>, event: RenderEvent<B, F, E>) -> (next: (
    RenderState<F>,
    RenderAction<B, F, E>,
))
    ensures
        next == render_next(state, event),
{
    match state {
        RenderState::Connecting => match event {
            RenderEvent::Connected(Ok(_)) => (RenderState::Dequeuing, RenderAction::Dequeue),
            RenderEvent::Connected(Err(e)) => (
                RenderState::Finished,
                RenderAction::Stop(RenderEnd::Skipped(e)),
            ),
            _ => out_of_turn(),
        },
        RenderState::Dequeuing => match event {
            RenderEvent::Dequeued(Ok((buffer, fence))) => (
                RenderState::Exchanging(fence),
                RenderAction::Exchange(buffer),
            ),
            RenderEvent::Dequeued(Err(e)) => (
                RenderState::Finished,
                RenderAction::Stop(RenderEnd::Failed(e)),
            ),
            _ => out_of_turn(),
        },
        RenderState::Exchanging(fence) => match event {
            RenderEvent::Exchanged(buffer) => (
                RenderState::Queuing,
                RenderAction::Queue(buffer, fence),
            ),
            _ => out_of_turn(),
        },
        RenderState::Queuing => match event {
            RenderEvent::Queued(Ok(_)) => (
                RenderState::Finished,
                RenderAction::Stop(RenderEnd::Presented),
            ),
            RenderEvent::Queued(Err(e)) => (
                RenderState::Finished,
                RenderAction::Stop(RenderEnd::Failed(e)),
            ),
            _ => out_of_turn(),
        },
        RenderState::Finished => out_of_turn(),
    }
}

/// Ends a pass whose driver did not answer the call it was asked to make.
fn out_of_turn<B, F, E>() -> (next: (RenderState<F>, RenderAction<B, F, E>))
    ensures
        next == (
            RenderState::<F>::Finished,
            RenderAction::<B, F, E>::Stop(RenderEnd::OutOfTurn),
        ),
{
    (RenderState::Finished, RenderAction::Stop(RenderEnd::OutOfTurn))
}

/// The state of a pass that began with `render_start` and then took `events`
/// in order.
pub open spec fn state_after<B, F, E>(events: Seq<RenderEvent<B, F, E>>) -> RenderState<F>
    decreases events.len(),
{
    if events.len() == 0 {
        RenderState::Connecting
    } else {
        render_next(state_after(events.drop_last()), events.last()).0
    }
}

/// The call that such a pass asks for after the last of `events`.
pub open spec fn action_after<B, F, E>(events: Seq<RenderEvent<B, F, E>>) -> RenderAction<
    B,
    F,
    E,
> {
    if events.len() == 0 {
        RenderAction::Connect
    } else {
        render_next(state_after(events.drop_last()), events.last()).1
    }
}

/// Whether `event` reports the outcome of the call that `action` asked for.
pub open spec fn answers<B, F, E>(
    event: RenderEvent<B, F, E>,
    action: RenderAction<B, F, E>,
) -> bool {
    match (action, event) {
        (RenderAction::Connect, RenderEvent::Connected(_)) => true,
        (RenderAction::Dequeue, RenderEvent::Dequeued(_)) => true,
        (RenderAction::Exchange(_), RenderEvent::Exchanged(_)) => true,
        (RenderAction::Queue(_, _), RenderEvent::Queued(_)) => true,
        _ => false,
    }
}

/// The state of a pass tells its history: a pass that is not over has taken
/// exactly the successful outcomes that lead to its state, and the fence it
/// holds is the one that was dequeued.
pub proof fn lemma_state_tells_history<B, F, E>(events: Seq<RenderEvent<B, F, E>>)
    ensures
        match state_after(events) {
            RenderState::Connecting => events.len() == 0,
            RenderState::Dequeuing => {
                &&& events.len() == 1
                &&& events[0] is Connected
                &&& events[0]->Connected_0 is Ok
            },
            RenderState::Exchanging(fence) => {
                &&& events.len() == 2
                &&& events[0] is Connected
                &&& events[0]->Connected_0 is Ok
                &&& events[1] matches RenderEvent::Dequeued(Ok((_, dequeued)))
                &&& dequeued == fence
            },
            RenderState::Queuing => {
                &&& events.len() == 3
                &&& events[0] is Connected
                &&& events[0]->Connected_0 is Ok
                &&& events[1] is Dequeued
                &&& events[1]->Dequeued_0 is Ok
                &&& events[2] is Exchanged
            },
            RenderState::Finished => events.len() >= 1,
        },
    decreases events.len(),
{
    if events.len() > 0 {
        let before = events.drop_last();
        lemma_state_tells_history(before);
        assert(forall|i: int| 0 <= i < before.len() ==> before[i] == events[i]);
    }
}

/// A pass is over after four outcomes at the latest, whatever they are.
pub proof fn lemma_pass_ends<B, F, E>(events: Seq<RenderEvent<B, F, E>>)
    requires
        events.len() >= 4,
    ensures
        state_after(events) is Finished,
        action_after(events) is Stop,
{
    lemma_state_tells_history(events);
}

/// The driver is asked to stop exactly when the pass is over, and otherwise
/// for the call whose outcome the state waits for.
pub proof fn lemma_action_fits_state<B, F, E>(events: Seq<RenderEvent<B, F, E>>)
    ensures
        match action_after(events) {
            RenderAction::Connect => state_after(events) is Connecting,
            RenderAction::Dequeue => state_after(events) is Dequeuing,
            RenderAction::Exchange(_) => state_after(events) is Exchanging,
            RenderAction::Queue(_, _) => state_after(events) is Queuing,
            RenderAction::Stop(_) => state_after(events) is Finished,
        },
{
}

/// A buffer is queued only as the third call of a pass, after the window was
/// connected, and with the fence that was dequeued and the buffer that came
/// back from the exchange.
pub proof fn lemma_queue_carries_dequeued_fence<B, F, E>(
    events: Seq<RenderEvent<B, F, E>>,
    buffer: B,
    fence: F,
)
    requires
        action_after(events) == RenderAction::<B, F, E>::Queue(buffer, fence),
    ensures
        events.len() == 3,
        events[0] is Connected && events[0]->Connected_0 is Ok,
        events[1] matches RenderEvent::Dequeued(Ok((_, dequeued))) && dequeued == fence,
        events[2] == RenderEvent::<B, F, E>::Exchanged(buffer),
{
    let before = events.drop_last();
    lemma_state_tells_history(before);
    assert(forall|i: int| 0 <= i < before.len() ==> before[i] == events[i]);
}

/// A pass reports `Presented` only when its queue call succeeded, and a
/// skipped pass made no call but the first.
pub proof fn lemma_end_tells_outcome<B, F, E>(events: Seq<RenderEvent<B, F, E>>)
    ensures
        action_after(events) == RenderAction::<B, F, E>::Stop(RenderEnd::Presented) ==> {
            &&& events.len() == 4
            &&& events[3] is Queued
            &&& events[3]->Queued_0 is Ok
        },
        action_after(events) matches RenderAction::Stop(RenderEnd::Skipped(e)) ==> {
            &&& events.len() == 1
            &&& events[0] == RenderEvent::<B, F, E>::Connected(Err(e))
        },
{
    if events.len() > 0 {
        lemma_state_tells_history(events.drop_last());
    }
}

/// As long as each event answers the call just asked for, the pass never ends
/// out of turn, and each such event brings it nearer to its end.
pub proof fn lemma_in_turn<B, F, E>(events: Seq<RenderEvent<B, F, E>>, event: RenderEvent<B, F, E>)
    requires
        answers(event, action_after(events)),
    ensures
        action_after(events.push(event)) != RenderAction::<B, F, E>::Stop(RenderEnd::OutOfTurn),
        state_after(events.push(event)).calls_left() < state_after(events).calls_left(),
{
    lemma_action_fits_state(events);
    assert(events.push(event).drop_last() == events);
}

} // verus!
