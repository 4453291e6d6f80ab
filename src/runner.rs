//! The control-flow state machine of the event loop.
//!
//! The runner decides which events reach the application callback and in
//! which order. It never calls the callback itself: the driver of the loop
//! takes the next event with [`EventLoopRunner::next_event`], calls the
//! callback outside of any borrow of the runner, and reports back with
//! [`EventLoopRunner::event_handled`]. Messages that arrive while the
//! callback runs (a modal loop inside it, a window created from it) are
//! queued behind the events already scheduled, so the callback is never
//! entered twice.

use std::collections::VecDeque;
use vstd::prelude::*;

use crate::event::{ControlFlow, Event, StartCause, WindowId};

verus! {

/// Where the runner stands in the cycle of events.
#[derive(Clone, Copy, Debug, PartialEq, Eq, Structural)]
pub enum RunnerState {
    /// No cycle has started: events are kept until the loop starts.
    Uninitialized,
    /// Between cycles.
    Idle,
    /// `NewEvents` was sent, `MainEventsCleared` not yet.
    HandlingMainEvents,
    /// `MainEventsCleared` was sent, `RedrawEventsCleared` not yet.
    HandlingRedrawEvents,
    /// `LoopDestroyed` was sent: nothing more is sent.
    Destroyed,
}

/// What the loop does to be woken for the next cycle.
#[derive(Clone, Copy, Debug, PartialEq, Eq, Structural)]
pub enum WakeAction {
    /// Post a process-new-events message to the loop's own message target.
    ProcessNewEventsNow,
    /// Ask the wait thread to wake the loop at the given instant.
    WakeAt(u64),
    /// Nothing: the next native message resumes the loop.
    Nothing,
}

/// What a paint message asks of the loop.
#[derive(Clone, Copy, Debug, PartialEq, Eq, Structural)]
pub enum PaintAction {
    /// Nothing: no cycle is under way.
    Nothing,
    /// The callback cannot take events now: ask for the paint again later.
    Defer,
    /// Flush the redraw requests now.
    Flush,
}

/// The abstract state of a runner.
pub struct RunnerView<T, P> {
    pub state: RunnerState,
    pub control_flow: ControlFlow,
    /// Events scheduled for the callback, oldest first.
    pub pending: Seq<Event<T>>,
    /// Events handed to the callback since the runner was last reset.
    pub delivered: Seq<Event<T>>,
    /// Registered windows, in the order of registration.
    pub windows: Seq<WindowId>,
    pub handler_attached: bool,
    pub in_handler: bool,
    /// The first failure of the callback, until it is taken.
    pub failure: Option<P>,
    pub last_events_cleared: u64,
    pub thread_msg_target: WindowId,
    pub wait_thread_id: u32,
}

/// The cause of a `NewEvents` sent at `now`, after a cycle that ended at `start`.
pub open spec fn start_cause(control_flow: ControlFlow, now: u64, start: u64) -> StartCause {
    match control_flow {
        ControlFlow::Poll => StartCause::Poll,
        ControlFlow::WaitUntil(t) => if now < t {
            StartCause::WaitCancelled { start, requested_resume: Some(t) }
        } else {
            StartCause::ResumeTimeReached { start, requested_resume: t }
        },
        _ => StartCause::WaitCancelled { start, requested_resume: None },
    }
}

/// The control events that bring the runner from `from` to `to`, in order.
pub open spec fn transition_events<T>(
    from: RunnerState,
    to: RunnerState,
    control_flow: ControlFlow,
    now: u64,
    last: u64,
) -> Seq<Event<T>> {
    let init = Event::<T>::NewEvents(StartCause::Init);
    let new_events = Event::<T>::NewEvents(start_cause(control_flow, now, last));
    let main_cleared = Event::<T>::MainEventsCleared;
    let redraw_cleared = Event::<T>::RedrawEventsCleared;
    let destroyed = Event::<T>::LoopDestroyed;
    match (from, to) {
        (RunnerState::Uninitialized, RunnerState::HandlingMainEvents) => seq![init],
        (RunnerState::Uninitialized, RunnerState::HandlingRedrawEvents) => seq![init, main_cleared],
        (RunnerState::Uninitialized, RunnerState::Idle) => seq![init, main_cleared, redraw_cleared],
        (RunnerState::Uninitialized, RunnerState::Destroyed) => seq![
            init,
            main_cleared,
            redraw_cleared,
            destroyed,
        ],
        (RunnerState::Idle, RunnerState::HandlingMainEvents) => seq![new_events],
        (RunnerState::Idle, RunnerState::HandlingRedrawEvents) => seq![new_events, main_cleared],
        (RunnerState::Idle, RunnerState::Destroyed) => seq![destroyed],
        (RunnerState::HandlingMainEvents, RunnerState::HandlingRedrawEvents) => seq![main_cleared],
        (RunnerState::HandlingMainEvents, RunnerState::Idle) => seq![main_cleared, redraw_cleared],
        (RunnerState::HandlingMainEvents, RunnerState::Destroyed) => seq![
            main_cleared,
            redraw_cleared,
            destroyed,
        ],
        (RunnerState::HandlingRedrawEvents, RunnerState::Idle) => seq![redraw_cleared],
        (RunnerState::HandlingRedrawEvents, RunnerState::HandlingMainEvents) => seq![
            redraw_cleared,
            Event::<T>::NewEvents(start_cause(control_flow, now, now)),
        ],
        (RunnerState::HandlingRedrawEvents, RunnerState::Destroyed) => seq![redraw_cleared, destroyed],
        _ => seq![],
    }
}

/// Whether the move from `from` to `to` ends a cycle with `RedrawEventsCleared`.
pub open spec fn ends_cycle(from: RunnerState, to: RunnerState) -> bool {
    from != to && from != RunnerState::Destroyed && (
        (to == RunnerState::Idle || to == RunnerState::Destroyed) && from != RunnerState::Idle
        || from == RunnerState::HandlingRedrawEvents && to == RunnerState::HandlingMainEvents
    )
}

/// The queue after the move from `from`, whose control events are `added`.
/// Events kept before the loop started follow its first `NewEvents`.
pub open spec fn queue_after<T>(from: RunnerState, pending: Seq<Event<T>>, added: Seq<Event<T>>) -> Seq<Event<T>> {
    if from == RunnerState::Uninitialized && added.len() > 0 {
        seq![added[0]] + pending + added.skip(1)
    } else {
        pending + added
    }
}

/// The runner after it moves to `to` at `now`. A destroyed runner, and one
/// whose callback failed, stays as it is.
pub open spec fn moved<T, P>(v: RunnerView<T, P>, to: RunnerState, now: u64) -> RunnerView<T, P> {
    if v.state == RunnerState::Destroyed || v.failure is Some || v.state == to {
        v
    } else {
        RunnerView {
            state: to,
            pending: queue_after(
                v.state,
                v.pending,
                transition_events(v.state, to, v.control_flow, now, v.last_events_cleared),
            ),
            last_events_cleared: if ends_cycle(v.state, to) { now } else { v.last_events_cleared },
            ..v
        }
    }
}

/// Whether `e` is one of the events that the runner itself schedules to
/// mark the cycle: such an event from the native side is ignored.
pub open spec fn is_cycle_marker<T>(e: Event<T>) -> bool {
    e is NewEvents || e is MainEventsCleared || e is RedrawEventsCleared || e is LoopDestroyed
}

/// The runner after an event from the native side arrives at `now`.
///
/// A redraw request is sent within the redraw part of a cycle; any other
/// event within the main part, or is kept until the loop starts.
pub open spec fn sent<T, P>(v: RunnerView<T, P>, event: Event<T>, now: u64) -> RunnerView<T, P> {
    if v.state == RunnerState::Destroyed || v.failure is Some || is_cycle_marker(event) {
        v
    } else if event is RedrawRequested {
        let w = moved(v, RunnerState::HandlingRedrawEvents, now);
        RunnerView { pending: w.pending.push(event), ..w }
    } else if v.state == RunnerState::Uninitialized {
        RunnerView { pending: v.pending.push(event), ..v }
    } else {
        let w = moved(v, RunnerState::HandlingMainEvents, now);
        RunnerView { pending: w.pending.push(event), ..w }
    }
}

/// Whether the next scheduled event may go to the callback now: the loop
/// started, the callback is attached and idle, and it has not failed.
pub open spec fn can_deliver<T, P>(v: RunnerView<T, P>) -> bool {
    v.handler_attached && !v.in_handler && v.failure is None && v.pending.len() > 0 && v.state
        != RunnerState::Uninitialized
}

/// Where a stream of events stands in the cycle.
#[derive(Clone, Copy, Debug, PartialEq, Eq, Structural)]
pub enum CyclePhase {
    /// Before the first `NewEvents`.
    Start,
    /// After `NewEvents`, before `MainEventsCleared`.
    Main,
    /// After `MainEventsCleared`, before `RedrawEventsCleared`.
    Redraw,
    /// After `RedrawEventsCleared`.
    Idle,
    /// After `LoopDestroyed`.
    Ended,
    /// The stream broke the order of the cycle.
    Invalid,
}

/// The order of the cycle, one event at a time: the first `NewEvents` is
/// `Init` and opens the first cycle, any later one follows
/// `RedrawEventsCleared`; window, device and user events come between
/// `NewEvents` and `MainEventsCleared`; redraw requests come between
/// `MainEventsCleared` and `RedrawEventsCleared`; `LoopDestroyed` closes
/// the stream after a finished cycle, and nothing follows it.
pub open spec fn next_phase<T>(p: CyclePhase, e: Event<T>) -> CyclePhase {
    match e {
        Event::NewEvents(cause) => if (p == CyclePhase::Start && cause == StartCause::Init) || (p
            == CyclePhase::Idle && cause != StartCause::Init) {
            CyclePhase::Main
        } else {
            CyclePhase::Invalid
        },
        Event::MainEventsCleared => if p == CyclePhase::Main {
            CyclePhase::Redraw
        } else {
            CyclePhase::Invalid
        },
        Event::RedrawEventsCleared => if p == CyclePhase::Redraw {
            CyclePhase::Idle
        } else {
            CyclePhase::Invalid
        },
        Event::LoopDestroyed => if p == CyclePhase::Idle {
            CyclePhase::Ended
        } else {
            CyclePhase::Invalid
        },
        Event::RedrawRequested(_) => if p == CyclePhase::Redraw {
            CyclePhase::Redraw
        } else {
            CyclePhase::Invalid
        },
        _ => if p == CyclePhase::Main || p == CyclePhase::Start {
            p
        } else {
            CyclePhase::Invalid
        },
    }
}

/// Where the stream `s` stands, read from its start.
pub open spec fn stream_phase<T>(s: Seq<Event<T>>) -> CyclePhase
    decreases s.len(),
{
    if s.len() == 0 {
        CyclePhase::Start
    } else {
        next_phase(stream_phase(s.drop_last()), s.last())
    }
}

/// The phase that a runner in `state` has brought its stream to.
pub open spec fn state_phase(state: RunnerState) -> CyclePhase {
    match state {
        RunnerState::Uninitialized => CyclePhase::Start,
        RunnerState::Idle => CyclePhase::Idle,
        RunnerState::HandlingMainEvents => CyclePhase::Main,
        RunnerState::HandlingRedrawEvents => CyclePhase::Redraw,
        RunnerState::Destroyed => CyclePhase::Ended,
    }
}

/// The runner after the callback returned from an event: with the control
/// flow it left, or with the failure it raised. Once the control flow is
/// `Exit` it stays so; after a failure nothing more is scheduled, and the
/// first failure is kept.
pub open spec fn handled<T, P>(v: RunnerView<T, P>, control_flow: ControlFlow, failure: Option<P>) -> RunnerView<T, P> {
    match failure {
        Some(p) => RunnerView {
            in_handler: false,
            failure: if v.failure is Some { v.failure } else { Some(p) },
            pending: Seq::empty(),
            ..v
        },
        None => RunnerView {
            in_handler: false,
            control_flow: if v.control_flow == ControlFlow::Exit { ControlFlow::Exit } else { control_flow },
            ..v
        },
    }
}

/// The windows of `ws` but `w`; `ws` holds `w` at most once.
pub open spec fn without_window(ws: Seq<WindowId>, w: WindowId) -> Seq<WindowId> {
    if ws.contains(w) {
        ws.remove(ws.index_of(w))
    } else {
        ws
    }
}

/// The windows of `ws` with `w` added at the end, unless `ws` holds it.
pub open spec fn with_window(ws: Seq<WindowId>, w: WindowId) -> Seq<WindowId> {
    if ws.contains(w) {
        ws
    } else {
        ws.push(w)
    }
}

/// The wake-up that a control flow asks for once a cycle ends.
pub open spec fn wake_action(control_flow: ControlFlow) -> WakeAction {
    match control_flow {
        ControlFlow::Poll => WakeAction::ProcessNewEventsNow,
        ControlFlow::WaitUntil(t) => WakeAction::WakeAt(t),
        _ => WakeAction::Nothing,
    }
}

/// Whether `LoopDestroyed` occurs in `s`.
pub open spec fn holds_loop_destroyed<T>(s: Seq<Event<T>>) -> bool {
    exists|i: int| 0 <= i < s.len() && (#[trigger] s[i]) is LoopDestroyed
}

/// The control-flow state machine of one event loop.
pub struct EventLoopRunner<T, P> {
    thread_msg_target: WindowId,
    wait_thread_id: u32,
    control_flow: ControlFlow,
    runner_state: RunnerState,
    handler_attached: bool,
    in_handler: bool,
    last_events_cleared: u64,
    pending: VecDeque<Event<T>>,
    owned_windows: Vec<WindowId>,
    panic_error: Option<P>,
    delivered: Ghost<Seq<Event<T>>>,
}

impl<T, P> View for EventLoopRunner<T, P> {
    type V = RunnerView<T, P>;

    closed spec fn view(&self) -> RunnerView<T, P> {
        RunnerView {
            state: self.runner_state,
            control_flow: self.control_flow,
            pending: self.pending@,
            delivered: self.delivered@,
            windows: self.owned_windows@,
            handler_attached: self.handler_attached,
            in_handler: self.in_handler,
            failure: self.panic_error,
            last_events_cleared: self.last_events_cleared,
            thread_msg_target: self.thread_msg_target,
            wait_thread_id: self.wait_thread_id,
        }
    }
}

impl<T, P> EventLoopRunner<T, P> {
    /// The invariant of the runner: each window is registered once; nothing
    /// waits for the callback after a failure; `LoopDestroyed` is scheduled
    /// only last, by a destroyed runner; once it was delivered nothing is
    /// left. The events delivered and scheduled, in order, keep the order of
    /// the cycle (see [`next_phase`]), and, unless the callback failed or the
    /// loop ended, stand where the runner's state says; nothing is delivered
    /// before the loop starts.
    pub open spec fn wf(&self) -> bool {
        let v = self@;
        &&& stream_phase(v.delivered + v.pending) != CyclePhase::Invalid
        &&& v.failure is None && v.state != RunnerState::Destroyed ==> stream_phase(v.delivered + v.pending)
            == state_phase(v.state)
        &&& v.state == RunnerState::Uninitialized ==> v.delivered.len() == 0
        &&& v.windows.no_duplicates()
        &&& v.failure is Some ==> v.pending.len() == 0
        &&& forall|i: int|
            0 <= i < v.pending.len() && (#[trigger] v.pending[i]) is LoopDestroyed
                ==> i == v.pending.len() - 1 && v.state == RunnerState::Destroyed
        &&& holds_loop_destroyed(v.delivered) ==> v.state == RunnerState::Destroyed
            && v.pending.len() == 0
    }

    /// A runner whose loop has not started, with no window and no callback.
    pub fn new(thread_msg_target: WindowId, wait_thread_id: u32) -> (r: Self)
        ensures
            r.wf(),
            r@.state == RunnerState::Uninitialized,
            r@.control_flow == ControlFlow::Poll,
            r@.pending.len() == 0,
            r@.delivered.len() == 0,
            r@.windows.len() == 0,
            !r@.handler_attached,
            !r@.in_handler,
            r@.failure is None,
            r@.last_events_cleared == 0,
            r@.thread_msg_target == thread_msg_target,
            r@.wait_thread_id == wait_thread_id,
    {
        EventLoopRunner {
            thread_msg_target,
            wait_thread_id,
            control_flow: ControlFlow::Poll,
            runner_state: RunnerState::Uninitialized,
            handler_attached: false,
            in_handler: false,
            last_events_cleared: 0,
            pending: VecDeque::new(),
            owned_windows: Vec::new(),
            panic_error: None,
            delivered: Ghost(Seq::empty()),
        }
    }

    pub fn thread_msg_target(&self) -> (r: WindowId)
        ensures
            r == self@.thread_msg_target,
    {
        self.thread_msg_target
    }

    pub fn wait_thread_id(&self) -> (r: u32)
        ensures
            r == self@.wait_thread_id,
    {
        self.wait_thread_id
    }

    pub fn control_flow(&self) -> (r: ControlFlow)
        ensures
            r == self@.control_flow,
    {
        self.control_flow
    }

    pub fn runner_state(&self) -> (r: RunnerState)
        ensures
            r == self@.state,
    {
        self.runner_state
    }

    /// Whether a cycle is under way.
    pub fn handling_events(&self) -> (r: bool)
        ensures
            r == (self@.state != RunnerState::Idle),
    {
        self.runner_state != RunnerState::Idle
    }

    /// Whether the redraw part of a cycle is under way.
    pub fn redrawing(&self) -> (r: bool)
        ensures
            r == (self@.state == RunnerState::HandlingRedrawEvents),
    {
        self.runner_state == RunnerState::HandlingRedrawEvents
    }

    /// Whether the callback cannot take an event now: none is attached, or
    /// it is running.
    pub fn should_buffer(&self) -> (r: bool)
        ensures
            r == (!self@.handler_attached || self@.in_handler),
    {
        !self.handler_attached || self.in_handler
    }

    /// Whether the callback is attached.
    pub fn handler_attached(&self) -> (r: bool)
        ensures
            r == self@.handler_attached,
    {
        self.handler_attached
    }

    /// Attaches the callback: scheduled events may now go to it.
    pub fn set_event_handler(&mut self)
        requires
            old(self).wf(),
        ensures
            final(self).wf(),
            final(self)@ == (RunnerView { handler_attached: true, ..old(self)@ }),
    {
        self.handler_attached = true;
    }

    /// Brings the runner back to a loop that has not started, with no
    /// callback and nothing scheduled; the windows stay registered.
    pub fn reset_runner(&mut self)
        requires
            old(self).wf(),
        ensures
            final(self).wf(),
            final(self)@ == (RunnerView {
                state: RunnerState::Uninitialized,
                pending: Seq::empty(),
                delivered: Seq::empty(),
                handler_attached: false,
                in_handler: false,
                failure: None,
                ..old(self)@
            }),
    {
        self.runner_state = RunnerState::Uninitialized;
        self.pending.clear();
        self.delivered = Ghost(Seq::empty());
        self.handler_attached = false;
        self.in_handler = false;
        self.panic_error = None;
    }

    /// Schedules an event last.
    fn push_scheduled(&mut self, e: Event<T>)
        ensures
            final(self)@ == (RunnerView { pending: old(self)@.pending.push(e), ..old(self)@ }),
            stream_phase(final(self)@.delivered + final(self)@.pending) == next_phase(
                stream_phase(old(self)@.delivered + old(self)@.pending),
                e,
            ),
    {
        self.pending.push_back(e);
        proof {
            lemma_phase_push(self.delivered@, old(self)@.pending, e);
        }
    }

    /// Schedules the first `NewEvents` before the events kept until the loop
    /// started.
    fn push_init(&mut self)
        requires
            old(self)@.delivered.len() == 0,
            stream_phase(old(self)@.pending) == CyclePhase::Start,
        ensures
            final(self)@ == (RunnerView {
                pending: seq![Event::<T>::NewEvents(StartCause::Init)] + old(self)@.pending,
                ..old(self)@
            }),
            stream_phase(final(self)@.delivered + final(self)@.pending) == CyclePhase::Main,
    {
        self.pending.push_front(Event::NewEvents(StartCause::Init));
        proof {
            lemma_init_front(old(self)@.pending);
            assert(self.pending@ =~= seq![Event::<T>::NewEvents(StartCause::Init)] + old(self)@.pending);
            assert(self.delivered@ + self.pending@ =~= self.pending@);
        }
    }

    /// Schedules the control events that bring the runner to `to`.
    fn move_state_to(&mut self, to: RunnerState, now: u64)
        requires
            old(self).wf(),
            to != RunnerState::Uninitialized,
        ensures
            final(self).wf(),
            final(self)@ == moved(old(self)@, to, now),
    {
        let from = self.runner_state;
        if from == RunnerState::Destroyed || self.panic_error.is_some() || from == to {
            return;
        }
        let ghost old_pending = self.pending@;
        proof {
            if from == RunnerState::Uninitialized {
                assert(self.delivered@ + self.pending@ =~= self.pending@);
            }
        }
        let cause = cause_for(self.control_flow, now, self.last_events_cleared);
        match (from, to) {
            (RunnerState::Uninitialized, RunnerState::HandlingMainEvents) => {
                self.push_init();
            },
            (RunnerState::Uninitialized, RunnerState::HandlingRedrawEvents) => {
                self.push_init();
                self.push_scheduled(Event::MainEventsCleared);
            },
            (RunnerState::Uninitialized, RunnerState::Idle) => {
                self.push_init();
                self.push_scheduled(Event::MainEventsCleared);
                self.push_scheduled(Event::RedrawEventsCleared);
            },
            (RunnerState::Uninitialized, RunnerState::Destroyed) => {
                self.push_init();
                self.push_scheduled(Event::MainEventsCleared);
                self.push_scheduled(Event::RedrawEventsCleared);
                self.push_scheduled(Event::LoopDestroyed);
            },
            (RunnerState::Idle, RunnerState::HandlingMainEvents) => {
                self.push_scheduled(Event::NewEvents(cause));
            },
            (RunnerState::Idle, RunnerState::HandlingRedrawEvents) => {
                self.push_scheduled(Event::NewEvents(cause));
                self.push_scheduled(Event::MainEventsCleared);
            },
            (RunnerState::Idle, RunnerState::Destroyed) => {
                self.push_scheduled(Event::LoopDestroyed);
            },
            (RunnerState::HandlingMainEvents, RunnerState::HandlingRedrawEvents) => {
                self.push_scheduled(Event::MainEventsCleared);
            },
            (RunnerState::HandlingMainEvents, RunnerState::Idle) => {
                self.push_scheduled(Event::MainEventsCleared);
                self.push_scheduled(Event::RedrawEventsCleared);
            },
            (RunnerState::HandlingMainEvents, RunnerState::Destroyed) => {
                self.push_scheduled(Event::MainEventsCleared);
                self.push_scheduled(Event::RedrawEventsCleared);
                self.push_scheduled(Event::LoopDestroyed);
            },
            (RunnerState::HandlingRedrawEvents, RunnerState::Idle) => {
                self.push_scheduled(Event::RedrawEventsCleared);
            },
            (RunnerState::HandlingRedrawEvents, RunnerState::HandlingMainEvents) => {
                self.push_scheduled(Event::RedrawEventsCleared);
                let restart = cause_for(self.control_flow, now, now);
                self.push_scheduled(Event::NewEvents(restart));
            },
            (RunnerState::HandlingRedrawEvents, RunnerState::Destroyed) => {
                self.push_scheduled(Event::RedrawEventsCleared);
                self.push_scheduled(Event::LoopDestroyed);
            },
            _ => {},
        }
        proof {
            let added = transition_events::<T>(
                from,
                to,
                old(self)@.control_flow,
                now,
                old(self)@.last_events_cleared,
            );
            assert(self.pending@ =~= queue_after(from, old_pending, added));
        }
        if ends_cycle_exec(from, to) {
            self.last_events_cleared = now;
        }
        self.runner_state = to;
    }

    /// Starts a cycle, if none is under way, at `now`.
    pub fn poll(&mut self, now: u64)
        requires
            old(self).wf(),
        ensures
            final(self).wf(),
            final(self)@ == moved(old(self)@, RunnerState::HandlingMainEvents, now),
    {
        self.move_state_to(RunnerState::HandlingMainEvents, now);
    }

    /// Ends the main part of the cycle: `MainEventsCleared` is scheduled.
    pub fn main_events_cleared(&mut self, now: u64)
        requires
            old(self).wf(),
        ensures
            final(self).wf(),
            final(self)@ == moved(old(self)@, RunnerState::HandlingRedrawEvents, now),
    {
        self.move_state_to(RunnerState::HandlingRedrawEvents, now);
    }

    /// Ends the cycle: `RedrawEventsCleared` is scheduled.
    pub fn redraw_events_cleared(&mut self, now: u64)
        requires
            old(self).wf(),
        ensures
            final(self).wf(),
            final(self)@ == moved(old(self)@, RunnerState::Idle, now),
    {
        self.move_state_to(RunnerState::Idle, now);
    }

    /// Ends the loop: `LoopDestroyed` is scheduled last.
    pub fn loop_destroyed(&mut self, now: u64)
        requires
            old(self).wf(),
        ensures
            final(self).wf(),
            final(self)@ == moved(old(self)@, RunnerState::Destroyed, now),
    {
        self.move_state_to(RunnerState::Destroyed, now);
    }

    /// Takes in an event from the native side at `now`.
    pub fn send_event(&mut self, event: Event<T>, now: u64)
        requires
            old(self).wf(),
        ensures
            final(self).wf(),
            final(self)@ == sent(old(self)@, event, now),
    {
        if self.runner_state == RunnerState::Destroyed || self.panic_error.is_some() {
            return;
        }
        match event {
            Event::NewEvents(_) | Event::MainEventsCleared | Event::RedrawEventsCleared
            | Event::LoopDestroyed => {},
            Event::RedrawRequested(_) => {
                self.move_state_to(RunnerState::HandlingRedrawEvents, now);
                self.push_scheduled(event);
            },
            _ => {
                if self.runner_state != RunnerState::Uninitialized {
                    self.move_state_to(RunnerState::HandlingMainEvents, now);
                }
                self.push_scheduled(event);
            },
        }
    }

    /// Hands out the next scheduled event, with the control flow that the
    /// callback starts from, if the callback may take it now.
    pub fn next_event(&mut self) -> (r: Option<(Event<T>, ControlFlow)>)
        requires
            old(self).wf(),
        ensures
            final(self).wf(),
            can_deliver(old(self)@) ==> r == Some((old(self)@.pending[0], old(self)@.control_flow))
                && final(self)@ == (RunnerView {
                pending: old(self)@.pending.drop_first(),
                delivered: old(self)@.delivered.push(old(self)@.pending[0]),
                in_handler: true,
                ..old(self)@
            }),
            !can_deliver(old(self)@) ==> r is None && final(self)@ == old(self)@,
    {
        if !self.handler_attached || self.in_handler || self.panic_error.is_some() || self.runner_state
            == RunnerState::Uninitialized {
            return None;
        }
        match self.pending.pop_front() {
            Some(event) => {
                proof {
                    self.delivered@ = self.delivered@.push(event);
                }
                self.in_handler = true;
                assert(self.pending@ =~= old(self)@.pending.drop_first());
                assert(self.delivered@ + self.pending@ =~= old(self)@.delivered + old(self)@.pending);
                Some((event, self.control_flow))
            },
            None => None,
        }
    }

    /// Takes back the control flow that the callback left, or its failure.
    pub fn event_handled(&mut self, control_flow: ControlFlow, failure: Option<P>)
        requires
            old(self).wf(),
        ensures
            final(self).wf(),
            old(self)@.in_handler ==> final(self)@ == handled(old(self)@, control_flow, failure),
            !old(self)@.in_handler ==> final(self)@ == old(self)@,
    {
        if !self.in_handler {
            return;
        }
        self.in_handler = false;
        match failure {
            Some(p) => {
                if self.panic_error.is_none() {
                    self.panic_error = Some(p);
                }
                self.pending.clear();
                proof {
                    let whole = old(self)@.delivered + old(self)@.pending;
                    assert(whole.take(old(self)@.delivered.len() as int) =~= self.delivered@ + self.pending@);
                    if stream_phase(self.delivered@ + self.pending@) == CyclePhase::Invalid {
                        lemma_invalid_absorbs(whole, old(self)@.delivered.len() as int);
                    }
                }
            },
            None => {
                if self.control_flow != ControlFlow::Exit {
                    self.control_flow = control_flow;
                }
            },
        }
    }

    /// Takes the failure of the callback, if there is one; the runner is
    /// then destroyed, with nothing scheduled and no callback.
    pub fn take_panic_error(&mut self) -> (r: Option<P>)
        requires
            old(self).wf(),
        ensures
            final(self).wf(),
            r == old(self)@.failure,
            r is Some ==> final(self)@ == (RunnerView {
                state: RunnerState::Destroyed,
                pending: Seq::empty(),
                handler_attached: false,
                in_handler: false,
                failure: None,
                ..old(self)@
            }),
            r is None ==> final(self)@ == old(self)@,
    {
        match self.panic_error.take() {
            Some(p) => {
                self.runner_state = RunnerState::Destroyed;
                self.pending.clear();
                self.handler_attached = false;
                self.in_handler = false;
                Some(p)
            },
            None => None,
        }
    }

    /// The position of `w` among the registered windows.
    fn find_window(&self, w: WindowId) -> (r: Option<usize>)
        ensures
            r matches Some(i) ==> i < self@.windows.len() && self@.windows[i as int] == w,
            r is None ==> !self@.windows.contains(w),
    {
        let mut i: usize = 0;
        while i < self.owned_windows.len()
            invariant
                i <= self.owned_windows@.len(),
                forall|j: int| 0 <= j < i ==> self.owned_windows@[j] != w,
            decreases self.owned_windows@.len() - i,
        {
            if self.owned_windows[i] == w {
                return Some(i);
            }
            i = i + 1;
        }
        None
    }

    /// Registers a window; one already registered stays where it is.
    pub fn register_window(&mut self, window: WindowId)
        requires
            old(self).wf(),
        ensures
            final(self).wf(),
            final(self)@ == (RunnerView { windows: with_window(old(self)@.windows, window), ..old(self)@ }),
    {
        if self.find_window(window).is_none() {
            self.owned_windows.push(window);
        }
    }

    /// Deregisters a window; the others keep their order.
    pub fn remove_window(&mut self, window: WindowId)
        requires
            old(self).wf(),
        ensures
            final(self).wf(),
            final(self)@ == (RunnerView { windows: without_window(old(self)@.windows, window), ..old(self)@ }),
    {
        match self.find_window(window) {
            Some(i) => {
                proof {
                    lemma_index_of_unique(self.owned_windows@, window, i as int);
                }
                self.owned_windows.remove(i);
            },
            None => {},
        }
    }

    /// The registered windows, in the order of registration.
    pub fn owned_windows(&self) -> (r: Vec<WindowId>)
        ensures
            r@ == self@.windows,
    {
        self.owned_windows.clone()
    }

    /// Starts the redraw part of the cycle, unless it is under way: then
    /// nothing changes and `None` comes back. Otherwise `MainEventsCleared`
    /// is scheduled and the registered windows but `except` come back, in
    /// the order of registration: the loop pulls their pending redraw
    /// messages out of the native queue now, so that all redraw requests of
    /// the cycle reach the application together.
    pub fn begin_redraw_flush(&mut self, except: Option<WindowId>, now: u64) -> (r: Option<Vec<WindowId>>)
        requires
            old(self).wf(),
        ensures
            final(self).wf(),
            old(self)@.state == RunnerState::HandlingRedrawEvents ==> r is None && final(self)@ == old(self)@,
            old(self)@.state != RunnerState::HandlingRedrawEvents ==> final(self)@ == moved(
                old(self)@,
                RunnerState::HandlingRedrawEvents,
                now,
            ),
            old(self)@.state != RunnerState::HandlingRedrawEvents ==> (r matches Some(ws) && ws@
                == match except {
                Some(w) => without_window(old(self)@.windows, w),
                None => old(self)@.windows,
            }),
    {
        if self.runner_state == RunnerState::HandlingRedrawEvents {
            return None;
        }
        self.main_events_cleared(now);
        let mut windows = self.owned_windows.clone();
        match except {
            Some(w) => {
                match self.find_window(w) {
                    Some(i) => {
                        proof {
                            lemma_index_of_unique(self.owned_windows@, w, i as int);
                        }
                        windows.remove(i);
                    },
                    None => {},
                }
            },
            None => {},
        }
        Some(windows)
    }

    /// Whether the loop ends now: the control flow is `Exit` and no cycle
    /// is under way.
    pub fn should_exit(&self) -> (r: bool)
        ensures
            r == (self@.control_flow == ControlFlow::Exit && self@.state == RunnerState::Idle),
    {
        self.control_flow == ControlFlow::Exit && self.runner_state == RunnerState::Idle
    }

    /// Whether a wake-up came before the instant that `WaitUntil` asked for,
    /// so that the loop waits on for it before it starts a new cycle.
    pub fn resume_time_ahead(&self, now: u64) -> (r: bool)
        ensures
            r == (self@.control_flow matches ControlFlow::WaitUntil(t) && now < t),
    {
        match self.control_flow {
            ControlFlow::WaitUntil(t) => now < t,
            _ => false,
        }
    }

    /// What a paint message of a window asks: a flush, unless the callback
    /// cannot take events now.
    pub fn window_paint_action(&self) -> (r: PaintAction)
        ensures
            r == if !self@.handler_attached || self@.in_handler { PaintAction::Defer } else { PaintAction::Flush },
    {
        if self.should_buffer() {
            PaintAction::Defer
        } else {
            PaintAction::Flush
        }
    }

    /// What a paint message of the loop's own message target asks. It comes
    /// once the native queue is empty: the cycle under way, if any, ends
    /// with a flush, unless the callback cannot take events now.
    pub fn idle_paint_action(&self) -> (r: PaintAction)
        ensures
            r == if self@.state == RunnerState::Idle {
                PaintAction::Nothing
            } else if !self@.handler_attached || self@.in_handler {
                PaintAction::Defer
            } else {
                PaintAction::Flush
            },
    {
        if !self.handling_events() {
            PaintAction::Nothing
        } else if self.should_buffer() {
            PaintAction::Defer
        } else {
            PaintAction::Flush
        }
    }

    /// The wake-up that the current control flow asks for.
    pub fn next_wake_action(&self) -> (r: WakeAction)
        ensures
            r == wake_action(self@.control_flow),
    {
        match self.control_flow {
            ControlFlow::Poll => WakeAction::ProcessNewEventsNow,
            ControlFlow::WaitUntil(t) => WakeAction::WakeAt(t),
            _ => WakeAction::Nothing,
        }
    }
}

/// The cause of a `NewEvents` sent at `now`, after a cycle that ended at `start`.
fn cause_for(control_flow: ControlFlow, now: u64, start: u64) -> (r: StartCause)
    ensures
        r == start_cause(control_flow, now, start),
{
    match control_flow {
        ControlFlow::Poll => StartCause::Poll,
        ControlFlow::WaitUntil(t) => if now < t {
            StartCause::WaitCancelled { start, requested_resume: Some(t) }
        } else {
            StartCause::ResumeTimeReached { start, requested_resume: t }
        },
        _ => StartCause::WaitCancelled { start, requested_resume: None },
    }
}

fn ends_cycle_exec(from: RunnerState, to: RunnerState) -> (r: bool)
    ensures
        r == ends_cycle(from, to),
{
    from != to && from != RunnerState::Destroyed && (
        (to == RunnerState::Idle || to == RunnerState::Destroyed) && from != RunnerState::Idle
        || from == RunnerState::HandlingRedrawEvents && to == RunnerState::HandlingMainEvents
    )
}


/// Reading one more event moves the phase of a stream by that event.
proof fn lemma_phase_push<T>(d: Seq<Event<T>>, p: Seq<Event<T>>, e: Event<T>)
    ensures
        stream_phase(d + p.push(e)) == next_phase(stream_phase(d + p), e),
{
    assert((d + p.push(e)).drop_last() =~= d + p);
    assert((d + p.push(e)).last() == e);
}

/// A stream of window, device and user events alone, opened by the first
/// `NewEvents`, is in the main part of the first cycle.
proof fn lemma_init_front<T>(p: Seq<Event<T>>)
    requires
        stream_phase(p) == CyclePhase::Start,
    ensures
        stream_phase(seq![Event::<T>::NewEvents(StartCause::Init)] + p) == CyclePhase::Main,
    decreases p.len(),
{
    let init = seq![Event::<T>::NewEvents(StartCause::Init)];
    if p.len() == 0 {
        assert(init + p =~= init);
        assert(init.drop_last() =~= Seq::<Event<T>>::empty());
        assert(stream_phase(init.drop_last()) == CyclePhase::Start);
        assert(init.last() == Event::<T>::NewEvents(StartCause::Init));
    } else {
        let q = p.drop_last();
        assert(stream_phase(q) == CyclePhase::Start);
        lemma_init_front(q);
        assert((init + p).drop_last() =~= init + q);
        assert((init + p).last() == p.last());
        assert(next_phase(CyclePhase::Main, p.last()) == CyclePhase::Main);
    }
}

/// Once a stream broke the order of the cycle, no continuation mends it.
proof fn lemma_invalid_absorbs<T>(s: Seq<Event<T>>, n: int)
    requires
        0 <= n <= s.len(),
        stream_phase(s.take(n)) == CyclePhase::Invalid,
    ensures
        stream_phase(s) == CyclePhase::Invalid,
    decreases s.len() - n,
{
    if n == s.len() {
        assert(s.take(n) =~= s);
    } else {
        assert(s.take(n + 1).drop_last() =~= s.take(n));
        lemma_invalid_absorbs(s, n + 1);
    }
}

/// In a sequence without duplicates, the position of an element is the one
/// that `index_of` names.
proof fn lemma_index_of_unique(ws: Seq<WindowId>, w: WindowId, i: int)
    requires
        ws.no_duplicates(),
        0 <= i < ws.len(),
        ws[i] == w,
    ensures
        ws.contains(w),
        ws.index_of(w) == i,
{
    assert(ws.contains(w));
    let j = ws.index_of(w);
    assert(ws[j] == w);
}

/// Registering a window that is not registered and then deregistering it
/// leaves the registered windows as they were.
pub proof fn lemma_register_remove_round_trip(ws: Seq<WindowId>, w: WindowId)
    requires
        ws.no_duplicates(),
        !ws.contains(w),
    ensures
        without_window(with_window(ws, w), w) == ws,
{
    let pushed = ws.push(w);
    assert(pushed[ws.len() as int] == w);
    assert(pushed.no_duplicates());
    lemma_index_of_unique(pushed, w, ws.len() as int);
    assert(pushed.remove(ws.len() as int) =~= ws);
}

/// In the events that a runner delivered and scheduled, in order, every
/// event stands where the cycle allows it: a redraw request only after
/// `MainEventsCleared` and before `RedrawEventsCleared`; a window, device or
/// user event only before `MainEventsCleared`; `MainEventsCleared` only
/// after `NewEvents`; and nothing after `LoopDestroyed`.
pub proof fn lemma_stream_order<T, P>(r: EventLoopRunner<T, P>, i: int)
    requires
        r.wf(),
        0 <= i < (r@.delivered + r@.pending).len(),
    ensures
        ({
            let s = r@.delivered + r@.pending;
            &&& next_phase(stream_phase(s.take(i)), s[i]) != CyclePhase::Invalid
            &&& s[i] is RedrawRequested ==> stream_phase(s.take(i)) == CyclePhase::Redraw
            &&& s[i] is MainEventsCleared ==> stream_phase(s.take(i)) == CyclePhase::Main
            &&& !is_cycle_marker(s[i]) && !(s[i] is RedrawRequested) ==> (stream_phase(s.take(i))
                == CyclePhase::Main || stream_phase(s.take(i)) == CyclePhase::Start)
            &&& s[i] is LoopDestroyed ==> i == s.len() - 1
        }),
{
    let s = r@.delivered + r@.pending;
    assert(s.take(i + 1).drop_last() =~= s.take(i));
    assert(s.take(i + 1).last() == s[i]);
    if stream_phase(s.take(i + 1)) == CyclePhase::Invalid {
        lemma_invalid_absorbs(s, i + 1);
    }
    if s[i] is LoopDestroyed && i < s.len() - 1 {
        assert(s.take(i + 2).drop_last() =~= s.take(i + 1));
        assert(s.take(i + 2).last() == s[i + 1]);
        lemma_invalid_absorbs(s, i + 2);
    }
}

/// After a failure of the callback, no event reaches it: events from the
/// native side change nothing and none is handed out, until the failure is
/// taken.
pub proof fn lemma_no_delivery_after_failure<T, P>(v: RunnerView<T, P>, event: Event<T>, now: u64)
    requires
        v.failure is Some,
    ensures
        sent(v, event, now) == v,
        !can_deliver(v),
        forall|to: RunnerState| moved(v, to, now) == v,
{
}

} // verus!
