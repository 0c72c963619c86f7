//! The serving lifecycle: Starting, Serving, Draining, Stopped. The server
//! reports what happens to it as events; the lifecycle answers each with an
//! action and never reaches Stopped while a request is still in flight.

use crate::config::{notification_target, notification_url, opt_string_view, Config};
use vstd::prelude::*;

verus! {

/// The phase of the server.
#[derive(Debug, Clone, Copy, PartialEq, Eq, Structural)]
pub enum Phase {
    /// Not yet listening.
    Starting,
    /// Listening and admitting requests.
    Serving,
    /// Shutdown requested: no new work, waiting for the requests in flight.
    Draining,
    /// Everything has finished.
    Stopped,
}

/// What the server reports.
#[derive(Debug, Clone, Copy, PartialEq, Eq, Structural)]
pub enum Event {
    /// The listener is bound.
    Bound,
    /// A request asks to be handled.
    RequestArrived,
    /// A request that was admitted has sent its response.
    RequestDone,
    /// The shutdown signal has resolved.
    ShutdownSignal,
}

/// What the server is to do in answer.
#[derive(Debug, Clone, Copy, PartialEq, Eq, Structural)]
pub enum Action {
    /// Go on: serve, or handle the request that arrived.
    Proceed,
    /// Turn the request away.
    Refuse,
    /// Nothing to do.
    Wait,
    /// The server has stopped: move on to notifying the upstream.
    Stop,
}

/// The state of the lifecycle as a mathematical value.
pub struct LifecycleState {
    pub phase: Phase,
    pub in_flight: nat,
    pub notified: bool,
}

impl LifecycleState {
    /// Nothing is in flight before serving or once stopped, the count fits
    /// its machine word, and the upstream is notified only once stopped.
    pub open spec fn wf(self) -> bool {
        &&& self.in_flight <= u64::MAX
        &&& (self.phase == Phase::Starting ==> self.in_flight == 0)
        &&& (self.phase == Phase::Stopped ==> self.in_flight == 0)
        &&& (self.notified ==> self.phase == Phase::Stopped)
    }
}

/// The state at startup.
pub open spec fn initial_state() -> LifecycleState {
    LifecycleState { phase: Phase::Starting, in_flight: 0, notified: false }
}

/// The transition taken on an event: the next state and the action.
pub open spec fn next(s: LifecycleState, ev: Event) -> (LifecycleState, Action) {
    match ev {
        Event::Bound => if s.phase == Phase::Starting {
            (LifecycleState { phase: Phase::Serving, ..s }, Action::Proceed)
        } else {
            (s, Action::Wait)
        },
        Event::RequestArrived => if s.phase == Phase::Serving && s.in_flight < u64::MAX {
            (LifecycleState { in_flight: s.in_flight + 1, ..s }, Action::Proceed)
        } else {
            (s, Action::Refuse)
        },
        Event::RequestDone => if s.in_flight == 0 {
            (s, Action::Wait)
        } else if s.phase == Phase::Draining && s.in_flight == 1 {
            (LifecycleState { phase: Phase::Stopped, in_flight: 0, ..s }, Action::Stop)
        } else {
            (LifecycleState { in_flight: (s.in_flight - 1) as nat, ..s }, Action::Wait)
        },
        Event::ShutdownSignal => if s.phase == Phase::Starting || (s.phase == Phase::Serving
            && s.in_flight == 0) {
            (LifecycleState { phase: Phase::Stopped, ..s }, Action::Stop)
        } else if s.phase == Phase::Serving {
            (LifecycleState { phase: Phase::Draining, ..s }, Action::Wait)
        } else {
            (s, Action::Wait)
        },
    }
}

/// The state after a run of events.
pub open spec fn run(s: LifecycleState, evs: Seq<Event>) -> LifecycleState
    decreases evs.len(),
{
    if evs.len() == 0 {
        s
    } else {
        run(next(s, evs[0]).0, evs.drop_first())
    }
}

/// How many of the events report a finished request.
pub open spec fn count_done(evs: Seq<Event>) -> nat
    decreases evs.len(),
{
    if evs.len() == 0 {
        0
    } else {
        (if evs[0] == Event::RequestDone {
            1nat
        } else {
            0nat
        }) + count_done(evs.drop_first())
    }
}

/// The state after asking for the notification: granted once, after the
/// stop.
pub open spec fn after_notification(s: LifecycleState) -> LifecycleState {
    if s.phase == Phase::Stopped {
        LifecycleState { notified: true, ..s }
    } else {
        s
    }
}

/// Whether asking for the notification in this state is granted.
pub open spec fn notification_due(s: LifecycleState) -> bool {
    s.phase == Phase::Stopped && !s.notified
}

/// The server's lifecycle.
pub struct Lifecycle {
    phase: Phase,
    in_flight: u64,
    notified: bool,
}

impl View for Lifecycle {
    type V = LifecycleState;

    closed spec fn view(&self) -> LifecycleState {
        LifecycleState { phase: self.phase, in_flight: self.in_flight as nat, notified: self.notified }
    }
}

impl Lifecycle {
    #[verifier::type_invariant]
    spec fn inv(&self) -> bool {
        self@.wf()
    }

    /// A lifecycle at startup.
    pub fn new() -> (r: Lifecycle)
        ensures
            r@ == initial_state(),
            r@.wf(),
    {
        Lifecycle { phase: Phase::Starting, in_flight: 0, notified: false }
    }

    /// The current phase.
    pub fn phase(&self) -> (r: Phase)
        ensures
            r == self@.phase,
            self@.wf(),
    {
        proof {
            use_type_invariant(self);
        }
        self.phase
    }

    /// How many admitted requests have not finished.
    pub fn in_flight(&self) -> (r: u64)
        ensures
            r == self@.in_flight,
    {
        self.in_flight
    }

    /// Takes the transition for one event and returns its action.
    pub fn step(&mut self, ev: Event) -> (r: Action)
        ensures
            (final(self)@, r) == next(old(self)@, ev),
            old(self)@.wf(),
            final(self)@.wf(),
    {
        proof {
            use_type_invariant(&*self);
            lemma_next_wf(self@, ev);
        }
        match ev {
            Event::Bound => {
                if self.phase == Phase::Starting {
                    self.phase = Phase::Serving;
                    Action::Proceed
                } else {
                    Action::Wait
                }
            },
            Event::RequestArrived => {
                if self.phase == Phase::Serving && self.in_flight < u64::MAX {
                    self.in_flight = self.in_flight + 1;
                    Action::Proceed
                } else {
                    Action::Refuse
                }
            },
            Event::RequestDone => {
                if self.in_flight == 0 {
                    Action::Wait
                } else if self.phase == Phase::Draining && self.in_flight == 1 {
                    *self = Lifecycle { phase: Phase::Stopped, in_flight: 0, notified: self.notified };
                    Action::Stop
                } else {
                    self.in_flight = self.in_flight - 1;
                    Action::Wait
                }
            },
            Event::ShutdownSignal => {
                if self.phase == Phase::Starting || (self.phase == Phase::Serving
                    && self.in_flight == 0) {
                    self.phase = Phase::Stopped;
                    Action::Stop
                } else if self.phase == Phase::Serving {
                    self.phase = Phase::Draining;
                    Action::Wait
                } else {
                    Action::Wait
                }
            },
        }
    }

    /// Asks for the address to notify upstream. It is given at most once,
    /// and only once the server has stopped; nothing is given when no
    /// shutdown URL is configured.
    pub fn take_notification(&mut self, config: &Config) -> (r: Option<String>)
        ensures
            final(self)@ == after_notification(old(self)@),
            old(self)@.wf(),
            final(self)@.wf(),
            opt_string_view(r) == (if notification_due(old(self)@) {
                notification_target(config.shutdown_url@, config.shutdown_key@)
            } else {
                None
            }),
            config.shutdown_url@.len() == 0 ==> r is None,
    {
        proof {
            use_type_invariant(&*self);
        }
        if self.phase == Phase::Stopped {
            let due = !self.notified;
            self.notified = true;
            if due {
                return notification_url(config.shutdown_url.as_str(), config.shutdown_key.as_str());
            }
        }
        None
    }
}

/// Every transition keeps the lifecycle well formed.
pub proof fn lemma_next_wf(s: LifecycleState, ev: Event)
    requires
        s.wf(),
    ensures
        next(s, ev).0.wf(),
{
}

/// A request in flight holds off the stop: as long as fewer requests have
/// finished than were in flight, no run of events, shutdown signal
/// included, reaches Stopped.
pub proof fn lemma_no_stop_while_in_flight(s: LifecycleState, evs: Seq<Event>)
    requires
        s.wf(),
        count_done(evs) < s.in_flight,
    ensures
        run(s, evs).phase != Phase::Stopped,
        run(s, evs).in_flight >= s.in_flight - count_done(evs),
    decreases evs.len(),
{
    if evs.len() > 0 {
        let t = next(s, evs[0]).0;
        lemma_next_wf(s, evs[0]);
        assert(t.in_flight >= s.in_flight - (if evs[0] == Event::RequestDone {
            1int
        } else {
            0int
        }));
        lemma_no_stop_while_in_flight(t, evs.drop_first());
    }
}

/// The upstream is notified at most once, and only after the drain: a
/// request for the notification is granted only once the server has stopped
/// with nothing in flight, and after one request a second is never granted.
pub proof fn lemma_notified_once(s: LifecycleState)
    requires
        s.wf(),
    ensures
        notification_due(s) ==> s.phase == Phase::Stopped && s.in_flight == 0,
        !notification_due(after_notification(s)),
        after_notification(s).wf(),
{
}

} // verus!
