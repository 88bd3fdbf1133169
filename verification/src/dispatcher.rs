//! The dispatcher: sole reader of the primary channel. It re-publishes every
//! event it accepts and stops at `Stop` or when the channel closes.

use vstd::prelude::*;
use crate::event::{stop_count, until_stop, EventSpec, SystemEvent};
use crate::text::{decimal, decimal_text};

verus! {

/// The dispatcher's two states. `Stopped` is terminal.
#[derive(Clone, Copy, Debug, PartialEq, Eq, Structural)]
pub enum DispatcherState {
    Running,
    Stopped,
}

/// What the dispatcher's caller does with what it read from the channel.
#[derive(Debug)]
pub enum DispatchAction {
    /// Publish the event to the fan-out, whatever becomes of it there, log it
    /// and read on.
    Forward(SystemEvent),
    /// Publish the `Stop` to the fan-out, log it and leave the loop.
    ForwardAndStop(SystemEvent),
    /// The channel is closed and drained: leave the loop.
    Stop,
    /// The dispatcher had stopped before: the event is not dispatched.
    Rejected,
}

/// Mathematical value of a [`DispatchAction`].
pub enum DispatchActionSpec {
    Forward(EventSpec),
    ForwardAndStop(EventSpec),
    Stop,
    Rejected,
}

impl View for DispatchAction {
    type V = DispatchActionSpec;

    open spec fn view(&self) -> DispatchActionSpec {
        match self {
            DispatchAction::Forward(event) => DispatchActionSpec::Forward(event@),
            DispatchAction::ForwardAndStop(event) => DispatchActionSpec::ForwardAndStop(event@),
            DispatchAction::Stop => DispatchActionSpec::Stop,
            DispatchAction::Rejected => DispatchActionSpec::Rejected,
        }
    }
}

impl DispatchActionSpec {
    /// The event that the action publishes, if it publishes one.
    pub open spec fn published(self) -> Option<EventSpec> {
        match self {
            DispatchActionSpec::Forward(event) => Some(event),
            DispatchActionSpec::ForwardAndStop(event) => Some(event),
            _ => None,
        }
    }
}

impl DispatcherState {
    /// The state after one read of the channel (`None` once it is closed and
    /// drained), and what the caller is told to do.
    pub open spec fn step(self, received: Option<EventSpec>) -> (
        DispatcherState,
        DispatchActionSpec,
    ) {
        match self {
            DispatcherState::Stopped => (DispatcherState::Stopped, DispatchActionSpec::Rejected),
            DispatcherState::Running => match received {
                None => (DispatcherState::Stopped, DispatchActionSpec::Stop),
                Some(EventSpec::Stop) => (
                    DispatcherState::Stopped,
                    DispatchActionSpec::ForwardAndStop(EventSpec::Stop),
                ),
                Some(event) => (DispatcherState::Running, DispatchActionSpec::Forward(event)),
            },
        }
    }

    /// The state after the events of `arrivals` were read in order, and what
    /// was published to the fan-out on the way.
    pub open spec fn run(self, arrivals: Seq<EventSpec>) -> (DispatcherState, Seq<EventSpec>)
        decreases arrivals.len(),
    {
        if arrivals.len() == 0 {
            (self, Seq::empty())
        } else {
            let (before, published) = self.run(arrivals.drop_last());
            let (after, action) = before.step(Some(arrivals.last()));
            match action.published() {
                Some(event) => (after, published.push(event)),
                None => (after, published),
            }
        }
    }
}

/// The dispatcher's loop as a state machine: the caller reads the primary
/// channel, hands what it read to [`Dispatcher::handle`], and does what the
/// returned action says. What the fan-out answers to a publish is never handed
/// back: it cannot influence the dispatcher.
pub struct Dispatcher {
    state: DispatcherState,
}

impl View for Dispatcher {
    type V = DispatcherState;

    closed spec fn view(&self) -> DispatcherState {
        self.state
    }
}

impl Dispatcher {
    /// A running dispatcher.
    pub fn new() -> (dispatcher: Dispatcher)
        ensures
            dispatcher@ == DispatcherState::Running,
    {
        Dispatcher { state: DispatcherState::Running }
    }

    /// The present state.
    pub fn state(&self) -> (state: DispatcherState)
        ensures
            state == self@,
    {
        self.state
    }

    /// Whether the dispatcher has reached its terminal state.
    pub fn is_stopped(&self) -> (stopped: bool)
        ensures
            stopped == (self@ == DispatcherState::Stopped),
    {
        self.state == DispatcherState::Stopped
    }

    /// Takes what was read from the primary channel: an event, or `None` once
    /// the channel is closed and drained. While running, every event is handed
    /// back for publishing, and `Stop` or `None` ends the run. Once stopped,
    /// nothing is dispatched any more.
    pub fn handle(&mut self, received: Option<SystemEvent>) -> (action: DispatchAction)
        ensures
            (final(self)@, action@) == old(self)@.step(
                match received {
                    Some(event) => Some(event@),
                    None => None,
                },
            ),
    {
        if self.state == DispatcherState::Stopped {
            return DispatchAction::Rejected;
        }
        match received {
            None => {
                self.state = DispatcherState::Stopped;
                DispatchAction::Stop
            },
            Some(event) => {
                if event.is_stop() {
                    self.state = DispatcherState::Stopped;
                    DispatchAction::ForwardAndStop(event)
                } else {
                    DispatchAction::Forward(event)
                }
            },
        }
    }
}

/// The line that the dispatcher logs for `event`.
pub open spec fn record_text(event: EventSpec) -> Seq<char> {
    match event {
        EventSpec::Tick(n) => "Tick: "@ + decimal_text(n as nat),
        EventSpec::Interrupt(label) => "Peripheral interrupt: "@ + label,
        EventSpec::Stop => "Simulation stop requested."@,
    }
}

/// Renders the line that the dispatcher logs for `event`.
pub fn record_of(event: &SystemEvent) -> (line: String)
    ensures
        line@ == record_text(event@),
{
    match event {
        SystemEvent::Tick(n) => {
            let mut line = String::from_str("Tick: ");
            let number = decimal(*n);
            line.append(number.as_str());
            line
        },
        SystemEvent::Interrupt(label) => {
            let mut line = String::from_str("Peripheral interrupt: ");
            line.append(label.as_str());
            line
        },
        SystemEvent::Stop => String::from_str("Simulation stop requested."),
    }
}

/// A running dispatcher publishes, of what arrives, everything up to and
/// including the first `Stop` and nothing after it; it is stopped afterwards
/// exactly if a `Stop` arrived.
pub proof fn dispatcher_publishes_until_stop(arrivals: Seq<EventSpec>)
    ensures
        DispatcherState::Running.run(arrivals).1 == until_stop(arrivals),
        DispatcherState::Running.run(arrivals).0 == (if stop_count(arrivals) > 0 {
            DispatcherState::Stopped
        } else {
            DispatcherState::Running
        }),
    decreases arrivals.len(),
{
    if arrivals.len() > 0 {
        dispatcher_publishes_until_stop(arrivals.drop_last());
        if stop_count(arrivals.drop_last()) == 0 {
            crate::event::until_stop_without_stop(arrivals.drop_last());
            assert(arrivals.drop_last().push(arrivals.last()) =~= arrivals);
        }
    }
}

/// Closing the channel stops a running dispatcher without publishing
/// anything, whatever arrived before.
pub proof fn closed_channel_stops_dispatcher(arrivals: Seq<EventSpec>)
    ensures
        DispatcherState::Running.run(arrivals).0.step(None).0 == DispatcherState::Stopped,
        DispatcherState::Running.run(arrivals).0.step(None).1.published().is_none(),
{
}

} // verus!
