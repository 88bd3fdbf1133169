//! The timer producer: the one authority for `Tick` and `Stop`.

use vstd::prelude::*;
use crate::event::{first_ticks, stop_count, tick_payloads, EventSpec, SystemEvent};

verus! {

/// Ticks after which a timer made by [`VirtualMCU::new`] stops.
pub const DEFAULT_MAX_TICKS: u64 = 20;

/// A timer made by [`VirtualMCU::new`] raises a coupled interrupt on every
/// tick whose number is a multiple of this.
pub const DEFAULT_INTERRUPT_EVERY: u64 = 7;

/// Label of the interrupt that the timer couples to its ticks.
pub open spec fn coupled_label() -> Seq<char> {
    "UART_RX"@
}

/// Where the timer stands in its cycle.
#[derive(Clone, Copy, Debug, PartialEq, Eq, Structural)]
pub enum TimerPhase {
    /// The next send is a tick, after the next beat of the interval.
    Ticking,
    /// The tick just sent falls on the interrupt cadence: the interrupt is next.
    Coupled,
    /// The last tick is out: `Stop` is next.
    Stopping,
    /// Nothing more is sent.
    Done,
}

/// What the timer's caller does next.
#[derive(Debug)]
pub enum TimerAction {
    /// Wait for the next beat of the interval, then send the event.
    AwaitBeatThenSend(SystemEvent),
    /// Send the event at once.
    Send(SystemEvent),
    /// Leave the loop: the timer has nothing more to send.
    Finished,
}

/// Mathematical value of a [`TimerAction`].
pub enum TimerActionSpec {
    AwaitBeatThenSend(EventSpec),
    Send(EventSpec),
    Finished,
}

impl View for TimerAction {
    type V = TimerActionSpec;

    open spec fn view(&self) -> TimerActionSpec {
        match self {
            TimerAction::AwaitBeatThenSend(event) => TimerActionSpec::AwaitBeatThenSend(event@),
            TimerAction::Send(event) => TimerActionSpec::Send(event@),
            TimerAction::Finished => TimerActionSpec::Finished,
        }
    }
}

impl TimerActionSpec {
    /// The event that the action sends, if it sends one.
    pub open spec fn event(self) -> Option<EventSpec> {
        match self {
            TimerActionSpec::AwaitBeatThenSend(event) => Some(event),
            TimerActionSpec::Send(event) => Some(event),
            TimerActionSpec::Finished => None,
        }
    }
}

/// Mathematical value of a [`VirtualMCU`].
pub struct TimerModel {
    /// Tick period in milliseconds.
    pub period_ms: u64,
    /// Number of ticks after which the timer stops.
    pub max_ticks: u64,
    /// Cadence of the coupled interrupt; 0 for none.
    pub interrupt_every: u64,
    /// Ticks delivered so far.
    pub tick_count: u64,
    pub phase: TimerPhase,
}

impl TimerModel {
    /// A timer at its start. With no tick to emit it goes straight to `Stop`.
    pub open spec fn configured(period_ms: u64, max_ticks: u64, interrupt_every: u64) -> TimerModel {
        TimerModel {
            period_ms,
            max_ticks,
            interrupt_every,
            tick_count: 0,
            phase: if max_ticks == 0 {
                TimerPhase::Stopping
            } else {
                TimerPhase::Ticking
            },
        }
    }

    /// The count never passes the limit, and the phase agrees with the count.
    pub open spec fn wf(self) -> bool {
        &&& self.tick_count <= self.max_ticks
        &&& self.phase == TimerPhase::Ticking ==> self.tick_count < self.max_ticks
        &&& self.phase == TimerPhase::Coupled ==> self.interrupt_every > 0 && self.tick_count
            >= 1 && self.tick_count as int % self.interrupt_every as int == 0
        &&& self.phase == TimerPhase::Stopping ==> self.tick_count == self.max_ticks
    }

    /// What the timer wants done in its present phase.
    pub open spec fn pending(self) -> TimerActionSpec {
        match self.phase {
            TimerPhase::Ticking => TimerActionSpec::AwaitBeatThenSend(
                EventSpec::Tick((self.tick_count + 1) as u64),
            ),
            TimerPhase::Coupled => TimerActionSpec::Send(EventSpec::Interrupt(coupled_label())),
            TimerPhase::Stopping => TimerActionSpec::Send(EventSpec::Stop),
            TimerPhase::Done => TimerActionSpec::Finished,
        }
    }

    /// The phase that follows once the tick numbered `tick_count` and whatever
    /// is coupled to it are out.
    pub open spec fn phase_after_tick(self) -> TimerPhase {
        if self.tick_count >= self.max_ticks {
            TimerPhase::Stopping
        } else {
            TimerPhase::Ticking
        }
    }

    /// The timer after its pending send was attempted. A refused send ends the
    /// timer at once, whatever was left to emit.
    pub open spec fn advance(self, delivered: bool) -> TimerModel {
        match self.phase {
            TimerPhase::Done => self,
            _ if !delivered => TimerModel { phase: TimerPhase::Done, ..self },
            TimerPhase::Ticking => {
                let ticked = TimerModel { tick_count: (self.tick_count + 1) as u64, ..self };
                if self.interrupt_every > 0 && ticked.tick_count as int
                    % self.interrupt_every as int == 0 {
                    TimerModel { phase: TimerPhase::Coupled, ..ticked }
                } else {
                    TimerModel { phase: ticked.phase_after_tick(), ..ticked }
                }
            },
            TimerPhase::Coupled => TimerModel { phase: self.phase_after_tick(), ..self },
            TimerPhase::Stopping => TimerModel { phase: TimerPhase::Done, ..self },
        }
    }

    /// The timer after one send attempt per entry of `outcomes` (`true` for a
    /// delivered send), together with the events it handed to the channel.
    /// Outcomes past the end of the timer's life are not consumed.
    pub open spec fn run(self, outcomes: Seq<bool>) -> (TimerModel, Seq<EventSpec>)
        decreases outcomes.len(),
    {
        if outcomes.len() == 0 {
            (self, Seq::empty())
        } else {
            let (before, sent) = self.run(outcomes.drop_last());
            match before.pending().event() {
                Some(event) => (before.advance(outcomes.last()), sent.push(event)),
                None => (before, sent),
            }
        }
    }
}

/// The timer of the simulated microcontroller. Its caller owns the interval
/// and the channel: it asks [`VirtualMCU::pending`] what to do, does it, and
/// reports through [`VirtualMCU::advance`] whether the send was delivered.
pub struct VirtualMCU {
    tick_rate_ms: u64,
    max_ticks: u64,
    interrupt_every: u64,
    tick_count: u64,
    phase: TimerPhase,
}

impl View for VirtualMCU {
    type V = TimerModel;

    closed spec fn view(&self) -> TimerModel {
        TimerModel {
            period_ms: self.tick_rate_ms,
            max_ticks: self.max_ticks,
            interrupt_every: self.interrupt_every,
            tick_count: self.tick_count,
            phase: self.phase,
        }
    }
}

impl VirtualMCU {
    fn configured(tick_rate_ms: u64, max_ticks: u64, interrupt_every: u64) -> (mcu: VirtualMCU)
        ensures
            mcu@ == TimerModel::configured(tick_rate_ms, max_ticks, interrupt_every),
            mcu@.wf(),
    {
        let phase = if max_ticks == 0 {
            TimerPhase::Stopping
        } else {
            TimerPhase::Ticking
        };
        VirtualMCU { tick_rate_ms, max_ticks, interrupt_every, tick_count: 0, phase }
    }

    /// A timer at its start with the given tick period, the default tick limit
    /// and the default interrupt cadence.
    pub fn new(tick_rate_ms: u64) -> (mcu: VirtualMCU)
        ensures
            mcu@ == TimerModel::configured(
                tick_rate_ms,
                DEFAULT_MAX_TICKS,
                DEFAULT_INTERRUPT_EVERY,
            ),
            mcu@.wf(),
    {
        VirtualMCU::configured(tick_rate_ms, DEFAULT_MAX_TICKS, DEFAULT_INTERRUPT_EVERY)
    }

    /// A timer at its start that keeps this one's period and cadence and stops
    /// after `max_ticks` ticks.
    pub fn with_max_ticks(self, max_ticks: u64) -> (mcu: VirtualMCU)
        ensures
            mcu@ == TimerModel::configured(self@.period_ms, max_ticks, self@.interrupt_every),
            mcu@.wf(),
    {
        VirtualMCU::configured(self.tick_rate_ms, max_ticks, self.interrupt_every)
    }

    /// A timer at its start that keeps this one's period and tick limit and
    /// couples an interrupt to every `interrupt_every`-th tick (to none if 0).
    pub fn with_interrupt_every(self, interrupt_every: u64) -> (mcu: VirtualMCU)
        ensures
            mcu@ == TimerModel::configured(self@.period_ms, self@.max_ticks, interrupt_every),
            mcu@.wf(),
    {
        VirtualMCU::configured(self.tick_rate_ms, self.max_ticks, interrupt_every)
    }

    fn phase_after_tick(&self) -> (phase: TimerPhase)
        ensures
            phase == self@.phase_after_tick(),
    {
        if self.tick_count >= self.max_ticks {
            TimerPhase::Stopping
        } else {
            TimerPhase::Ticking
        }
    }

    /// Tick period in milliseconds.
    pub fn tick_rate_ms(&self) -> (period: u64)
        ensures
            period == self@.period_ms,
    {
        self.tick_rate_ms
    }

    /// Ticks delivered so far.
    pub fn tick_count(&self) -> (count: u64)
        ensures
            count == self@.tick_count,
    {
        self.tick_count
    }

    /// Whether the timer has nothing more to send.
    pub fn is_done(&self) -> (done: bool)
        ensures
            done == (self@.phase == TimerPhase::Done),
    {
        self.phase == TimerPhase::Done
    }

    /// What to do next. Asking changes nothing.
    pub fn pending(&self) -> (action: TimerAction)
        requires
            self@.wf(),
        ensures
            action@ == self@.pending(),
    {
        match self.phase {
            TimerPhase::Ticking => TimerAction::AwaitBeatThenSend(
                SystemEvent::Tick(self.tick_count + 1),
            ),
            TimerPhase::Coupled => TimerAction::Send(
                SystemEvent::Interrupt(String::from_str("UART_RX")),
            ),
            TimerPhase::Stopping => TimerAction::Send(SystemEvent::Stop),
            TimerPhase::Done => TimerAction::Finished,
        }
    }

    /// Records the outcome of the pending send and moves on: after a delivered
    /// tick to its coupled interrupt, to the next tick, or to `Stop` once the
    /// limit is reached; after `Stop`, or after any refused send, to the end.
    pub fn advance(&mut self, delivered: bool)
        requires
            old(self)@.wf(),
        ensures
            final(self)@.wf(),
            final(self)@ == old(self)@.advance(delivered),
    {
        if self.phase == TimerPhase::Done {
            return ;
        }
        if !delivered {
            self.phase = TimerPhase::Done;
            return ;
        }
        match self.phase {
            TimerPhase::Ticking => {
                self.tick_count = self.tick_count + 1;
                if self.interrupt_every > 0 && self.tick_count % self.interrupt_every == 0 {
                    self.phase = TimerPhase::Coupled;
                } else {
                    self.phase = self.phase_after_tick();
                }
            },
            TimerPhase::Coupled => {
                self.phase = self.phase_after_tick();
            },
            TimerPhase::Stopping => {
                self.phase = TimerPhase::Done;
            },
            TimerPhase::Done => {},
        }
    }
}

/// Whether every send of `outcomes` was delivered.
pub open spec fn all_delivered(outcomes: Seq<bool>) -> bool {
    forall|i: int| 0 <= i < outcomes.len() ==> #[trigger] outcomes[i]
}

impl TimerModel {
    /// Sends that a timer in this state still has before it, at most.
    pub open spec fn sends_left(self) -> nat {
        match self.phase {
            TimerPhase::Done => 0,
            TimerPhase::Stopping => 1,
            TimerPhase::Ticking => (2 * (self.max_ticks - self.tick_count) + 1) as nat,
            TimerPhase::Coupled => (2 * (self.max_ticks - self.tick_count) + 2) as nat,
        }
    }
}

/// While every send is delivered, a timer run from its start has emitted the
/// ticks 1, 2, ... up to its present count, in that order, and no `Stop`
/// before it ends; it ends only at its tick limit, with `Stop` as the last
/// event and the only one of its kind.
pub proof fn delivered_run_emits_ticks_in_order(
    period_ms: u64,
    max_ticks: u64,
    interrupt_every: u64,
    outcomes: Seq<bool>,
)
    requires
        all_delivered(outcomes),
    ensures
        ({
            let start = TimerModel::configured(period_ms, max_ticks, interrupt_every);
            let (timer, sent) = start.run(outcomes);
            &&& timer.wf()
            &&& timer.max_ticks == max_ticks
            &&& timer.interrupt_every == interrupt_every
            &&& tick_payloads(sent) == first_ticks(timer.tick_count as nat)
            &&& timer.phase != TimerPhase::Done ==> stop_count(sent) == 0
            &&& timer.phase == TimerPhase::Done ==> {
                &&& timer.tick_count == max_ticks
                &&& sent.len() > 0
                &&& sent.last() == EventSpec::Stop
                &&& stop_count(sent.drop_last()) == 0
                &&& stop_count(sent) == 1
            }
        }),
    decreases outcomes.len(),
{
    let start = TimerModel::configured(period_ms, max_ticks, interrupt_every);
    if outcomes.len() == 0 {
        assert(tick_payloads(Seq::<EventSpec>::empty()) =~= first_ticks(0));
    } else {
        delivered_run_emits_ticks_in_order(
            period_ms,
            max_ticks,
            interrupt_every,
            outcomes.drop_last(),
        );
        let (before, sent) = start.run(outcomes.drop_last());
        assert(outcomes.last());
        match before.pending().event() {
            Some(event) => {
                assert(sent.push(event).drop_last() =~= sent);
                if before.phase == TimerPhase::Ticking {
                    assert(first_ticks(before.tick_count as nat).push(
                        (before.tick_count + 1) as u64,
                    ) =~= first_ticks((before.tick_count + 1) as nat));
                }
            },
            None => {},
        }
    }
}

/// A timer whose sends are all delivered reaches its end: any delivered run
/// from the start can be prolonged to one that ends the timer.
pub proof fn delivered_run_completes(
    period_ms: u64,
    max_ticks: u64,
    interrupt_every: u64,
    outcomes: Seq<bool>,
) -> (full: Seq<bool>)
    requires
        all_delivered(outcomes),
    ensures
        all_delivered(full),
        outcomes.is_prefix_of(full),
        TimerModel::configured(period_ms, max_ticks, interrupt_every).run(full).0.phase
            == TimerPhase::Done,
    decreases
        TimerModel::configured(period_ms, max_ticks, interrupt_every).run(
            outcomes,
        ).0.sends_left(),
{
    let start = TimerModel::configured(period_ms, max_ticks, interrupt_every);
    delivered_run_emits_ticks_in_order(period_ms, max_ticks, interrupt_every, outcomes);
    if start.run(outcomes).0.phase == TimerPhase::Done {
        outcomes
    } else {
        let longer = outcomes.push(true);
        assert(longer.drop_last() =~= outcomes);
        let full = delivered_run_completes(period_ms, max_ticks, interrupt_every, longer);
        full
    }
}

/// A refused send ends the timer at once: whatever was delivered before, the
/// timer is done after the first refusal and hands nothing more to the
/// channel.
pub proof fn refused_send_ends_timer(timer: TimerModel, later: Seq<bool>)
    ensures
        timer.advance(false).phase == TimerPhase::Done,
        timer.advance(false).run(later) == (timer.advance(false), Seq::<EventSpec>::empty()),
    decreases later.len(),
{
    if later.len() > 0 {
        refused_send_ends_timer(timer, later.drop_last());
    }
}

} // verus!
