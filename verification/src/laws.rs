//! What holds of a whole run: a timer whose sends are all delivered, any
//! number of peripherals, the dispatcher, and a monitor that misses nothing.

use vstd::prelude::*;
use crate::dispatcher::{dispatcher_publishes_until_stop, DispatcherState};
use crate::event::{
    first_ticks,
    is_merge,
    merge_until_stop_keeps_ticks,
    only_interrupts,
    stop_count,
    tick_payloads,
    until_stop,
    EventSpec,
};
use crate::mcu::{all_delivered, delivered_run_emits_ticks_in_order, TimerModel, TimerPhase};
use crate::monitor::{
    counters_match_trace,
    events_only,
    monitor_records_until_stop,
    ActionSpec,
    InputSpec,
    MonitorModel,
};

verus! {

/// Whether `arrivals` is what the primary channel can hand to the dispatcher
/// in a run of a timer with the given settings: the events of the timer's full
/// run, every send delivered, interleaved with `interrupts` from the
/// peripherals. The channel keeps the order of each producer and fixes no
/// order between producers.
pub open spec fn is_run(
    period_ms: u64,
    max_ticks: u64,
    interrupt_every: u64,
    outcomes: Seq<bool>,
    interrupts: Seq<EventSpec>,
    arrivals: Seq<EventSpec>,
) -> bool {
    let start = TimerModel::configured(period_ms, max_ticks, interrupt_every);
    &&& all_delivered(outcomes)
    &&& start.run(outcomes).0.phase == TimerPhase::Done
    &&& only_interrupts(interrupts)
    &&& is_merge(arrivals, start.run(outcomes).1, interrupts)
}

/// In every run with a tick limit of `max_ticks`, the dispatcher publishes
/// exactly the ticks 1, 2, ..., `max_ticks`, in that order, then exactly one
/// `Stop`, which is the last event it publishes, and is stopped afterwards.
/// Interrupts that arrive after the `Stop` are not dispatched.
pub proof fn dispatcher_sees_every_tick_then_stop(
    period_ms: u64,
    max_ticks: u64,
    interrupt_every: u64,
    outcomes: Seq<bool>,
    interrupts: Seq<EventSpec>,
    arrivals: Seq<EventSpec>,
)
    requires
        is_run(period_ms, max_ticks, interrupt_every, outcomes, interrupts, arrivals),
    ensures
        ({
            let (state, published) = DispatcherState::Running.run(arrivals);
            &&& state == DispatcherState::Stopped
            &&& published == until_stop(arrivals)
            &&& tick_payloads(published) == first_ticks(max_ticks as nat)
            &&& stop_count(published) == 1
            &&& published.len() > 0
            &&& published.last() == EventSpec::Stop
            &&& stop_count(published.drop_last()) == 0
        }),
{
    let start = TimerModel::configured(period_ms, max_ticks, interrupt_every);
    delivered_run_emits_ticks_in_order(period_ms, max_ticks, interrupt_every, outcomes);
    let sent = start.run(outcomes).1;
    merge_until_stop_keeps_ticks(arrivals, sent, interrupts);
    crate::event::merge_with_interrupts_keeps_ticks(arrivals, sent, interrupts);
    dispatcher_publishes_until_stop(arrivals);
}

/// In every run with a tick limit of `max_ticks`, a monitor that is subscribed
/// from the start and misses nothing of what the dispatcher publishes ends
/// with a tick count of `max_ticks`, says so in its final report, and is
/// finished. Its count for each label is the number of interrupts with that
/// label that the dispatcher published.
pub proof fn monitor_counts_every_tick(
    period_ms: u64,
    max_ticks: u64,
    interrupt_every: u64,
    outcomes: Seq<bool>,
    interrupts: Seq<EventSpec>,
    arrivals: Seq<EventSpec>,
    label: Seq<char>,
)
    requires
        is_run(period_ms, max_ticks, interrupt_every, outcomes, interrupts, arrivals),
    ensures
        ({
            let published = DispatcherState::Running.run(arrivals).1;
            let before_stop = MonitorModel::start().run(events_only(published.drop_last()));
            let monitor = MonitorModel::start().run(events_only(published));
            &&& monitor.finished
            &&& monitor.counters.wf()
            &&& monitor.counters.ticks == max_ticks
            &&& monitor.counters.count(label) == crate::event::interrupt_count(published, label)
            &&& before_stop.step(InputSpec::Event(EventSpec::Stop)) == (
                monitor,
                ActionSpec::Final(monitor.counters),
            )
        }),
{
    dispatcher_sees_every_tick_then_stop(
        period_ms,
        max_ticks,
        interrupt_every,
        outcomes,
        interrupts,
        arrivals,
    );
    let published = DispatcherState::Running.run(arrivals).1;
    let body = published.drop_last();
    monitor_records_until_stop(body);
    counters_match_trace(body, label);
    assert(events_only(published).drop_last() =~= events_only(body));
    assert(events_only(published).last() == InputSpec::Event(EventSpec::Stop));
    assert(first_ticks(max_ticks as nat).len() == max_ticks);
}

} // verus!
