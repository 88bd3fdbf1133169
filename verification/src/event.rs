//! The closed set of events that producers may emit.

use vstd::prelude::*;

verus! {

/// Mathematical value of a [`SystemEvent`].
pub enum EventSpec {
    Tick(u64),
    Interrupt(Seq<char>),
    Stop,
}

/// An event travelling from a producer to the dispatcher and on to observers.
#[derive(Debug)]
pub enum SystemEvent {
    /// Timer tick with its sequence number, counted from 1.
    Tick(u64),
    /// Peripheral interrupt with an opaque source label.
    Interrupt(String),
    /// Terminal sentinel: the run ends once the dispatcher has seen it.
    Stop,
}

impl View for SystemEvent {
    type V = EventSpec;

    open spec fn view(&self) -> EventSpec {
        match self {
            SystemEvent::Tick(n) => EventSpec::Tick(*n),
            SystemEvent::Interrupt(label) => EventSpec::Interrupt(label@),
            SystemEvent::Stop => EventSpec::Stop,
        }
    }
}

impl Clone for SystemEvent {
    fn clone(&self) -> (copy: Self)
        ensures
            copy@ == self@,
    {
        match self {
            SystemEvent::Tick(n) => SystemEvent::Tick(*n),
            SystemEvent::Interrupt(label) => SystemEvent::Interrupt(label.clone()),
            SystemEvent::Stop => SystemEvent::Stop,
        }
    }
}

impl SystemEvent {
    /// Whether this is the terminal sentinel.
    pub fn is_stop(&self) -> (stop: bool)
        ensures
            stop == (self@ == EventSpec::Stop),
    {
        match self {
            SystemEvent::Stop => true,
            _ => false,
        }
    }

}

impl PartialEq for SystemEvent {
    fn eq(&self, other: &SystemEvent) -> (same: bool) {
        match (self, other) {
            (SystemEvent::Tick(a), SystemEvent::Tick(b)) => *a == *b,
            (SystemEvent::Interrupt(a), SystemEvent::Interrupt(b)) => a.eq(b),
            (SystemEvent::Stop, SystemEvent::Stop) => true,
            _ => false,
        }
    }
}

impl vstd::std_specs::cmp::PartialEqSpecImpl for SystemEvent {
    open spec fn obeys_eq_spec() -> bool {
        true
    }

    open spec fn eq_spec(&self, other: &SystemEvent) -> bool {
        self@ == other@
    }
}

/// Sequence numbers of the ticks in `trace`, in order of appearance.
pub open spec fn tick_payloads(trace: Seq<EventSpec>) -> Seq<u64>
    decreases trace.len(),
{
    if trace.len() == 0 {
        Seq::empty()
    } else {
        let rest = tick_payloads(trace.drop_last());
        match trace.last() {
            EventSpec::Tick(n) => rest.push(n),
            _ => rest,
        }
    }
}

/// How many times `Stop` occurs in `trace`.
pub open spec fn stop_count(trace: Seq<EventSpec>) -> nat
    decreases trace.len(),
{
    if trace.len() == 0 {
        0
    } else {
        stop_count(trace.drop_last()) + if trace.last() == EventSpec::Stop {
            1nat
        } else {
            0nat
        }
    }
}

/// How many times an interrupt labelled `label` occurs in `trace`.
pub open spec fn interrupt_count(trace: Seq<EventSpec>, label: Seq<char>) -> nat
    decreases trace.len(),
{
    if trace.len() == 0 {
        0
    } else {
        interrupt_count(trace.drop_last(), label) + if trace.last() == EventSpec::Interrupt(
            label,
        ) {
            1nat
        } else {
            0nat
        }
    }
}

/// The part of `trace` that ends with its first `Stop`; all of `trace` if it
/// holds none.
pub open spec fn until_stop(trace: Seq<EventSpec>) -> Seq<EventSpec>
    decreases trace.len(),
{
    if trace.len() == 0 {
        trace
    } else if stop_count(trace.drop_last()) > 0 {
        until_stop(trace.drop_last())
    } else {
        trace
    }
}

/// A trace without `Stop` is kept whole by `until_stop`.
pub proof fn until_stop_without_stop(trace: Seq<EventSpec>)
    requires
        stop_count(trace) == 0,
    ensures
        until_stop(trace) == trace,
{
}

/// The sequence numbers 1, 2, ..., `n`.
pub open spec fn first_ticks(n: nat) -> Seq<u64> {
    Seq::new(n, |i: int| (i + 1) as u64)
}

/// Whether `trace` holds interrupts and nothing else.
pub open spec fn only_interrupts(trace: Seq<EventSpec>) -> bool {
    forall|i: int| 0 <= i < trace.len() ==> (#[trigger] trace[i]) is Interrupt
}

/// Whether `merged` interleaves `a` and `b`: it holds the events of both, each
/// exactly once, and keeps the order that each of the two had.
pub open spec fn is_merge(merged: Seq<EventSpec>, a: Seq<EventSpec>, b: Seq<EventSpec>) -> bool
    decreases merged.len(),
{
    if merged.len() == 0 {
        a.len() == 0 && b.len() == 0
    } else {
        ||| (a.len() > 0 && a.last() == merged.last() && is_merge(
            merged.drop_last(),
            a.drop_last(),
            b,
        ))
        ||| (b.len() > 0 && b.last() == merged.last() && is_merge(
            merged.drop_last(),
            a,
            b.drop_last(),
        ))
    }
}

/// Interleaving a trace with interrupts adds no tick and no `Stop` to it, and
/// leaves its ticks in their order.
pub proof fn merge_with_interrupts_keeps_ticks(
    merged: Seq<EventSpec>,
    a: Seq<EventSpec>,
    b: Seq<EventSpec>,
)
    requires
        is_merge(merged, a, b),
        only_interrupts(b),
    ensures
        tick_payloads(merged) == tick_payloads(a),
        stop_count(merged) == stop_count(a),
    decreases merged.len(),
{
    if merged.len() > 0 {
        if a.len() > 0 && a.last() == merged.last() && is_merge(
            merged.drop_last(),
            a.drop_last(),
            b,
        ) {
            merge_with_interrupts_keeps_ticks(merged.drop_last(), a.drop_last(), b);
        } else {
            assert(b.last() == b[b.len() - 1]);
            merge_with_interrupts_keeps_ticks(merged.drop_last(), a, b.drop_last());
        }
    }
}

/// Where a trace ends with its only `Stop`, and interrupts are interleaved
/// with it, the part of the result up to its first `Stop` holds every tick of
/// the trace, in order, and ends with that one `Stop`.
pub proof fn merge_until_stop_keeps_ticks(
    merged: Seq<EventSpec>,
    a: Seq<EventSpec>,
    b: Seq<EventSpec>,
)
    requires
        is_merge(merged, a, b),
        only_interrupts(b),
        a.len() > 0,
        a.last() == EventSpec::Stop,
        stop_count(a.drop_last()) == 0,
    ensures
        until_stop(merged).len() > 0,
        until_stop(merged).last() == EventSpec::Stop,
        stop_count(until_stop(merged)) == 1,
        stop_count(until_stop(merged).drop_last()) == 0,
        tick_payloads(until_stop(merged)) == tick_payloads(a),
    decreases merged.len(),
{
    if a.last() == merged.last() && is_merge(merged.drop_last(), a.drop_last(), b) {
        merge_with_interrupts_keeps_ticks(merged.drop_last(), a.drop_last(), b);
    } else {
        assert(b.last() == b[b.len() - 1]);
        merge_with_interrupts_keeps_ticks(merged.drop_last(), a, b.drop_last());
        merge_until_stop_keeps_ticks(merged.drop_last(), a, b.drop_last());
    }
}

} // verus!
