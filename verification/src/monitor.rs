//! The monitor: an observer that counts ticks and interrupts and reports them.

use vstd::prelude::*;
use crate::event::{interrupt_count, stop_count, tick_payloads, EventSpec, SystemEvent};
use crate::text::{decimal, decimal_text};

verus! {

/// Mathematical value of the monitor's counters, and of a report of them.
///
/// `entries` pairs each interrupt label seen so far with the number of times it
/// was seen, in order of first sight.
pub struct MonitorSpec {
    pub ticks: nat,
    pub entries: Seq<(Seq<char>, nat)>,
}

impl MonitorSpec {
    /// Counters before anything was observed.
    pub open spec fn empty() -> MonitorSpec {
        MonitorSpec { ticks: 0, entries: Seq::empty() }
    }

    /// No label is listed twice, and every listed label was seen at least once.
    pub open spec fn wf(self) -> bool {
        &&& forall|i: int, j: int|
            0 <= i < j < self.entries.len() ==> (#[trigger] self.entries[i]).0 != (
            #[trigger] self.entries[j]).0
        &&& forall|i: int| 0 <= i < self.entries.len() ==> (#[trigger] self.entries[i]).1 >= 1
    }

    /// Whether an interrupt labelled `label` was seen.
    pub open spec fn knows(self, label: Seq<char>) -> bool {
        exists|i: int| 0 <= i < self.entries.len() && (#[trigger] self.entries[i]).0 == label
    }

    /// Where `label` is listed, if it is.
    pub open spec fn slot(self, label: Seq<char>) -> int {
        choose|i: int| 0 <= i < self.entries.len() && (#[trigger] self.entries[i]).0 == label
    }

    /// How many interrupts labelled `label` were seen.
    pub open spec fn count(self, label: Seq<char>) -> nat {
        if self.knows(label) {
            self.entries[self.slot(label)].1
        } else {
            0
        }
    }

    /// The counters after one more event.
    pub open spec fn record(self, event: EventSpec) -> MonitorSpec {
        match event {
            EventSpec::Tick(_) => MonitorSpec { ticks: self.ticks + 1, ..self },
            EventSpec::Interrupt(label) => if self.knows(label) {
                MonitorSpec {
                    entries: self.entries.update(
                        self.slot(label),
                        (label, self.count(label) + 1),
                    ),
                    ..self
                }
            } else {
                MonitorSpec { entries: self.entries.push((label, 1)), ..self }
            },
            EventSpec::Stop => self,
        }
    }

    /// The counters after every event of `trace`, first to last.
    pub open spec fn record_all(self, trace: Seq<EventSpec>) -> MonitorSpec
        decreases trace.len(),
    {
        if trace.len() == 0 {
            self
        } else {
            self.record_all(trace.drop_last()).record(trace.last())
        }
    }

    /// Whether the counter that `event` bumps can still grow within `u64`.
    pub open spec fn has_room(self, event: EventSpec) -> bool {
        match event {
            EventSpec::Tick(_) => self.ticks < u64::MAX,
            EventSpec::Interrupt(label) => self.count(label) < u64::MAX,
            EventSpec::Stop => true,
        }
    }
}

/// A snapshot of the monitor's counters, handed to whoever prints reports.
#[derive(Debug)]
pub struct Report {
    /// Ticks observed since the monitor started.
    pub tick_count: u64,
    /// Each interrupt label with its cumulative count, in order of first sight.
    pub interrupts: Vec<(String, u64)>,
}

impl View for Report {
    type V = MonitorSpec;

    open spec fn view(&self) -> MonitorSpec {
        MonitorSpec {
            ticks: self.tick_count as nat,
            entries: Seq::new(
                self.interrupts.len() as nat,
                |i: int| (self.interrupts[i].0@, self.interrupts[i].1 as nat),
            ),
        }
    }
}

/// The counters owned by the monitor.
pub struct MonitorState {
    tick_count: u64,
    labels: Vec<String>,
    counts: Vec<u64>,
}

impl View for MonitorState {
    type V = MonitorSpec;

    closed spec fn view(&self) -> MonitorSpec {
        MonitorSpec {
            ticks: self.tick_count as nat,
            entries: Seq::new(
                self.labels.len() as nat,
                |i: int| (self.labels[i]@, self.counts[i] as nat),
            ),
        }
    }
}

impl MonitorState {
    /// The representation is consistent and the counters are well formed.
    pub closed spec fn wf(&self) -> bool {
        &&& self.labels.len() == self.counts.len()
        &&& self@.wf()
    }

    /// Counters that have seen nothing yet.
    pub fn new() -> (state: MonitorState)
        ensures
            state.wf(),
            state@ == MonitorSpec::empty(),
    {
        let state = MonitorState { tick_count: 0, labels: Vec::new(), counts: Vec::new() };
        assert(state@.entries =~= Seq::empty());
        state
    }

    /// Ticks observed so far.
    pub fn tick_count(&self) -> (ticks: u64)
        ensures
            ticks == self@.ticks,
    {
        self.tick_count
    }

    fn find(&self, label: &String) -> (found: Option<usize>)
        requires
            self.wf(),
        ensures
            match found {
                Some(i) => i < self@.entries.len() && self@.knows(label@) && self@.slot(label@)
                    == i,
                None => !self@.knows(label@),
            },
    {
        let mut i: usize = 0;
        while i < self.labels.len()
            invariant
                self.wf(),
                i <= self.labels.len(),
                forall|j: int| 0 <= j < i ==> (#[trigger] self@.entries[j]).0 != label@,
            decreases self.labels.len() - i,
        {
            if self.labels[i].eq(label) {
                assert(self@.entries[i as int].0 == label@);
                return Some(i);
            }
            i += 1;
        }
        None
    }

    /// Interrupts labelled `label` observed so far; 0 for a label never seen.
    pub fn count_of(&self, label: &str) -> (count: u64)
        requires
            self.wf(),
        ensures
            count == self@.count(label@),
    {
        let key = String::from_str(label);
        match self.find(&key) {
            Some(i) => self.counts[i],
            None => 0,
        }
    }

    /// Whether `observe` may be called with `event`: the counter it bumps is
    /// below `u64::MAX`.
    pub fn can_observe(&self, event: &SystemEvent) -> (room: bool)
        requires
            self.wf(),
        ensures
            room == self@.has_room(event@),
    {
        match event {
            SystemEvent::Tick(_) => self.tick_count < u64::MAX,
            SystemEvent::Interrupt(label) => match self.find(label) {
                Some(i) => self.counts[i] < u64::MAX,
                None => true,
            },
            SystemEvent::Stop => true,
        }
    }

    /// Counts one event: a tick bumps the tick counter, an interrupt bumps the
    /// counter of its label (listed with count 1 at first sight), and `Stop`
    /// changes nothing.
    pub fn observe(&mut self, event: &SystemEvent)
        requires
            old(self).wf(),
            old(self)@.has_room(event@),
        ensures
            final(self).wf(),
            final(self)@ == old(self)@.record(event@),
    {
        match event {
            SystemEvent::Tick(_) => {
                self.tick_count = self.tick_count + 1;
                assert(self@.entries =~= old(self)@.entries);
            },
            SystemEvent::Interrupt(label) => {
                match self.find(label) {
                    Some(i) => {
                        let bumped: u64 = self.counts[i] + 1;
                        self.counts[i] = bumped;
                        assert(self@.entries =~= old(self)@.entries.update(
                            i as int,
                            (label@, old(self)@.count(label@) + 1),
                        ));
                    },
                    None => {
                        self.labels.push(label.clone());
                        self.counts.push(1);
                        assert(self@.entries =~= old(self)@.entries.push((label@, 1)));
                    },
                }
            },
            SystemEvent::Stop => {},
        }
    }

    /// A snapshot of the counters. The counters themselves are not touched.
    pub fn report(&self) -> (report: Report)
        requires
            self.wf(),
        ensures
            report@ == self@,
    {
        let mut interrupts: Vec<(String, u64)> = Vec::new();
        let mut i: usize = 0;
        while i < self.labels.len()
            invariant
                self.wf(),
                i <= self.labels.len(),
                interrupts.len() == i,
                forall|j: int|
                    0 <= j < i ==> (#[trigger] interrupts[j]).0@ == self.labels[j]@
                        && interrupts[j].1 == self.counts[j],
            decreases self.labels.len() - i,
        {
            interrupts.push((self.labels[i].clone(), self.counts[i]));
            i += 1;
        }
        let report = Report { tick_count: self.tick_count, interrupts };
        assert(report@.entries =~= self@.entries);
        report
    }
}

/// What std's `Debug` formatting makes of a string: the string in double
/// quotes, with the characters that need it escaped.
pub uninterp spec fn debug_text(text: Seq<char>) -> Seq<char>;

/// `Debug` formatting of a `String` by std, as `{:?}` gives it. The result is
/// a function of the characters alone; the contract gives it its name and
/// claims nothing else of it.
#[verifier::external_body]
fn debug_quoted(text: &String) -> (quoted: String)
    ensures
        quoted@ == debug_text(text@),
{
    format!("{:?}", text)
}

/// The report line for one label, given the label as it is to be shown.
pub open spec fn entry_text(shown_label: Seq<char>, count: nat) -> Seq<char> {
    "Peripheral "@ + shown_label + ": "@ + decimal_text(count) + " events"@
}

/// The lines of a report: a header, the tick count, one line for each label
/// in order of first sight, and a footer.
pub open spec fn report_text(report: MonitorSpec) -> Seq<Seq<char>> {
    seq!["=== System Monitor Report ==="@, "Total ticks: "@ + decimal_text(report.ticks)]
        + Seq::new(
        report.entries.len(),
        |i: int| entry_text(debug_text(report.entries[i].0), report.entries[i].1),
    ) + seq!["=============================="@]
}

/// The text of each line of `lines`.
pub open spec fn line_views(lines: Seq<String>) -> Seq<Seq<char>> {
    Seq::new(lines.len(), |i: int| lines[i]@)
}

/// Renders the report line for one label, given the label as it is to be
/// shown.
pub fn entry_line(shown_label: &str, count: u64) -> (line: String)
    ensures
        line@ == entry_text(shown_label@, count as nat),
{
    let mut line = String::from_str("Peripheral ");
    line.append(shown_label);
    line.append(": ");
    let number = decimal(count);
    line.append(number.as_str());
    line.append(" events");
    line
}

impl Report {
    /// Renders the report, one string for each line.
    pub fn lines(&self) -> (lines: Vec<String>)
        ensures
            line_views(lines@) == report_text(self@),
    {
        let mut lines: Vec<String> = Vec::new();
        lines.push(String::from_str("=== System Monitor Report ==="));
        let mut total = String::from_str("Total ticks: ");
        let number = decimal(self.tick_count);
        total.append(number.as_str());
        lines.push(total);
        let mut i: usize = 0;
        while i < self.interrupts.len()
            invariant
                i <= self.interrupts.len(),
                lines.len() == i + 2,
                lines[0]@ == "=== System Monitor Report ==="@,
                lines[1]@ == "Total ticks: "@ + decimal_text(self@.ticks),
                forall|j: int|
                    0 <= j < i ==> (#[trigger] lines[j + 2])@ == entry_text(
                        debug_text(self@.entries[j].0),
                        self@.entries[j].1,
                    ),
            decreases self.interrupts.len() - i,
        {
            let shown = debug_quoted(&self.interrupts[i].0);
            lines.push(entry_line(shown.as_str(), self.interrupts[i].1));
            i += 1;
        }
        lines.push(String::from_str("=============================="));
        proof {
            let expected = report_text(self@);
            assert(expected.len() == lines.len());
            assert forall|k: int| 0 <= k < lines.len() implies line_views(lines@)[k]
                == expected[k] by {
                if 2 <= k < i + 2 {
                    let j = k - 2;
                    assert(lines[j + 2]@ == entry_text(
                        debug_text(self@.entries[j].0),
                        self@.entries[j].1,
                    ));
                }
            }
            assert(line_views(lines@) =~= expected);
        }
        lines
    }
}

/// What can wake the monitor: an event from the fan-out, the reporting interval,
/// a notice that events were missed, or the end of the fan-out.
#[derive(Debug)]
pub enum MonitorInput {
    /// An event arrived from the fan-out.
    Event(SystemEvent),
    /// The reporting interval elapsed.
    ReportDue,
    /// The fan-out dropped this many events before the monitor read them.
    Lagged(u64),
    /// Every publisher is gone and nothing is left to read.
    Closed,
}

/// Mathematical value of a [`MonitorInput`].
pub enum InputSpec {
    Event(EventSpec),
    ReportDue,
    Lagged(u64),
    Closed,
}

impl View for MonitorInput {
    type V = InputSpec;

    open spec fn view(&self) -> InputSpec {
        match self {
            MonitorInput::Event(event) => InputSpec::Event(event@),
            MonitorInput::ReportDue => InputSpec::ReportDue,
            MonitorInput::Lagged(skipped) => InputSpec::Lagged(*skipped),
            MonitorInput::Closed => InputSpec::Closed,
        }
    }
}

/// What the monitor's caller does after a step.
#[derive(Debug)]
pub enum MonitorAction {
    /// Nothing to print; wait for the next input.
    Continue,
    /// Print an interim report and wait for the next input.
    Interim(Report),
    /// Note that this many events were missed and wait for the next input.
    Skipped(u64),
    /// Print the last report and leave the loop.
    Final(Report),
    /// The monitor had already finished; the input was ignored.
    Halted,
}

/// Mathematical value of a [`MonitorAction`].
pub enum ActionSpec {
    Continue,
    Interim(MonitorSpec),
    Skipped(u64),
    Final(MonitorSpec),
    Halted,
}

impl View for MonitorAction {
    type V = ActionSpec;

    open spec fn view(&self) -> ActionSpec {
        match self {
            MonitorAction::Continue => ActionSpec::Continue,
            MonitorAction::Interim(report) => ActionSpec::Interim(report@),
            MonitorAction::Skipped(skipped) => ActionSpec::Skipped(*skipped),
            MonitorAction::Final(report) => ActionSpec::Final(report@),
            MonitorAction::Halted => ActionSpec::Halted,
        }
    }
}

/// Mathematical value of a [`Monitor`]: its counters and whether it has left
/// its loop.
pub struct MonitorModel {
    pub counters: MonitorSpec,
    pub finished: bool,
}

impl MonitorModel {
    /// A monitor that has seen nothing and is waiting for input.
    pub open spec fn start() -> MonitorModel {
        MonitorModel { counters: MonitorSpec::empty(), finished: false }
    }

    /// Whether `input` can be taken without a counter leaving `u64`.
    pub open spec fn accepts(self, input: InputSpec) -> bool {
        match input {
            InputSpec::Event(event) => self.finished || self.counters.has_room(event),
            _ => true,
        }
    }

    /// The monitor after `input`, and what its caller is told to do.
    pub open spec fn step(self, input: InputSpec) -> (MonitorModel, ActionSpec) {
        if self.finished {
            (self, ActionSpec::Halted)
        } else {
            match input {
                InputSpec::Event(EventSpec::Stop) => (
                    MonitorModel { finished: true, ..self },
                    ActionSpec::Final(self.counters),
                ),
                InputSpec::Event(event) => (
                    MonitorModel { counters: self.counters.record(event), ..self },
                    ActionSpec::Continue,
                ),
                InputSpec::ReportDue => (self, ActionSpec::Interim(self.counters)),
                InputSpec::Lagged(skipped) => (self, ActionSpec::Skipped(skipped)),
                InputSpec::Closed => (
                    MonitorModel { finished: true, ..self },
                    ActionSpec::Final(self.counters),
                ),
            }
        }
    }

    /// The monitor after every input of `inputs`, first to last.
    pub open spec fn run(self, inputs: Seq<InputSpec>) -> MonitorModel
        decreases inputs.len(),
    {
        if inputs.len() == 0 {
            self
        } else {
            self.run(inputs.drop_last()).step(inputs.last()).0
        }
    }
}

/// The monitor's loop as a state machine: the caller waits for whichever of the
/// fan-out and the reporting interval is ready first, hands the outcome to
/// [`Monitor::step`], and does what the returned action says.
pub struct Monitor {
    state: MonitorState,
    finished: bool,
}

impl View for Monitor {
    type V = MonitorModel;

    closed spec fn view(&self) -> MonitorModel {
        MonitorModel { counters: self.state@, finished: self.finished }
    }
}

impl Monitor {
    /// The counters are well formed.
    pub closed spec fn wf(&self) -> bool {
        self.state.wf()
    }

    /// A monitor that has seen nothing and is waiting for input.
    pub fn new() -> (monitor: Monitor)
        ensures
            monitor.wf(),
            monitor@ == MonitorModel::start(),
    {
        Monitor { state: MonitorState::new(), finished: false }
    }

    /// Whether the monitor has left its loop.
    pub fn is_finished(&self) -> (finished: bool)
        ensures
            finished == self@.finished,
    {
        self.finished
    }

    /// The counters as they stand.
    pub fn state(&self) -> (state: &MonitorState)
        ensures
            state@ == self@.counters,
            self.wf() ==> state.wf(),
    {
        &self.state
    }

    /// Whether `step` may be called with `input`.
    pub fn accepts(&self, input: &MonitorInput) -> (ok: bool)
        requires
            self.wf(),
        ensures
            ok == self@.accepts(input@),
    {
        match input {
            MonitorInput::Event(event) => self.finished || self.state.can_observe(event),
            _ => true,
        }
    }

    /// Takes one input. A tick or an interrupt is counted; `Stop` and the end
    /// of the fan-out both yield the final report and finish the monitor; the
    /// reporting interval yields an interim report and leaves every counter as
    /// it is; missed events are passed on as a number. A finished monitor
    /// ignores its input.
    pub fn step(&mut self, input: MonitorInput) -> (action: MonitorAction)
        requires
            old(self).wf(),
            old(self)@.accepts(input@),
        ensures
            final(self).wf(),
            (final(self)@, action@) == old(self)@.step(input@),
    {
        if self.finished {
            return MonitorAction::Halted;
        }
        match input {
            MonitorInput::Event(event) => {
                if event.is_stop() {
                    self.finished = true;
                    MonitorAction::Final(self.state.report())
                } else {
                    self.state.observe(&event);
                    MonitorAction::Continue
                }
            },
            MonitorInput::ReportDue => MonitorAction::Interim(self.state.report()),
            MonitorInput::Lagged(skipped) => MonitorAction::Skipped(skipped),
            MonitorInput::Closed => {
                self.finished = true;
                MonitorAction::Final(self.state.report())
            },
        }
    }
}

/// The inputs of a monitor that receives every event of `trace` and nothing
/// else: no missed event, no report falling due in between.
pub open spec fn events_only(trace: Seq<EventSpec>) -> Seq<InputSpec> {
    Seq::new(trace.len(), |i: int| InputSpec::Event(trace[i]))
}

/// Recording an event keeps the counters well formed, bumps the tick counter
/// by one for a tick, and bumps the counter of a label by one for an
/// interrupt with that label; every other counter stays as it was.
pub proof fn record_bumps_one_counter(counters: MonitorSpec, event: EventSpec, label: Seq<char>)
    requires
        counters.wf(),
    ensures
        counters.record(event).wf(),
        counters.record(event).ticks == counters.ticks + (if event is Tick {
            1nat
        } else {
            0nat
        }),
        counters.record(event).count(label) == counters.count(label) + (if event
            == EventSpec::Interrupt(label) {
            1nat
        } else {
            0nat
        }),
{
    let after = counters.record(event);
    match event {
        EventSpec::Interrupt(seen) => {
            if counters.knows(seen) {
                let at = counters.slot(seen);
                assert(after.entries.len() == counters.entries.len());
                assert forall|i: int| 0 <= i < after.entries.len() implies (
                #[trigger] after.entries[i]).0 == counters.entries[i].0 by {}
                if counters.knows(label) {
                    let k = counters.slot(label);
                    assert(after.entries[k].0 == label);
                    assert(after.knows(label));
                    let k2 = after.slot(label);
                    assert(counters.entries[k2].0 == label);
                    assert(k2 == k);
                } else {
                    if after.knows(label) {
                        let k2 = after.slot(label);
                        assert(counters.entries[k2].0 == label);
                    }
                }
            } else {
                let last = counters.entries.len() as int;
                if counters.knows(label) {
                    let k = counters.slot(label);
                    assert(after.entries[k] == counters.entries[k]);
                    assert(after.knows(label));
                    let k2 = after.slot(label);
                    if k2 == last {
                        assert(after.entries[k2].0 == seen);
                    } else {
                        assert(counters.entries[k2].0 == label);
                    }
                    assert(k2 == k);
                } else if label == seen {
                    assert(after.entries[last].0 == label);
                    assert(after.knows(label));
                    let k2 = after.slot(label);
                    if k2 != last {
                        assert(counters.entries[k2].0 == label);
                    }
                } else {
                    if after.knows(label) {
                        let k2 = after.slot(label);
                        if k2 != last {
                            assert(counters.entries[k2].0 == label);
                        }
                    }
                }
            }
        },
        _ => {},
    }
}

/// A monitor that starts empty and observes `trace` holds, for the ticks and
/// for every label, exactly the number of their occurrences in `trace`.
pub proof fn counters_match_trace(trace: Seq<EventSpec>, label: Seq<char>)
    ensures
        MonitorSpec::empty().record_all(trace).wf(),
        MonitorSpec::empty().record_all(trace).ticks == tick_payloads(trace).len(),
        MonitorSpec::empty().record_all(trace).count(label) == interrupt_count(trace, label),
    decreases trace.len(),
{
    if trace.len() > 0 {
        counters_match_trace(trace.drop_last(), label);
        record_bumps_one_counter(
            MonitorSpec::empty().record_all(trace.drop_last()),
            trace.last(),
            label,
        );
    }
}

/// A monitor that receives every event of a trace without `Stop` is still
/// running afterwards and has recorded them all.
pub proof fn monitor_records_until_stop(trace: Seq<EventSpec>)
    requires
        stop_count(trace) == 0,
    ensures
        MonitorModel::start().run(events_only(trace)) == (MonitorModel {
            counters: MonitorSpec::empty().record_all(trace),
            finished: false,
        }),
    decreases trace.len(),
{
    if trace.len() > 0 {
        monitor_records_until_stop(trace.drop_last());
        assert(events_only(trace).drop_last() =~= events_only(trace.drop_last()));
    }
}

/// Reporting is idempotent: two reports that fall due with no event between
/// them are equal, and neither changes the monitor.
pub proof fn report_is_idempotent(monitor: MonitorModel)
    ensures
        monitor.step(InputSpec::ReportDue).0 == monitor,
        monitor.step(InputSpec::ReportDue).0.step(InputSpec::ReportDue).1 == monitor.step(
            InputSpec::ReportDue,
        ).1,
        !monitor.finished ==> monitor.step(InputSpec::ReportDue).1 == ActionSpec::Interim(
            monitor.counters,
        ),
{
}

/// A finished monitor stays as it is, whatever it is handed.
pub proof fn finished_monitor_is_terminal(monitor: MonitorModel, inputs: Seq<InputSpec>)
    requires
        monitor.finished,
    ensures
        monitor.run(inputs) == monitor,
    decreases inputs.len(),
{
    if inputs.len() > 0 {
        finished_monitor_is_terminal(monitor, inputs.drop_last());
    }
}

} // verus!
