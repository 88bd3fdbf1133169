//! Peripheral producers: a UART that emits on a fixed beat and a GPIO line
//! that emits at jittered intervals. Both emit interrupts only.

use rand::rngs::StdRng;
use rand::Rng;
use vstd::prelude::*;
use crate::event::{EventSpec, SystemEvent};
use crate::text::{bool_str, bool_text, decimal, decimal_text};

verus! {

/// Pause of the UART after each delivered byte, in milliseconds.
pub const UART_SETTLE_MS: u64 = 5;

/// The generator of `rand` that each jittered peripheral owns. Nothing of its
/// inside is visible to the proofs.
#[verifier::external_type_specification]
#[verifier::external_body]
pub struct ExStdRng(StdRng);

/// `Rng::gen_range` of `rand` on an inclusive range of `u64`. The range must
/// not be empty, since `gen_range` panics on an empty one; the value drawn
/// lies in the range, both ends included. Which value it is depends on the
/// generator's state, of which nothing is claimed.
#[verifier::external_body]
fn draw_in_range(rng: &mut StdRng, low: u64, high: u64) -> (value: u64)
    requires
        low <= high,
    ensures
        low <= value <= high,
{
    rng.gen_range(low..=high)
}

/// `Rng::gen_ratio` of `rand`: `true` with probability `numerator` in
/// `denominator`. `gen_ratio` panics on a zero denominator and on a numerator
/// above the denominator, so both are excluded. The outcome is certain only at
/// the two ends: always `true` where the two are equal, always `false` where
/// the numerator is zero.
#[verifier::external_body]
fn draw_ratio(rng: &mut StdRng, numerator: u32, denominator: u32) -> (hit: bool)
    requires
        denominator > 0,
        numerator <= denominator,
    ensures
        numerator == denominator ==> hit,
        numerator == 0 ==> !hit,
{
    rng.gen_ratio(numerator, denominator)
}

/// Label of the UART interrupt for the byte numbered `byte`.
pub open spec fn uart_label(byte: u8) -> Seq<char> {
    "UART_BYTE:"@ + decimal_text(byte as nat)
}

/// Label of the GPIO interrupt for the line state `state`.
pub open spec fn gpio_label(state: bool) -> Seq<char> {
    "GPIO_STATE:"@ + bool_text(state)
}

/// The byte number that follows `byte`: one more, and 0 after 255.
pub open spec fn next_byte(byte: u8) -> u8 {
    if byte == u8::MAX {
        0
    } else {
        (byte + 1) as u8
    }
}

/// Whether the jitter window round `avg_interval_ms` fits in `u64`.
pub open spec fn jitter_fits(avg_interval_ms: u64) -> bool {
    avg_interval_ms + avg_interval_ms / 2 <= u64::MAX
}

/// Shortest delay of the jitter window: half the average.
pub open spec fn jitter_low(avg_interval_ms: u64) -> int {
    avg_interval_ms as int / 2
}

/// Longest delay of the jitter window: one and a half times the average.
pub open spec fn jitter_high(avg_interval_ms: u64) -> int {
    avg_interval_ms + avg_interval_ms / 2
}

/// Renders the label of the UART interrupt for `byte`.
pub fn make_uart_label(byte: u8) -> (label: String)
    ensures
        label@ == uart_label(byte),
{
    let mut label = String::from_str("UART_BYTE:");
    let number = decimal(byte as u64);
    label.append(number.as_str());
    label
}

/// Renders the label of the GPIO interrupt for `state`.
pub fn make_gpio_label(state: bool) -> (label: String)
    ensures
        label@ == gpio_label(state),
{
    let mut label = String::from_str("GPIO_STATE:");
    label.append(bool_str(state));
    label
}

/// Whether a GPIO line with this average interval can be made: its jitter
/// window must fit in `u64`.
pub fn check_jitter_fits(avg_interval_ms: u64) -> (fits: bool)
    ensures
        fits == jitter_fits(avg_interval_ms),
{
    avg_interval_ms / 2 <= u64::MAX - avg_interval_ms
}

/// What the UART's caller does next.
#[derive(Debug)]
pub enum UartAction {
    /// Wait for the next beat of the interval, send the event, and after a
    /// delivered send pause for `settle_ms` milliseconds.
    AwaitBeatThenSend { event: SystemEvent, settle_ms: u64 },
    /// Leave the loop: the consumer is gone.
    Finished,
}

/// Mathematical value of a [`UartAction`].
pub enum UartActionSpec {
    AwaitBeatThenSend { event: EventSpec, settle_ms: u64 },
    Finished,
}

impl View for UartAction {
    type V = UartActionSpec;

    open spec fn view(&self) -> UartActionSpec {
        match self {
            UartAction::AwaitBeatThenSend { event, settle_ms } => {
                UartActionSpec::AwaitBeatThenSend { event: event@, settle_ms: *settle_ms }
            },
            UartAction::Finished => UartActionSpec::Finished,
        }
    }
}

/// What the GPIO line's caller does next.
#[derive(Debug)]
pub enum GpioAction {
    /// Sleep for `delay_ms` milliseconds, then send the event.
    SleepThenSend { delay_ms: u64, event: SystemEvent },
    /// Leave the loop: the consumer is gone.
    Finished,
}

/// Mathematical value of a [`GpioAction`].
pub enum GpioActionSpec {
    SleepThenSend { delay_ms: u64, event: EventSpec },
    Finished,
}

impl View for GpioAction {
    type V = GpioActionSpec;

    open spec fn view(&self) -> GpioActionSpec {
        match self {
            GpioAction::SleepThenSend { delay_ms, event } => {
                GpioActionSpec::SleepThenSend { delay_ms: *delay_ms, event: event@ }
            },
            GpioAction::Finished => GpioActionSpec::Finished,
        }
    }
}

/// Mathematical value of a [`Uart`].
pub struct UartModel {
    /// Beat of the interval in milliseconds.
    pub period_ms: u64,
    /// Number of the byte sent last; 0 before the first.
    pub byte_counter: u8,
    /// Whether a send was refused.
    pub done: bool,
}

impl UartModel {
    /// A UART that has sent nothing yet.
    pub open spec fn start(period_ms: u64) -> UartModel {
        UartModel { period_ms, byte_counter: 0, done: false }
    }

    /// What the UART wants done.
    pub open spec fn pending(self) -> UartActionSpec {
        if self.done {
            UartActionSpec::Finished
        } else {
            UartActionSpec::AwaitBeatThenSend {
                event: EventSpec::Interrupt(uart_label(next_byte(self.byte_counter))),
                settle_ms: UART_SETTLE_MS,
            }
        }
    }

    /// The UART after its pending send was attempted: the byte is counted, and
    /// a refused send ends the UART. It never retries.
    pub open spec fn advance(self, delivered: bool) -> UartModel {
        if self.done {
            self
        } else {
            UartModel { byte_counter: next_byte(self.byte_counter), done: !delivered, ..self }
        }
    }
}

/// The UART simulator: one interrupt per beat, labelled with a byte counter
/// that wraps round after 255.
pub struct Uart {
    period_ms: u64,
    byte_counter: u8,
    done: bool,
}

impl View for Uart {
    type V = UartModel;

    closed spec fn view(&self) -> UartModel {
        UartModel { period_ms: self.period_ms, byte_counter: self.byte_counter, done: self.done }
    }
}

impl Uart {
    /// A UART with the given beat that has sent nothing yet.
    pub fn new(period_ms: u64) -> (uart: Uart)
        ensures
            uart@ == UartModel::start(period_ms),
    {
        Uart { period_ms, byte_counter: 0, done: false }
    }

    /// Beat of the interval in milliseconds.
    pub fn period_ms(&self) -> (period: u64)
        ensures
            period == self@.period_ms,
    {
        self.period_ms
    }

    /// Whether the UART has ended.
    pub fn is_done(&self) -> (done: bool)
        ensures
            done == self@.done,
    {
        self.done
    }

    /// What to do next. Asking changes nothing.
    pub fn pending(&self) -> (action: UartAction)
        ensures
            action@ == self@.pending(),
    {
        if self.done {
            UartAction::Finished
        } else {
            let byte = self.byte_counter.wrapping_add(1);
            UartAction::AwaitBeatThenSend {
                event: SystemEvent::Interrupt(make_uart_label(byte)),
                settle_ms: UART_SETTLE_MS,
            }
        }
    }

    /// Records the outcome of the pending send.
    pub fn advance(&mut self, delivered: bool)
        ensures
            final(self)@ == old(self)@.advance(delivered),
    {
        if !self.done {
            self.byte_counter = self.byte_counter.wrapping_add(1);
            self.done = !delivered;
        }
    }
}

/// Mathematical value of a [`Gpio`], its generator left aside.
pub struct GpioModel {
    /// Average interval between events in milliseconds.
    pub avg_interval_ms: u64,
    /// Whether a send was refused.
    pub done: bool,
}

impl GpioModel {
    /// Whether `action` is one that a GPIO line in this state may ask for: none
    /// once it has ended; before that, a sleep within the jitter window
    /// followed by an interrupt that reports one of the two line states.
    pub open spec fn allows(self, action: GpioActionSpec) -> bool {
        if self.done {
            action == GpioActionSpec::Finished
        } else {
            exists|delay_ms: u64, state: bool|
                jitter_low(self.avg_interval_ms) <= delay_ms <= jitter_high(self.avg_interval_ms)
                    && action == #[trigger] gpio_emission(delay_ms, state)
        }
    }

    /// The GPIO line after its pending send was attempted: a refused send ends
    /// it. It never retries.
    pub open spec fn advance(self, delivered: bool) -> GpioModel {
        if self.done {
            self
        } else {
            GpioModel { done: !delivered, ..self }
        }
    }
}

/// The action of a GPIO line that drew the delay `delay_ms` and the line
/// state `state`.
pub open spec fn gpio_emission(delay_ms: u64, state: bool) -> GpioActionSpec {
    GpioActionSpec::SleepThenSend {
        delay_ms,
        event: EventSpec::Interrupt(gpio_label(state)),
    }
}

/// Builds the action of a GPIO line from what was drawn for it.
pub fn make_gpio_emission(delay_ms: u64, state: bool) -> (action: GpioAction)
    ensures
        action@ == gpio_emission(delay_ms, state),
{
    GpioAction::SleepThenSend {
        delay_ms,
        event: SystemEvent::Interrupt(make_gpio_label(state)),
    }
}

/// The GPIO simulator: sleeps for a delay drawn from the jitter window round
/// its average interval, then reports a line state drawn with even odds. It
/// owns its generator, so no two peripherals share a stream.
pub struct Gpio {
    avg_interval_ms: u64,
    rng: StdRng,
    done: bool,
}

impl View for Gpio {
    type V = GpioModel;

    closed spec fn view(&self) -> GpioModel {
        GpioModel { avg_interval_ms: self.avg_interval_ms, done: self.done }
    }
}

impl Gpio {
    /// A GPIO line with the given average interval, drawing from `rng`.
    pub fn new(avg_interval_ms: u64, rng: StdRng) -> (gpio: Gpio)
        requires
            jitter_fits(avg_interval_ms),
        ensures
            gpio@ == (GpioModel { avg_interval_ms, done: false }),
    {
        Gpio { avg_interval_ms, rng, done: false }
    }

    /// Average interval between events in milliseconds.
    pub fn avg_interval_ms(&self) -> (avg: u64)
        ensures
            avg == self@.avg_interval_ms,
    {
        self.avg_interval_ms
    }

    /// Whether the GPIO line has ended.
    pub fn is_done(&self) -> (done: bool)
        ensures
            done == self@.done,
    {
        self.done
    }

    /// Draws the next delay and line state and says what to do with them.
    /// Only the generator moves on.
    pub fn next_action(&mut self) -> (action: GpioAction)
        requires
            jitter_fits(old(self)@.avg_interval_ms),
        ensures
            final(self)@ == old(self)@,
            old(self)@.allows(action@),
    {
        if self.done {
            return GpioAction::Finished;
        }
        let low = self.avg_interval_ms / 2;
        let high = self.avg_interval_ms + self.avg_interval_ms / 2;
        let delay_ms = draw_in_range(&mut self.rng, low, high);
        let state = draw_ratio(&mut self.rng, 1, 2);
        make_gpio_emission(delay_ms, state)
    }

    /// Records the outcome of the pending send.
    pub fn advance(&mut self, delivered: bool)
        ensures
            final(self)@ == old(self)@.advance(delivered),
    {
        if !self.done {
            self.done = !delivered;
        }
    }
}

} // verus!
