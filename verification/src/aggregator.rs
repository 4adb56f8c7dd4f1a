//! Per-endpoint throughput: the rate of one tick and the average over a
//! measurement window.
//!
//! Times are in milliseconds, rates in whole bytes per second (rounded
//! down). Each endpoint has its own window state and its own tick clock.

use crate::clock::{elapsed_between, elapsed_ms};
use crate::sample::{
    lemma_total_bytes_concat, lemma_total_bytes_permutation, sum_bytes, total_bytes, Sample,
};
use vstd::prelude::*;

verus! {

/// `bytes` received in `elapsed_ms` milliseconds, as bytes per second; zero
/// when no time has passed.
pub open spec fn rate_per_second(bytes: nat, elapsed_ms: nat) -> nat {
    if elapsed_ms == 0 {
        0
    } else {
        bytes * 1000 / elapsed_ms
    }
}

/// The time from the previous tick to `now`; zero when there was no
/// previous tick, or when the clock has not advanced.
pub open spec fn elapsed_since(last: Option<u128>, now: u128) -> nat {
    match last {
        Some(then) => elapsed_ms(then, now),
        None => 0,
    }
}

/// The throughput of one tick.
pub fn instantaneous_rate(bytes: u64, elapsed_ms: u128) -> (rate: u128)
    ensures
        rate == rate_per_second(bytes as nat, elapsed_ms as nat),
        elapsed_ms == 0 ==> rate == 0,
        bytes == 0 ==> rate == 0,
{
    if elapsed_ms == 0 {
        0
    } else {
        assert(bytes as u128 * 1000 <= u64::MAX as u128 * 1000) by (nonlinear_arith)
            requires
                bytes <= u64::MAX,
        ;
        assert(0int / (elapsed_ms as int) == 0) by (nonlinear_arith)
            requires
                elapsed_ms > 0,
        ;
        bytes as u128 * 1000 / elapsed_ms
    }
}

/// What one tick found for one endpoint.
#[derive(Clone, Copy, Debug, PartialEq, Eq, Structural)]
pub struct TickReport {
    /// The bytes drained at this tick.
    pub bytes: u64,
    /// The time since the endpoint's previous tick.
    pub elapsed_ms: u128,
    /// The throughput of this tick in bytes per second.
    pub rate: u128,
}

/// The running totals of one endpoint within one probe cycle.
#[derive(Clone, Copy, Debug, PartialEq, Eq, Structural)]
pub struct WindowState {
    /// When the cycle began.
    pub cycle_start_time: u128,
    /// When this endpoint was last ticked in this cycle, if ever.
    pub last_tick_time: Option<u128>,
    /// The bytes drained for this endpoint since the cycle began.
    pub bytes_in_cycle: u64,
}

impl WindowState {
    /// The state at the start of a cycle.
    pub open spec fn fresh(cycle_start_time: u128) -> WindowState {
        WindowState { cycle_start_time, last_tick_time: None, bytes_in_cycle: 0 }
    }

    /// The state after a tick at `now` that drained `drained`.
    pub open spec fn ticked(self, drained: Seq<Sample>, now: u128) -> WindowState {
        WindowState {
            cycle_start_time: self.cycle_start_time,
            last_tick_time: Some(now),
            bytes_in_cycle: (self.bytes_in_cycle + total_bytes(drained)) as u64,
        }
    }

    /// What a tick at `now` that drained `drained` reports.
    pub open spec fn report(self, drained: Seq<Sample>, now: u128) -> TickReport {
        TickReport {
            bytes: total_bytes(drained) as u64,
            elapsed_ms: elapsed_since(self.last_tick_time, now) as u128,
            rate: rate_per_second(
                total_bytes(drained),
                elapsed_since(self.last_tick_time, now),
            ) as u128,
        }
    }

    /// The average throughput of the cycle over a measurement window of
    /// `measure_ms` milliseconds.
    pub open spec fn average(self, measure_ms: u64) -> nat {
        self.bytes_in_cycle as nat * 1000 / measure_ms as nat
    }

    /// Starts a cycle at `cycle_start_time`: nothing received, never ticked.
    pub fn new(cycle_start_time: u128) -> (state: WindowState)
        ensures
            state == WindowState::fresh(cycle_start_time),
    {
        WindowState { cycle_start_time, last_tick_time: None, bytes_in_cycle: 0 }
    }

    /// Restarts the window for a cycle that begins at `cycle_start_time`.
    pub fn reset(&mut self, cycle_start_time: u128)
        ensures
            *final(self) == WindowState::fresh(cycle_start_time),
    {
        self.cycle_start_time = cycle_start_time;
        self.last_tick_time = None;
        self.bytes_in_cycle = 0;
    }

    /// Accounts for one tick at `now` in which `drained` was taken from the
    /// endpoint's buffer. The tick clock advances whether or not anything
    /// was drained, so an idle tick does not stretch the next one.
    pub fn tick(&mut self, drained: &Vec<Sample>, now: u128) -> (report: TickReport)
        requires
            old(self).bytes_in_cycle + total_bytes(drained@) <= u64::MAX,
        ensures
            *final(self) == old(self).ticked(drained@, now),
            report == old(self).report(drained@, now),
            final(self).bytes_in_cycle == old(self).bytes_in_cycle + total_bytes(drained@),
            report.bytes == total_bytes(drained@),
            report.elapsed_ms == 0 || report.bytes == 0 ==> report.rate == 0,
    {
        let bytes = sum_bytes(drained) as u64;
        let elapsed: u128 = match self.last_tick_time {
            Some(then) => elapsed_between(then, now),
            None => 0,
        };
        let rate = instantaneous_rate(bytes, elapsed);
        self.bytes_in_cycle = self.bytes_in_cycle + bytes;
        self.last_tick_time = Some(now);
        TickReport { bytes, elapsed_ms: elapsed, rate }
    }

    /// The average throughput of the cycle, in bytes per second, over a
    /// measurement window of `measure_ms` milliseconds.
    pub fn average_rate(&self, measure_ms: u64) -> (rate: u128)
        requires
            measure_ms > 0,
        ensures
            rate == self.average(measure_ms),
            rate == rate_per_second(self.bytes_in_cycle as nat, measure_ms as nat),
    {
        instantaneous_rate(self.bytes_in_cycle, measure_ms as u128)
    }
}

/// One aggregator tick of one endpoint: what was drained, and when.
pub struct Tick {
    pub drained: Seq<Sample>,
    pub now: u128,
}

/// The state of a window after `ticks`, in order.
pub open spec fn run_ticks(start: WindowState, ticks: Seq<Tick>) -> WindowState
    decreases ticks.len(),
{
    if ticks.len() == 0 {
        start
    } else {
        run_ticks(start, ticks.drop_last()).ticked(ticks.last().drained, ticks.last().now)
    }
}

/// Every sample drained by `ticks`, in order.
pub open spec fn all_drained(ticks: Seq<Tick>) -> Seq<Sample>
    decreases ticks.len(),
{
    if ticks.len() == 0 {
        Seq::empty()
    } else {
        all_drained(ticks.drop_last()) + ticks.last().drained
    }
}

/// After any run of ticks on a fresh window, the cycle total is the sum of
/// every byte drained, however the samples were spread over the ticks.
pub proof fn lemma_cycle_total(cycle_start_time: u128, ticks: Seq<Tick>)
    requires
        total_bytes(all_drained(ticks)) <= u64::MAX,
    ensures
        run_ticks(WindowState::fresh(cycle_start_time), ticks).bytes_in_cycle == total_bytes(
            all_drained(ticks),
        ),
    decreases ticks.len(),
{
    if ticks.len() > 0 {
        lemma_total_bytes_concat(all_drained(ticks.drop_last()), ticks.last().drained);
        lemma_cycle_total(cycle_start_time, ticks.drop_last());
    }
}

/// The average over a full cycle is the total received divided by the
/// length of the measurement window.
pub proof fn lemma_average_over_cycle(cycle_start_time: u128, ticks: Seq<Tick>, measure_ms: u64)
    requires
        measure_ms > 0,
        total_bytes(all_drained(ticks)) <= u64::MAX,
    ensures
        run_ticks(WindowState::fresh(cycle_start_time), ticks).average(measure_ms)
            == total_bytes(all_drained(ticks)) * 1000 / measure_ms as nat,
{
    lemma_cycle_total(cycle_start_time, ticks);
}

/// Two cycles that received the same samples have the same average, no
/// matter in which order they arrived, which tick drained which sample or
/// when the ticks fired.
pub proof fn lemma_average_ignores_arrival(
    start_a: u128,
    ticks_a: Seq<Tick>,
    start_b: u128,
    ticks_b: Seq<Tick>,
    measure_ms: u64,
)
    requires
        measure_ms > 0,
        all_drained(ticks_a).to_multiset() == all_drained(ticks_b).to_multiset(),
        total_bytes(all_drained(ticks_a)) <= u64::MAX,
    ensures
        run_ticks(WindowState::fresh(start_a), ticks_a).average(measure_ms) == run_ticks(
            WindowState::fresh(start_b),
            ticks_b,
        ).average(measure_ms),
{
    lemma_total_bytes_permutation(all_drained(ticks_a), all_drained(ticks_b));
    lemma_cycle_total(start_a, ticks_a);
    lemma_cycle_total(start_b, ticks_b);
}

/// A rate is zero whenever no time has passed or nothing was received.
pub proof fn lemma_rate_zero(bytes: nat, elapsed_ms: nat)
    ensures
        rate_per_second(bytes, elapsed_ms) >= 0,
        elapsed_ms == 0 ==> rate_per_second(bytes, elapsed_ms) == 0,
        bytes == 0 ==> rate_per_second(bytes, elapsed_ms) == 0,
{
    if elapsed_ms > 0 {
        assert(0int / (elapsed_ms as int) == 0) by (nonlinear_arith)
            requires
                elapsed_ms > 0,
        ;
    }
}

/// Clamps a rate to what a label can show.
pub fn displayable_speed(rate: u128) -> (speed: u64)
    ensures
        speed == if rate > u64::MAX { u64::MAX as nat } else { rate as nat },
{
    if rate > u64::MAX as u128 {
        u64::MAX
    } else {
        rate as u64
    }
}

/// The window states of all endpoints, by endpoint index.
///
/// A tick of one endpoint reads and writes that endpoint's state alone, so
/// a stalled endpoint cannot skew the numbers of another.
pub struct Aggregator {
    windows: Vec<WindowState>,
}

impl View for Aggregator {
    type V = Seq<WindowState>;

    closed spec fn view(&self) -> Seq<WindowState> {
        self.windows@
    }
}

impl Aggregator {
    /// An aggregator without endpoints.
    pub fn new() -> (aggregator: Aggregator)
        ensures
            aggregator@ == Seq::<WindowState>::empty(),
    {
        Aggregator { windows: Vec::new() }
    }

    /// The number of endpoints.
    pub fn len(&self) -> (n: usize)
        ensures
            n == self@.len(),
    {
        self.windows.len()
    }

    /// Adds an endpoint whose first cycle begins at `cycle_start_time`, and
    /// returns its index.
    pub fn add_endpoint(&mut self, cycle_start_time: u128) -> (index: usize)
        ensures
            index == old(self)@.len(),
            final(self)@ == old(self)@.push(WindowState::fresh(cycle_start_time)),
    {
        let index = self.windows.len();
        self.windows.push(WindowState::new(cycle_start_time));
        index
    }

    /// The window state of endpoint `index`.
    pub fn window(&self, index: usize) -> (state: WindowState)
        requires
            index < self@.len(),
        ensures
            state == self@[index as int],
    {
        self.windows[index]
    }

    /// Restarts the window of endpoint `index` for a cycle that begins at
    /// `cycle_start_time`. No other endpoint is touched.
    pub fn reset_endpoint(&mut self, index: usize, cycle_start_time: u128)
        requires
            index < old(self)@.len(),
        ensures
            final(self)@ == old(self)@.update(index as int, WindowState::fresh(cycle_start_time)),
    {
        self.windows.set(index, WindowState::new(cycle_start_time));
    }

    /// Ticks endpoint `index` at `now` with what was drained from its
    /// buffer. No other endpoint is touched, and the report depends on this
    /// endpoint's state and samples alone.
    pub fn tick_endpoint(&mut self, index: usize, drained: &Vec<Sample>, now: u128) -> (report:
        TickReport)
        requires
            index < old(self)@.len(),
            old(self)@[index as int].bytes_in_cycle + total_bytes(drained@) <= u64::MAX,
        ensures
            final(self)@ == old(self)@.update(
                index as int,
                old(self)@[index as int].ticked(drained@, now),
            ),
            report == old(self)@[index as int].report(drained@, now),
    {
        let mut state = self.windows[index];
        let report = state.tick(drained, now);
        self.windows.set(index, state);
        report
    }

    /// The average throughput of endpoint `index` over a measurement
    /// window of `measure_ms` milliseconds.
    pub fn average_rate(&self, index: usize, measure_ms: u64) -> (rate: u128)
        requires
            index < self@.len(),
            measure_ms > 0,
        ensures
            rate == self@[index as int].average(measure_ms),
    {
        self.windows[index].average_rate(measure_ms)
    }
}

/// Endpoints are independent: ticking one leaves the state of every other
/// as it was, whatever was drained and whenever the tick fired.
pub proof fn lemma_tick_touches_one_endpoint(
    windows: Seq<WindowState>,
    index: int,
    drained: Seq<Sample>,
    now: u128,
    other: int,
)
    requires
        0 <= index < windows.len(),
        0 <= other < windows.len(),
        other != index,
    ensures
        windows.update(index, windows[index].ticked(drained, now))[other] == windows[other],
{
}

} // verus!
