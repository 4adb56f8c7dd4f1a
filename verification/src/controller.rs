//! Probe cycles: configuration, the per-endpoint cycle state machine and
//! the order in which endpoints take their turn.
//!
//! Endpoints are probed one at a time, in list order, round and round.
//! Each number shown is therefore what one endpoint achieves with the link
//! to itself, at the cost of a longer round.

use crate::clock::{elapsed_between, elapsed_ms};
use vstd::prelude::*;

verus! {

/// One remote target.
pub struct Endpoint {
    pub name: String,
    pub url: String,
}

/// The tunable constants of a probe. Durations are in milliseconds.
#[derive(Clone, Copy, Debug, PartialEq, Eq, Structural)]
pub struct Config {
    /// How long a download runs before its chunks count.
    pub warmup_ms: u64,
    /// How long the measurement window lasts.
    pub measure_ms: u64,
    /// The interval between aggregator ticks.
    pub tick_ms: u64,
    /// The pause between the end of a window and the cycle's report.
    pub cooldown_ms: u64,
    /// The width of a grid cell in characters.
    pub column_width: usize,
    /// The speed, in bytes per second, at which the scale saturates.
    pub saturation: u64,
}

/// Why a configuration cannot be used.
#[derive(Clone, Copy, Debug, PartialEq, Eq, Structural)]
pub enum ConfigError {
    /// There is no endpoint to probe.
    NoEndpoints,
    /// A duration is zero.
    NonPositiveDuration,
}

impl Config {
    /// Whether every duration is positive.
    pub open spec fn wf(&self) -> bool {
        &&& self.warmup_ms > 0
        &&& self.measure_ms > 0
        &&& self.tick_ms > 0
        &&& self.cooldown_ms > 0
    }

    /// The time from the start of a cycle to the end of its window.
    pub open spec fn window_end(&self) -> nat {
        self.warmup_ms as nat + self.measure_ms as nat
    }

    /// The time from the start of a cycle to its report.
    pub open spec fn cycle_end(&self) -> nat {
        self.warmup_ms as nat + self.measure_ms as nat + self.cooldown_ms as nat
    }

    /// Eight seconds of warm-up, a ten-second window, one tick per second,
    /// two seconds of cool-down, twelve-character cells, and a scale that
    /// saturates at 19 MB/s.
    pub fn standard() -> (config: Config)
        ensures
            config == (Config {
                warmup_ms: 8_000,
                measure_ms: 10_000,
                tick_ms: 1_000,
                cooldown_ms: 2_000,
                column_width: 12,
                saturation: 19_000_000,
            }),
            config.wf(),
    {
        Config {
            warmup_ms: 8_000,
            measure_ms: 10_000,
            tick_ms: 1_000,
            cooldown_ms: 2_000,
            column_width: 12,
            saturation: 19_000_000,
        }
    }

    /// Checks the configuration against the endpoint list before any
    /// probing begins.
    pub fn validate(&self, endpoints: &Vec<Endpoint>) -> (checked: Result<(), ConfigError>)
        ensures
            checked == if endpoints@.len() == 0 {
                Err::<(), ConfigError>(ConfigError::NoEndpoints)
            } else if !self.wf() {
                Err::<(), ConfigError>(ConfigError::NonPositiveDuration)
            } else {
                Ok::<(), ConfigError>(())
            },
    {
        if endpoints.len() == 0 {
            Err(ConfigError::NoEndpoints)
        } else if self.warmup_ms == 0 || self.measure_ms == 0 || self.tick_ms == 0
            || self.cooldown_ms == 0 {
            Err(ConfigError::NonPositiveDuration)
        } else {
            Ok(())
        }
    }
}

/// Where an endpoint stands in its cycle.
#[derive(Clone, Copy, Debug, PartialEq, Eq, Structural)]
pub enum Phase {
    /// No download; the next step starts one.
    Idle,
    /// A download runs: warm-up first, then the measurement window.
    Downloading,
    /// The window has closed; the report is due after the cool-down.
    Cooldown,
}

/// What the caller does after a step.
#[derive(Clone, Copy, Debug, PartialEq, Eq, Structural)]
pub enum Command {
    /// Reset the endpoint's window state and start a fresh download.
    Start,
    /// Nothing is due.
    Wait,
    /// Drain the endpoint's buffer, tick its window and draw the rate.
    Sample,
    /// The window has closed: cancel the download if it still runs, then
    /// drain, tick and draw one last time.
    Close,
    /// Draw the cycle's average rate.
    Report,
}

/// The cycle state machine of one endpoint.
#[derive(Clone, Copy, Debug, PartialEq, Eq, Structural)]
pub struct CycleController {
    pub phase: Phase,
    /// When the current cycle began; meaningless while idle.
    pub cycle_start: u128,
}

impl CycleController {
    /// The controller after a step at `now`.
    pub open spec fn next(self, now: u128, config: Config) -> CycleController {
        match self.phase {
            Phase::Idle => CycleController { phase: Phase::Downloading, cycle_start: now },
            Phase::Downloading => if elapsed_ms(self.cycle_start, now) >= config.window_end() {
                CycleController { phase: Phase::Cooldown, cycle_start: self.cycle_start }
            } else {
                self
            },
            Phase::Cooldown => if elapsed_ms(self.cycle_start, now) >= config.cycle_end() {
                CycleController { phase: Phase::Idle, cycle_start: self.cycle_start }
            } else {
                self
            },
        }
    }

    /// What a step at `now` asks of the caller.
    pub open spec fn command(self, now: u128, config: Config) -> Command {
        match self.phase {
            Phase::Idle => Command::Start,
            Phase::Downloading => if elapsed_ms(self.cycle_start, now) >= config.window_end() {
                Command::Close
            } else if elapsed_ms(self.cycle_start, now) >= config.warmup_ms {
                Command::Sample
            } else {
                Command::Wait
            },
            Phase::Cooldown => if elapsed_ms(self.cycle_start, now) >= config.cycle_end() {
                Command::Report
            } else {
                Command::Wait
            },
        }
    }

    /// An idle controller.
    pub fn new() -> (controller: CycleController)
        ensures
            controller == (CycleController { phase: Phase::Idle, cycle_start: 0 }),
    {
        CycleController { phase: Phase::Idle, cycle_start: 0 }
    }

    /// Advances the cycle to `now` and says what is due.
    pub fn step(&mut self, now: u128, config: &Config) -> (command: Command)
        ensures
            *final(self) == old(self).next(now, *config),
            command == old(self).command(now, *config),
    {
        let elapsed = elapsed_between(self.cycle_start, now);
        let window_end: u128 = config.warmup_ms as u128 + config.measure_ms as u128;
        match self.phase {
            Phase::Idle => {
                self.phase = Phase::Downloading;
                self.cycle_start = now;
                Command::Start
            },
            Phase::Downloading => {
                if elapsed >= window_end {
                    self.phase = Phase::Cooldown;
                    Command::Close
                } else if elapsed >= config.warmup_ms as u128 {
                    Command::Sample
                } else {
                    Command::Wait
                }
            },
            Phase::Cooldown => {
                if elapsed >= window_end + config.cooldown_ms as u128 {
                    self.phase = Phase::Idle;
                    Command::Report
                } else {
                    Command::Wait
                }
            },
        }
    }
}

/// The phases follow one another in a fixed order: a step leaves the phase
/// as it is or moves it one place along `Idle`, `Downloading`, `Cooldown`,
/// `Idle`.
pub proof fn lemma_phase_order(controller: CycleController, now: u128, config: Config)
    ensures
        ({
            let after = controller.next(now, config).phase;
            match controller.phase {
                Phase::Idle => after == Phase::Downloading,
                Phase::Downloading => after == Phase::Downloading || after == Phase::Cooldown,
                Phase::Cooldown => after == Phase::Cooldown || after == Phase::Idle,
            }
        }),
{
}

/// Samples are asked for only inside the measurement window, and a
/// download is never left running past it.
pub proof fn lemma_commands_follow_window(controller: CycleController, now: u128, config: Config)
    ensures
        controller.command(now, config) == Command::Sample ==> {
            &&& controller.phase == Phase::Downloading
            &&& config.warmup_ms <= elapsed_ms(controller.cycle_start, now) < config.window_end()
        },
        controller.phase == Phase::Downloading && elapsed_ms(controller.cycle_start, now)
            >= config.window_end() ==> controller.command(now, config) == Command::Close,
        controller.command(now, config) == Command::Start <==> controller.phase == Phase::Idle,
{
}

/// The endpoint that takes its turn after `current`.
pub open spec fn successor(current: usize, count: usize) -> nat {
    ((current + 1) % (count as int)) as nat
}

/// The endpoint to probe after `current` when `count` endpoints take
/// turns in list order.
pub fn next_endpoint(current: usize, count: usize) -> (next: usize)
    requires
        current < count,
    ensures
        next == successor(current, count),
        next < count,
{
    proof {
        let c = count as int;
        let n = current as int + 1;
        assert(c % c == 0) by (nonlinear_arith)
            requires
                c > 0,
        ;
        assert(n < c ==> n % c == n) by (nonlinear_arith)
            requires
                n >= 0,
                c > 0,
        ;
    }
    if current + 1 == count {
        0
    } else {
        current + 1
    }
}

} // verus!
