use speed_matrix::aggregator::{
    displayable_speed, instantaneous_rate, Aggregator, TickReport, WindowState,
};
use speed_matrix::controller::{Command, Config, CycleController};
use speed_matrix::downloader::{DownloadEvent, Downloader};
use speed_matrix::sample::{sum_bytes, Sample, SampleBuffer};

fn sample(timestamp: u128, byte_count: u64) -> Sample {
    Sample { endpoint_index: 0, timestamp, byte_count }
}

/// Runs one cycle with a step every tick; `arrivals` holds each event and
/// the time after the start of the cycle at which it happens. Returns the
/// rate of every tick and the cycle's average.
fn run_cycle(config: &Config, start: u128, arrivals: &[(u128, DownloadEvent)]) -> (Vec<u128>, u128) {
    let mut controller = CycleController::new();
    let mut window = WindowState::new(0);
    let mut buffer = SampleBuffer::new();
    let mut downloader = Downloader::new(0, start, config.warmup_ms, config.measure_ms);
    let mut rates = Vec::new();
    let mut next_event = 0;
    let mut now = start;
    loop {
        while next_event < arrivals.len() && start + arrivals[next_event].0 <= now {
            downloader.handle(arrivals[next_event].1, &mut buffer);
            next_event += 1;
        }
        match controller.step(now, config) {
            Command::Start => {
                window.reset(now);
                downloader = Downloader::new(0, now, config.warmup_ms, config.measure_ms);
            }
            Command::Wait => {}
            Command::Sample => {
                let drained = buffer.drain_all();
                rates.push(window.tick(&drained, now).rate);
            }
            Command::Close => {
                downloader.handle(DownloadEvent::Cancelled, &mut buffer);
                let drained = buffer.drain_all();
                rates.push(window.tick(&drained, now).rate);
            }
            Command::Report => {
                return (rates, window.average_rate(config.measure_ms));
            }
        }
        now += config.tick_ms as u128;
    }
}

#[test]
fn rate_is_bytes_per_second() {
    assert_eq!(instantaneous_rate(100_000, 1_000), 100_000);
    assert_eq!(instantaneous_rate(100_000, 2_000), 50_000);
    assert_eq!(instantaneous_rate(100_000, 500), 200_000);
    assert_eq!(instantaneous_rate(1, 3_000), 0);
    assert_eq!(instantaneous_rate(10, 3_000), 3);
}

#[test]
fn rate_is_zero_without_time_or_bytes() {
    assert_eq!(instantaneous_rate(100_000, 0), 0);
    assert_eq!(instantaneous_rate(u64::MAX, 0), 0);
    assert_eq!(instantaneous_rate(0, 1_000), 0);
    assert_eq!(instantaneous_rate(0, 0), 0);
}

#[test]
fn rate_does_not_overflow() {
    assert_eq!(instantaneous_rate(u64::MAX, 1), u64::MAX as u128 * 1_000);
    assert_eq!(instantaneous_rate(u64::MAX, u128::MAX), 0);
}

#[test]
fn first_tick_has_no_elapsed_time() {
    let mut window = WindowState::new(5_000);
    assert_eq!(
        window,
        WindowState { cycle_start_time: 5_000, last_tick_time: None, bytes_in_cycle: 0 }
    );
    let report = window.tick(&vec![sample(5_500, 700)], 6_000);
    assert_eq!(report, TickReport { bytes: 700, elapsed_ms: 0, rate: 0 });
    assert_eq!(
        window,
        WindowState { cycle_start_time: 5_000, last_tick_time: Some(6_000), bytes_in_cycle: 700 }
    );
}

#[test]
fn tick_measures_from_the_previous_tick() {
    let mut window = WindowState::new(0);
    window.tick(&Vec::new(), 1_000);
    let report = window.tick(&vec![sample(1_200, 3_000), sample(1_900, 1_000)], 3_000);
    assert_eq!(report, TickReport { bytes: 4_000, elapsed_ms: 2_000, rate: 2_000 });
    assert_eq!(window.bytes_in_cycle, 4_000);
    assert_eq!(window.last_tick_time, Some(3_000));
}

#[test]
fn idle_tick_advances_the_clock() {
    let mut window = WindowState::new(0);
    window.tick(&Vec::new(), 1_000);
    let idle = window.tick(&Vec::new(), 5_000);
    assert_eq!(idle, TickReport { bytes: 0, elapsed_ms: 4_000, rate: 0 });
    let busy = window.tick(&vec![sample(5_500, 8_000)], 6_000);
    assert_eq!(busy, TickReport { bytes: 8_000, elapsed_ms: 1_000, rate: 8_000 });
}

#[test]
fn collapsed_ticks_report_zero() {
    let mut window = WindowState::new(0);
    window.tick(&Vec::new(), 1_000);
    let same = window.tick(&vec![sample(1_000, 500)], 1_000);
    assert_eq!(same, TickReport { bytes: 500, elapsed_ms: 0, rate: 0 });
    let earlier = window.tick(&vec![sample(900, 500)], 900);
    assert_eq!(earlier, TickReport { bytes: 500, elapsed_ms: 0, rate: 0 });
    assert_eq!(window.bytes_in_cycle, 1_000);
}

#[test]
fn reset_starts_a_new_cycle() {
    let mut window = WindowState::new(0);
    window.tick(&vec![sample(1, 10)], 1_000);
    window.reset(20_000);
    assert_eq!(window, WindowState::new(20_000));
}

#[test]
fn average_is_total_over_window() {
    let mut window = WindowState::new(0);
    window.tick(&vec![sample(1, 12_345)], 1_000);
    window.tick(&vec![sample(2, 55)], 2_000);
    assert_eq!(window.average_rate(10_000), 1_240);
    assert_eq!(window.average_rate(1_000), 12_400);
    assert_eq!(window.average_rate(3_000), 4_133);
}

#[test]
fn average_ignores_how_bytes_arrived() {
    let samples: Vec<Sample> = (0..10u64).map(|k| sample(k as u128, 1_000 * (k + 1))).collect();
    let mut all_at_once = WindowState::new(0);
    all_at_once.tick(&samples, 10_000);
    let mut one_by_one = WindowState::new(7);
    for (k, s) in samples.iter().enumerate() {
        one_by_one.tick(&vec![*s], 1_000 * (k as u128 + 1));
    }
    let mut lumpy = WindowState::new(3);
    lumpy.tick(&Vec::new(), 500);
    lumpy.tick(&samples[0..7].to_vec(), 600);
    lumpy.tick(&Vec::new(), 9_000);
    lumpy.tick(&samples[7..10].to_vec(), 9_001);
    assert_eq!(sum_bytes(&samples), 55_000);
    assert_eq!(all_at_once.average_rate(10_000), 5_500);
    assert_eq!(one_by_one.average_rate(10_000), 5_500);
    assert_eq!(lumpy.average_rate(10_000), 5_500);
}

#[test]
fn single_chunk_in_window() {
    let config = Config::standard();
    let arrivals = [(9_000u128, DownloadEvent::Chunk { now: 1_000_000 + 9_000, size: 100_000 })];
    let (rates, average) = run_cycle(&config, 1_000_000, &arrivals);
    assert_eq!(rates.len(), 11);
    for (k, rate) in rates.iter().enumerate() {
        if k == 1 {
            assert_eq!(*rate, 100_000);
        } else {
            assert_eq!(*rate, 0);
        }
    }
    assert_eq!(average, 10_000);
}

#[test]
fn download_fails_inside_window() {
    let config = Config::standard();
    let start: u128 = 2_000_000;
    let arrivals = [
        (3_000u128, DownloadEvent::Chunk { now: start + 3_000, size: 999_999 }),
        (8_500, DownloadEvent::Chunk { now: start + 8_500, size: 20_000 }),
        (9_500, DownloadEvent::Chunk { now: start + 9_500, size: 20_000 }),
        (10_500, DownloadEvent::Chunk { now: start + 10_500, size: 10_000 }),
        (11_000, DownloadEvent::Failed),
        (12_500, DownloadEvent::Chunk { now: start + 12_500, size: 70_000 }),
    ];
    let (rates, average) = run_cycle(&config, start, &arrivals);
    assert_eq!(rates, vec![0, 20_000, 20_000, 10_000, 0, 0, 0, 0, 0, 0, 0]);
    assert_eq!(average, 5_000);
}

#[test]
fn stalled_endpoint_does_not_skew_active_one() {
    let mut both = Aggregator::new();
    let stalled = both.add_endpoint(0);
    let active = both.add_endpoint(0);
    let mut alone = Aggregator::new();
    let only = alone.add_endpoint(0);
    assert_eq!((stalled, active, only), (0, 1, 0));
    both.tick_endpoint(stalled, &Vec::new(), 8_000);
    both.tick_endpoint(active, &Vec::new(), 8_000);
    alone.tick_endpoint(only, &Vec::new(), 8_000);
    for k in 1..=10u128 {
        let now = 8_000 + k * 1_000;
        let drained = vec![
            Sample { endpoint_index: 1, timestamp: now - 600, byte_count: 400_000 },
            Sample { endpoint_index: 1, timestamp: now - 100, byte_count: 600_000 },
        ];
        let idle = both.tick_endpoint(stalled, &Vec::new(), now);
        let busy = both.tick_endpoint(active, &drained, now);
        let reference = alone.tick_endpoint(only, &drained, now);
        assert_eq!(idle, TickReport { bytes: 0, elapsed_ms: 1_000, rate: 0 });
        assert_eq!(busy, TickReport { bytes: 1_000_000, elapsed_ms: 1_000, rate: 1_000_000 });
        assert_eq!(busy, reference);
    }
    assert_eq!(both.average_rate(stalled, 10_000), 0);
    assert_eq!(both.average_rate(active, 10_000), 1_000_000);
    assert_eq!(both.window(active), alone.window(only));
    assert_eq!(both.len(), 2);
}

#[test]
fn resetting_one_endpoint_leaves_the_others() {
    let mut aggregator = Aggregator::new();
    aggregator.add_endpoint(0);
    aggregator.add_endpoint(0);
    aggregator.tick_endpoint(0, &vec![sample(1, 10)], 1_000);
    aggregator.tick_endpoint(1, &vec![sample(1, 20)], 1_000);
    aggregator.reset_endpoint(0, 30_000);
    assert_eq!(aggregator.window(0), WindowState::new(30_000));
    assert_eq!(
        aggregator.window(1),
        WindowState { cycle_start_time: 0, last_tick_time: Some(1_000), bytes_in_cycle: 20 }
    );
}

#[test]
fn displayable_speed_clamps() {
    assert_eq!(displayable_speed(0), 0);
    assert_eq!(displayable_speed(1_000_000), 1_000_000);
    assert_eq!(displayable_speed(u64::MAX as u128), u64::MAX);
    assert_eq!(displayable_speed(u64::MAX as u128 + 1), u64::MAX);
    assert_eq!(displayable_speed(u128::MAX), u64::MAX);
}
