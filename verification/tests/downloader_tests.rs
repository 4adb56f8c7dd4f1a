use speed_matrix::downloader::{
    classify_chunk, ChunkVerdict, DownloadAction, DownloadEvent, Downloader,
};
use speed_matrix::sample::{Sample, SampleBuffer};

const TW: u64 = 8_000;
const TM: u64 = 10_000;

#[test]
fn chunk_during_warmup_is_discarded() {
    assert_eq!(classify_chunk(1_000, 1_000, TW, TM), ChunkVerdict::Discard);
    assert_eq!(classify_chunk(1_000, 8_999, TW, TM), ChunkVerdict::Discard);
}

#[test]
fn chunk_inside_window_is_recorded() {
    assert_eq!(classify_chunk(1_000, 9_000, TW, TM), ChunkVerdict::Record);
    assert_eq!(classify_chunk(1_000, 18_999, TW, TM), ChunkVerdict::Record);
}

#[test]
fn chunk_after_window_stops_the_download() {
    assert_eq!(classify_chunk(1_000, 19_000, TW, TM), ChunkVerdict::Stop);
    assert_eq!(classify_chunk(1_000, u128::MAX, TW, TM), ChunkVerdict::Stop);
}

#[test]
fn clock_running_backwards_counts_as_no_time() {
    assert_eq!(classify_chunk(5_000, 1_000, TW, TM), ChunkVerdict::Discard);
    assert_eq!(classify_chunk(5_000, 1_000, 0, TM), ChunkVerdict::Record);
}

#[test]
fn window_limits_do_not_overflow() {
    assert_eq!(classify_chunk(0, u128::MAX, u64::MAX, u64::MAX), ChunkVerdict::Stop);
    assert_eq!(
        classify_chunk(0, 2 * (u64::MAX as u128) - 1, u64::MAX, u64::MAX),
        ChunkVerdict::Record
    );
}

#[test]
fn handle_appends_only_inside_the_window() {
    let start: u128 = 50_000;
    let mut downloader = Downloader::new(3, start, TW, TM);
    let mut buffer = SampleBuffer::new();
    let arrivals: [u128; 6] = [0, 7_999, 8_000, 12_345, 17_999, 18_000];
    let mut actions = Vec::new();
    for offset in arrivals.iter() {
        let event = DownloadEvent::Chunk { now: start + offset, size: 100 };
        actions.push(downloader.handle(event, &mut buffer));
    }
    assert_eq!(
        actions,
        vec![
            DownloadAction::KeepReading,
            DownloadAction::KeepReading,
            DownloadAction::KeepReading,
            DownloadAction::KeepReading,
            DownloadAction::KeepReading,
            DownloadAction::Close,
        ]
    );
    assert!(downloader.stopped);
    let drained = buffer.drain_all();
    assert_eq!(
        drained,
        vec![
            Sample { endpoint_index: 3, timestamp: start + 8_000, byte_count: 100 },
            Sample { endpoint_index: 3, timestamp: start + 12_345, byte_count: 100 },
            Sample { endpoint_index: 3, timestamp: start + 17_999, byte_count: 100 },
        ]
    );
    for s in drained.iter() {
        let elapsed = s.timestamp - start;
        assert!(elapsed >= TW as u128 && elapsed < (TW + TM) as u128);
    }
}

#[test]
fn stopped_download_appends_nothing() {
    let mut downloader = Downloader::new(0, 0, TW, TM);
    let mut buffer = SampleBuffer::new();
    assert_eq!(downloader.handle(DownloadEvent::Cancelled, &mut buffer), DownloadAction::Close);
    assert!(downloader.stopped);
    let late = DownloadEvent::Chunk { now: 9_000, size: 77 };
    assert_eq!(downloader.handle(late, &mut buffer), DownloadAction::Close);
    assert!(buffer.is_empty());
}

#[test]
fn failure_and_end_of_stream_close_the_download() {
    let mut buffer = SampleBuffer::new();
    let mut failed = Downloader::new(0, 0, TW, TM);
    assert_eq!(failed.handle(DownloadEvent::Failed, &mut buffer), DownloadAction::Close);
    assert!(failed.stopped);
    let mut ended = Downloader::new(0, 0, TW, TM);
    assert_eq!(ended.handle(DownloadEvent::StreamEnded, &mut buffer), DownloadAction::Close);
    assert!(ended.stopped);
    assert!(buffer.is_empty());
}

#[test]
fn new_download_is_running() {
    let downloader = Downloader::new(4, 99, TW, TM);
    assert_eq!(
        downloader,
        Downloader { endpoint_index: 4, start: 99, warmup_ms: TW, measure_ms: TM, stopped: false }
    );
}
