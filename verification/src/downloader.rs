//! The decisions of one endpoint's download: which chunks count, and when
//! to close the stream.
//!
//! The transport lives elsewhere. It reports each event to
//! [`Downloader::handle`] and does what the returned action says.

use crate::clock::{elapsed_between, elapsed_ms};
use crate::sample::{Sample, SampleBuffer};
use vstd::prelude::*;

verus! {

/// What to do with a chunk, by the time it arrived.
#[derive(Clone, Copy, Debug, PartialEq, Eq, Structural)]
pub enum ChunkVerdict {
    /// It arrived during warm-up and does not count.
    Discard,
    /// It arrived inside the measurement window.
    Record,
    /// The measurement window has closed.
    Stop,
}

/// Whether `elapsed` lies inside the measurement window, which opens after
/// `warmup_ms` and lasts `measure_ms`.
pub open spec fn in_window(elapsed: nat, warmup_ms: u64, measure_ms: u64) -> bool {
    warmup_ms <= elapsed < warmup_ms + measure_ms
}

/// The verdict on a chunk that arrived `elapsed` milliseconds after the
/// download began.
pub open spec fn verdict_at(elapsed: nat, warmup_ms: u64, measure_ms: u64) -> ChunkVerdict {
    if elapsed < warmup_ms {
        ChunkVerdict::Discard
    } else if elapsed >= warmup_ms + measure_ms {
        ChunkVerdict::Stop
    } else {
        ChunkVerdict::Record
    }
}

/// Decides what to do with a chunk that arrived at `now` in a download
/// that began at `start`.
pub fn classify_chunk(start: u128, now: u128, warmup_ms: u64, measure_ms: u64) -> (verdict:
    ChunkVerdict)
    ensures
        verdict == verdict_at(elapsed_ms(start, now), warmup_ms, measure_ms),
        verdict == ChunkVerdict::Record <==> in_window(
            elapsed_ms(start, now),
            warmup_ms,
            measure_ms,
        ),
{
    let elapsed = elapsed_between(start, now);
    if elapsed < warmup_ms as u128 {
        ChunkVerdict::Discard
    } else if elapsed >= warmup_ms as u128 + measure_ms as u128 {
        ChunkVerdict::Stop
    } else {
        ChunkVerdict::Record
    }
}

/// Something that happened to a download.
#[derive(Clone, Copy, Debug, PartialEq, Eq, Structural)]
pub enum DownloadEvent {
    /// `size` bytes arrived at `now`.
    Chunk { now: u128, size: u64 },
    /// The response ended.
    StreamEnded,
    /// Connecting or reading failed.
    Failed,
    /// The cycle ended and the download was told to stop.
    Cancelled,
}

/// What the transport does next.
#[derive(Clone, Copy, Debug, PartialEq, Eq, Structural)]
pub enum DownloadAction {
    /// Wait for the next chunk.
    KeepReading,
    /// Close the connection; this download is over.
    Close,
}

/// The state of one endpoint's download within one cycle.
#[derive(Clone, Copy, Debug, PartialEq, Eq, Structural)]
pub struct Downloader {
    /// The endpoint whose buffer this download fills.
    pub endpoint_index: usize,
    /// When the download began.
    pub start: u128,
    /// How long after `start` the measurement window opens.
    pub warmup_ms: u64,
    /// How long the measurement window lasts.
    pub measure_ms: u64,
    /// Whether the download is over.
    pub stopped: bool,
}

impl Downloader {
    /// The sample that `event` makes this download append, if any: a chunk
    /// that arrives inside the measurement window while the download runs.
    pub open spec fn appended(self, event: DownloadEvent) -> Option<Sample> {
        match event {
            DownloadEvent::Chunk { now, size } => if !self.stopped && in_window(
                elapsed_ms(self.start, now),
                self.warmup_ms,
                self.measure_ms,
            ) {
                Some(Sample { endpoint_index: self.endpoint_index, timestamp: now, byte_count: size })
            } else {
                None
            },
            _ => None,
        }
    }

    /// Whether the download is over after `event`: it stays over once it
    /// is, and ends with the stream, a failure, a cancellation, or the
    /// first chunk after the window has closed.
    pub open spec fn stops(self, event: DownloadEvent) -> bool {
        self.stopped || match event {
            DownloadEvent::Chunk { now, size } => elapsed_ms(self.start, now) >= self.warmup_ms
                + self.measure_ms,
            _ => true,
        }
    }

    /// The download after `event`.
    pub open spec fn after(self, event: DownloadEvent) -> Downloader {
        Downloader {
            endpoint_index: self.endpoint_index,
            start: self.start,
            warmup_ms: self.warmup_ms,
            measure_ms: self.measure_ms,
            stopped: self.stops(event),
        }
    }

    /// A running download for endpoint `endpoint_index` that began at
    /// `start`.
    pub fn new(endpoint_index: usize, start: u128, warmup_ms: u64, measure_ms: u64) -> (downloader:
        Downloader)
        ensures
            downloader == (Downloader {
                endpoint_index,
                start,
                warmup_ms,
                measure_ms,
                stopped: false,
            }),
    {
        Downloader { endpoint_index, start, warmup_ms, measure_ms, stopped: false }
    }

    /// Takes one event. A chunk inside the measurement window is appended
    /// to `buffer`; nothing else touches the buffer. The action is `Close`
    /// exactly when the download is over.
    pub fn handle(&mut self, event: DownloadEvent, buffer: &mut SampleBuffer) -> (action:
        DownloadAction)
        ensures
            *final(self) == old(self).after(event),
            final(buffer)@ == match old(self).appended(event) {
                Some(sample) => old(buffer)@.push(sample),
                None => old(buffer)@,
            },
            action == if old(self).stops(event) {
                DownloadAction::Close
            } else {
                DownloadAction::KeepReading
            },
    {
        if self.stopped {
            return DownloadAction::Close;
        }
        match event {
            DownloadEvent::Chunk { now, size } => {
                match classify_chunk(self.start, now, self.warmup_ms, self.measure_ms) {
                    ChunkVerdict::Discard => DownloadAction::KeepReading,
                    ChunkVerdict::Record => {
                        buffer.append(
                            Sample {
                                endpoint_index: self.endpoint_index,
                                timestamp: now,
                                byte_count: size,
                            },
                        );
                        DownloadAction::KeepReading
                    },
                    ChunkVerdict::Stop => {
                        self.stopped = true;
                        DownloadAction::Close
                    },
                }
            },
            _ => {
                self.stopped = true;
                DownloadAction::Close
            },
        }
    }
}

/// Whether every sample of `samples` arrived inside the measurement window
/// of a download that began at `start`.
pub open spec fn all_in_window(
    samples: Seq<Sample>,
    start: u128,
    warmup_ms: u64,
    measure_ms: u64,
) -> bool {
    forall|i: int|
        0 <= i < samples.len() ==> in_window(
            elapsed_ms(start, #[trigger] samples[i].timestamp),
            warmup_ms,
            measure_ms,
        )
}

/// A download appends only what arrived inside its measurement window and
/// before it stopped: never a chunk from the warm-up, never one from after
/// the window has closed.
pub proof fn lemma_appends_only_in_window(downloader: Downloader, event: DownloadEvent)
    ensures
        match downloader.appended(event) {
            Some(sample) => {
                &&& !downloader.stopped
                &&& sample.endpoint_index == downloader.endpoint_index
                &&& elapsed_ms(downloader.start, sample.timestamp) >= downloader.warmup_ms
                &&& elapsed_ms(downloader.start, sample.timestamp) < downloader.warmup_ms
                    + downloader.measure_ms
            },
            None => true,
        },
{
}

/// The state of a download after `events`, in order.
pub open spec fn run_events(downloader: Downloader, events: Seq<DownloadEvent>) -> Downloader
    decreases events.len(),
{
    if events.len() == 0 {
        downloader
    } else {
        run_events(downloader, events.drop_last()).after(events.last())
    }
}

/// What `events`, in order, make a download append to a buffer that held
/// `held`.
pub open spec fn run_appends(
    downloader: Downloader,
    events: Seq<DownloadEvent>,
    held: Seq<Sample>,
) -> Seq<Sample>
    decreases events.len(),
{
    if events.len() == 0 {
        held
    } else {
        let before = run_appends(downloader, events.drop_last(), held);
        match run_events(downloader, events.drop_last()).appended(events.last()) {
            Some(sample) => before.push(sample),
            None => before,
        }
    }
}

/// Whatever happens to a download, its buffer only ever holds samples from
/// inside the measurement window.
pub proof fn lemma_buffer_stays_in_window(
    downloader: Downloader,
    events: Seq<DownloadEvent>,
    held: Seq<Sample>,
)
    requires
        all_in_window(held, downloader.start, downloader.warmup_ms, downloader.measure_ms),
    ensures
        all_in_window(
            run_appends(downloader, events, held),
            downloader.start,
            downloader.warmup_ms,
            downloader.measure_ms,
        ),
        run_events(downloader, events).start == downloader.start,
        run_events(downloader, events).warmup_ms == downloader.warmup_ms,
        run_events(downloader, events).measure_ms == downloader.measure_ms,
    decreases events.len(),
{
    if events.len() > 0 {
        lemma_buffer_stays_in_window(downloader, events.drop_last(), held);
        lemma_appends_only_in_window(
            run_events(downloader, events.drop_last()),
            events.last(),
        );
    }
}

/// Once a download is over it appends nothing more.
pub proof fn lemma_stopped_appends_nothing(downloader: Downloader, event: DownloadEvent)
    requires
        downloader.stopped,
    ensures
        downloader.appended(event) == None::<Sample>,
        downloader.after(event) == downloader,
{
}

} // verus!
