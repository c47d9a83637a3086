//! The video path of the streamer: what it reports of its own speed, and
//! what it answers the streaming client for all transports together.

use crate::transport::{StatsHostProcessingLatency, StreamerStatsUpdate};
use vstd::prelude::*;

verus! {

/// The length of the interval between two reports, in nanoseconds.
pub const REPORT_INTERVAL_NS: u64 = 1_000_000_000;

/// What the streaming client is answered for a piece of video.
#[derive(Clone, Copy, Debug, PartialEq, Eq, Structural)]
pub enum DecodeResult {
    /// The piece is taken.
    Done,
    /// A frame that stands alone is needed before more pieces are of use.
    NeedIdr,
}

/// The answer for all transports together, where each answered for itself:
/// the last answer that is not zero, or zero if all are.
pub open spec fn last_nonzero(results: Seq<i32>) -> i32
    decreases results.len(),
{
    if results.len() == 0 {
        0
    } else if results.last() != 0 {
        results.last()
    } else {
        last_nonzero(results.drop_last())
    }
}

/// What the streaming client is answered when video or audio is set up:
/// -1 without a transport, else `last_nonzero` of what the transports
/// answered.
pub open spec fn setup_result(results: Seq<i32>) -> i32 {
    if results.len() == 0 {
        -1i32
    } else {
        last_nonzero(results)
    }
}

/// Combines what the transports answered when video or audio was set up,
/// each with 0 for success; see `setup_result`.
pub fn combine_setup_results(results: &[i32]) -> (r: i32)
    ensures
        r == setup_result(results@),
{
    if results.len() == 0 {
        return -1;
    }
    let mut result: i32 = 0;
    let mut i: usize = 0;
    while i < results.len()
        invariant
            i <= results@.len(),
            result == last_nonzero(results@.subrange(0, i as int)),
        decreases results.len() - i,
    {
        proof {
            let next = results@.subrange(0, i + 1);
            assert(next.drop_last() == results@.subrange(0, i as int));
            assert(next.last() == results@[i as int]);
        }
        if results[i] != 0 {
            result = results[i];
        }
        i += 1;
    }
    assert(results@.subrange(0, i as int) == results@);
    result
}

/// The answer for all transports together, where each answered for itself
/// or failed (`None`): the last answer that asks for something, or `Done`
/// if none does.
pub open spec fn decode_result(results: Seq<Option<DecodeResult>>) -> DecodeResult
    decreases results.len(),
{
    if results.len() == 0 {
        DecodeResult::Done
    } else if results.last() == Some(DecodeResult::NeedIdr) {
        DecodeResult::NeedIdr
    } else {
        decode_result(results.drop_last())
    }
}

/// Combines what the transports answered for a piece of video; see
/// `decode_result`.
pub fn combine_decode_results(results: &[Option<DecodeResult>]) -> (r: DecodeResult)
    ensures
        r == decode_result(results@),
{
    let mut result = DecodeResult::Done;
    let mut i: usize = 0;
    while i < results.len()
        invariant
            i <= results@.len(),
            result == decode_result(results@.subrange(0, i as int)),
        decreases results.len() - i,
    {
        proof {
            let next = results@.subrange(0, i + 1);
            assert(next.drop_last() == results@.subrange(0, i as int));
            assert(next.last() == results@[i as int]);
        }
        match results[i] {
            Some(DecodeResult::NeedIdr) => {
                result = DecodeResult::NeedIdr;
            },
            _ => {},
        }
        i += 1;
    }
    assert(results@.subrange(0, i as int) == results@);
    result
}

/// The times of one interval, summed up. All times are in nanoseconds.
#[derive(Clone, Copy, Debug, PartialEq, Eq, Structural)]
pub struct Window {
    /// The shortest time; the longest possible one while there is none.
    pub min: u64,
    /// The longest time; 0 while there is none.
    pub max: u64,
    /// The sum of the times.
    pub total: u128,
    /// How many times there are.
    pub count: u64,
}

impl Window {
    /// The interval without a time.
    pub open spec fn spec_empty() -> Window {
        Window { min: u64::MAX, max: 0, total: 0, count: 0 }
    }

    /// The sum is that of `count` times.
    pub open spec fn wf(self) -> bool {
        self.total <= self.count * u64::MAX
    }

    /// The interval with one more time.
    pub open spec fn with(self, time: u64) -> Window {
        Window {
            min: if time < self.min {
                time
            } else {
                self.min
            },
            max: if time > self.max {
                time
            } else {
                self.max
            },
            total: (self.total + time) as u128,
            count: (self.count + 1) as u64,
        }
    }

    /// The mean of the times, rounded down; 0 where there is none.
    pub open spec fn average(self) -> int {
        if self.count == 0 {
            0
        } else {
            self.total as int / self.count as int
        }
    }

    #[verifier::when_used_as_spec(spec_empty)]
    pub fn empty() -> (r: Window)
        ensures
            r == Window::spec_empty(),
            r.wf(),
    {
        Window { min: u64::MAX, max: 0, total: 0, count: 0 }
    }

    /// Adds a time to the interval.
    fn add(&mut self, time: u64)
        requires
            old(self).wf(),
            old(self).count < u64::MAX,
        ensures
            *final(self) == old(self).with(time),
            final(self).wf(),
    {
        proof {
            assert((self.count + 1) * u64::MAX == self.count * u64::MAX + u64::MAX)
                by (nonlinear_arith);
            assert(self.count * u64::MAX <= u64::MAX * u64::MAX) by (nonlinear_arith)
                requires
                    self.count <= u64::MAX,
            ;
        }
        if time < self.min {
            self.min = time;
        }
        if time > self.max {
            self.max = time;
        }
        self.total = self.total + time as u128;
        self.count = self.count + 1;
    }

    /// The mean of the times.
    fn mean(&self) -> (r: u64)
        requires
            self.wf(),
        ensures
            r == self.average(),
    {
        if self.count == 0 {
            0
        } else {
            proof {
                let total = self.total as int;
                let count = self.count as int;
                assert(total / count <= u64::MAX) by (nonlinear_arith)
                    requires
                        count > 0,
                        0 <= total <= count * u64::MAX,
                ;
                assert(0 <= total / count) by (nonlinear_arith)
                    requires
                        count > 0,
                        0 <= total,
                ;
            }
            (self.total / (self.count as u128)) as u64
        }
    }
}

/// The speed of the video path as a mathematical value.
pub struct VideoStatsView {
    /// When the last report was made.
    pub last_send: Option<u64>,
    /// The delays that the streaming host reported since then.
    pub host_processing_latency: Window,
    /// The times that the streamer took for a frame since then.
    pub streamer_processing_time: Window,
}

impl VideoStatsView {
    pub open spec fn wf(self) -> bool {
        &&& self.host_processing_latency.wf()
        &&& self.streamer_processing_time.wf()
        &&& self.host_processing_latency.count <= self.streamer_processing_time.count
    }

    /// The intervals with the times of one more frame.
    pub open spec fn with_frame(
        self,
        host_processing_latency: Option<u64>,
        frame_processing_time: u64,
    ) -> VideoStatsView {
        VideoStatsView {
            host_processing_latency: match host_processing_latency {
                Some(latency) => self.host_processing_latency.with(latency),
                None => self.host_processing_latency,
            },
            streamer_processing_time: self.streamer_processing_time.with(frame_processing_time),
            ..self
        }
    }

    /// Whether a report is due at the time `now`: no report was made yet, or
    /// the last one is more than an interval ago.
    pub open spec fn report_due(self, now: u64) -> bool {
        match self.last_send {
            Some(last_send) => now - last_send > REPORT_INTERVAL_NS,
            None => true,
        }
    }

    /// The report on the intervals.
    pub open spec fn report(self) -> StreamerStatsUpdate {
        StreamerStatsUpdate::Video {
            host_processing_latency: if self.host_processing_latency.count > 0 {
                Some(
                    StatsHostProcessingLatency {
                        min_host_processing_latency_ns: self.host_processing_latency.min,
                        max_host_processing_latency_ns: self.host_processing_latency.max,
                        avg_host_processing_latency_ns: self.host_processing_latency.average() as u64,
                    },
                )
            } else {
                None
            },
            min_streamer_processing_time_ns: self.streamer_processing_time.min,
            max_streamer_processing_time_ns: self.streamer_processing_time.max,
            avg_streamer_processing_time_ns: self.streamer_processing_time.average() as u64,
        }
    }
}

/// The speed of the video path: how long the streaming host and the
/// streamer take for a frame, summed up from report to report.
#[derive(Debug)]
pub struct VideoStats {
    last_send: Option<u64>,
    host_processing_latency: Window,
    streamer_processing_time: Window,
}

impl View for VideoStats {
    type V = VideoStatsView;

    closed spec fn view(&self) -> VideoStatsView {
        VideoStatsView {
            last_send: self.last_send,
            host_processing_latency: self.host_processing_latency,
            streamer_processing_time: self.streamer_processing_time,
        }
    }
}

impl VideoStats {
    /// Whether the figures are well formed. Those that `new` hands out are,
    /// and `analyze` keeps them so.
    pub open spec fn wf(&self) -> bool {
        self@.wf()
    }

    /// No frame yet, and no report.
    pub fn new() -> (r: Self)
        ensures
            r.wf(),
            r@ == (VideoStatsView {
                last_send: None,
                host_processing_latency: Window::spec_empty(),
                streamer_processing_time: Window::spec_empty(),
            }),
    {
        VideoStats {
            last_send: None,
            host_processing_latency: Window::empty(),
            streamer_processing_time: Window::empty(),
        }
    }

    /// Whether one more frame can be counted in the interval that runs.
    pub fn has_room(&self) -> (r: bool)
        ensures
            r == (self@.streamer_processing_time.count < u64::MAX),
    {
        self.streamer_processing_time.count < u64::MAX
    }

    /// Takes in the times of one frame: the delay that the streaming host
    /// reported for it, if it did, and the time that the streamer took to
    /// pass it on. `now` is the time on a clock that does not go back. All
    /// times are in nanoseconds.
    ///
    /// Where a report is due, the figures since the last report come back,
    /// this frame among them, and a new interval begins at `now`.
    pub fn analyze(
        &mut self,
        now: u64,
        host_processing_latency: Option<u64>,
        frame_processing_time: u64,
    ) -> (r: Option<StreamerStatsUpdate>)
        requires
            old(self).wf(),
            old(self)@.streamer_processing_time.count < u64::MAX,
        ensures
            final(self).wf(),
            ({
                let summed = old(self)@.with_frame(host_processing_latency, frame_processing_time);
                if summed.report_due(now) {
                    r == Some(summed.report()) && final(self)@ == (VideoStatsView {
                        last_send: Some(now),
                        host_processing_latency: Window::spec_empty(),
                        streamer_processing_time: Window::spec_empty(),
                    })
                } else {
                    r is None && final(self)@ == summed
                }
            }),
    {
        match host_processing_latency {
            Some(latency) => {
                self.host_processing_latency.add(latency);
            },
            None => {},
        }
        self.streamer_processing_time.add(frame_processing_time);
        let due = match self.last_send {
            Some(last_send) => now > last_send && now - last_send > REPORT_INTERVAL_NS,
            None => true,
        };
        if !due {
            return None;
        }
        let host = if self.host_processing_latency.count > 0 {
            Some(
                StatsHostProcessingLatency {
                    min_host_processing_latency_ns: self.host_processing_latency.min,
                    max_host_processing_latency_ns: self.host_processing_latency.max,
                    avg_host_processing_latency_ns: self.host_processing_latency.mean(),
                },
            )
        } else {
            None
        };
        let report = StreamerStatsUpdate::Video {
            host_processing_latency: host,
            min_streamer_processing_time_ns: self.streamer_processing_time.min,
            max_streamer_processing_time_ns: self.streamer_processing_time.max,
            avg_streamer_processing_time_ns: self.streamer_processing_time.mean(),
        };
        self.host_processing_latency = Window::empty();
        self.streamer_processing_time = Window::empty();
        self.last_send = Some(now);
        Some(report)
    }
}

} // verus!
