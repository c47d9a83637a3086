use moonlight_web::transport::{StatsHostProcessingLatency, StreamerStatsUpdate};
use moonlight_web::video::{
    combine_decode_results, combine_setup_results, DecodeResult, VideoStats, REPORT_INTERVAL_NS,
};

#[test]
fn setup_without_transport_fails() {
    assert_eq!(combine_setup_results(&[]), -1);
}

#[test]
fn setup_answers_the_last_failure() {
    assert_eq!(combine_setup_results(&[0]), 0);
    assert_eq!(combine_setup_results(&[0, 0, 0]), 0);
    assert_eq!(combine_setup_results(&[0, -3, 0]), -3);
    assert_eq!(combine_setup_results(&[5, -3, 7, 0]), 7);
}

#[test]
fn decode_answers_need_idr_if_any_transport_does() {
    assert_eq!(combine_decode_results(&[]), DecodeResult::Done);
    assert_eq!(
        combine_decode_results(&[Some(DecodeResult::Done), None]),
        DecodeResult::Done
    );
    assert_eq!(
        combine_decode_results(&[Some(DecodeResult::NeedIdr), Some(DecodeResult::Done), None]),
        DecodeResult::NeedIdr
    );
}

#[test]
fn first_frame_is_reported_at_once() {
    let mut stats = VideoStats::new();
    assert!(stats.has_room());
    let report = stats.analyze(1_000, Some(7), 40);
    assert_eq!(
        report,
        Some(StreamerStatsUpdate::Video {
            host_processing_latency: Some(StatsHostProcessingLatency {
                min_host_processing_latency_ns: 7,
                max_host_processing_latency_ns: 7,
                avg_host_processing_latency_ns: 7,
            }),
            min_streamer_processing_time_ns: 40,
            max_streamer_processing_time_ns: 40,
            avg_streamer_processing_time_ns: 40,
        })
    );
}

#[test]
fn report_covers_the_frames_since_the_last() {
    assert_eq!(REPORT_INTERVAL_NS, 1_000_000_000);
    let mut stats = VideoStats::new();
    let start = 5_000u64;
    assert!(stats.analyze(start, None, 1).is_some());
    // Within the interval nothing is reported.
    assert_eq!(stats.analyze(start + 10, Some(100), 30), None);
    assert_eq!(stats.analyze(start + 20, None, 10), None);
    assert_eq!(stats.analyze(start + REPORT_INTERVAL_NS, Some(301), 21), None);
    // One nanosecond past the interval the report is due.
    let report = stats.analyze(start + REPORT_INTERVAL_NS + 1, Some(50), 20);
    assert_eq!(
        report,
        Some(StreamerStatsUpdate::Video {
            host_processing_latency: Some(StatsHostProcessingLatency {
                min_host_processing_latency_ns: 50,
                max_host_processing_latency_ns: 301,
                avg_host_processing_latency_ns: 150,
            }),
            min_streamer_processing_time_ns: 10,
            max_streamer_processing_time_ns: 30,
            avg_streamer_processing_time_ns: 20,
        })
    );
    // A new interval begins with the report.
    assert_eq!(stats.analyze(start + REPORT_INTERVAL_NS + 2, None, 9), None);
}

#[test]
fn report_without_host_delay() {
    let mut stats = VideoStats::new();
    assert_eq!(
        stats.analyze(0, None, 12),
        Some(StreamerStatsUpdate::Video {
            host_processing_latency: None,
            min_streamer_processing_time_ns: 12,
            max_streamer_processing_time_ns: 12,
            avg_streamer_processing_time_ns: 12,
        })
    );
}

#[test]
fn clock_that_stands_still_reports_nothing_new() {
    let mut stats = VideoStats::new();
    assert!(stats.analyze(100, None, 1).is_some());
    assert_eq!(stats.analyze(100, None, 1), None);
    assert_eq!(stats.analyze(50, None, 1), None);
}
