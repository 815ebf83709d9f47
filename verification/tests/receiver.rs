use gst_plugin_ndi::format::{FlowError, InterlaceMode, VideoFormat};
use gst_plugin_ndi::ndi::{AudioFrame, VideoFrame};
use gst_plugin_ndi::ndisys::{self, NDIlib_frame_format_type_e, NDIlib_frame_type_e};
use gst_plugin_ndi::observations::Observations;
use gst_plugin_ndi::receiver::{
    audio_buffer_size, audio_frame_duration, audio_frame_latency, calculate_timestamp,
    capture_outcome, connect_plan, copy_plane, create_video_info, receive_decision,
    video_buffer_flags, video_copy_plan, video_format_from_fourcc, video_frame_duration,
    CaptureOutcome, LoopCheck, PlaneCopy, ReceiveAction, ReceiveTimer, ReceiverItem, ReceiverQueueInner,
    ReceiverTiming,
};
use gst_plugin_ndi::TimestampMode;

fn video_frame(fourcc: u32, t: NDIlib_frame_format_type_e) -> VideoFrame {
    VideoFrame {
        xres: 1920,
        yres: 1080,
        fourcc,
        frame_rate_n: 30000,
        frame_rate_d: 1001,
        frame_format_type: t,
        timecode: 10_000_000,
        line_stride_or_data_size_in_bytes: 3840,
        timestamp: 20_000_000,
    }
}

#[test]
fn timestamp_modes() {
    let undefined = ndisys::NDIlib_recv_timestamp_undefined;
    let mut o = Observations::new();
    // no running time: nothing
    assert_eq!(
        calculate_timestamp(TimestampMode::ReceiveTime, &mut o, None, 0, 0, 0, Some(5)),
        None
    );
    assert_eq!(
        calculate_timestamp(TimestampMode::ReceiveTime, &mut o, Some(77), 0, 1, 2, Some(5)),
        Some((77, Some(5)))
    );
    // timecode in 100 ns units
    assert_eq!(
        calculate_timestamp(TimestampMode::Timecode, &mut o, Some(77), 0, 1, 2, None),
        Some((200, None))
    );
    // undefined timestamp falls back to the receive time
    assert_eq!(
        calculate_timestamp(TimestampMode::Timestamp, &mut o, Some(77), 0, undefined, 2, None),
        Some((77, None))
    );
    // timestamp 1 s before now, received at 5 s: 4 s
    assert_eq!(
        calculate_timestamp(
            TimestampMode::Timestamp,
            &mut o,
            Some(5_000_000_000),
            11_000_000_000,
            100_000_000,
            0,
            None
        ),
        Some((4_000_000_000, None))
    );
    // timestamp further back than the running time: 0
    assert_eq!(
        calculate_timestamp(
            TimestampMode::Timestamp,
            &mut o,
            Some(500),
            11_000_000_000,
            100_000_000,
            0,
            None
        ),
        Some((0, None))
    );
    // timestamp ahead of now by 2 s
    assert_eq!(
        calculate_timestamp(
            TimestampMode::Timestamp,
            &mut o,
            Some(1_000),
            8_000_000_000,
            100_000_000,
            0,
            None
        ),
        Some((2_000_001_000, None))
    );
}

#[test]
fn receive_time_modes_feed_the_estimator() {
    let mut o = Observations::new();
    // first observation: the receive time itself
    assert_eq!(
        calculate_timestamp(
            TimestampMode::ReceiveTimeTimecode,
            &mut o,
            Some(3_000),
            0,
            0,
            10,
            None
        ),
        Some((3_000, None))
    );
    // lockstep: receive time again
    assert_eq!(
        calculate_timestamp(
            TimestampMode::ReceiveTimeTimecode,
            &mut o,
            Some(1_003_000),
            0,
            0,
            10_010,
            None
        ),
        Some((1_003_000, None))
    );
    // an undefined timestamp is no observation
    let mut o2 = Observations::new();
    assert_eq!(
        calculate_timestamp(
            TimestampMode::ReceiveTimeTimestamp,
            &mut o2,
            Some(42),
            0,
            ndisys::NDIlib_recv_timestamp_undefined,
            0,
            None
        ),
        Some((42, None))
    );
}

#[test]
fn frame_durations() {
    let f = video_frame(ndisys::NDIlib_FourCC_video_type_UYVY, NDIlib_frame_format_type_e::NDIlib_frame_format_type_progressive);
    assert_eq!(video_frame_duration(&f), Some(33_366_666));
    let a = AudioFrame {
        sample_rate: 48000,
        no_channels: 2,
        no_samples: 1601,
        timecode: 0,
        channel_stride_in_bytes: 6404,
        timestamp: 0,
    };
    assert_eq!(audio_frame_duration(&a), Some(33_354_166));
    assert_eq!(audio_frame_latency(&a), Some(33_354_167));
    assert_eq!(audio_buffer_size(1601, 2), 6404);
}

#[test]
fn fourcc_to_format_swaps_i420_and_yv12() {
    assert_eq!(video_format_from_fourcc(ndisys::NDIlib_FourCC_video_type_YV12), Some(VideoFormat::I420));
    assert_eq!(video_format_from_fourcc(ndisys::NDIlib_FourCC_video_type_I420), Some(VideoFormat::Yv12));
    assert_eq!(video_format_from_fourcc(ndisys::NDIlib_FourCC_video_type_UYVA), Some(VideoFormat::Uyvy));
    assert_eq!(video_format_from_fourcc(ndisys::NDIlib_FourCC_video_type_P216), None);
}

#[test]
fn video_info_and_interlacing() {
    let f = video_frame(ndisys::NDIlib_FourCC_video_type_NV12, NDIlib_frame_format_type_e::NDIlib_frame_format_type_interleaved);
    let info = create_video_info(&f, false).unwrap();
    assert_eq!(info.format, VideoFormat::Nv12);
    assert_eq!((info.width, info.height, info.fps_n, info.fps_d), (1920, 1080, 30000, 1001));
    assert_eq!(info.interlace_mode, InterlaceMode::Interleaved);
    assert!(info.tff);
    let field = video_frame(ndisys::NDIlib_FourCC_video_type_UYVY, NDIlib_frame_format_type_e::NDIlib_frame_format_type_field_0);
    assert_eq!(create_video_info(&field, false).unwrap_err(), FlowError::NotNegotiated);
    assert_eq!(create_video_info(&field, true).unwrap().interlace_mode, InterlaceMode::Alternate);
    let bad = video_frame(0x1234, NDIlib_frame_format_type_e::NDIlib_frame_format_type_progressive);
    assert_eq!(create_video_info(&bad, true).unwrap_err(), FlowError::NotNegotiated);

    let flags = video_buffer_flags(NDIlib_frame_format_type_e::NDIlib_frame_format_type_field_1, true);
    assert!(flags.interlaced && flags.bottom_field && !flags.top_field && !flags.tff);
    let flags = video_buffer_flags(NDIlib_frame_format_type_e::NDIlib_frame_format_type_field_1, false);
    assert!(!flags.interlaced);
    let flags = video_buffer_flags(NDIlib_frame_format_type_e::NDIlib_frame_format_type_interleaved, false);
    assert!(flags.interlaced && flags.tff);
}

#[test]
fn copy_plans() {
    assert_eq!(
        video_copy_plan(VideoFormat::Uyvy, 5, 2, 12),
        vec![PlaneCopy { src_offset: 0, src_stride: 12, line_bytes: 10 }]
    );
    assert_eq!(
        video_copy_plan(VideoFormat::Bgra, 5, 2, 20),
        vec![PlaneCopy { src_offset: 0, src_stride: 20, line_bytes: 20 }]
    );
    assert_eq!(
        video_copy_plan(VideoFormat::Nv12, 4, 3, 8),
        vec![
            PlaneCopy { src_offset: 0, src_stride: 8, line_bytes: 4 },
            PlaneCopy { src_offset: 24, src_stride: 8, line_bytes: 4 },
        ]
    );
    assert_eq!(
        video_copy_plan(VideoFormat::I420, 5, 3, 8),
        vec![
            PlaneCopy { src_offset: 0, src_stride: 8, line_bytes: 5 },
            PlaneCopy { src_offset: 24, src_stride: 4, line_bytes: 3 },
            PlaneCopy { src_offset: 32, src_stride: 4, line_bytes: 3 },
        ]
    );
}

#[test]
fn copy_plane_copies_rows() {
    // source rows of stride 4, 3 bytes of picture each, starting at offset 2
    let src: Vec<u8> = vec![9, 9, 1, 2, 3, 0, 4, 5, 6, 0, 7, 8, 9, 0];
    let mut dest = vec![0u8; 7];
    copy_plane(&mut dest, 3, &src, PlaneCopy { src_offset: 2, src_stride: 4, line_bytes: 3 }, false);
    // two whole destination rows; the seventh byte stays
    assert_eq!(dest, vec![1, 2, 3, 4, 5, 6, 0]);

    let src: Vec<u8> = vec![1, 2, 3, 4];
    let mut dest = vec![7u8; 4];
    copy_plane(&mut dest, 2, &src, PlaneCopy { src_offset: 0, src_stride: 2, line_bytes: 2 }, true);
    assert_eq!(dest, vec![1, 2, 3, 4]);
}

#[test]
fn queue_capture_order_and_priorities() {
    let mut q: ReceiverQueueInner<u32> = ReceiverQueueInner::new();
    assert!(q.capture().is_none());
    q.handle_result(Ok(1), 5);
    q.handle_result(Ok(2), 5);
    assert!(matches!(q.capture(), Some(ReceiverItem::Buffer(1))));
    q.set_flushing(true);
    assert!(matches!(q.capture(), Some(ReceiverItem::Flushing)));
    q.set_flushing(false);
    assert!(matches!(q.capture(), Some(ReceiverItem::Buffer(2))));
    // end of stream only once drained
    q.handle_result(Ok(3), 5);
    assert!(!q.handle_result(Err(FlowError::Eos), 5));
    assert!(matches!(q.capture(), Some(ReceiverItem::Buffer(3))));
    assert!(matches!(q.capture(), Some(ReceiverItem::Timeout)));
    // errors win over everything and the first one stays
    assert!(!q.handle_result(Err(FlowError::NotNegotiated), 5));
    assert!(!q.handle_result(Err(FlowError::Error), 5));
    assert!(matches!(q.capture(), Some(ReceiverItem::Error(FlowError::NotNegotiated))));
    assert_eq!(q.loop_check(), LoopCheck::Errored);
    q.shutdown();
    assert_eq!(q.loop_check(), LoopCheck::Shutdown);
}

#[test]
fn queue_drops_oldest_beyond_limit() {
    let mut q: ReceiverQueueInner<u32> = ReceiverQueueInner::new();
    for i in 0..10 {
        assert!(q.handle_result(Ok(i), 2));
        assert!(q.buffer_queue.len() <= 2);
    }
    assert_eq!(q.buffer_queue.iter().copied().collect::<Vec<_>>(), vec![8, 9]);
    // a limit of 0 keeps only the newest buffer
    let mut z: ReceiverQueueInner<u32> = ReceiverQueueInner::new();
    z.handle_result(Ok(1), 0);
    z.handle_result(Ok(2), 0);
    assert_eq!(z.buffer_queue.iter().copied().collect::<Vec<_>>(), vec![2]);
    // flushing empties the queue and keeps the loop running
    assert!(q.handle_result(Err(FlowError::Flushing), 2));
    assert!(q.buffer_queue.is_empty());
    assert_eq!(q.loop_check(), LoopCheck::Capture { flushing: false });
}

#[test]
fn capture_loop_decisions() {
    assert_eq!(receive_decision(true, true, CaptureOutcome::Video, true, 100, 50, 0), (ReceiveAction::Fail(FlowError::Flushing), true));
    assert_eq!(receive_decision(false, true, CaptureOutcome::Error, false, 100, 50, 0).0, ReceiveAction::Fail(FlowError::Error));
    // connect timeout until the first frame
    assert_eq!(receive_decision(false, true, CaptureOutcome::NoFrame, true, 100, 50, 99).0, ReceiveAction::Retry);
    assert_eq!(receive_decision(false, true, CaptureOutcome::NoFrame, true, 100, 50, 100).0, ReceiveAction::Fail(FlowError::Eos));
    assert_eq!(receive_decision(false, true, CaptureOutcome::NoFrame, false, 100, 50, 50).0, ReceiveAction::Fail(FlowError::Eos));
    // timeout 0: wait forever
    assert_eq!(receive_decision(false, true, CaptureOutcome::NoFrame, false, 100, 0, 1_000_000).0, ReceiveAction::Retry);
    assert_eq!(receive_decision(false, true, CaptureOutcome::Video, true, 100, 50, 0), (ReceiveAction::ProduceVideo, false));
    assert_eq!(receive_decision(false, true, CaptureOutcome::Audio, true, 100, 50, 0), (ReceiveAction::ProduceAudio, false));
    assert_eq!(receive_decision(false, true, CaptureOutcome::Metadata, true, 100, 50, 0), (ReceiveAction::Retry, true));
    // not playing: captured frames are discarded
    assert_eq!(receive_decision(false, false, CaptureOutcome::Video, true, 100, 50, 0), (ReceiveAction::Discard, false));
    assert_eq!(receive_decision(false, false, CaptureOutcome::Audio, false, 100, 50, 0), (ReceiveAction::Discard, false));

    assert_eq!(capture_outcome(NDIlib_frame_type_e::NDIlib_frame_type_status_change), CaptureOutcome::NoFrame);
    assert_eq!(capture_outcome(NDIlib_frame_type_e::NDIlib_frame_type_error), CaptureOutcome::Error);
    assert_eq!(capture_outcome(NDIlib_frame_type_e::NDIlib_frame_type_audio), CaptureOutcome::Audio);
}

#[test]
fn connect_settings() {
    let (recv, tally, meta) = connect_plan(Some("A (B)".to_string()), None, "me".to_string(), 10);
    assert_eq!(recv.ndi_name.as_deref(), Some("A (B)"));
    assert_eq!(recv.bandwidth, 10);
    assert_eq!(recv.color_format, ndisys::NDIlib_recv_color_format_UYVY_BGRA);
    assert!(recv.allow_video_fields);
    assert!(tally.on_program() && !tally.on_preview());
    assert_eq!(meta.metadata(), Some("<ndi_hwaccel enabled=\"true\"/>"));
}

#[test]
fn buffer_plans() {
    let mut t = ReceiverTiming::new(TimestampMode::Timecode, false);
    let f = video_frame(ndisys::NDIlib_FourCC_video_type_BGRA, NDIlib_frame_format_type_e::NDIlib_frame_format_type_progressive);
    let p = t.create_video_buffer_and_info(&f, Some(5), 0).unwrap();
    assert_eq!(p.pts, 1_000_000_000);
    assert_eq!(p.duration, Some(33_366_666));
    assert_eq!(p.info.format, VideoFormat::Bgra);
    assert!(!p.flags.interlaced);
    assert_eq!(t.create_video_buffer_and_info(&f, None, 0).unwrap_err(), FlowError::Flushing);
    let a = AudioFrame {
        sample_rate: 44100,
        no_channels: 1,
        no_samples: 441,
        timecode: 3,
        channel_stride_in_bytes: 1764,
        timestamp: 0,
    };
    let p = t.create_audio_buffer_and_info(&a, Some(5), 0).unwrap();
    assert_eq!((p.pts, p.duration), (300, Some(10_000_000)));
}

#[test]
fn queue_error_stays_over_buffers_and_flushing() {
    let mut q: ReceiverQueueInner<u32> = ReceiverQueueInner::new();
    q.handle_result(Ok(1), 5);
    q.handle_result(Err(FlowError::Error), 5);
    q.set_flushing(true);
    for _ in 0..3 {
        assert!(matches!(q.capture(), Some(ReceiverItem::Error(FlowError::Error))));
    }
    assert_eq!(q.buffer_queue.len(), 1);
}

#[test]
fn timer_ends_stream_only_after_timeout_without_activity() {
    let mut t = ReceiveTimer::new(1_000);
    // connect timeout 100 ms before the first frame
    assert_eq!(t.decide(false, true, CaptureOutcome::NoFrame, 100, 50, 1_099), ReceiveAction::Retry);
    assert_eq!(t.decide(false, true, CaptureOutcome::Video, 100, 50, 1_099), ReceiveAction::ProduceVideo);
    assert!(!t.first_frame);
    t.record(true, 1_099);
    // then the receive timeout, from the last queued buffer
    assert_eq!(t.decide(false, true, CaptureOutcome::NoFrame, 100, 50, 1_148), ReceiveAction::Retry);
    // a frame discarded while paused counts as activity
    assert_eq!(t.decide(false, false, CaptureOutcome::Audio, 100, 50, 1_148), ReceiveAction::Discard);
    assert_eq!(t.decide(false, true, CaptureOutcome::NoFrame, 100, 50, 1_197), ReceiveAction::Retry);
    assert_eq!(t.decide(false, true, CaptureOutcome::NoFrame, 100, 50, 1_198), ReceiveAction::Fail(FlowError::Eos));
}
