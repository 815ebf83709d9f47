use gst_plugin_ndi::clock::{mul_div_ceil, mul_div_floor, ndi_time_to_nseconds, timecode_from_running_time};
use gst_plugin_ndi::device_provider::{contains_source, poll_timeout_ms, update_devices};
use gst_plugin_ndi::format::{FlowError, InterlaceMode, VideoFormat};
use gst_plugin_ndi::ndi::{
    find_source, AudioFrame, ConnectionRegistry, FindBuilder, MetadataFrame, Queue, RecvBuilder, SendBuilder,
    SendFrameLayout, Source, Tally, VideoFrame,
};
use gst_plugin_ndi::ndisink::{render_plan, set_caps_stream, RenderPlan, SinkSettings, SinkStream};
use gst_plugin_ndi::ndisinkcombiner::{
    aggregate, clip_duration, video_latency, AggregatePlan, AudioCollector, AudioFormat, AudioPeek, CombinerState,
    Outcome, VideoPeek,
};
use gst_plugin_ndi::ndisrc::{
    create_result, latency, next_sample_block, relative_pts, rescale_on_caps, test_src_latency, TestSrcFormat, TestSrcSettings, TestSrcState, state_change_control, ReceiverControl, Settings,
    StartError, StateChange,
};
use gst_plugin_ndi::ndisrcdemux::{eos_is_error, new_pad_events, DemuxState, PadEvent, StickyEvent};
use gst_plugin_ndi::ndisrcmeta::StreamType;
use gst_plugin_ndi::ndisys::{self, make_fourcc, NDIlib_frame_format_type_e, NDIlib_frame_type_e};
use gst_plugin_ndi::receiver::{video_format_from_fourcc, ReceiverItem};
use gst_plugin_ndi::{RecvColorFormat, TimestampMode};

fn src(name: &str, addr: &str) -> Source {
    Source::new(name.to_string(), addr.to_string())
}

#[test]
fn fourcc_packing() {
    assert_eq!(make_fourcc(b"UYVY"), ndisys::NDIlib_FourCC_video_type_UYVY);
    assert_eq!(make_fourcc(b"I420"), ndisys::NDIlib_FourCC_video_type_I420);
    assert_eq!(make_fourcc(b"FLTp"), ndisys::NDIlib_FourCC_audio_type_FLTp);
    assert_eq!(make_fourcc(&[1, 2, 3, 4]), 0x0403_0201);
}

#[test]
fn enum_numbers() {
    assert_eq!(NDIlib_frame_type_e::NDIlib_frame_type_status_change.to_raw(), 100);
    assert_eq!(NDIlib_frame_type_e::from_raw(3), Some(NDIlib_frame_type_e::NDIlib_frame_type_metadata));
    assert_eq!(NDIlib_frame_type_e::from_raw(5), None);
    assert_eq!(NDIlib_frame_format_type_e::NDIlib_frame_format_type_progressive.to_raw(), 1);
    assert_eq!(NDIlib_frame_format_type_e::from_raw(0), Some(NDIlib_frame_format_type_e::NDIlib_frame_format_type_interleaved));
    assert_eq!(TimestampMode::from_raw(4), Some(TimestampMode::ReceiveTime));
    assert_eq!(TimestampMode::Timestamp.to_raw(), 3);
    assert_eq!(RecvColorFormat::from_raw(6), None);
    assert_eq!(u32::from(RecvColorFormat::Best), ndisys::NDIlib_recv_color_format_best);
    assert_eq!(u32::from(RecvColorFormat::Fastest), 100);
    assert_eq!(u32::from(RecvColorFormat::UyvyRgba), 3);
}

#[test]
fn clock_arithmetic() {
    assert_eq!(mul_div_floor(1_000_000_000, 1, 30), Some(33_333_333));
    assert_eq!(mul_div_ceil(1_000_000_000, 1, 30), Some(33_333_334));
    assert_eq!(mul_div_floor(u64::MAX, 2, 2), Some(u64::MAX));
    assert_eq!(mul_div_floor(u64::MAX, 3, 2), None);
    assert_eq!(ndi_time_to_nseconds(12), 1200);
    assert_eq!(timecode_from_running_time(Some(1_000), Some(550)), 15);
    assert_eq!(timecode_from_running_time(None, Some(550)), ndisys::NDIlib_send_timecode_synthesize);
    assert_eq!(timecode_from_running_time(Some(u64::MAX), Some(1)), ndisys::NDIlib_send_timecode_synthesize);
}

#[test]
fn builders_and_small_types() {
    let f = FindBuilder::new();
    assert!(f.show_local_sources && f.groups.is_none() && f.extra_ips.is_none());
    let f = f.show_local_sources(false).groups("g".to_string()).extra_ips("1.2.3.4".to_string());
    assert!(!f.show_local_sources);
    assert_eq!(f.groups.as_deref(), Some("g"));
    assert_eq!(f.extra_ips.as_deref(), Some("1.2.3.4"));

    let r = RecvBuilder::new(None, Some("10.0.0.1:5961".to_string()), "recv".to_string());
    assert_eq!(r.bandwidth, ndisys::NDIlib_recv_bandwidth_highest);
    let r = r.bandwidth(ndisys::NDIlib_recv_bandwidth_audio_only).color_format(0).allow_video_fields(false);
    assert_eq!((r.bandwidth, r.color_format, r.allow_video_fields), (10, 0, false));

    let s = SendBuilder::new("out".to_string());
    assert!(!s.clock_audio && !s.clock_video);
    let s = s.clock_video();
    assert!(s.clock_video && !s.clock_audio);

    let t = Tally::new(false, true);
    assert!(!t.on_program() && t.on_preview());
    let t = Tally::default();
    assert!(t.on_program() && !t.on_preview());

    let q = Queue(ndisys::NDIlib_recv_queue_t { video_frames: 1, audio_frames: 2, metadata_frames: 3 });
    assert_eq!((q.video_frames(), q.audio_frames(), q.metadata_frames()), (1, 2, 3));

    let m = MetadataFrame::new(7, Some("<x/>".to_string()));
    assert_eq!((m.timecode(), m.metadata()), (7, Some("<x/>")));
    let m = MetadataFrame::default();
    assert_eq!((m.timecode(), m.metadata()), (0, None));
}

#[test]
fn sources() {
    let a = src("A (cam)", "10.0.0.1:5961");
    let b = a.to_owned();
    assert!(a.eq(&b));
    assert_eq!(b.ndi_name(), "A (cam)");
    assert_eq!(b.url_address(), "10.0.0.1:5961");
    assert!(!a.eq(&src("A (cam)", "10.0.0.2:5961")));
    let list = vec![src("x", "1"), src("y", "2"), src("z", "2")];
    assert_eq!(find_source(&list, &"q".to_string(), &"2".to_string()), Some(1));
    assert_eq!(find_source(&list, &"z".to_string(), &"9".to_string()), Some(2));
    assert_eq!(find_source(&list, &"q".to_string(), &"9".to_string()), None);
}

#[test]
fn video_frame_layout() {
    let mut f = VideoFrame {
        xres: 100,
        yres: 10,
        fourcc: ndisys::NDIlib_FourCC_video_type_P216,
        frame_rate_n: 25,
        frame_rate_d: 1,
        frame_format_type: NDIlib_frame_format_type_e::NDIlib_frame_format_type_field_1,
        timecode: 0,
        line_stride_or_data_size_in_bytes: 0,
        timestamp: 0,
    };
    assert_eq!(f.line_stride_or_data_size_in_bytes(), 200);
    assert_eq!(f.data_size(), 1000);
    f.fourcc = ndisys::NDIlib_FourCC_video_type_UYVY;
    assert_eq!(f.line_stride_or_data_size_in_bytes(), 100);
    f.fourcc = 0;
    assert_eq!(f.line_stride_or_data_size_in_bytes(), 0);
    f.line_stride_or_data_size_in_bytes = 256;
    f.frame_format_type = NDIlib_frame_format_type_e::NDIlib_frame_format_type_progressive;
    assert_eq!(f.data_size(), 2560);
    assert_eq!(f.frame_rate(), (25, 1));
}

#[test]
fn audio_frame_layout() {
    let f = AudioFrame::try_from_interleaved_16s(true, 48000, 2, 1920, 55).unwrap();
    assert_eq!((f.sample_rate(), f.no_channels(), f.no_samples()), (48000, 2, 960));
    assert_eq!(f.channel_stride_in_bytes(), 3840);
    assert_eq!((f.timecode(), f.timestamp()), (55, 0));
    assert_eq!(f.data_size(), 960 * 3840);
    assert_eq!(f.interleaved_16s_len(), 1920);
    assert!(AudioFrame::try_from_interleaved_16s(false, 48000, 2, 1920, 55).is_err());
}

fn layout(format: VideoFormat, addr: [usize; 3], stride: [i32; 3]) -> SendFrameLayout {
    SendFrameLayout {
        format,
        width: 4,
        height: 3,
        fps_n: 30,
        fps_d: 1,
        interlace_mode: InterlaceMode::Progressive,
        tff: false,
        plane_addr: addr,
        plane_stride: stride,
    }
}

#[test]
fn sending_video_frames() {
    let f = VideoFrame::try_from_video_frame(&layout(VideoFormat::I420, [1000, 1012, 1016], [4, 2, 2]), 9, false).unwrap();
    assert_eq!(f.fourcc, ndisys::NDIlib_FourCC_video_type_YV12);
    assert_eq!((f.xres, f.yres, f.timecode, f.timestamp, f.line_stride_or_data_size_in_bytes), (4, 3, 9, 0, 4));
    // second chroma plane not right after the first
    assert!(VideoFrame::try_from_video_frame(&layout(VideoFormat::I420, [1000, 1012, 1017], [4, 2, 2]), 9, false).is_err());
    // NV21 goes out as NV12
    let f = VideoFrame::try_from_video_frame(&layout(VideoFormat::Nv21, [0, 12, 0], [4, 4, 0]), 0, false).unwrap();
    assert_eq!(f.fourcc, ndisys::NDIlib_FourCC_video_type_NV12);
    assert!(VideoFrame::try_from_video_frame(&layout(VideoFormat::Nv12, [20, 12, 0], [4, 4, 0]), 0, false).is_err());
    let mut l = layout(VideoFormat::Uyvy, [0, 0, 0], [8, 0, 0]);
    l.interlace_mode = InterlaceMode::Alternate;
    l.tff = true;
    assert!(VideoFrame::try_from_video_frame(&l, 0, false).is_err());
    assert_eq!(
        VideoFrame::try_from_video_frame(&l, 0, true).unwrap().frame_format_type,
        NDIlib_frame_format_type_e::NDIlib_frame_format_type_field_0
    );
}

#[test]
fn demux_pad_events_order() {
    let ev = |before_caps, is_caps| StickyEvent { before_caps, is_caps };
    // stream-start, caps, segment, tag
    let sticky = vec![ev(true, false), ev(false, true), ev(false, false), ev(false, false)];
    assert_eq!(
        new_pad_events(&sticky),
        vec![PadEvent::Sticky(0), PadEvent::Caps, PadEvent::Sticky(2), PadEvent::Sticky(3)]
    );
    // no event at or after caps: no caps event is stored
    assert_eq!(new_pad_events(&vec![ev(true, false)]), vec![PadEvent::Sticky(0)]);
}

#[test]
fn demux_pads() {
    let mut d = DemuxState::new();
    let p = d.chain(StreamType::Video, false, &vec![], 0);
    assert!(p.add_pad.is_some() && p.store_caps && !p.push_caps && !p.no_more_pads);
    let p = d.chain(StreamType::Video, false, &vec![], 1);
    assert!(p.add_pad.is_none() && p.push_caps && p.store_caps);
    let p = d.chain(StreamType::Video, true, &vec![], 1);
    assert!(p.add_pad.is_none() && !p.push_caps && !p.store_caps);
    let p = d.chain(StreamType::Audio, true, &vec![], 1);
    assert!(p.add_pad.is_some() && p.no_more_pads);
    assert!(d.has_audio_pad && d.has_video_pad);
    assert!(eos_is_error(0));
    assert!(!eos_is_error(2));
}

#[test]
fn combiner_arithmetic() {
    assert_eq!(clip_duration(Some(5), 0, None, None), Some(5));
    assert_eq!(clip_duration(None, 19200, Some(AudioFormat { rate: 48000, bpf: 4 }), None), Some(100_000_000));
    assert_eq!(clip_duration(None, 0, None, Some((25, 1))), Some(40_000_000));
    assert_eq!(clip_duration(None, 0, None, Some((0, 1))), None);
    assert_eq!(video_latency(25, 1), 80_000_000);
    assert_eq!(video_latency(60, 1), 33_333_333);
    assert_eq!(video_latency(0, 1), 80_000_000);
}

#[test]
fn combiner_steps() {
    let fmt = Some(AudioFormat { rate: 48000, bpf: 4 });
    let mut st = Some(CombinerState { current_video: None, pending_audio: 0, audio_format: fmt });
    // first video buffer is held back
    let p = aggregate(&mut st, VideoPeek::Buffer { running_time: 0 }, AudioPeek::Waiting, true, None, Some(0));
    assert_eq!(p.outcome, Outcome::NeedData);
    let p = aggregate(&mut st, VideoPeek::Buffer { running_time: 0 }, AudioPeek::NoPad, true, None, Some(0));
    assert_eq!(p, AggregatePlan { outcome: Outcome::NeedData, include_audio: None, attach_audio: false, hold_video: true, clear_video: false, drop_video: true, drop_audio: false });
    // audio of 20 ms at 0 ends before the next video buffer at 40 ms: taken in
    let p = aggregate(&mut st, VideoPeek::Buffer { running_time: 40_000_000 }, AudioPeek::Buffer { running_time: 0, size: 3840 }, true, None, Some(1_000));
    assert_eq!(p.outcome, Outcome::NeedData);
    assert_eq!(p.include_audio, Some(10));
    assert!(p.drop_audio);
    assert_eq!(st.unwrap().pending_audio, 1);
    // audio 30..50 ms ends after 40 ms: the held video buffer goes out with the audio so far
    let p = aggregate(&mut st, VideoPeek::Buffer { running_time: 40_000_000 }, AudioPeek::Buffer { running_time: 30_000_000, size: 3840 }, true, None, Some(0));
    assert_eq!(p.outcome, Outcome::FinishCurrent);
    assert!(p.attach_audio && p.hold_video && p.drop_video && p.include_audio.is_none());
    assert_eq!(st.unwrap().pending_audio, 0);
    assert_eq!(st.unwrap().current_video, Some(40_000_000));
    // video ended: audio is carried on an empty buffer
    let p = aggregate(&mut st, VideoPeek::Eos, AudioPeek::Buffer { running_time: 30_000_000, size: 3840 }, true, None, Some(0));
    assert_eq!(p.outcome, Outcome::FinishCurrent);
    assert!(p.include_audio.is_some() && p.clear_video);
    let p = aggregate(&mut st, VideoPeek::Eos, AudioPeek::Buffer { running_time: 50_000_000, size: 3840 }, true, Some(50_000_000), Some(0));
    assert_eq!(p.outcome, Outcome::FinishDummy { pts: 50_000_000 });
    let p = aggregate(&mut st, VideoPeek::Eos, AudioPeek::Eos, true, None, Some(0));
    assert_eq!(p.outcome, Outcome::Eos);
    // gap buffers are skipped, missing caps refused, stopped combiner flushes
    let p = aggregate(&mut st, VideoPeek::Eos, AudioPeek::Empty, true, None, None);
    assert!(p.outcome == Outcome::NeedData && p.drop_audio);
    let mut no_caps = Some(CombinerState { current_video: Some(0), pending_audio: 0, audio_format: None });
    let p = aggregate(&mut no_caps, VideoPeek::Buffer { running_time: 1 }, AudioPeek::Buffer { running_time: 0, size: 4 }, true, None, None);
    assert_eq!(p.outcome, Outcome::NotNegotiated);
    let mut stopped = None;
    let p = aggregate(&mut stopped, VideoPeek::Eos, AudioPeek::NoPad, true, None, None);
    assert_eq!(p.outcome, Outcome::Flushing);
}

#[test]
fn sink_decisions() {
    let mut s = SinkSettings::new("default".to_string());
    s.set_ndi_name(Some("mine".to_string()), "default".to_string());
    assert_eq!(s.ndi_name, "mine");
    s.set_ndi_name(None, "default".to_string());
    assert_eq!(s.ndi_name, "default");
    assert!(set_caps_stream(false, true).is_err());
    assert_eq!(set_caps_stream(true, false), Ok(SinkStream::Audio));
    assert_eq!(render_plan(true, SinkStream::Video, 0, Some(100), Some(900)), RenderPlan::Video { send_video: false, timecode: 10 });
    assert_eq!(render_plan(true, SinkStream::Audio, 4, None, Some(900)), RenderPlan::Audio { timecode: ndisys::NDIlib_send_timecode_synthesize });
    assert_eq!(render_plan(true, SinkStream::Unconfigured, 4, None, None), RenderPlan::Error);
    assert_eq!(render_plan(false, SinkStream::Video, 4, None, None), RenderPlan::Error);
}

#[test]
fn source_settings_and_steps() {
    let mut s = Settings::new("recv".to_string());
    assert_eq!((s.connect_timeout, s.timeout, s.max_queue_length, s.bandwidth), (10000, 5000, 5, 100));
    assert_eq!(s.check_start(), Err(StartError::NoSource));
    s.url_address = Some("1.2.3.4:5961".to_string());
    assert_eq!(s.check_start(), Ok(()));
    assert!(!s.set_timestamp_mode(TimestampMode::ReceiveTimeTimecode));
    assert!(s.set_timestamp_mode(TimestampMode::Timecode));
    s.set_receiver_ndi_name(None, "recv2".to_string());
    assert_eq!(s.receiver_ndi_name, "recv2");
    assert_eq!(latency(None, TimestampMode::Timecode), None);
    assert_eq!(latency(Some(20), TimestampMode::Timecode), Some((0, 100)));
    assert_eq!(latency(Some(20), TimestampMode::ReceiveTime), Some((20, 100)));
    assert_eq!(state_change_control(StateChange::PausedToPlaying), ReceiverControl::SetPlaying(true));
    assert_eq!(state_change_control(StateChange::PausedToReady), ReceiverControl::Shutdown);
    assert_eq!(create_result(ReceiverItem::Buffer(3u8)), Ok(3));
    assert_eq!(create_result::<u8>(ReceiverItem::Timeout), Err(FlowError::Eos));
    assert_eq!(create_result::<u8>(ReceiverItem::Error(FlowError::NotNegotiated)), Err(FlowError::NotNegotiated));
}

#[test]
fn device_updates() {
    let current = vec![src("a", "1"), src("b", "2"), src("c", "3")];
    let now = vec![src("d", "4"), src("c", "3"), src("a", "1"), src("e", "5")];
    assert!(contains_source(&now, &src("a", "1")));
    assert!(!contains_source(&now, &src("a", "2")));
    let (expired, appeared) = update_devices(&current, &now);
    assert_eq!(expired, vec![false, true, false]);
    let names: Vec<&str> = appeared.iter().map(|s| s.ndi_name()).collect();
    assert_eq!(names, vec!["d", "e"]);
    assert_eq!(poll_timeout_ms(true), 1000);
    assert_eq!(poll_timeout_ms(false), 5000);
}

#[test]
fn pts_relative_to_first_frame() {
    let mut first: u64 = 0;
    assert_eq!(relative_pts(&mut first, 1_000), 0);
    assert_eq!(first, 100_000);
    assert_eq!(relative_pts(&mut first, 1_500), 50_000);
    assert_eq!(first, 100_000);
}

#[test]
fn registry_refuses_second_connection() {
    let mut reg = ConnectionRegistry::new();
    let name = String::from("Studio (Cam 1)");
    let addr = String::from("10.0.0.5:5961");
    assert!(!reg.is_connected(&name, &addr));
    reg.register(name.clone(), addr.clone());
    assert!(reg.is_connected(&name, &String::from("other")));
    assert!(reg.is_connected(&String::from("other"), &addr));
    assert!(!reg.is_connected(&String::from("x"), &String::from("y")));
}

#[test]
fn sample_blocks_are_capped() {
    // no stop: a full block; 48 kHz, 1024 samples
    assert_eq!(next_sample_block(0, None, 1024, 48_000), Ok((1024, 0, 21_333_333)));
    // stop far away: still at most samples_per_buffer
    assert_eq!(next_sample_block(48_000, Some(100_000), 1024, 48_000).map(|b| b.0), Ok(1024));
    // stop close: only what remains
    assert_eq!(next_sample_block(48_000, Some(48_100), 1024, 48_000).map(|b| (b.0, b.1)), Ok((100, 1_000_000_000)));
    assert_eq!(next_sample_block(48_100, Some(48_100), 1024, 48_000), Err(FlowError::Eos));
}

#[test]
fn source_setters_change_one_field() {
    let mut s = Settings::new("recv".to_string());
    s.set_ndi_name(Some("Cam".to_string()));
    s.set_url_address(Some("10.0.0.1:5961".to_string()));
    s.set_connect_timeout(1);
    s.set_timeout(2);
    s.set_max_queue_length(3);
    s.set_bandwidth(-10);
    assert_eq!(s.ndi_name.as_deref(), Some("Cam"));
    assert_eq!(s.url_address.as_deref(), Some("10.0.0.1:5961"));
    assert_eq!((s.connect_timeout, s.timeout, s.max_queue_length, s.bandwidth), (1, 2, 3, -10));
    assert_eq!(s.receiver_ndi_name, "recv");
    assert_eq!(s.timestamp_mode, TimestampMode::ReceiveTimeTimecode);
    s.set_ndi_name(None);
    assert!(s.ndi_name.is_none());
}

#[test]
fn sent_frames_come_back_in_their_format() {
    for format in [VideoFormat::I420, VideoFormat::Yv12] {
        let f = VideoFrame::try_from_video_frame(&layout(format, [1000, 1012, 1016], [4, 2, 2]), 0, false).unwrap();
        assert_eq!(video_format_from_fourcc(f.fourcc), Some(format));
    }
    let f = VideoFrame::try_from_video_frame(&layout(VideoFormat::Uyvy, [1000, 0, 0], [8, 0, 0]), 0, false).unwrap();
    assert_eq!(video_format_from_fourcc(f.fourcc), Some(VideoFormat::Uyvy));
}

#[test]
fn test_source_steps() {
    let mut st = TestSrcState::new();
    // no caps: not negotiated, nothing moves
    assert_eq!(st.produce_step(1024), Err(FlowError::NotNegotiated));
    assert_eq!(st, TestSrcState::new());
    // a seek in nanoseconds before caps, carried over to samples
    st.sample_offset = 500_000_000;
    st.sample_stop = Some(510_000_000);
    st.set_caps(48_000, 8);
    assert_eq!(st.format, Some(TestSrcFormat { rate: 48_000, bpf: 8 }));
    assert_eq!((st.sample_offset, st.sample_stop), (24_000, Some(24_480)));
    let (k, pts, duration, size) = st.produce_step(1024).unwrap();
    assert_eq!((k, pts, size), (480, 500_000_000, 3840));
    assert_eq!(pts + duration, 510_000_000);
    assert_eq!(st.sample_offset, 24_480);
    assert_eq!(st.produce_step(1024), Err(FlowError::Eos));
    // a rate change rescales the position
    assert_eq!(rescale_on_caps(Some(48_000), 44_100, 48_000, None), (44_100, None));
    assert_eq!(test_src_latency(1024, 48_000), 21_333_333);
}

#[test]
fn test_source_blocks_are_contiguous() {
    let mut st = TestSrcState::new();
    st.set_caps(44_100, 4);
    let (_, p1, d1, _) = st.produce_step(1000).unwrap();
    let (_, p2, _, s2) = st.produce_step(1000).unwrap();
    assert_eq!(p1 + d1, p2);
    assert_eq!(s2, 4000);
}

#[test]
fn test_source_settings() {
    let mut s = TestSrcSettings::new("tone".to_string());
    assert_eq!((s.samples_per_buffer, s.freq, s.mute, s.is_live), (1024, 440, false, false));
    s.set_samples_per_buffer(256);
    s.set_freq(1000);
    s.set_mute(true);
    s.set_is_live(true);
    s.set_stream_name("x".to_string());
    assert_eq!((s.samples_per_buffer, s.freq, s.mute, s.is_live), (256, 1000, true, true));
    assert_eq!(s.stream_name, "x");
}

#[test]
fn collected_audio_goes_with_one_output_in_order() {
    let take = AggregatePlan {
        outcome: Outcome::NeedData,
        include_audio: Some(1),
        attach_audio: false,
        hold_video: false,
        clear_video: false,
        drop_video: false,
        drop_audio: true,
    };
    let finish = AggregatePlan { outcome: Outcome::FinishCurrent, include_audio: Some(3), attach_audio: true, ..take };
    let mut c: AudioCollector<u32> = AudioCollector::new();
    assert_eq!(c.apply(&take, Some(1)), None);
    assert_eq!(c.apply(&take, Some(2)), None);
    assert_eq!(c.apply(&finish, Some(3)), Some(vec![1, 2, 3]));
    assert!(c.pending.is_empty());
}
