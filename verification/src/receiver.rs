//! The receiving side: timestamps of received frames, the video and audio
//! formats they map to, the copy of video planes, the queue between the
//! capture loop and the source element, and the decisions of the capture loop.
use vstd::prelude::*;

use std::collections::VecDeque;

use crate::clock;
use crate::format::{FlowError, InterlaceMode, VideoBufferFlags, VideoFormat};
use crate::ndi::{spec_send_fourcc, spec_send_frame_format_type, AudioFrame, MetadataFrame, RecvBuilder, SendFrameLayout, Tally, VideoFrame};
use crate::ndisys;
use crate::ndisys::NDIlib_frame_format_type_e;
use crate::observations::{spec_observe, Observations, ObservationsModel, TIME_LIMIT};
use crate::TimestampMode;

verus! {

broadcast use vstd::std_specs::vecdeque::group_vec_dequeue_axioms;

// ---------------------------------------------------------------------------
// Timestamps
// ---------------------------------------------------------------------------

/// The NDI timestamp in nanoseconds, or `None` where it is undefined.
pub open spec fn spec_timestamp_ns(timestamp: i64) -> Option<int> {
    if timestamp == ndisys::NDIlib_recv_timestamp_undefined {
        None
    } else {
        Some(timestamp * 100)
    }
}

/// The PTS that a frame gets, and the estimator's state afterwards, for a
/// frame received at running time `receive_time` when the wall clock reads
/// `real_time_now` (both in nanoseconds).
pub open spec fn spec_pts(
    mode: TimestampMode,
    obs: ObservationsModel,
    receive_time: u64,
    real_time_now: u64,
    timestamp: i64,
    timecode: i64,
) -> (ObservationsModel, int) {
    let timecode_ns = (timecode * 100) as u64;
    match mode {
        TimestampMode::ReceiveTimeTimecode => spec_observe(obs, timecode_ns, receive_time),
        TimestampMode::ReceiveTimeTimestamp => match spec_timestamp_ns(timestamp) {
            None => (obs, receive_time as int),
            Some(t) => spec_observe(obs, t as u64, receive_time),
        },
        TimestampMode::Timecode => (obs, timecode_ns as int),
        TimestampMode::Timestamp => match spec_timestamp_ns(timestamp) {
            None => (obs, receive_time as int),
            Some(t) => if real_time_now > t {
                let diff = real_time_now - t;
                if diff > receive_time {
                    (obs, 0)
                } else {
                    (obs, receive_time - diff)
                }
            } else {
                (obs, receive_time + (t - real_time_now))
            },
        },
        TimestampMode::ReceiveTime => (obs, receive_time as int),
    }
}

/// The inputs on which timestamp calculation is defined: SDK times convert to
/// nanoseconds, times fed to the skew estimator lie in its range, and a
/// timestamp ahead of the wall clock does not push the PTS past 64 bits.
pub open spec fn timestamp_inputs_ok(
    mode: TimestampMode,
    receive_time: u64,
    real_time_now: u64,
    timestamp: i64,
    timecode: i64,
) -> bool {
    &&& 0 <= timecode <= clock::MAX_NDI_TIME
    &&& (timestamp == ndisys::NDIlib_recv_timestamp_undefined || 0 <= timestamp
        <= clock::MAX_NDI_TIME)
    &&& (mode == TimestampMode::ReceiveTimeTimecode ==> timecode * 100 < TIME_LIMIT
        && receive_time < TIME_LIMIT)
    &&& (mode == TimestampMode::ReceiveTimeTimestamp ==> (spec_timestamp_ns(timestamp) matches Some(
        t,
    ) ==> t < TIME_LIMIT && receive_time < TIME_LIMIT))
    &&& (mode == TimestampMode::Timestamp ==> (spec_timestamp_ns(timestamp) matches Some(t) ==> (t
        > real_time_now ==> receive_time + (t - real_time_now) <= u64::MAX)))
}

/// Whether the timestamp calculation is defined on these inputs; see
/// `timestamp_inputs_ok`.
pub fn timestamp_inputs_in_range(
    mode: TimestampMode,
    receive_time: u64,
    real_time_now: u64,
    timestamp: i64,
    timecode: i64,
) -> (r: bool)
    ensures
        r == timestamp_inputs_ok(mode, receive_time, real_time_now, timestamp, timecode),
{
    if !(0 <= timecode && timecode <= clock::MAX_NDI_TIME) {
        return false;
    }
    let defined = timestamp != ndisys::NDIlib_recv_timestamp_undefined;
    if defined && !(0 <= timestamp && timestamp <= clock::MAX_NDI_TIME) {
        return false;
    }
    let timecode_ns = clock::ndi_time_to_nseconds(timecode);
    match mode {
        TimestampMode::ReceiveTimeTimecode => timecode_ns < TIME_LIMIT && receive_time < TIME_LIMIT,
        TimestampMode::ReceiveTimeTimestamp => {
            if defined {
                clock::ndi_time_to_nseconds(timestamp) < TIME_LIMIT && receive_time < TIME_LIMIT
            } else {
                true
            }
        },
        TimestampMode::Timestamp => {
            if defined {
                let t = clock::ndi_time_to_nseconds(timestamp);
                if t > real_time_now {
                    receive_time.checked_add(t - real_time_now).is_some()
                } else {
                    true
                }
            } else {
                true
            }
        },
        _ => true,
    }
}

/// The PTS and duration of a received frame.
///
/// `None` where the element has no running time (it is not playing). The
/// duration is passed through; the skew estimator is fed only in the modes
/// that correct the receive time.
pub fn calculate_timestamp(
    mode: TimestampMode,
    observations: &mut Observations,
    receive_time: Option<u64>,
    real_time_now: u64,
    timestamp: i64,
    timecode: i64,
    duration: Option<u64>,
) -> (r: Option<(u64, Option<u64>)>)
    requires
        old(observations).well_formed(),
        receive_time matches Some(rt) ==> timestamp_inputs_ok(
            mode,
            rt,
            real_time_now,
            timestamp,
            timecode,
        ),
    ensures
        final(observations).well_formed(),
        r is None <==> receive_time is None,
        receive_time is None ==> final(observations)@ == old(observations)@,
        receive_time matches Some(rt) ==> {
            let (m, pts) = spec_pts(
                mode,
                old(observations)@,
                rt,
                real_time_now,
                timestamp,
                timecode,
            );
            &&& r matches Some((p, d)) && p as int == pts && d == duration
            &&& final(observations)@ == m
        },
{
    let receive_time = match receive_time {
        None => return None,
        Some(t) => t,
    };
    let timestamp_ns: Option<u64> = if timestamp == ndisys::NDIlib_recv_timestamp_undefined {
        None
    } else {
        Some(clock::ndi_time_to_nseconds(timestamp))
    };
    let timecode_ns = clock::ndi_time_to_nseconds(timecode);

    let (pts, duration) = match mode {
        TimestampMode::ReceiveTimeTimecode => observations.process(
            (Some(timecode_ns), receive_time),
            duration,
        ),
        TimestampMode::ReceiveTimeTimestamp => observations.process(
            (timestamp_ns, receive_time),
            duration,
        ),
        TimestampMode::Timecode => (timecode_ns, duration),
        TimestampMode::Timestamp => match timestamp_ns {
            None => (receive_time, duration),
            Some(t) => {
                if real_time_now > t {
                    let diff = real_time_now - t;
                    if diff > receive_time {
                        (0, duration)
                    } else {
                        (receive_time - diff, duration)
                    }
                } else {
                    let diff = t - real_time_now;
                    (receive_time + diff, duration)
                }
            },
        },
        TimestampMode::ReceiveTime => (receive_time, duration),
    };
    Some((pts, duration))
}

/// The duration of a video frame: one frame period, `None` where it does not
/// fit in 64 bits.
pub fn video_frame_duration(frame: &VideoFrame) -> (r: Option<u64>)
    requires
        frame.frame_rate_n as u64 != 0,
    ensures
        r == clock::spec_mul_div_floor(
            clock::SECOND,
            frame.frame_rate_d as u64,
            frame.frame_rate_n as u64,
        ),
{
    let (n, d) = frame.frame_rate();
    clock::mul_div_floor(clock::SECOND, d as u64, n as u64)
}

/// The duration of an audio frame: its samples at its sample rate.
pub fn audio_frame_duration(frame: &AudioFrame) -> (r: Option<u64>)
    requires
        frame.sample_rate as u64 != 0,
    ensures
        r == clock::spec_mul_div_floor(
            clock::SECOND,
            frame.no_samples as u64,
            frame.sample_rate as u64,
        ),
{
    clock::mul_div_floor(clock::SECOND, frame.no_samples() as u64, frame.sample_rate() as u64)
}

// ---------------------------------------------------------------------------
// Formats
// ---------------------------------------------------------------------------

/// The raw video format of frames with the given FourCC. YV12 and I420 are
/// swapped between the SDK and GStreamer; UYVA loses its alpha plane.
pub open spec fn spec_video_format_from_fourcc(fourcc: u32) -> Option<VideoFormat> {
    if fourcc == ndisys::NDIlib_FourCC_video_type_UYVY {
        Some(VideoFormat::Uyvy)
    } else if fourcc == ndisys::NDIlib_FourCC_video_type_UYVA {
        Some(VideoFormat::Uyvy)
    } else if fourcc == ndisys::NDIlib_FourCC_video_type_YV12 {
        Some(VideoFormat::I420)
    } else if fourcc == ndisys::NDIlib_FourCC_video_type_NV12 {
        Some(VideoFormat::Nv12)
    } else if fourcc == ndisys::NDIlib_FourCC_video_type_I420 {
        Some(VideoFormat::Yv12)
    } else if fourcc == ndisys::NDIlib_FourCC_video_type_BGRA {
        Some(VideoFormat::Bgra)
    } else if fourcc == ndisys::NDIlib_FourCC_video_type_BGRX {
        Some(VideoFormat::Bgrx)
    } else if fourcc == ndisys::NDIlib_FourCC_video_type_RGBA {
        Some(VideoFormat::Rgba)
    } else if fourcc == ndisys::NDIlib_FourCC_video_type_RGBX {
        Some(VideoFormat::Rgbx)
    } else {
        None
    }
}

/// A frame that the sender sends comes back in its own format: the FourCC
/// under which it goes out is read as the format it was sent in (NV21, which
/// goes out as NV12, apart).
pub proof fn lemma_sent_format_comes_back(l: SendFrameLayout, fourcc: u32)
    requires
        spec_send_fourcc(l) == Some(fourcc),
        l.format != VideoFormat::Nv21,
    ensures
        spec_video_format_from_fourcc(fourcc) == Some(l.format),
{
}

/// The raw video format of frames with the given FourCC, if it is supported.
pub fn video_format_from_fourcc(fourcc: u32) -> (r: Option<VideoFormat>)
    ensures
        r == spec_video_format_from_fourcc(fourcc),
{
    if fourcc == ndisys::NDIlib_FourCC_video_type_UYVY {
        Some(VideoFormat::Uyvy)
    } else if fourcc == ndisys::NDIlib_FourCC_video_type_UYVA {
        Some(VideoFormat::Uyvy)
    } else if fourcc == ndisys::NDIlib_FourCC_video_type_YV12 {
        Some(VideoFormat::I420)
    } else if fourcc == ndisys::NDIlib_FourCC_video_type_NV12 {
        Some(VideoFormat::Nv12)
    } else if fourcc == ndisys::NDIlib_FourCC_video_type_I420 {
        Some(VideoFormat::Yv12)
    } else if fourcc == ndisys::NDIlib_FourCC_video_type_BGRA {
        Some(VideoFormat::Bgra)
    } else if fourcc == ndisys::NDIlib_FourCC_video_type_BGRX {
        Some(VideoFormat::Bgrx)
    } else if fourcc == ndisys::NDIlib_FourCC_video_type_RGBA {
        Some(VideoFormat::Rgba)
    } else if fourcc == ndisys::NDIlib_FourCC_video_type_RGBX {
        Some(VideoFormat::Rgbx)
    } else {
        None
    }
}

/// The video configuration of received frames, all but the pixel aspect ratio.
#[derive(Debug, Copy, Clone, PartialEq, Eq, Structural)]
pub struct VideoInfoModel {
    pub format: VideoFormat,
    pub width: u32,
    pub height: u32,
    pub fps_n: i32,
    pub fps_d: i32,
    pub interlace_mode: InterlaceMode,
    /// Whether the top field comes first.
    pub tff: bool,
}

/// The interlacing of a stream of frames of the given type. With
/// `interlaced_fields`, single fields become alternate-field streams;
/// without, they are refused.
pub open spec fn spec_video_interlacing(
    t: NDIlib_frame_format_type_e,
    interlaced_fields: bool,
) -> Option<InterlaceMode> {
    match t {
        NDIlib_frame_format_type_e::NDIlib_frame_format_type_progressive => Some(
            InterlaceMode::Progressive,
        ),
        NDIlib_frame_format_type_e::NDIlib_frame_format_type_interleaved => Some(
            InterlaceMode::Interleaved,
        ),
        _ => if interlaced_fields {
            Some(InterlaceMode::Alternate)
        } else {
            None
        },
    }
}

/// The video configuration for a received frame. `Err(NotNegotiated)` where
/// its FourCC is unsupported, or where it is a single field and separate
/// fields are not supported.
pub fn create_video_info(frame: &VideoFrame, interlaced_fields: bool) -> (r: Result<
    VideoInfoModel,
    FlowError,
>)
    ensures
        r is Err ==> r == Err::<VideoInfoModel, FlowError>(FlowError::NotNegotiated),
        r is Ok <==> spec_video_format_from_fourcc(frame.fourcc) is Some && spec_video_interlacing(
            frame.frame_format_type,
            interlaced_fields,
        ) is Some,
        r matches Ok(info) ==> {
            &&& Some(info.format) == spec_video_format_from_fourcc(frame.fourcc)
            &&& info.width == frame.xres as u32
            &&& info.height == frame.yres as u32
            &&& info.fps_n == frame.frame_rate_n
            &&& info.fps_d == frame.frame_rate_d
            &&& Some(info.interlace_mode) == spec_video_interlacing(
                frame.frame_format_type,
                interlaced_fields,
            )
            &&& info.tff == (frame.frame_format_type
                == NDIlib_frame_format_type_e::NDIlib_frame_format_type_interleaved)
        },
{
    let format = match video_format_from_fourcc(frame.fourcc()) {
        Some(f) => f,
        None => return Err(FlowError::NotNegotiated),
    };
    let interlace_mode = match frame.frame_format_type() {
        NDIlib_frame_format_type_e::NDIlib_frame_format_type_progressive => {
            InterlaceMode::Progressive
        },
        NDIlib_frame_format_type_e::NDIlib_frame_format_type_interleaved => {
            InterlaceMode::Interleaved
        },
        _ => {
            if interlaced_fields {
                InterlaceMode::Alternate
            } else {
                return Err(FlowError::NotNegotiated);
            }
        },
    };
    let (fps_n, fps_d) = frame.frame_rate();
    Ok(VideoInfoModel {
        format,
        width: frame.xres() as u32,
        height: frame.yres() as u32,
        fps_n,
        fps_d,
        interlace_mode,
        tff: frame.frame_format_type()
            == NDIlib_frame_format_type_e::NDIlib_frame_format_type_interleaved,
    })
}

/// The interlacing flags of the buffer made from a frame of the given type.
pub open spec fn spec_video_buffer_flags(
    t: NDIlib_frame_format_type_e,
    interlaced_fields: bool,
) -> VideoBufferFlags {
    match t {
        NDIlib_frame_format_type_e::NDIlib_frame_format_type_interleaved => VideoBufferFlags {
            interlaced: true,
            tff: true,
            top_field: false,
            bottom_field: false,
        },
        NDIlib_frame_format_type_e::NDIlib_frame_format_type_field_0 if interlaced_fields =>
            VideoBufferFlags { interlaced: true, tff: false, top_field: true, bottom_field: false },
        NDIlib_frame_format_type_e::NDIlib_frame_format_type_field_1 if interlaced_fields =>
            VideoBufferFlags { interlaced: true, tff: false, top_field: false, bottom_field: true },
        _ => VideoBufferFlags {
            interlaced: false,
            tff: false,
            top_field: false,
            bottom_field: false,
        },
    }
}

/// The interlacing flags of the buffer made from a frame of the given type.
pub fn video_buffer_flags(t: NDIlib_frame_format_type_e, interlaced_fields: bool) -> (r:
    VideoBufferFlags)
    ensures
        r == spec_video_buffer_flags(t, interlaced_fields),
{
    let none = VideoBufferFlags {
        interlaced: false,
        tff: false,
        top_field: false,
        bottom_field: false,
    };
    match t {
        NDIlib_frame_format_type_e::NDIlib_frame_format_type_interleaved => VideoBufferFlags {
            interlaced: true,
            tff: true,
            top_field: false,
            bottom_field: false,
        },
        NDIlib_frame_format_type_e::NDIlib_frame_format_type_field_0 => {
            if interlaced_fields {
                VideoBufferFlags {
                    interlaced: true,
                    tff: false,
                    top_field: true,
                    bottom_field: false,
                }
            } else {
                none
            }
        },
        NDIlib_frame_format_type_e::NDIlib_frame_format_type_field_1 => {
            if interlaced_fields {
                VideoBufferFlags {
                    interlaced: true,
                    tff: false,
                    top_field: false,
                    bottom_field: true,
                }
            } else {
                none
            }
        },
        _ => none,
    }
}

/// The size in bytes of the interleaved signed 16-bit buffer for an audio frame.
pub fn audio_buffer_size(no_samples: i32, channels: u32) -> (r: usize)
    requires
        (no_samples as u32) * (channels * 2) <= u32::MAX,
        channels * 2 <= u32::MAX,
    ensures
        r == (no_samples as u32) * (channels * 2),
{
    let bpf: u32 = channels * 2;
    ((no_samples as u32) * bpf) as usize
}

// ---------------------------------------------------------------------------
// Copying video planes
// ---------------------------------------------------------------------------

/// One plane to copy from a received frame: where its rows start in the
/// frame's data, the distance between rows there, and the bytes of each row
/// that belong to the picture.
#[derive(Debug, Copy, Clone, PartialEq, Eq, Structural)]
pub struct PlaneCopy {
    pub src_offset: usize,
    pub src_stride: usize,
    pub line_bytes: usize,
}

/// The planes of a received frame in the given format, `width` pixels wide
/// and `yres` lines high, with source line stride `stride`.
pub open spec fn spec_video_copy_plan(format: VideoFormat, width: u32, yres: usize, stride: usize) -> Seq<
    PlaneCopy,
> {
    let half = stride / 2;
    let chroma = (width as int + 1) / 2;
    match format {
        VideoFormat::Uyvy => seq![PlaneCopy { src_offset: 0, src_stride: stride, line_bytes: (2 * width) as usize }],
        VideoFormat::Nv12 => seq![
            PlaneCopy { src_offset: 0, src_stride: stride, line_bytes: width as usize },
            PlaneCopy { src_offset: (yres * stride) as usize, src_stride: stride, line_bytes: width as usize },
        ],
        VideoFormat::I420 | VideoFormat::Yv12 => seq![
            PlaneCopy { src_offset: 0, src_stride: stride, line_bytes: width as usize },
            PlaneCopy { src_offset: (yres * stride) as usize, src_stride: half, line_bytes: chroma as usize },
            PlaneCopy {
                src_offset: (yres * stride + (yres + 1) / 2 * half) as usize,
                src_stride: half,
                line_bytes: chroma as usize,
            },
        ],
        _ => seq![PlaneCopy { src_offset: 0, src_stride: stride, line_bytes: (4 * width) as usize }],
    }
}

/// The planes to copy from a received frame: one for the packed formats, two
/// for NV12, three for I420 and YV12 (whose chroma rows are half as long,
/// rounded up, at half the stride).
pub fn video_copy_plan(format: VideoFormat, width: u32, yres: usize, stride: usize) -> (r: Vec<
    PlaneCopy,
>)
    requires
        format != VideoFormat::Nv21,
        yres < usize::MAX,
        yres * stride + (yres + 1) / 2 * (stride / 2) <= usize::MAX,
        4 * width <= usize::MAX,
    ensures
        r@ == spec_video_copy_plan(format, width, yres, stride),
{
    let mut planes: Vec<PlaneCopy> = Vec::new();
    proof {
        assert(0 <= (yres + 1) / 2 * (stride / 2)) by (nonlinear_arith)
            requires
                yres >= 0,
                stride >= 0,
        ;
        assert(0 <= yres * stride) by (nonlinear_arith)
            requires
                yres >= 0,
                stride >= 0,
        ;
    }
    match format {
        VideoFormat::Uyvy => {
            planes.push(
                PlaneCopy { src_offset: 0, src_stride: stride, line_bytes: 2 * (width as usize) },
            );
        },
        VideoFormat::Nv12 => {
            planes.push(
                PlaneCopy { src_offset: 0, src_stride: stride, line_bytes: width as usize },
            );
            planes.push(
                PlaneCopy {
                    src_offset: yres * stride,
                    src_stride: stride,
                    line_bytes: width as usize,
                },
            );
        },
        VideoFormat::I420 | VideoFormat::Yv12 => {
            let half = stride / 2;
            let chroma = (width as usize + 1) / 2;
            planes.push(
                PlaneCopy { src_offset: 0, src_stride: stride, line_bytes: width as usize },
            );
            planes.push(
                PlaneCopy { src_offset: yres * stride, src_stride: half, line_bytes: chroma },
            );
            planes.push(
                PlaneCopy {
                    src_offset: yres * stride + (yres + 1) / 2 * half,
                    src_stride: half,
                    line_bytes: chroma,
                },
            );
        },
        _ => {
            planes.push(
                PlaneCopy { src_offset: 0, src_stride: stride, line_bytes: 4 * (width as usize) },
            );
        },
    }
    proof {
        assert(planes@ =~= spec_video_copy_plan(format, width, yres, stride));
    }
    planes
}

/// The number of rows copied: as many as both destination and source hold whole.
pub open spec fn copy_rows(dest_len: int, dest_stride: int, src_len: int, plane: PlaneCopy) -> int {
    let d = dest_len / dest_stride;
    let s = (src_len - plane.src_offset) / (plane.src_stride as int);
    if d < s {
        d
    } else {
        s
    }
}

/// Row `row` of the destination holds the picture bytes of source row `row`.
pub open spec fn row_copied(dest: Seq<u8>, src: Seq<u8>, dest_stride: int, plane: PlaneCopy, row: int) -> bool {
    forall|j: int|
        0 <= j < plane.line_bytes ==> #[trigger] dest[row * dest_stride + j] == src[plane.src_offset
            + row * plane.src_stride + j]
}

proof fn lemma_row_index(r: int, rows: int, stride: int, j: int, len: int)
    requires
        0 <= r < rows,
        0 <= j < stride,
        rows * stride <= len,
    ensures
        0 <= r * stride + j < len,
        r * stride + j < (r + 1) * stride,
        r * stride <= r * stride + j,
{
    assert(0 <= r * stride + j < len) by (nonlinear_arith)
        requires
            0 <= r < rows,
            0 <= j < stride,
            rows * stride <= len,
    ;
    assert(r * stride + j < (r + 1) * stride) by (nonlinear_arith)
        requires
            0 <= j < stride,
    ;
}

proof fn lemma_rows_bound(len: int, stride: int, rows: int)
    requires
        stride > 0,
        len >= 0,
        0 <= rows <= len / stride,
    ensures
        rows * stride <= len,
{
    assert(rows * stride <= len) by (nonlinear_arith)
        requires
            stride > 0,
            len >= 0,
            0 <= rows <= len / stride,
    ;
}

proof fn lemma_earlier_rows_untouched(rr: int, r: int, stride: int, j: int, k: int)
    requires
        0 <= rr < r,
        0 <= j < stride,
        r * stride <= k,
    ensures
        rr * stride + j < k,
{
    assert(rr * stride + j < k) by (nonlinear_arith)
        requires
            0 <= rr < r,
            0 <= j < stride,
            r * stride <= k,
    ;
}

/// Copies one plane of a received frame into a destination plane, row by
/// row, over as many rows as both hold whole.
///
/// Each destination row is filled entirely from the source row, so the
/// destination stride must equal the bytes of picture per row; with
/// `whole_rows` (packed formats) the source stride must equal it too.
pub fn copy_plane(
    dest: &mut Vec<u8>,
    dest_stride: usize,
    src: &Vec<u8>,
    plane: PlaneCopy,
    whole_rows: bool,
)
    requires
        dest_stride > 0,
        plane.src_stride > 0,
        plane.src_offset <= src@.len(),
        copy_rows(old(dest)@.len() as int, dest_stride as int, src@.len() as int, plane) > 0 ==> {
            &&& dest_stride == plane.line_bytes
            &&& plane.line_bytes <= plane.src_stride
            &&& whole_rows ==> plane.src_stride == dest_stride
        },
    ensures
        final(dest)@.len() == old(dest)@.len(),
        forall|row: int|
            0 <= row < copy_rows(old(dest)@.len() as int, dest_stride as int, src@.len() as int, plane)
                ==> #[trigger] row_copied(final(dest)@, src@, dest_stride as int, plane, row),
        forall|k: int|
            copy_rows(old(dest)@.len() as int, dest_stride as int, src@.len() as int, plane)
                * dest_stride <= k < old(dest)@.len() ==> #[trigger] final(dest)@[k] == old(dest)@[k],
{
    let dest_rows = dest.len() / dest_stride;
    let src_rows = (src.len() - plane.src_offset) / plane.src_stride;
    let rows = if dest_rows < src_rows {
        dest_rows
    } else {
        src_rows
    };
    let ghost dlen = dest@.len() as int;
    let ghost ds = dest_stride as int;
    let ghost d0 = dest@;
    proof {
        lemma_rows_bound(dlen, ds, rows as int);
        lemma_rows_bound(src@.len() - plane.src_offset, plane.src_stride as int, rows as int);
    }
    let mut r: usize = 0;
    let mut dbase: usize = 0;
    let mut sbase: usize = plane.src_offset;
    while r < rows
        invariant
            rows == copy_rows(d0.len() as int, ds, src@.len() as int, plane),
            dlen <= usize::MAX,
            src@.len() <= usize::MAX,
            rows * ds <= dlen,
            rows * plane.src_stride <= src@.len() - plane.src_offset,
            rows > 0 ==> dest_stride == plane.line_bytes && plane.line_bytes <= plane.src_stride,
            dest@.len() == dlen,
            dlen == d0.len(),
            ds == dest_stride,
            dest_stride > 0,
            plane.src_stride > 0,
            r <= rows,
            dbase == r * ds,
            sbase == plane.src_offset + r * plane.src_stride,
            forall|rr: int| 0 <= rr < r ==> #[trigger] row_copied(dest@, src@, ds, plane, rr),
            forall|k: int| r * ds <= k < dlen ==> #[trigger] dest@[k] == d0[k],
        decreases rows - r,
    {
        proof {
            assert((r + 1) * ds <= rows * ds) by (nonlinear_arith)
                requires
                    r + 1 <= rows,
                    ds > 0,
            ;
            assert((r + 1) * plane.src_stride <= rows * plane.src_stride) by (nonlinear_arith)
                requires
                    r + 1 <= rows,
                    plane.src_stride > 0,
            ;
            assert((r + 1) * ds == r * ds + ds) by (nonlinear_arith);
            assert((r + 1) * plane.src_stride == r * plane.src_stride + plane.src_stride)
                by (nonlinear_arith);
        }
        let ghost before = dest@;
        assert(dest_stride == plane.line_bytes && plane.line_bytes <= plane.src_stride);
        assert(dbase + ds <= dlen);
        assert(sbase + plane.src_stride <= src@.len());
        let mut j: usize = 0;
        while j < plane.line_bytes
            invariant
                dest_stride == plane.line_bytes,
                plane.line_bytes <= plane.src_stride,
                dlen <= usize::MAX,
                src@.len() <= usize::MAX,
                r < rows,
                j <= plane.line_bytes,
                dest@.len() == dlen,
                dbase == r * ds,
                ds == dest_stride,
                dbase + ds <= dlen,
                sbase == plane.src_offset + r * plane.src_stride,
                sbase + plane.src_stride <= src@.len(),
                forall|jj: int|
                    0 <= jj < j ==> #[trigger] dest@[dbase + jj] == src@[sbase + jj],
                forall|k: int|
                    0 <= k < dlen && !(dbase <= k < dbase + j) ==> #[trigger] dest@[k]
                        == before[k],
            decreases plane.line_bytes - j,
        {
            let v = src[sbase + j];
            dest.set(dbase + j, v);
            j = j + 1;
        }
        proof {
            assert forall|rr: int| 0 <= rr < r + 1 implies #[trigger] row_copied(
                dest@,
                src@,
                ds,
                plane,
                rr,
            ) by {
                if rr < r {
                    assert(row_copied(before, src@, ds, plane, rr));
                    assert forall|jj: int| 0 <= jj < plane.line_bytes implies #[trigger] dest@[rr
                        * ds + jj] == src@[plane.src_offset + rr * plane.src_stride + jj] by {
                        lemma_earlier_rows_untouched(rr, r as int, ds, jj, dbase as int);
                        lemma_row_index(rr, rows as int, ds, jj, dlen);
                        assert(before[rr * ds + jj] == src@[plane.src_offset + rr
                            * plane.src_stride + jj]);
                    }
                } else {
                    assert forall|jj: int| 0 <= jj < plane.line_bytes implies #[trigger] dest@[rr
                        * ds + jj] == src@[plane.src_offset + rr * plane.src_stride + jj] by {
                        assert(dest@[dbase + jj] == src@[sbase + jj]);
                    }
                }
            }
        }
        r = r + 1;
        dbase = dbase + dest_stride;
        sbase = sbase + plane.src_stride;
    }
}

// ---------------------------------------------------------------------------
// The queue between the capture loop and the source element
// ---------------------------------------------------------------------------

/// What the source element gets from the receiver.
#[derive(Debug)]
pub enum ReceiverItem<T> {
    Buffer(T),
    Flushing,
    Timeout,
    Error(FlowError),
}

/// The state shared between the capture loop and the source element.
#[derive(Debug)]
pub struct ReceiverQueueInner<T> {
    /// The capture loop should stop.
    pub shutdown: bool,
    /// All buffers are discarded and captures return `Flushing`.
    pub flushing: bool,
    pub playing: bool,
    /// Produced buffers, oldest first.
    pub buffer_queue: VecDeque<T>,
    /// The first error of the capture loop.
    pub error: Option<FlowError>,
    /// The capture loop timed out (end of stream).
    pub timeout: bool,
}

/// The answer to a capture, and the queue afterwards; `None` means "wait".
pub open spec fn spec_capture<T>(
    error: Option<FlowError>,
    timeout: bool,
    flushing: bool,
    shutdown: bool,
    queue: Seq<T>,
) -> (Option<ReceiverItem<T>>, Seq<T>) {
    if error is Some {
        (Some(ReceiverItem::Error(error->0)), queue)
    } else if queue.len() == 0 && timeout {
        (Some(ReceiverItem::Timeout), queue)
    } else if flushing || shutdown {
        (Some(ReceiverItem::Flushing), queue)
    } else if queue.len() > 0 {
        (Some(ReceiverItem::Buffer(queue[0])), queue.subrange(1, queue.len() as int))
    } else {
        (None, queue)
    }
}

/// The most buffers the queue holds with limit `max`: `max`, or the one
/// just produced where the limit is 0.
pub open spec fn queue_limit(max: usize) -> int {
    if max == 0 {
        1
    } else {
        max as int
    }
}

/// How many of the newest buffers stay when a buffer is appended to a queue
/// of `len` with limit `max`: room is made for the new one, so at most
/// `max - 1` stay (none where the limit is 0).
pub open spec fn spec_kept(len: int, max: usize) -> int {
    if max == 0 {
        0
    } else if len < max {
        len
    } else {
        max - 1
    }
}

/// The queue after dropping the oldest buffers to make room and appending
/// `item`: it then holds at most `max` buffers (the new one alone where the
/// limit is 0).
pub open spec fn spec_push_bounded<T>(queue: Seq<T>, item: T, max: usize) -> Seq<T> {
    queue.subrange(queue.len() - spec_kept(queue.len() as int, max), queue.len() as int).push(item)
}

/// What the capture loop does next, judged from the shared state.
#[derive(Debug, Copy, Clone, PartialEq, Eq, Structural)]
pub enum LoopCheck {
    /// Leave the loop: shutdown was requested.
    Shutdown,
    /// Leave the loop: an error was already signalled.
    Errored,
    /// Capture, discarding what comes while flushing.
    Capture { flushing: bool },
}

impl<T> ReceiverQueueInner<T> {
    /// A queue that is neither flushing, playing nor shut down, and empty.
    pub fn new() -> (r: Self)
        ensures
            !r.shutdown,
            !r.flushing,
            !r.playing,
            r.buffer_queue@.len() == 0,
            r.error is None,
            !r.timeout,
    {
        ReceiverQueueInner {
            shutdown: false,
            flushing: false,
            playing: false,
            buffer_queue: VecDeque::new(),
            error: None,
            timeout: false,
        }
    }

    /// The element's side: the first of error, end of stream (only once the
    /// queue has drained), flushing/shutdown, or the oldest buffer; `None`
    /// when it has to wait for the capture loop.
    pub fn capture(&mut self) -> (r: Option<ReceiverItem<T>>)
        ensures
            (r, final(self).buffer_queue@) == spec_capture(
                old(self).error,
                old(self).timeout,
                old(self).flushing,
                old(self).shutdown,
                old(self).buffer_queue@,
            ),
            final(self).error == old(self).error,
            final(self).timeout == old(self).timeout,
            final(self).flushing == old(self).flushing,
            final(self).shutdown == old(self).shutdown,
            final(self).playing == old(self).playing,
    {
        if let Some(err) = self.error {
            return Some(ReceiverItem::Error(err));
        } else if self.buffer_queue.len() == 0 && self.timeout {
            return Some(ReceiverItem::Timeout);
        } else if self.flushing || self.shutdown {
            return Some(ReceiverItem::Flushing);
        }
        match self.buffer_queue.pop_front() {
            Some(buffer) => Some(ReceiverItem::Buffer(buffer)),
            None => None,
        }
    }

    pub fn set_flushing(&mut self, flushing: bool)
        ensures
            *final(self) == (ReceiverQueueInner { flushing, ..*old(self) }),
    {
        self.flushing = flushing;
    }

    pub fn set_playing(&mut self, playing: bool)
        ensures
            *final(self) == (ReceiverQueueInner { playing, ..*old(self) }),
    {
        self.playing = playing;
    }

    pub fn shutdown(&mut self)
        ensures
            *final(self) == (ReceiverQueueInner { shutdown: true, ..*old(self) }),
    {
        self.shutdown = true;
    }

    /// The capture loop's check before each capture.
    pub fn loop_check(&self) -> (r: LoopCheck)
        ensures
            r == (if self.shutdown {
                LoopCheck::Shutdown
            } else if self.error is Some {
                LoopCheck::Errored
            } else {
                LoopCheck::Capture { flushing: self.flushing }
            }),
    {
        if self.shutdown {
            LoopCheck::Shutdown
        } else if self.error.is_some() {
            LoopCheck::Errored
        } else {
            LoopCheck::Capture { flushing: self.flushing }
        }
    }

    /// Appends a produced buffer, first dropping the oldest ones so that
    /// with it at most `max_queue_length` are queued (it alone where the
    /// limit is 0).
    pub fn push_bounded(&mut self, item: T, max_queue_length: usize)
        ensures
            final(self).buffer_queue@ == spec_push_bounded(
                old(self).buffer_queue@,
                item,
                max_queue_length,
            ),
            final(self).buffer_queue@.len() <= queue_limit(max_queue_length),
            final(self).error == old(self).error,
            final(self).timeout == old(self).timeout,
            final(self).flushing == old(self).flushing,
            final(self).shutdown == old(self).shutdown,
            final(self).playing == old(self).playing,
    {
        let ghost q0 = self.buffer_queue@;
        let ghost e0 = self.error;
        let ghost t0 = self.timeout;
        let ghost f0 = self.flushing;
        let ghost s0 = self.shutdown;
        let ghost p0 = self.playing;
        let ghost mut dropped: int = 0;
        while self.buffer_queue.len() > 0 && self.buffer_queue.len() >= max_queue_length
            invariant
                0 <= dropped <= q0.len(),
                self.buffer_queue@ == q0.subrange(dropped, q0.len() as int),
                dropped > 0 ==> (if max_queue_length == 0 {
                    true
                } else {
                    q0.len() - dropped >= max_queue_length - 1
                }),
                self.error == e0,
                self.timeout == t0,
                self.flushing == f0,
                self.shutdown == s0,
                self.playing == p0,
            decreases self.buffer_queue@.len(),
        {
            self.buffer_queue.pop_front();
            proof {
                assert(self.buffer_queue@ =~= q0.subrange(dropped + 1, q0.len() as int));
                dropped = dropped + 1;
            }
        }
        proof {
            assert(dropped == q0.len() - spec_kept(q0.len() as int, max_queue_length));
        }
        self.buffer_queue.push_back(item);
    }

    /// Takes the outcome of producing one buffer. A buffer is queued (see
    /// `push_bounded`); end of stream marks the timeout; flushing empties the
    /// queue; any other error is kept unless one was kept before. Returns
    /// whether the capture loop goes on.
    pub fn handle_result(&mut self, res: Result<T, FlowError>, max_queue_length: usize) -> (r:
        bool)
        ensures
            r <==> (res is Ok || res == Err::<T, FlowError>(FlowError::Flushing)),
            old(self).buffer_queue@.len() <= queue_limit(max_queue_length)
                ==> final(self).buffer_queue@.len() <= queue_limit(max_queue_length),
            final(self).flushing == old(self).flushing,
            final(self).shutdown == old(self).shutdown,
            final(self).playing == old(self).playing,
            match res {
                Ok(item) => {
                    &&& final(self).buffer_queue@ == spec_push_bounded(
                        old(self).buffer_queue@,
                        item,
                        max_queue_length,
                    )
                    &&& final(self).error == old(self).error
                    &&& final(self).timeout == old(self).timeout
                },
                Err(FlowError::Eos) => {
                    &&& final(self).timeout
                    &&& final(self).buffer_queue@ == old(self).buffer_queue@
                    &&& final(self).error == old(self).error
                },
                Err(FlowError::Flushing) => {
                    &&& final(self).buffer_queue@.len() == 0
                    &&& final(self).error == old(self).error
                    &&& final(self).timeout == old(self).timeout
                },
                Err(e) => {
                    &&& final(self).error == (if old(self).error is Some {
                        old(self).error
                    } else {
                        Some(e)
                    })
                    &&& final(self).buffer_queue@ == old(self).buffer_queue@
                    &&& final(self).timeout == old(self).timeout
                },
            },
    {
        match res {
            Ok(item) => {
                self.push_bounded(item, max_queue_length);
                true
            },
            Err(FlowError::Eos) => {
                self.timeout = true;
                false
            },
            Err(FlowError::Flushing) => {
                self.buffer_queue.clear();
                true
            },
            Err(err) => {
                if self.error.is_none() {
                    self.error = Some(err);
                }
                false
            },
        }
    }
}

/// Buffers come out of the queue in the order they went in: where the queue
/// has room below its limit, a pushed buffer is appended behind the
/// others, and a capture (no error, not flushing, not shut down) hands out
/// the oldest buffer and keeps the rest; into an empty queue, the pushed
/// buffer is the next one captured.
pub proof fn lemma_queue_is_fifo<T>(queue: Seq<T>, item: T, max: usize, timeout: bool)
    requires
        queue.len() < max,
    ensures
        spec_push_bounded(queue, item, max) == queue.push(item),
        spec_capture(None, timeout, false, false, queue.push(item)) == (
            Some(ReceiverItem::Buffer(queue.push(item)[0])),
            queue.push(item).subrange(1, queue.len() as int + 1),
        ),
        queue.len() == 0 ==> spec_capture(None, timeout, false, false, queue.push(item)).0 == Some(
            ReceiverItem::Buffer(item),
        ),
{
    assert(queue.subrange(0, queue.len() as int) =~= queue);
}

/// Once the capture loop has reported an error, every capture answers with
/// that error and leaves the queued buffers alone, whatever else holds.
pub proof fn lemma_error_is_sticky<T>(
    e: FlowError,
    timeout: bool,
    flushing: bool,
    shutdown: bool,
    queue: Seq<T>,
)
    ensures
        spec_capture(Some(e), timeout, flushing, shutdown, queue) == (
            Some(ReceiverItem::<T>::Error(e)),
            queue,
        ),
{
}

// ---------------------------------------------------------------------------
// The capture loop
// ---------------------------------------------------------------------------

/// What one capture call of the SDK gave.
#[derive(Debug, Copy, Clone, PartialEq, Eq, Structural)]
pub enum CaptureOutcome {
    Error,
    NoFrame,
    Video,
    Audio,
    Metadata,
}

/// What the capture loop does with it.
#[derive(Debug, Copy, Clone, PartialEq, Eq, Structural)]
pub enum ReceiveAction {
    /// Hand this outcome to `handle_result`.
    Fail(FlowError),
    /// Capture again, keeping the timer.
    Retry,
    /// Turn the video frame into a buffer.
    ProduceVideo,
    /// Turn the audio frame into a buffer.
    ProduceAudio,
    /// Drop the captured audio or video frame: the element is not playing.
    Discard,
}

/// The capture loop's decision; see `receive_decision`.
pub open spec fn spec_receive_decision(
    flushing: bool,
    playing: bool,
    outcome: CaptureOutcome,
    first_frame: bool,
    connect_timeout: u32,
    timeout: u32,
    elapsed_ms: u64,
) -> (ReceiveAction, bool) {
    let t = if first_frame {
        connect_timeout
    } else {
        timeout
    };
    let action = if flushing {
        ReceiveAction::Fail(FlowError::Flushing)
    } else {
        match outcome {
            CaptureOutcome::Error => ReceiveAction::Fail(FlowError::Error),
            CaptureOutcome::NoFrame => if t > 0 && elapsed_ms >= t {
                ReceiveAction::Fail(FlowError::Eos)
            } else {
                ReceiveAction::Retry
            },
            CaptureOutcome::Video => if playing {
                ReceiveAction::ProduceVideo
            } else {
                ReceiveAction::Discard
            },
            CaptureOutcome::Audio => if playing {
                ReceiveAction::ProduceAudio
            } else {
                ReceiveAction::Discard
            },
            CaptureOutcome::Metadata => ReceiveAction::Retry,
        }
    };
    (
        action,
        first_frame && !(!flushing && (outcome == CaptureOutcome::Video || outcome
            == CaptureOutcome::Audio)),
    )
}

/// The capture loop's decision for one capture, and whether the next capture
/// is still waiting for the first frame. While flushing whatever came is
/// discarded; a capture error is an error; with a timeout set, nothing for
/// that long is the end of the stream (the connect timeout applies until the
/// first audio or video frame); audio and video frames become buffers only
/// while playing and are discarded otherwise; metadata frames are skipped.
pub fn receive_decision(
    flushing: bool,
    playing: bool,
    outcome: CaptureOutcome,
    first_frame: bool,
    connect_timeout: u32,
    timeout: u32,
    elapsed_ms: u64,
) -> (r: (ReceiveAction, bool))
    ensures
        r == spec_receive_decision(
            flushing,
            playing,
            outcome,
            first_frame,
            connect_timeout,
            timeout,
            elapsed_ms,
        ),
{
    let t = if first_frame {
        connect_timeout
    } else {
        timeout
    };
    if flushing {
        return (ReceiveAction::Fail(FlowError::Flushing), first_frame);
    }
    match outcome {
        CaptureOutcome::Error => (ReceiveAction::Fail(FlowError::Error), first_frame),
        CaptureOutcome::NoFrame => {
            if t > 0 && elapsed_ms >= t as u64 {
                (ReceiveAction::Fail(FlowError::Eos), first_frame)
            } else {
                (ReceiveAction::Retry, first_frame)
            }
        },
        CaptureOutcome::Video => if playing {
            (ReceiveAction::ProduceVideo, false)
        } else {
            (ReceiveAction::Discard, false)
        },
        CaptureOutcome::Audio => if playing {
            (ReceiveAction::ProduceAudio, false)
        } else {
            (ReceiveAction::Discard, false)
        },
        CaptureOutcome::Metadata => (ReceiveAction::Retry, first_frame),
    }
}

/// The capture loop's timer: whether it still waits for the first frame, and
/// when (in milliseconds of a monotonic clock) a buffer was last queued, the
/// queue last flushed, or a frame last discarded.
#[derive(Debug, Copy, Clone, PartialEq, Eq, Structural)]
pub struct ReceiveTimer {
    pub first_frame: bool,
    pub last_activity_ms: u64,
}

impl ReceiveTimer {
    /// Waiting for the first frame since `now_ms`.
    pub fn new(now_ms: u64) -> (r: Self)
        ensures
            r.first_frame,
            r.last_activity_ms == now_ms,
    {
        ReceiveTimer { first_frame: true, last_activity_ms: now_ms }
    }

    /// The decision for one capture at `now_ms`; see `receive_decision`.
    /// The stream ends (`Fail(Eos)`) only once a timeout is set and at least
    /// that long has passed since the last activity; a discarded frame counts
    /// as activity.
    pub fn decide(
        &mut self,
        flushing: bool,
        playing: bool,
        outcome: CaptureOutcome,
        connect_timeout: u32,
        timeout: u32,
        now_ms: u64,
    ) -> (r: ReceiveAction)
        ensures
            ({
                let elapsed = if now_ms >= old(self).last_activity_ms {
                    (now_ms - old(self).last_activity_ms) as u64
                } else {
                    0u64
                };
                let d = spec_receive_decision(
                    flushing,
                    playing,
                    outcome,
                    old(self).first_frame,
                    connect_timeout,
                    timeout,
                    elapsed,
                );
                &&& r == d.0
                &&& final(self).first_frame == d.1
                &&& final(self).last_activity_ms == (if r == ReceiveAction::Discard {
                    now_ms
                } else {
                    old(self).last_activity_ms
                })
            }),
            r == ReceiveAction::Fail(FlowError::Eos) ==> {
                let t = if old(self).first_frame {
                    connect_timeout
                } else {
                    timeout
                };
                t > 0 && now_ms >= old(self).last_activity_ms + t
            },
    {
        let elapsed: u64 = now_ms.saturating_sub(self.last_activity_ms);
        let (action, first_frame) = receive_decision(
            flushing,
            playing,
            outcome,
            self.first_frame,
            connect_timeout,
            timeout,
            elapsed,
        );
        self.first_frame = first_frame;
        if action == ReceiveAction::Discard {
            self.last_activity_ms = now_ms;
        }
        action
    }

    /// After `handle_result`: where the loop goes on (a buffer was queued or
    /// the queue flushed) the timer restarts at `now_ms`.
    pub fn record(&mut self, go_on: bool, now_ms: u64)
        ensures
            final(self).first_frame == old(self).first_frame,
            final(self).last_activity_ms == (if go_on {
                now_ms
            } else {
                old(self).last_activity_ms
            }),
    {
        if go_on {
            self.last_activity_ms = now_ms;
        }
    }
}

/// The capture outcome for the frame type that the SDK reported: audio,
/// video and metadata frames as such, an error as an error, anything else
/// (nothing captured, a status change) as no frame.
pub fn capture_outcome(t: ndisys::NDIlib_frame_type_e) -> (r: CaptureOutcome)
    ensures
        r == (match t {
            ndisys::NDIlib_frame_type_e::NDIlib_frame_type_audio => CaptureOutcome::Audio,
            ndisys::NDIlib_frame_type_e::NDIlib_frame_type_video => CaptureOutcome::Video,
            ndisys::NDIlib_frame_type_e::NDIlib_frame_type_metadata => CaptureOutcome::Metadata,
            ndisys::NDIlib_frame_type_e::NDIlib_frame_type_error => CaptureOutcome::Error,
            _ => CaptureOutcome::NoFrame,
        }),
{
    match t {
        ndisys::NDIlib_frame_type_e::NDIlib_frame_type_audio => CaptureOutcome::Audio,
        ndisys::NDIlib_frame_type_e::NDIlib_frame_type_video => CaptureOutcome::Video,
        ndisys::NDIlib_frame_type_e::NDIlib_frame_type_metadata => CaptureOutcome::Metadata,
        ndisys::NDIlib_frame_type_e::NDIlib_frame_type_error => CaptureOutcome::Error,
        _ => CaptureOutcome::NoFrame,
    }
}

/// What connecting to a source sets up: a receiver for the source at the
/// given bandwidth, in UYVY (BGRA with alpha), with fields allowed; the
/// tally it reports (on program); and the metadata that asks the sender for
/// hardware acceleration.
pub fn connect_plan(
    ndi_name: Option<String>,
    url_address: Option<String>,
    receiver_ndi_name: String,
    bandwidth: i32,
) -> (r: (RecvBuilder, Tally, MetadataFrame))
    requires
        ndi_name is Some || url_address is Some,
    ensures
        r.0.ndi_name == ndi_name,
        r.0.url_address == url_address,
        r.0.ndi_recv_name == receiver_ndi_name,
        r.0.bandwidth == bandwidth,
        r.0.color_format == ndisys::NDIlib_recv_color_format_UYVY_BGRA,
        r.0.allow_video_fields,
        r.1.0.on_program,
        !r.1.0.on_preview,
        r.2.timecode == 0,
        r.2.data matches Some(d) && d@ == "<ndi_hwaccel enabled=\"true\"/>"@,
{
    let recv = RecvBuilder::new(ndi_name, url_address, receiver_ndi_name).bandwidth(
        bandwidth,
    ).color_format(ndisys::NDIlib_recv_color_format_UYVY_BGRA).allow_video_fields(true);
    let tally = Tally::default();
    let hw_accel = MetadataFrame::new(0, Some(String::from_str("<ndi_hwaccel enabled=\"true\"/>")));
    (recv, tally, hw_accel)
}

/// The latency announced for audio frames of this length: their duration,
/// rounded up, or `None` where it does not fit.
pub fn audio_frame_latency(frame: &AudioFrame) -> (r: Option<u64>)
    requires
        frame.sample_rate as u64 != 0,
    ensures
        r == clock::spec_mul_div_ceil(
            clock::SECOND,
            frame.no_samples as u64,
            frame.sample_rate as u64,
        ),
{
    clock::mul_div_ceil(clock::SECOND, frame.no_samples() as u64, frame.sample_rate() as u64)
}

/// How received frames are timed: the skew estimator and the timestamp mode.
pub struct ReceiverTiming {
    pub observations: Observations,
    pub timestamp_mode: TimestampMode,
    /// Whether single fields are passed on as alternate-field video.
    pub interlaced_fields: bool,
}

/// Everything needed to build the buffer of a received video frame.
#[derive(Debug, Copy, Clone)]
pub struct VideoBufferPlan {
    pub pts: u64,
    pub duration: Option<u64>,
    pub info: VideoInfoModel,
    pub flags: VideoBufferFlags,
}

/// Everything needed to build the buffer of a received audio frame.
#[derive(Debug, Copy, Clone)]
pub struct AudioBufferPlan {
    pub pts: u64,
    pub duration: Option<u64>,
}

impl ReceiverTiming {
    pub fn new(timestamp_mode: TimestampMode, interlaced_fields: bool) -> (r: Self)
        ensures
            r.observations.well_formed(),
            r.observations@ == crate::observations::initial_model(),
            r.timestamp_mode == timestamp_mode,
            r.interlaced_fields == interlaced_fields,
    {
        ReceiverTiming { observations: Observations::new(), timestamp_mode, interlaced_fields }
    }

    /// PTS and duration (one frame period) of a video frame; see `calculate_timestamp`.
    pub fn calculate_video_timestamp(
        &mut self,
        frame: &VideoFrame,
        receive_time: Option<u64>,
        real_time_now: u64,
    ) -> (r: Option<(u64, Option<u64>)>)
        requires
            old(self).observations.well_formed(),
            frame.frame_rate_n as u64 != 0,
            receive_time matches Some(rt) ==> timestamp_inputs_ok(
                old(self).timestamp_mode,
                rt,
                real_time_now,
                frame.timestamp,
                frame.timecode,
            ),
        ensures
            final(self).observations.well_formed(),
            final(self).timestamp_mode == old(self).timestamp_mode,
            final(self).interlaced_fields == old(self).interlaced_fields,
            r is None <==> receive_time is None,
            receive_time is None ==> final(self).observations@ == old(self).observations@,
            receive_time matches Some(rt) ==> {
                let (m, pts) = spec_pts(
                    old(self).timestamp_mode,
                    old(self).observations@,
                    rt,
                    real_time_now,
                    frame.timestamp,
                    frame.timecode,
                );
                &&& r matches Some((p, d)) && p as int == pts && d == clock::spec_mul_div_floor(
                    clock::SECOND,
                    frame.frame_rate_d as u64,
                    frame.frame_rate_n as u64,
                )
                &&& final(self).observations@ == m
            },
    {
        let duration = video_frame_duration(frame);
        calculate_timestamp(
            self.timestamp_mode,
            &mut self.observations,
            receive_time,
            real_time_now,
            frame.timestamp(),
            frame.timecode(),
            duration,
        )
    }

    /// PTS and duration (samples over rate) of an audio frame; see `calculate_timestamp`.
    pub fn calculate_audio_timestamp(
        &mut self,
        frame: &AudioFrame,
        receive_time: Option<u64>,
        real_time_now: u64,
    ) -> (r: Option<(u64, Option<u64>)>)
        requires
            old(self).observations.well_formed(),
            frame.sample_rate as u64 != 0,
            receive_time matches Some(rt) ==> timestamp_inputs_ok(
                old(self).timestamp_mode,
                rt,
                real_time_now,
                frame.timestamp,
                frame.timecode,
            ),
        ensures
            final(self).observations.well_formed(),
            final(self).timestamp_mode == old(self).timestamp_mode,
            final(self).interlaced_fields == old(self).interlaced_fields,
            r is None <==> receive_time is None,
            receive_time is None ==> final(self).observations@ == old(self).observations@,
            receive_time matches Some(rt) ==> {
                let (m, pts) = spec_pts(
                    old(self).timestamp_mode,
                    old(self).observations@,
                    rt,
                    real_time_now,
                    frame.timestamp,
                    frame.timecode,
                );
                &&& r matches Some((p, d)) && p as int == pts && d == clock::spec_mul_div_floor(
                    clock::SECOND,
                    frame.no_samples as u64,
                    frame.sample_rate as u64,
                )
                &&& final(self).observations@ == m
            },
    {
        let duration = audio_frame_duration(frame);
        calculate_timestamp(
            self.timestamp_mode,
            &mut self.observations,
            receive_time,
            real_time_now,
            frame.timestamp(),
            frame.timecode(),
            duration,
        )
    }

    /// The buffer for a received video frame: `Err(Flushing)` without a
    /// running time, `Err(NotNegotiated)` for an unsupported frame; otherwise
    /// its timing, video configuration and interlacing flags.
    pub fn create_video_buffer_and_info(
        &mut self,
        frame: &VideoFrame,
        receive_time: Option<u64>,
        real_time_now: u64,
    ) -> (r: Result<VideoBufferPlan, FlowError>)
        requires
            old(self).observations.well_formed(),
            frame.frame_rate_n as u64 != 0,
            receive_time matches Some(rt) ==> timestamp_inputs_ok(
                old(self).timestamp_mode,
                rt,
                real_time_now,
                frame.timestamp,
                frame.timecode,
            ),
        ensures
            final(self).observations.well_formed(),
            final(self).timestamp_mode == old(self).timestamp_mode,
            final(self).interlaced_fields == old(self).interlaced_fields,
            receive_time is None ==> r == Err::<VideoBufferPlan, FlowError>(FlowError::Flushing),
            receive_time is Some ==> (r is Err <==> (spec_video_format_from_fourcc(frame.fourcc) is None
                || spec_video_interlacing(frame.frame_format_type, old(self).interlaced_fields) is None)),
            receive_time is Some && r is Err ==> r == Err::<VideoBufferPlan, FlowError>(FlowError::NotNegotiated),
            receive_time matches Some(rt) ==> {
                let (m, pts) = spec_pts(
                    old(self).timestamp_mode,
                    old(self).observations@,
                    rt,
                    real_time_now,
                    frame.timestamp,
                    frame.timecode,
                );
                &&& final(self).observations@ == m
                &&& r matches Ok(p) ==> {
                    &&& p.pts as int == pts
                    &&& p.duration == clock::spec_mul_div_floor(
                        clock::SECOND,
                        frame.frame_rate_d as u64,
                        frame.frame_rate_n as u64,
                    )
                    &&& Some(p.info.format) == spec_video_format_from_fourcc(frame.fourcc)
                    &&& p.info.width == frame.xres as u32
                    &&& p.info.height == frame.yres as u32
                    &&& Some(p.info.interlace_mode) == spec_video_interlacing(
                        frame.frame_format_type,
                        old(self).interlaced_fields,
                    )
                    &&& p.flags == spec_video_buffer_flags(
                        frame.frame_format_type,
                        old(self).interlaced_fields,
                    )
                }
            },
    {
        let (pts, duration) = match self.calculate_video_timestamp(
            frame,
            receive_time,
            real_time_now,
        ) {
            None => return Err(FlowError::Flushing),
            Some(t) => t,
        };
        let info = create_video_info(frame, self.interlaced_fields)?;
        let flags = video_buffer_flags(frame.frame_format_type(), self.interlaced_fields);
        Ok(VideoBufferPlan { pts, duration, info, flags })
    }

    /// The buffer for a received audio frame: `Err(Flushing)` without a
    /// running time; otherwise its timing.
    pub fn create_audio_buffer_and_info(
        &mut self,
        frame: &AudioFrame,
        receive_time: Option<u64>,
        real_time_now: u64,
    ) -> (r: Result<AudioBufferPlan, FlowError>)
        requires
            old(self).observations.well_formed(),
            frame.sample_rate as u64 != 0,
            receive_time matches Some(rt) ==> timestamp_inputs_ok(
                old(self).timestamp_mode,
                rt,
                real_time_now,
                frame.timestamp,
                frame.timecode,
            ),
        ensures
            final(self).observations.well_formed(),
            final(self).timestamp_mode == old(self).timestamp_mode,
            final(self).interlaced_fields == old(self).interlaced_fields,
            r is Err <==> receive_time is None,
            r is Err ==> r == Err::<AudioBufferPlan, FlowError>(FlowError::Flushing),
            receive_time matches Some(rt) ==> {
                let (m, pts) = spec_pts(
                    old(self).timestamp_mode,
                    old(self).observations@,
                    rt,
                    real_time_now,
                    frame.timestamp,
                    frame.timecode,
                );
                &&& final(self).observations@ == m
                &&& r matches Ok(p) && p.pts as int == pts && p.duration
                    == clock::spec_mul_div_floor(
                    clock::SECOND,
                    frame.no_samples as u64,
                    frame.sample_rate as u64,
                )
            },
    {
        match self.calculate_audio_timestamp(frame, receive_time, real_time_now) {
            None => Err(FlowError::Flushing),
            Some((pts, duration)) => Ok(AudioBufferPlan { pts, duration }),
        }
    }
}

/// In the modes that correct the receive time, the first frame (before the
/// estimator has a base) gets its receive time as PTS: PTS are running times
/// of this element, whatever the sender's clock reads.
pub proof fn lemma_first_frame_gets_receive_time(
    mode: TimestampMode,
    obs: ObservationsModel,
    receive_time: u64,
    real_time_now: u64,
    timestamp: i64,
    timecode: i64,
)
    requires
        obs.base is None,
        mode == TimestampMode::ReceiveTimeTimecode || mode == TimestampMode::ReceiveTimeTimestamp
            || mode == TimestampMode::ReceiveTime,
    ensures
        spec_pts(mode, obs, receive_time, real_time_now, timestamp, timecode).1 == receive_time,
        mode != TimestampMode::ReceiveTime ==> (spec_pts(
            mode,
            obs,
            receive_time,
            real_time_now,
            timestamp,
            timecode,
        ).0.base matches Some((remote, local)) ==> local == receive_time),
{
}

/// The timestamp mode feeds the estimator exactly as the timecode mode does,
/// with the SDK timestamp in place of the timecode: remote time from the
/// sender, local time the receive time.
pub proof fn lemma_timestamp_mode_is_timecode_mode_on_timestamps(
    obs: ObservationsModel,
    receive_time: u64,
    real_time_now: u64,
    timestamp: i64,
    timecode: i64,
)
    requires
        timestamp != ndisys::NDIlib_recv_timestamp_undefined,
        0 <= timestamp <= clock::MAX_NDI_TIME,
    ensures
        spec_pts(
            TimestampMode::ReceiveTimeTimestamp,
            obs,
            receive_time,
            real_time_now,
            timestamp,
            timecode,
        ) == spec_pts(
            TimestampMode::ReceiveTimeTimecode,
            obs,
            receive_time,
            real_time_now,
            timestamp,
            timestamp,
        ),
{
}

/// The capture loop stops waiting for the first frame exactly when an audio
/// or video frame is captured outside flushing; empty polls, metadata and
/// errors leave it waiting (so the connect timeout keeps applying).
pub proof fn lemma_first_frame_ends_only_with_a_frame(
    flushing: bool,
    playing: bool,
    outcome: CaptureOutcome,
    first_frame: bool,
    connect_timeout: u32,
    timeout: u32,
    elapsed_ms: u64,
)
    ensures
        ({
            let got_frame = !flushing && (outcome == CaptureOutcome::Video || outcome
                == CaptureOutcome::Audio);
            let r = spec_receive_decision(
                flushing,
                playing,
                outcome,
                first_frame,
                connect_timeout,
                timeout,
                elapsed_ms,
            );
            &&& !got_frame ==> r.1 == first_frame
            &&& got_frame ==> !r.1
        }),
{
}

/// What the receiver announces matches the NDI frame type: a progressive
/// frame gives progressive caps and buffers without interlacing flags; the
/// caps are progressive exactly where the buffers carry no interlacing flag.
pub proof fn lemma_received_interlacing_matches_frame_type(
    t: NDIlib_frame_format_type_e,
    interlaced_fields: bool,
)
    ensures
        spec_video_interlacing(
            NDIlib_frame_format_type_e::NDIlib_frame_format_type_progressive,
            interlaced_fields,
        ) == Some(InterlaceMode::Progressive),
        !spec_video_buffer_flags(
            NDIlib_frame_format_type_e::NDIlib_frame_format_type_progressive,
            interlaced_fields,
        ).interlaced,
        spec_video_interlacing(t, interlaced_fields) matches Some(m) ==> (m
            == InterlaceMode::Progressive <==> !spec_video_buffer_flags(t, interlaced_fields).interlaced),
{
}

/// Interlacing survives sending and receiving: a frame sent with an
/// interlace mode is received with that mode; and it is sent as a
/// progressive frame exactly when it is progressive.
pub proof fn lemma_interlacing_round_trip(mode: InterlaceMode, tff: bool, interlaced_fields: bool)
    ensures
        spec_send_frame_format_type(mode, tff, interlaced_fields) matches Some(t)
            ==> spec_video_interlacing(t, interlaced_fields) == Some(mode),
        spec_send_frame_format_type(mode, tff, interlaced_fields) == Some(
            NDIlib_frame_format_type_e::NDIlib_frame_format_type_progressive,
        ) <==> mode == InterlaceMode::Progressive,
{
}

} // verus!
