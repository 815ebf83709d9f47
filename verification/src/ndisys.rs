//! Plain-value model of the NDI SDK types and constants.
use vstd::prelude::*;

verus! {

/// The little-endian packing of four bytes into a FourCC code.
pub open spec fn spec_fourcc(b0: u8, b1: u8, b2: u8, b3: u8) -> u32 {
    (b0 as int + b1 as int * 0x100 + b2 as int * 0x1_0000 + b3 as int * 0x100_0000) as u32
}

/// Packs four bytes into a FourCC code, the first byte in the lowest bits.
pub fn make_fourcc(fourcc: &[u8; 4]) -> (r: u32)
    ensures
        r == spec_fourcc(fourcc@[0], fourcc@[1], fourcc@[2], fourcc@[3]),
        r as int == fourcc@[0] as int + fourcc@[1] as int * 0x100 + fourcc@[2] as int * 0x1_0000
            + fourcc@[3] as int * 0x100_0000,
{
    let a: u32 = fourcc[0] as u32;
    let b: u32 = fourcc[1] as u32;
    let c: u32 = fourcc[2] as u32;
    let d: u32 = fourcc[3] as u32;
    let r: u32 = a | (b << 8) | (c << 16) | (d << 24);
    assert(r == a + b * 0x100 + c * 0x1_0000 + d * 0x100_0000) by (bit_vector)
        requires
            a < 256,
            b < 256,
            c < 256,
            d < 256,
            r == a | (b << 8) | (c << 16) | (d << 24),
    ;
    r
}

} // verus!

verus! {

/// What a capture call of the NDI SDK handed back.
#[derive(Debug, Copy, Clone, PartialEq, Eq, Structural, Hash)]
pub enum NDIlib_frame_type_e {
    NDIlib_frame_type_none,
    NDIlib_frame_type_video,
    NDIlib_frame_type_audio,
    NDIlib_frame_type_metadata,
    NDIlib_frame_type_error,
    NDIlib_frame_type_status_change,
}

/// The SDK's number for each frame type.
pub open spec fn spec_frame_type_raw(t: NDIlib_frame_type_e) -> i32 {
    match t {
        NDIlib_frame_type_e::NDIlib_frame_type_none => 0,
        NDIlib_frame_type_e::NDIlib_frame_type_video => 1,
        NDIlib_frame_type_e::NDIlib_frame_type_audio => 2,
        NDIlib_frame_type_e::NDIlib_frame_type_metadata => 3,
        NDIlib_frame_type_e::NDIlib_frame_type_error => 4,
        NDIlib_frame_type_e::NDIlib_frame_type_status_change => 100,
    }
}

/// The frame type with the SDK's number `raw`, if there is one.
pub open spec fn spec_frame_type_from_raw(raw: i32) -> Option<NDIlib_frame_type_e> {
    if raw == 0 {
        Some(NDIlib_frame_type_e::NDIlib_frame_type_none)
    } else if raw == 1 {
        Some(NDIlib_frame_type_e::NDIlib_frame_type_video)
    } else if raw == 2 {
        Some(NDIlib_frame_type_e::NDIlib_frame_type_audio)
    } else if raw == 3 {
        Some(NDIlib_frame_type_e::NDIlib_frame_type_metadata)
    } else if raw == 4 {
        Some(NDIlib_frame_type_e::NDIlib_frame_type_error)
    } else if raw == 100 {
        Some(NDIlib_frame_type_e::NDIlib_frame_type_status_change)
    } else {
        None
    }
}

impl NDIlib_frame_type_e {
    /// The SDK's number for this frame type.
    pub fn to_raw(&self) -> (r: i32)
        ensures
            r == spec_frame_type_raw(*self),
    {
        match self {
            NDIlib_frame_type_e::NDIlib_frame_type_none => 0,
            NDIlib_frame_type_e::NDIlib_frame_type_video => 1,
            NDIlib_frame_type_e::NDIlib_frame_type_audio => 2,
            NDIlib_frame_type_e::NDIlib_frame_type_metadata => 3,
            NDIlib_frame_type_e::NDIlib_frame_type_error => 4,
            NDIlib_frame_type_e::NDIlib_frame_type_status_change => 100,
        }
    }

    /// The frame type with the SDK's number `raw`, if there is one.
    pub fn from_raw(raw: i32) -> (r: Option<Self>)
        ensures
            r == spec_frame_type_from_raw(raw),
    {
        if raw == 0 {
            Some(NDIlib_frame_type_e::NDIlib_frame_type_none)
        } else if raw == 1 {
            Some(NDIlib_frame_type_e::NDIlib_frame_type_video)
        } else if raw == 2 {
            Some(NDIlib_frame_type_e::NDIlib_frame_type_audio)
        } else if raw == 3 {
            Some(NDIlib_frame_type_e::NDIlib_frame_type_metadata)
        } else if raw == 4 {
            Some(NDIlib_frame_type_e::NDIlib_frame_type_error)
        } else if raw == 100 {
            Some(NDIlib_frame_type_e::NDIlib_frame_type_status_change)
        } else {
            None
        }
    }
}

/// How the lines of a video frame are laid out in time.
#[derive(Debug, Copy, Clone, PartialEq, Eq, Structural, Hash)]
pub enum NDIlib_frame_format_type_e {
    NDIlib_frame_format_type_progressive,
    NDIlib_frame_format_type_interleaved,
    NDIlib_frame_format_type_field_0,
    NDIlib_frame_format_type_field_1,
}

/// The SDK's number for each frame format type.
pub open spec fn spec_frame_format_type_raw(t: NDIlib_frame_format_type_e) -> u32 {
    match t {
        NDIlib_frame_format_type_e::NDIlib_frame_format_type_progressive => 1,
        NDIlib_frame_format_type_e::NDIlib_frame_format_type_interleaved => 0,
        NDIlib_frame_format_type_e::NDIlib_frame_format_type_field_0 => 2,
        NDIlib_frame_format_type_e::NDIlib_frame_format_type_field_1 => 3,
    }
}

/// The frame format type with the SDK's number `raw`, if there is one.
pub open spec fn spec_frame_format_type_from_raw(raw: u32) -> Option<NDIlib_frame_format_type_e> {
    if raw == 0 {
        Some(NDIlib_frame_format_type_e::NDIlib_frame_format_type_interleaved)
    } else if raw == 1 {
        Some(NDIlib_frame_format_type_e::NDIlib_frame_format_type_progressive)
    } else if raw == 2 {
        Some(NDIlib_frame_format_type_e::NDIlib_frame_format_type_field_0)
    } else if raw == 3 {
        Some(NDIlib_frame_format_type_e::NDIlib_frame_format_type_field_1)
    } else {
        None
    }
}

impl NDIlib_frame_format_type_e {
    /// The SDK's number for this frame format type.
    pub fn to_raw(&self) -> (r: u32)
        ensures
            r == spec_frame_format_type_raw(*self),
    {
        match self {
            NDIlib_frame_format_type_e::NDIlib_frame_format_type_progressive => 1,
            NDIlib_frame_format_type_e::NDIlib_frame_format_type_interleaved => 0,
            NDIlib_frame_format_type_e::NDIlib_frame_format_type_field_0 => 2,
            NDIlib_frame_format_type_e::NDIlib_frame_format_type_field_1 => 3,
        }
    }

    /// The frame format type with the SDK's number `raw`, if there is one.
    pub fn from_raw(raw: u32) -> (r: Option<Self>)
        ensures
            r == spec_frame_format_type_from_raw(raw),
    {
        if raw == 0 {
            Some(NDIlib_frame_format_type_e::NDIlib_frame_format_type_interleaved)
        } else if raw == 1 {
            Some(NDIlib_frame_format_type_e::NDIlib_frame_format_type_progressive)
        } else if raw == 2 {
            Some(NDIlib_frame_format_type_e::NDIlib_frame_format_type_field_0)
        } else if raw == 3 {
            Some(NDIlib_frame_format_type_e::NDIlib_frame_format_type_field_1)
        } else {
            None
        }
    }
}

/// Each frame type comes back from its SDK number, and each SDK number that
/// names a frame type comes back from it.
pub proof fn lemma_frame_type_raw_roundtrip(t: NDIlib_frame_type_e, raw: i32)
    ensures
        spec_frame_type_from_raw(spec_frame_type_raw(t)) == Some(t),
        spec_frame_type_from_raw(raw) matches Some(u) ==> spec_frame_type_raw(u) == raw,
{
}

/// Each frame format type comes back from its SDK number, and each SDK number
/// that names one comes back from it.
pub proof fn lemma_frame_format_type_raw_roundtrip(t: NDIlib_frame_format_type_e, raw: u32)
    ensures
        spec_frame_format_type_from_raw(spec_frame_format_type_raw(t)) == Some(t),
        spec_frame_format_type_from_raw(raw) matches Some(u) ==> spec_frame_format_type_raw(u)
            == raw,
{
}

pub const NDIlib_recv_bandwidth_metadata_only: i32 = -10;
pub const NDIlib_recv_bandwidth_audio_only: i32 = 10;
pub const NDIlib_recv_bandwidth_lowest: i32 = 0;
pub const NDIlib_recv_bandwidth_highest: i32 = 100;

pub const NDIlib_recv_color_format_BGRX_BGRA: u32 = 0;
pub const NDIlib_recv_color_format_UYVY_BGRA: u32 = 1;
pub const NDIlib_recv_color_format_RGBX_RGBA: u32 = 2;
pub const NDIlib_recv_color_format_UYVY_RGBA: u32 = 3;
pub const NDIlib_recv_color_format_fastest: u32 = 100;
pub const NDIlib_recv_color_format_best: u32 = 101;

pub const NDIlib_FourCC_video_type_UYVY: u32 = 0x5956_5955;
pub const NDIlib_FourCC_video_type_UYVA: u32 = 0x4156_5955;
pub const NDIlib_FourCC_video_type_P216: u32 = 0x3631_3250;
pub const NDIlib_FourCC_video_type_PA16: u32 = 0x3631_4150;
pub const NDIlib_FourCC_video_type_YV12: u32 = 0x3231_5659;
pub const NDIlib_FourCC_video_type_I420: u32 = 0x3032_3449;
pub const NDIlib_FourCC_video_type_NV12: u32 = 0x3231_564e;
pub const NDIlib_FourCC_video_type_BGRA: u32 = 0x4152_4742;
pub const NDIlib_FourCC_video_type_BGRX: u32 = 0x5852_4742;
pub const NDIlib_FourCC_video_type_RGBA: u32 = 0x4142_4752;
pub const NDIlib_FourCC_video_type_RGBX: u32 = 0x5842_4752;
pub const NDIlib_FourCC_audio_type_FLTp: u32 = 0x7054_4c46;

/// Each FourCC constant is the packing of the four characters it is named after.
pub proof fn lemma_fourcc_constants()
    ensures
        NDIlib_FourCC_video_type_UYVY == spec_fourcc(85, 89, 86, 89),
        NDIlib_FourCC_video_type_UYVA == spec_fourcc(85, 89, 86, 65),
        NDIlib_FourCC_video_type_P216 == spec_fourcc(80, 50, 49, 54),
        NDIlib_FourCC_video_type_PA16 == spec_fourcc(80, 65, 49, 54),
        NDIlib_FourCC_video_type_YV12 == spec_fourcc(89, 86, 49, 50),
        NDIlib_FourCC_video_type_I420 == spec_fourcc(73, 52, 50, 48),
        NDIlib_FourCC_video_type_NV12 == spec_fourcc(78, 86, 49, 50),
        NDIlib_FourCC_video_type_BGRA == spec_fourcc(66, 71, 82, 65),
        NDIlib_FourCC_video_type_BGRX == spec_fourcc(66, 71, 82, 88),
        NDIlib_FourCC_video_type_RGBA == spec_fourcc(82, 71, 66, 65),
        NDIlib_FourCC_video_type_RGBX == spec_fourcc(82, 71, 66, 88),
        NDIlib_FourCC_audio_type_FLTp == spec_fourcc(70, 76, 84, 112),
{
}

/// Asks the sender to synthesize the timecode.
pub const NDIlib_send_timecode_synthesize: i64 = 9223372036854775807;

/// A received frame carries no timestamp.
pub const NDIlib_recv_timestamp_undefined: i64 = 9223372036854775807;

/// Whether the receiver is shown on program and preview output.
#[derive(Debug, Copy, Clone, PartialEq, Eq, Structural)]
pub struct NDIlib_tally_t {
    pub on_program: bool,
    pub on_preview: bool,
}

/// The number of frames waiting in a receiver, per kind.
#[derive(Debug, Copy, Clone, PartialEq, Eq, Structural)]
pub struct NDIlib_recv_queue_t {
    pub video_frames: i32,
    pub audio_frames: i32,
    pub metadata_frames: i32,
}

/// Header of a compressed packet of the advanced SDK.
#[derive(Debug, Copy, Clone, PartialEq, Eq, Structural)]
pub struct NDIlib_compressed_packet_t {
    pub version: u32,
    pub fourcc: u32,
    pub pts: i64,
    pub dts: i64,
    pub reserved: u64,
    pub flags: u32,
    pub data_size: u32,
    pub extra_data_size: u32,
}

pub const NDIlib_compressed_packet_flags_keyframe: u32 = 1;
pub const NDIlib_compressed_packet_version_0: u32 = 44;

} // verus!
