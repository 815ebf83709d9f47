//! Verified core of a GStreamer plugin for NewTek NDI: timestamp handling,
//! clock-skew estimation, frame layout arithmetic, the receive queue and the
//! decisions of the source, demuxer, combiner and sink elements.
#![allow(non_camel_case_types, non_upper_case_globals, non_snake_case)]

pub mod clock;
pub mod device_provider;
pub mod format;
pub mod ndi;
pub mod ndisink;
pub mod ndisinkcombiner;
pub mod ndisrc;
pub mod ndisrcdemux;
pub mod ndisrcmeta;
pub mod ndisys;
pub mod observations;
pub mod receiver;

use vstd::prelude::*;

verus! {

/// Which timing information becomes the PTS of the produced buffers.
#[derive(Debug, Eq, PartialEq, Structural, Ord, PartialOrd, Hash, Clone, Copy)]
pub enum TimestampMode {
    /// Receive time, corrected for the clock skew observed against the NDI timecode.
    ReceiveTimeTimecode,
    /// Receive time, corrected for the clock skew observed against the NDI timestamp.
    ReceiveTimeTimestamp,
    /// The NDI timecode.
    Timecode,
    /// The NDI timestamp, mapped from the UNIX epoch to the running time.
    Timestamp,
    /// The running time at which the frame was received.
    ReceiveTime,
}

/// The enum value under which each timestamp mode is registered.
pub open spec fn spec_timestamp_mode_raw(m: TimestampMode) -> u32 {
    match m {
        TimestampMode::ReceiveTimeTimecode => 0,
        TimestampMode::ReceiveTimeTimestamp => 1,
        TimestampMode::Timecode => 2,
        TimestampMode::Timestamp => 3,
        TimestampMode::ReceiveTime => 4,
    }
}

/// The timestamp mode registered under `raw`, if there is one.
pub open spec fn spec_timestamp_mode_from_raw(raw: u32) -> Option<TimestampMode> {
    if raw == 0 {
        Some(TimestampMode::ReceiveTimeTimecode)
    } else if raw == 1 {
        Some(TimestampMode::ReceiveTimeTimestamp)
    } else if raw == 2 {
        Some(TimestampMode::Timecode)
    } else if raw == 3 {
        Some(TimestampMode::Timestamp)
    } else if raw == 4 {
        Some(TimestampMode::ReceiveTime)
    } else {
        None
    }
}

impl TimestampMode {
    /// The enum value under which this mode is registered.
    pub fn to_raw(&self) -> (r: u32)
        ensures
            r == spec_timestamp_mode_raw(*self),
    {
        match self {
            TimestampMode::ReceiveTimeTimecode => 0,
            TimestampMode::ReceiveTimeTimestamp => 1,
            TimestampMode::Timecode => 2,
            TimestampMode::Timestamp => 3,
            TimestampMode::ReceiveTime => 4,
        }
    }

    /// The mode registered under `raw`, if there is one.
    pub fn from_raw(raw: u32) -> (r: Option<Self>)
        ensures
            r == spec_timestamp_mode_from_raw(raw),
    {
        if raw == 0 {
            Some(TimestampMode::ReceiveTimeTimecode)
        } else if raw == 1 {
            Some(TimestampMode::ReceiveTimeTimestamp)
        } else if raw == 2 {
            Some(TimestampMode::Timecode)
        } else if raw == 3 {
            Some(TimestampMode::Timestamp)
        } else if raw == 4 {
            Some(TimestampMode::ReceiveTime)
        } else {
            None
        }
    }
}

/// The pixel formats that the receiver asks the SDK for.
#[derive(Debug, Eq, PartialEq, Structural, Ord, PartialOrd, Hash, Clone, Copy)]
pub enum RecvColorFormat {
    BgrxBgra,
    UyvyBgra,
    RgbxRgba,
    UyvyRgba,
    Fastest,
    Best,
}

/// The enum value under which each color format is registered.
pub open spec fn spec_recv_color_format_raw(f: RecvColorFormat) -> u32 {
    match f {
        RecvColorFormat::BgrxBgra => 0,
        RecvColorFormat::UyvyBgra => 1,
        RecvColorFormat::RgbxRgba => 2,
        RecvColorFormat::UyvyRgba => 3,
        RecvColorFormat::Fastest => 4,
        RecvColorFormat::Best => 5,
    }
}

/// The SDK's color format number for each color format.
pub open spec fn spec_recv_color_format_to_ndi(f: RecvColorFormat) -> u32 {
    match f {
        RecvColorFormat::BgrxBgra => ndisys::NDIlib_recv_color_format_BGRX_BGRA,
        RecvColorFormat::UyvyBgra => ndisys::NDIlib_recv_color_format_UYVY_BGRA,
        RecvColorFormat::RgbxRgba => ndisys::NDIlib_recv_color_format_RGBX_RGBA,
        RecvColorFormat::UyvyRgba => ndisys::NDIlib_recv_color_format_UYVY_RGBA,
        RecvColorFormat::Fastest => ndisys::NDIlib_recv_color_format_fastest,
        RecvColorFormat::Best => ndisys::NDIlib_recv_color_format_best,
    }
}

/// The color format registered under `raw`, if there is one.
pub open spec fn spec_recv_color_format_from_raw(raw: u32) -> Option<RecvColorFormat> {
    if raw == 0 {
        Some(RecvColorFormat::BgrxBgra)
    } else if raw == 1 {
        Some(RecvColorFormat::UyvyBgra)
    } else if raw == 2 {
        Some(RecvColorFormat::RgbxRgba)
    } else if raw == 3 {
        Some(RecvColorFormat::UyvyRgba)
    } else if raw == 4 {
        Some(RecvColorFormat::Fastest)
    } else if raw == 5 {
        Some(RecvColorFormat::Best)
    } else {
        None
    }
}

impl RecvColorFormat {
    /// The enum value under which this color format is registered.
    pub fn to_raw(&self) -> (r: u32)
        ensures
            r == spec_recv_color_format_raw(*self),
    {
        match self {
            RecvColorFormat::BgrxBgra => 0,
            RecvColorFormat::UyvyBgra => 1,
            RecvColorFormat::RgbxRgba => 2,
            RecvColorFormat::UyvyRgba => 3,
            RecvColorFormat::Fastest => 4,
            RecvColorFormat::Best => 5,
        }
    }

    /// The color format registered under `raw`, if there is one.
    pub fn from_raw(raw: u32) -> (r: Option<Self>)
        ensures
            r == spec_recv_color_format_from_raw(raw),
    {
        if raw == 0 {
            Some(RecvColorFormat::BgrxBgra)
        } else if raw == 1 {
            Some(RecvColorFormat::UyvyBgra)
        } else if raw == 2 {
            Some(RecvColorFormat::RgbxRgba)
        } else if raw == 3 {
            Some(RecvColorFormat::UyvyRgba)
        } else if raw == 4 {
            Some(RecvColorFormat::Fastest)
        } else if raw == 5 {
            Some(RecvColorFormat::Best)
        } else {
            None
        }
    }
}

impl From<RecvColorFormat> for u32 {
    fn from(v: RecvColorFormat) -> (r: u32) {
        match v {
            RecvColorFormat::BgrxBgra => ndisys::NDIlib_recv_color_format_BGRX_BGRA,
            RecvColorFormat::UyvyBgra => ndisys::NDIlib_recv_color_format_UYVY_BGRA,
            RecvColorFormat::RgbxRgba => ndisys::NDIlib_recv_color_format_RGBX_RGBA,
            RecvColorFormat::UyvyRgba => ndisys::NDIlib_recv_color_format_UYVY_RGBA,
            RecvColorFormat::Fastest => ndisys::NDIlib_recv_color_format_fastest,
            RecvColorFormat::Best => ndisys::NDIlib_recv_color_format_best,
        }
    }
}

impl vstd::std_specs::convert::FromSpecImpl<RecvColorFormat> for u32 {
    open spec fn obeys_from_spec() -> bool {
        true
    }

    open spec fn from_spec(v: RecvColorFormat) -> u32 {
        spec_recv_color_format_to_ndi(v)
    }
}

/// Every timestamp mode comes back from its registered number, and every
/// number that names a mode comes back from that mode.
pub proof fn lemma_timestamp_mode_raw_roundtrip(m: TimestampMode, raw: u32)
    ensures
        spec_timestamp_mode_from_raw(spec_timestamp_mode_raw(m)) == Some(m),
        spec_timestamp_mode_from_raw(raw) matches Some(n) ==> spec_timestamp_mode_raw(n) == raw,
{
}

/// Every color format comes back from its registered number, and every
/// number that names a color format comes back from it.
pub proof fn lemma_recv_color_format_raw_roundtrip(f: RecvColorFormat, raw: u32)
    ensures
        spec_recv_color_format_from_raw(spec_recv_color_format_raw(f)) == Some(f),
        spec_recv_color_format_from_raw(raw) matches Some(g) ==> spec_recv_color_format_raw(g)
            == raw,
{
}

/// Distinct color formats map to distinct SDK color formats.
pub proof fn lemma_recv_color_format_to_ndi_injective(a: RecvColorFormat, b: RecvColorFormat)
    ensures
        spec_recv_color_format_to_ndi(a) == spec_recv_color_format_to_ndi(b) ==> a == b,
{
}

} // verus!
