//! The media-format vocabulary that the elements decide over: raw video
//! formats, interlacing, buffer flags and flow results.
use vstd::prelude::*;

verus! {

/// The raw video formats that the elements handle.
#[derive(Debug, Copy, Clone, PartialEq, Eq, Structural)]
pub enum VideoFormat {
    Uyvy,
    I420,
    Nv12,
    Nv21,
    Yv12,
    Bgra,
    Bgrx,
    Rgba,
    Rgbx,
}

/// How the lines of the frames of a stream relate to fields.
#[derive(Debug, Copy, Clone, PartialEq, Eq, Structural)]
pub enum InterlaceMode {
    Progressive,
    Interleaved,
    /// One field per buffer.
    Alternate,
    Other,
}

/// Interlacing flags of a video buffer.
#[derive(Debug, Copy, Clone, PartialEq, Eq, Structural)]
pub struct VideoBufferFlags {
    pub interlaced: bool,
    pub tff: bool,
    pub top_field: bool,
    pub bottom_field: bool,
}

/// Why a buffer could not be produced or passed on.
#[derive(Debug, Copy, Clone, PartialEq, Eq, Structural)]
pub enum FlowError {
    Flushing,
    Eos,
    NotNegotiated,
    Error,
}

} // verus!
