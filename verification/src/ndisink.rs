//! The sink element: its settings, which stream its caps select, and what it
//! sends for each buffer.
use vstd::prelude::*;

use crate::clock;

verus! {

/// The sink's settings.
#[derive(Debug)]
pub struct SinkSettings {
    /// Name under which the stream is offered.
    pub ndi_name: String,
}

impl SinkSettings {
    pub fn new(default_name: String) -> (r: Self)
        ensures
            r.ndi_name == default_name,
    {
        SinkSettings { ndi_name: default_name }
    }

    /// Sets the name; a missing value restores the default.
    pub fn set_ndi_name(&mut self, value: Option<String>, default_name: String)
        ensures
            final(self).ndi_name == (match value {
                Some(v) => v,
                None => default_name,
            }),
    {
        self.ndi_name = match value {
            Some(v) => v,
            None => default_name,
        };
    }
}

/// Which kind of stream the sink was configured for.
#[derive(Debug, Copy, Clone, PartialEq, Eq, Structural)]
pub enum SinkStream {
    Unconfigured,
    Video,
    Audio,
}

/// The stream selected by new caps: video for `video/x-raw`, audio
/// otherwise; `Err` where the sink has not been started.
pub fn set_caps_stream(started: bool, is_video_caps: bool) -> (r: Result<SinkStream, ()>)
    ensures
        r is Err <==> !started,
        r matches Ok(s) ==> s == (if is_video_caps {
            SinkStream::Video
        } else {
            SinkStream::Audio
        }),
{
    if !started {
        Err(())
    } else if is_video_caps {
        Ok(SinkStream::Video)
    } else {
        Ok(SinkStream::Audio)
    }
}

/// What the sink sends for one buffer.
#[derive(Debug, Copy, Clone, PartialEq, Eq, Structural)]
pub enum RenderPlan {
    /// Not started or not configured: an error.
    Error,
    /// Send the audio attached to the buffer, then (unless the buffer is an
    /// empty carrier of audio) the video frame, with this timecode.
    Video { send_video: bool, timecode: i64 },
    /// Send the buffer as audio with this timecode.
    Audio { timecode: i64 },
}

/// The plan for one buffer of `buffer_size` bytes at `running_time` (where
/// the segment gives one), with element base time `base_time`.
pub fn render_plan(
    started: bool,
    stream: SinkStream,
    buffer_size: usize,
    running_time: Option<u64>,
    base_time: Option<u64>,
) -> (r: RenderPlan)
    ensures
        r == (if !started {
            RenderPlan::Error
        } else {
            match stream {
                SinkStream::Video => RenderPlan::Video {
                    send_video: buffer_size != 0,
                    timecode: clock::spec_timecode_from_running_time(running_time, base_time),
                },
                SinkStream::Audio => RenderPlan::Audio {
                    timecode: clock::spec_timecode_from_running_time(running_time, base_time),
                },
                SinkStream::Unconfigured => RenderPlan::Error,
            }
        }),
{
    if !started {
        return RenderPlan::Error;
    }
    match stream {
        SinkStream::Video => RenderPlan::Video {
            send_video: buffer_size != 0,
            timecode: clock::timecode_from_running_time(running_time, base_time),
        },
        SinkStream::Audio => RenderPlan::Audio {
            timecode: clock::timecode_from_running_time(running_time, base_time),
        },
        SinkStream::Unconfigured => RenderPlan::Error,
    }
}

} // verus!
