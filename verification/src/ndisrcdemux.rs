//! The demuxer that splits the source's buffers onto an audio and a video pad:
//! when a pad is added, which sticky events it receives and in what order,
//! when a caps event is due, and when no more pads will come.
use vstd::prelude::*;

use crate::ndisrcmeta::StreamType;

verus! {

/// A sticky event of the sink pad, as far as the ordering needs it.
#[derive(Debug, Copy, Clone, PartialEq, Eq, Structural)]
pub struct StickyEvent {
    /// The event is ordered before a caps event.
    pub before_caps: bool,
    /// The event is itself a caps event.
    pub is_caps: bool,
}

/// An event for a new source pad.
#[derive(Debug, Copy, Clone, PartialEq, Eq, Structural)]
pub enum PadEvent {
    /// The sink pad's sticky event with this index.
    Sticky(usize),
    /// A caps event for the stream's own caps.
    Caps,
}

/// The events a new pad receives, from sticky event `i` on, while the
/// stream's caps event is still `pending`: events before caps are copied;
/// at the first event at or after caps the stream's caps event comes in,
/// and the sink pad's own caps events are left out.
pub open spec fn spec_new_pad_events(events: Seq<StickyEvent>, i: int, pending: bool) -> Seq<
    PadEvent,
>
    decreases events.len() - i,
{
    if i < 0 || i >= events.len() {
        Seq::empty()
    } else if events[i].before_caps {
        seq![PadEvent::Sticky(i as usize)] + spec_new_pad_events(events, i + 1, pending)
    } else {
        (if pending {
            seq![PadEvent::Caps]
        } else {
            Seq::empty()
        }) + (if !events[i].is_caps {
            seq![PadEvent::Sticky(i as usize)]
        } else {
            Seq::empty()
        }) + spec_new_pad_events(events, i + 1, false)
    }
}

/// The events that a newly added source pad stores before its first buffer.
pub fn new_pad_events(events: &Vec<StickyEvent>) -> (r: Vec<PadEvent>)
    ensures
        r@ == spec_new_pad_events(events@, 0, true),
{
    let n = events.len();
    let mut out: Vec<PadEvent> = Vec::new();
    let mut pending = true;
    let mut i: usize = 0;
    while i < n
        invariant
            n == events@.len(),
            i <= n,
            out@ + spec_new_pad_events(events@, i as int, pending) == spec_new_pad_events(
                events@,
                0,
                true,
            ),
        decreases n - i,
    {
        let ghost out0 = out@;
        let ghost rest = spec_new_pad_events(events@, i as int + 1, false);
        let e = events[i];
        if e.before_caps {
            out.push(PadEvent::Sticky(i));
            proof {
                assert(out@ + spec_new_pad_events(events@, i + 1, pending) =~= out0
                    + spec_new_pad_events(events@, i as int, pending));
            }
        } else {
            let ghost was_pending = pending;
            if pending {
                out.push(PadEvent::Caps);
                pending = false;
            }
            if !e.is_caps {
                out.push(PadEvent::Sticky(i));
            }
            proof {
                assert(out@ + rest =~= out0 + spec_new_pad_events(events@, i as int, was_pending));
            }
        }
        i = i + 1;
    }
    proof {
        assert(out@ + spec_new_pad_events(events@, n as int, pending) =~= out@);
    }
    out
}

/// Which source pads the demuxer has.
#[derive(Debug, Copy, Clone, PartialEq, Eq, Structural)]
pub struct DemuxState {
    pub has_audio_pad: bool,
    pub has_video_pad: bool,
}

/// What the demuxer does with one buffer of the source.
#[derive(Debug)]
pub struct ChainPlan {
    /// Add a new source pad for the stream, with these stored events.
    pub add_pad: Option<Vec<PadEvent>>,
    /// Push a caps event for the buffer's caps before the buffer.
    pub push_caps: bool,
    /// Remember the buffer's caps as the stream's caps.
    pub store_caps: bool,
    /// Announce that no more pads will come.
    pub no_more_pads: bool,
}

impl DemuxState {
    /// No pads yet.
    pub fn new() -> (r: Self)
        ensures
            !r.has_audio_pad,
            !r.has_video_pad,
    {
        DemuxState { has_audio_pad: false, has_video_pad: false }
    }

    /// Plans the handling of one buffer of `stream`.
    ///
    /// A stream without a pad gets one, with the sink pad's sticky events and
    /// its caps; otherwise a caps event is pushed only where the caps differ
    /// from those last seen (`caps_unchanged`). Once the element has two
    /// source pads, no more will come. `num_src_pads` counts the element's
    /// source pads before this buffer.
    pub fn chain(
        &mut self,
        stream: StreamType,
        caps_unchanged: bool,
        sticky: &Vec<StickyEvent>,
        num_src_pads: u32,
    ) -> (r: ChainPlan)
        requires
            num_src_pads < u32::MAX,
        ensures
            ({
                let had = match stream {
                    StreamType::Audio => old(self).has_audio_pad,
                    StreamType::Video => old(self).has_video_pad,
                };
                &&& had ==> r.add_pad is None && r.push_caps == !caps_unchanged && r.store_caps
                    == !caps_unchanged && !r.no_more_pads
                &&& !had ==> (r.add_pad matches Some(evs) && evs@ == spec_new_pad_events(
                    sticky@,
                    0,
                    true,
                ) && !r.push_caps && r.store_caps && r.no_more_pads == (num_src_pads + 1 == 2))
            }),
            final(self).has_audio_pad == (old(self).has_audio_pad || stream == StreamType::Audio),
            final(self).has_video_pad == (old(self).has_video_pad || stream == StreamType::Video),
    {
        let had = match stream {
            StreamType::Audio => self.has_audio_pad,
            StreamType::Video => self.has_video_pad,
        };
        if had {
            ChainPlan {
                add_pad: None,
                push_caps: !caps_unchanged,
                store_caps: !caps_unchanged,
                no_more_pads: false,
            }
        } else {
            match stream {
                StreamType::Audio => self.has_audio_pad = true,
                StreamType::Video => self.has_video_pad = true,
            }
            ChainPlan {
                add_pad: Some(new_pad_events(sticky)),
                push_caps: false,
                store_caps: true,
                no_more_pads: num_src_pads + 1 == 2,
            }
        }
    }
}

/// End of stream is an error where the demuxer never added a source pad.
pub fn eos_is_error(num_src_pads: u32) -> (r: bool)
    ensures
        r == (num_src_pads == 0),
{
    num_src_pads == 0
}

} // verus!
