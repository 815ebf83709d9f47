//! What the source attaches to each buffer for the demuxer.
use vstd::prelude::*;

verus! {

/// Which stream a buffer of the source belongs to.
#[derive(Debug, Copy, Clone, PartialEq, Eq, Structural)]
pub enum StreamType {
    Audio,
    Video,
}

} // verus!
