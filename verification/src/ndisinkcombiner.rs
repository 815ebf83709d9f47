//! The combiner in front of the sink: it holds one video buffer back until
//! the audio up to that buffer's end has arrived, and attaches that audio to
//! it. This module holds its arithmetic and the decisions of each
//! aggregation step.
use vstd::prelude::*;

use crate::clock;

verus! {

/// Audio format: sample rate and bytes per frame.
#[derive(Debug, Copy, Clone, PartialEq, Eq, Structural)]
pub struct AudioFormat {
    pub rate: u32,
    pub bpf: u32,
}

/// The duration used to clip a buffer: its own, or the time its bytes of
/// audio take, or one video frame period (none where the frame rate is 0).
pub open spec fn spec_clip_duration(
    buffer_duration: Option<u64>,
    buffer_size: u64,
    audio: Option<AudioFormat>,
    video_fps: Option<(i32, i32)>,
) -> Option<u64> {
    if buffer_duration is Some {
        buffer_duration
    } else if audio is Some {
        clock::spec_mul_div_floor(
            clock::SECOND,
            buffer_size,
            (audio.unwrap().rate as u64 * audio.unwrap().bpf as u64) as u64,
        )
    } else if video_fps.unwrap().0 > 0 {
        clock::spec_mul_div_floor(clock::SECOND, video_fps.unwrap().1 as u64, video_fps.unwrap().0 as u64)
    } else {
        None
    }
}

/// The duration used to clip a buffer; see `spec_clip_duration`.
pub fn clip_duration(
    buffer_duration: Option<u64>,
    buffer_size: u64,
    audio: Option<AudioFormat>,
    video_fps: Option<(i32, i32)>,
) -> (r: Option<u64>)
    requires
        buffer_duration is None ==> audio is Some || video_fps is Some,
        buffer_duration is None && audio is Some ==> audio.unwrap().rate as u64 * audio.unwrap().bpf as u64 != 0
            && clock::spec_mul_div_floor(
            clock::SECOND,
            buffer_size,
            (audio.unwrap().rate as u64 * audio.unwrap().bpf as u64) as u64,
        ) is Some,
        buffer_duration is None && audio is None && video_fps.unwrap().0 > 0 ==> clock::spec_mul_div_floor(
            clock::SECOND,
            video_fps.unwrap().1 as u64,
            video_fps.unwrap().0 as u64,
        ) is Some,
    ensures
        r == spec_clip_duration(buffer_duration, buffer_size, audio, video_fps),
{
    if buffer_duration.is_some() {
        buffer_duration
    } else if let Some(a) = audio {
        proof {
            assert((a.rate as int) * (a.bpf as int) <= u64::MAX) by (nonlinear_arith)
                requires
                    a.rate <= u32::MAX,
                    a.bpf <= u32::MAX,
            ;
        }
        let denom: u64 = (a.rate as u64) * (a.bpf as u64);
        Some(clock::mul_div_floor(clock::SECOND, buffer_size, denom).unwrap())
    } else {
        let (n, d) = video_fps.unwrap();
        if n > 0 {
            Some(clock::mul_div_floor(clock::SECOND, d as u64, n as u64).unwrap())
        } else {
            None
        }
    }
}

/// Latency of two video frames (one held back, one waited for), or 80 ms
/// where the frame rate is unknown or the result does not fit.
pub fn video_latency(fps_n: i32, fps_d: i32) -> (r: u64)
    requires
        (fps_d as u64) * 2 <= u64::MAX,
    ensures
        r as int == (if fps_n > 0 {
            match clock::spec_mul_div_floor(clock::SECOND, (fps_d as u64 * 2) as u64, fps_n as u64) {
                Some(l) => l as int,
                None => 80 * clock::MSECOND,
            }
        } else {
            80 * clock::MSECOND
        }),
{
    if fps_n > 0 {
        match clock::mul_div_floor(clock::SECOND, 2 * (fps_d as u64), fps_n as u64) {
            Some(l) => l,
            None => 80 * clock::MSECOND,
        }
    } else {
        80 * clock::MSECOND
    }
}

/// The video pad's next buffer.
#[derive(Debug, Copy, Clone, PartialEq, Eq, Structural)]
pub enum VideoPeek {
    /// A buffer at this running time.
    Buffer { running_time: u64 },
    /// A buffer in a segment that is not in time format.
    BadSegment,
    /// No buffer yet.
    Waiting,
    /// No buffer and end of stream.
    Eos,
}

/// The audio pad's next buffer.
#[derive(Debug, Copy, Clone, PartialEq, Eq, Structural)]
pub enum AudioPeek {
    /// There is no audio pad.
    NoPad,
    /// An empty (gap) buffer.
    Empty,
    /// A buffer of `size` bytes at this running time.
    Buffer { running_time: u64, size: u64 },
    BadSegment,
    Waiting,
    Eos,
}

/// What the combiner holds between steps.
#[derive(Debug, Copy, Clone, PartialEq, Eq, Structural)]
pub struct CombinerState {
    /// Running time of the video buffer held back, if one is.
    pub current_video: Option<u64>,
    /// Audio buffers collected for the held video buffer.
    pub pending_audio: u64,
    pub audio_format: Option<AudioFormat>,
}

/// How a step ends.
#[derive(Debug, Copy, Clone, PartialEq, Eq, Structural)]
pub enum Outcome {
    NeedData,
    Eos,
    Flushing,
    Error,
    NotNegotiated,
    /// Output the held video buffer.
    FinishCurrent,
    /// Output an empty buffer with this PTS to carry audio after video ended.
    FinishDummy { pts: u64 },
}

/// The effects of one aggregation step, in the order the element performs them.
#[derive(Debug, Copy, Clone, PartialEq, Eq, Structural)]
pub struct AggregatePlan {
    pub outcome: Outcome,
    /// Take the peeked audio buffer into the collected audio, with this timecode.
    pub include_audio: Option<i64>,
    /// Attach all collected audio to the output buffer.
    pub attach_audio: bool,
    /// Hold the peeked video buffer back as the current one.
    pub hold_video: bool,
    /// Release the held video buffer.
    pub clear_video: bool,
    pub drop_video: bool,
    pub drop_audio: bool,
}

/// A plan that only ends the step.
pub open spec fn plan_only(o: Outcome) -> AggregatePlan {
    AggregatePlan {
        outcome: o,
        include_audio: None,
        attach_audio: false,
        hold_video: false,
        clear_video: false,
        drop_video: false,
        drop_audio: false,
    }
}

/// The running time at which an audio buffer ends.
pub open spec fn audio_end(running_time: u64, size: u64, f: AudioFormat) -> int {
    running_time + clock::spec_mul_div_floor(clock::SECOND, size / (f.bpf as u64), f.rate as u64)->0
}

/// Whether audio can be taken in: buffers are not empty and durations fit.
pub open spec fn audio_ok(audio: AudioPeek, f: Option<AudioFormat>) -> bool {
    audio matches AudioPeek::Buffer { running_time, size } ==> (f matches Some(f) ==> {
        &&& f.bpf > 0
        &&& f.rate > 0
        &&& clock::spec_mul_div_floor(clock::SECOND, size / (f.bpf as u64), f.rate as u64) is Some
        &&& audio_end(running_time, size, f) <= u64::MAX
    })
}

/// The audio part of a step, once the output buffer and the end of the held
/// video (`video_end`) are known; `finish` is the outcome if the step ends
/// with output.
pub open spec fn spec_audio_part(
    s: CombinerState,
    audio: AudioPeek,
    video_end: Option<u64>,
    hold_video: bool,
    drop_video: bool,
    finish: Outcome,
    base_time: Option<u64>,
) -> (CombinerState, AggregatePlan) {
    let take_in = match audio {
        AudioPeek::Buffer { running_time, size } => match s.audio_format {
            Some(f) => video_end is None || audio_end(running_time, size, f) <= video_end->0,
            None => false,
        },
        _ => false,
    };
    if (audio is Buffer) && s.audio_format is None {
        (s, plan_only(Outcome::NotNegotiated))
    } else if take_in && video_end is Some {
        (
            CombinerState { pending_audio: (s.pending_audio + 1) as u64, ..s },
            AggregatePlan {
                outcome: Outcome::NeedData,
                include_audio: Some(
                    clock::spec_timecode_from_running_time(Some(audio->running_time), base_time),
                ),
                attach_audio: false,
                hold_video: false,
                clear_video: false,
                drop_video: false,
                drop_audio: true,
            },
        )
    } else {
        let pending = if take_in {
            s.pending_audio + 1
        } else {
            s.pending_audio as int
        };
        (
            CombinerState {
                current_video: if hold_video {
                    video_end
                } else {
                    None
                },
                pending_audio: 0,
                audio_format: s.audio_format,
            },
            AggregatePlan {
                outcome: finish,
                include_audio: if take_in {
                    Some(
                        clock::spec_timecode_from_running_time(
                            Some(audio->running_time),
                            base_time,
                        ),
                    )
                } else {
                    None
                },
                attach_audio: pending > 0,
                hold_video,
                clear_video: !hold_video,
                drop_video,
                drop_audio: take_in,
            },
        )
    }
}

/// One aggregation step, as the element performs it.
pub open spec fn spec_aggregate(
    state: Option<CombinerState>,
    video: VideoPeek,
    audio: AudioPeek,
    video_segment_is_time: bool,
    dummy_video_pts: Option<u64>,
    base_time: Option<u64>,
) -> (Option<CombinerState>, AggregatePlan) {
    if video is BadSegment {
        (state, plan_only(Outcome::Error))
    } else if video is Waiting {
        (state, plan_only(Outcome::NeedData))
    } else if audio is Empty {
        (state, AggregatePlan { drop_audio: true, ..plan_only(Outcome::NeedData) })
    } else if audio is BadSegment {
        (state, plan_only(Outcome::Error))
    } else if audio is Waiting {
        (state, plan_only(Outcome::NeedData))
    } else if state is None {
        (state, plan_only(Outcome::Flushing))
    } else {
        let s = state->0;
        match video {
            VideoPeek::Buffer { running_time } => match s.current_video {
                None => (
                    Some(CombinerState { current_video: Some(running_time), ..s }),
                    AggregatePlan {
                        hold_video: true,
                        drop_video: true,
                        ..plan_only(Outcome::NeedData)
                    },
                ),
                Some(_) => {
                    let (s2, p) = spec_audio_part(
                        s,
                        audio,
                        Some(running_time),
                        true,
                        true,
                        Outcome::FinishCurrent,
                        base_time,
                    );
                    (Some(s2), p)
                },
            },
            _ => match s.current_video {
                None => if audio is Buffer {
                    if !video_segment_is_time {
                        (state, plan_only(Outcome::Error))
                    } else if dummy_video_pts is None {
                        (state, plan_only(Outcome::Eos))
                    } else {
                        let (s2, p) = spec_audio_part(
                            s,
                            audio,
                            None,
                            false,
                            false,
                            Outcome::FinishDummy { pts: dummy_video_pts->0 },
                            base_time,
                        );
                        (Some(s2), p)
                    }
                } else {
                    (state, plan_only(Outcome::Eos))
                },
                Some(_) => {
                    let (s2, p) = spec_audio_part(
                        s,
                        audio,
                        None,
                        false,
                        false,
                        Outcome::FinishCurrent,
                        base_time,
                    );
                    (Some(s2), p)
                },
            },
        }
    }
}

fn audio_part(
    s: CombinerState,
    audio: AudioPeek,
    video_end: Option<u64>,
    hold_video: bool,
    drop_video: bool,
    finish: Outcome,
    base_time: Option<u64>,
) -> (r: (CombinerState, AggregatePlan))
    requires
        audio_ok(audio, s.audio_format),
        s.pending_audio < u64::MAX,
    ensures
        r == spec_audio_part(s, audio, video_end, hold_video, drop_video, finish, base_time),
{
    let mut take_in = false;
    let mut timecode: i64 = 0;
    if let AudioPeek::Buffer { running_time, size } = audio {
        match s.audio_format {
            None => {
                return (
                    s,
                    AggregatePlan {
                        outcome: Outcome::NotNegotiated,
                        include_audio: None,
                        attach_audio: false,
                        hold_video: false,
                        clear_video: false,
                        drop_video: false,
                        drop_audio: false,
                    },
                );
            },
            Some(f) => {
                let duration = clock::mul_div_floor(
                    clock::SECOND,
                    size / (f.bpf as u64),
                    f.rate as u64,
                ).unwrap();
                let end: u64 = running_time + duration;
                take_in = match video_end {
                    None => true,
                    Some(v) => end <= v,
                };
                timecode = clock::timecode_from_running_time(Some(running_time), base_time);
            },
        }
    }
    if take_in && video_end.is_some() {
        return (
            CombinerState { pending_audio: s.pending_audio + 1, ..s },
            AggregatePlan {
                outcome: Outcome::NeedData,
                include_audio: Some(timecode),
                attach_audio: false,
                hold_video: false,
                clear_video: false,
                drop_video: false,
                drop_audio: true,
            },
        );
    }
    let attach = s.pending_audio > 0 || take_in;
    (
        CombinerState {
            current_video: if hold_video {
                video_end
            } else {
                None
            },
            pending_audio: 0,
            audio_format: s.audio_format,
        },
        AggregatePlan {
            outcome: finish,
            include_audio: if take_in {
                Some(timecode)
            } else {
                None
            },
            attach_audio: attach,
            hold_video,
            clear_video: !hold_video,
            drop_video,
            drop_audio: take_in,
        },
    )
}

/// One aggregation step: from the state, what the pads offer and (where the
/// video has ended) the video position matching the audio's running time,
/// decide the outcome and its effects; see `spec_aggregate`.
///
/// The first video buffer is held back. Each later video buffer completes the
/// held one, after audio that ends no later than the new buffer starts has
/// been collected. After video has ended, audio is carried on empty buffers.
pub fn aggregate(
    state: &mut Option<CombinerState>,
    video: VideoPeek,
    audio: AudioPeek,
    video_segment_is_time: bool,
    dummy_video_pts: Option<u64>,
    base_time: Option<u64>,
) -> (r: AggregatePlan)
    requires
        (*old(state)) is Some ==> audio_ok(audio, (*old(state)).unwrap().audio_format) && (*old(
            state,
        )).unwrap().pending_audio < u64::MAX,
    ensures
        (*final(state), r) == spec_aggregate(
            *old(state),
            video,
            audio,
            video_segment_is_time,
            dummy_video_pts,
            base_time,
        ),
{
    let only = |o: Outcome| -> (p: AggregatePlan)
        ensures
            p == plan_only(o),
        {
            AggregatePlan {
                outcome: o,
                include_audio: None,
                attach_audio: false,
                hold_video: false,
                clear_video: false,
                drop_video: false,
                drop_audio: false,
            }
        };
    match video {
        VideoPeek::BadSegment => return only(Outcome::Error),
        VideoPeek::Waiting => return only(Outcome::NeedData),
        _ => {},
    }
    match audio {
        AudioPeek::Empty => {
            return AggregatePlan {
                outcome: Outcome::NeedData,
                include_audio: None,
                attach_audio: false,
                hold_video: false,
                clear_video: false,
                drop_video: false,
                drop_audio: true,
            };
        },
        AudioPeek::BadSegment => return only(Outcome::Error),
        AudioPeek::Waiting => return only(Outcome::NeedData),
        _ => {},
    }
    let s = match *state {
        None => return only(Outcome::Flushing),
        Some(s) => s,
    };
    match video {
        VideoPeek::Buffer { running_time } => {
            match s.current_video {
                None => {
                    *state = Some(CombinerState { current_video: Some(running_time), ..s });
                    AggregatePlan {
                        outcome: Outcome::NeedData,
                        include_audio: None,
                        attach_audio: false,
                        hold_video: true,
                        clear_video: false,
                        drop_video: true,
                        drop_audio: false,
                    }
                },
                Some(_) => {
                    let (s2, p) = audio_part(
                        s,
                        audio,
                        Some(running_time),
                        true,
                        true,
                        Outcome::FinishCurrent,
                        base_time,
                    );
                    *state = Some(s2);
                    p
                },
            }
        },
        _ => {
            match s.current_video {
                None => {
                    if let AudioPeek::Buffer { .. } = audio {
                        if !video_segment_is_time {
                            return only(Outcome::Error);
                        }
                        match dummy_video_pts {
                            None => only(Outcome::Eos),
                            Some(pts) => {
                                let (s2, p) = audio_part(
                                    s,
                                    audio,
                                    None,
                                    false,
                                    false,
                                    Outcome::FinishDummy { pts },
                                    base_time,
                                );
                                *state = Some(s2);
                                p
                            },
                        }
                    } else {
                        only(Outcome::Eos)
                    }
                },
                Some(_) => {
                    let (s2, p) = audio_part(
                        s,
                        audio,
                        None,
                        false,
                        false,
                        Outcome::FinishCurrent,
                        base_time,
                    );
                    *state = Some(s2);
                    p
                },
            }
        },
    }
}

/// Every step that outputs a buffer hands over all audio collected so far and
/// starts collecting anew; every step that takes audio in while video is held
/// waits for more data instead.
pub proof fn lemma_output_carries_all_audio(
    state: Option<CombinerState>,
    video: VideoPeek,
    audio: AudioPeek,
    video_segment_is_time: bool,
    dummy_video_pts: Option<u64>,
    base_time: Option<u64>,
)
    requires
        state is Some,
        state.unwrap().pending_audio < u64::MAX,
    ensures
        ({
            let (s2, p) = spec_aggregate(
                state,
                video,
                audio,
                video_segment_is_time,
                dummy_video_pts,
                base_time,
            );
            &&& (p.outcome is FinishCurrent || p.outcome is FinishDummy) ==> (s2 matches Some(n)
                && n.pending_audio == 0 && p.attach_audio == (state.unwrap().pending_audio > 0
                || p.include_audio is Some))
            &&& (p.include_audio is Some && p.outcome is NeedData) ==> (s2 matches Some(n)
                && n.pending_audio == state.unwrap().pending_audio + 1 && n.current_video
                == state.unwrap().current_video)
        }),
{
    let s = state.unwrap();
    let (s2, p) = spec_aggregate(
        state,
        video,
        audio,
        video_segment_is_time,
        dummy_video_pts,
        base_time,
    );
    if p.outcome is FinishCurrent || p.outcome is FinishDummy {
        assert(s2 is Some);
    }
}

/// Audio is taken in only where it ends no later than the video buffer that
/// follows the held one starts, or where no such buffer will come.
pub proof fn lemma_audio_never_overtakes_video(
    state: Option<CombinerState>,
    video: VideoPeek,
    audio: AudioPeek,
    video_segment_is_time: bool,
    dummy_video_pts: Option<u64>,
    base_time: Option<u64>,
)
    requires
        state is Some,
    ensures
        ({
            let (s2, p) = spec_aggregate(
                state,
                video,
                audio,
                video_segment_is_time,
                dummy_video_pts,
                base_time,
            );
            p.include_audio is Some ==> (audio matches AudioPeek::Buffer { running_time, size }
                && (state.unwrap().audio_format matches Some(f) && (video matches VideoPeek::Buffer {
                running_time: v } ==> audio_end(running_time, size, f) <= v)))
        }),
{
}

/// One step's inputs: what the video and audio pads offer, whether the video
/// segment is in time format, the dummy video PTS and the base time.
pub type StepInput = (VideoPeek, AudioPeek, bool, Option<u64>, Option<u64>);

/// Whether a step outputs a buffer.
pub open spec fn outputs(p: AggregatePlan) -> bool {
    p.outcome is FinishCurrent || p.outcome is FinishDummy
}

/// The audio buffers a step takes in (0 or 1).
pub open spec fn taken(p: AggregatePlan) -> int {
    if p.include_audio is Some {
        1
    } else {
        0
    }
}

/// The audio buffers attached to the buffer a step outputs: all collected
/// before it and the one it takes in.
pub open spec fn attached(state: Option<CombinerState>, p: AggregatePlan) -> int {
    if outputs(p) && state is Some {
        state->0.pending_audio + taken(p)
    } else {
        0
    }
}

/// A run of steps: the final state, and how many audio buffers were taken in
/// and how many attached to output buffers along the way.
pub open spec fn run(state: Option<CombinerState>, steps: Seq<StepInput>) -> (
    Option<CombinerState>,
    int,
    int,
)
    decreases steps.len(),
{
    if steps.len() == 0 {
        (state, 0, 0)
    } else {
        let (v, a, t, d, b) = steps[0];
        let (s2, p) = spec_aggregate(state, v, a, t, d, b);
        let (sf, tk, at) = run(s2, steps.subrange(1, steps.len() as int));
        (sf, tk + taken(p), at + attached(state, p))
    }
}

/// One step keeps count of the audio: what was pending plus what is taken in
/// is what is attached to the output plus what stays pending.
pub proof fn lemma_step_conserves_audio(state: Option<CombinerState>, input: StepInput)
    requires
        state is Some,
        state->0.pending_audio < u64::MAX,
    ensures
        ({
            let (v, a, t, d, b) = input;
            let (s2, p) = spec_aggregate(state, v, a, t, d, b);
            &&& s2 is Some
            &&& s2->0.pending_audio + attached(state, p) == state->0.pending_audio + taken(p)
            &&& s2->0.pending_audio <= state->0.pending_audio + 1
        }),
{
}

/// Over any run of steps, every audio buffer taken in is attached to exactly
/// one output buffer or is still pending at the end: the audio pending at the
/// start plus all taken in equals all attached plus what is pending at the
/// end. (The pending count must stay within 64 bits.)
pub proof fn lemma_every_audio_buffer_attached_once(
    state: Option<CombinerState>,
    steps: Seq<StepInput>,
)
    requires
        state is Some,
        state->0.pending_audio + steps.len() < u64::MAX,
    ensures
        ({
            let (sf, tk, at) = run(state, steps);
            &&& sf is Some
            &&& state->0.pending_audio + tk == at + sf->0.pending_audio
        }),
    decreases steps.len(),
{
    if steps.len() > 0 {
        let (v, a, t, d, b) = steps[0];
        lemma_step_conserves_audio(state, steps[0]);
        let (s2, p) = spec_aggregate(state, v, a, t, d, b);
        lemma_every_audio_buffer_attached_once(s2, steps.subrange(1, steps.len() as int));
    }
}

/// The audio buffers collected for the held video buffer, oldest first.
#[derive(Debug)]
pub struct AudioCollector<T> {
    pub pending: Vec<T>,
}

/// One step on the collected audio: the buffer taken in (where the plan takes
/// one) is appended; where the step outputs a buffer, everything collected
/// goes with it and collecting starts anew.
pub open spec fn collect_step<T>(pending: Seq<T>, p: AggregatePlan, item: Option<T>) -> (
    Option<Seq<T>>,
    Seq<T>,
) {
    let c = if p.include_audio is Some && item is Some {
        pending.push(item->0)
    } else {
        pending
    };
    if outputs(p) {
        (Some(c), Seq::empty())
    } else {
        (None, c)
    }
}

/// The audio buffers taken in over a run of steps, in order.
pub open spec fn taken_items<T>(steps: Seq<(AggregatePlan, Option<T>)>) -> Seq<T>
    decreases steps.len(),
{
    if steps.len() == 0 {
        Seq::empty()
    } else {
        let rest = taken_items(steps.subrange(1, steps.len() as int));
        if steps[0].0.include_audio is Some && steps[0].1 is Some {
            seq![steps[0].1->0] + rest
        } else {
            rest
        }
    }
}

/// Over a run of steps: all audio attached to output buffers, output after
/// output, and what is still collected at the end.
pub open spec fn collect_run<T>(pending: Seq<T>, steps: Seq<(AggregatePlan, Option<T>)>) -> (
    Seq<T>,
    Seq<T>,
)
    decreases steps.len(),
{
    if steps.len() == 0 {
        (Seq::empty(), pending)
    } else {
        let (o, p2) = collect_step(pending, steps[0].0, steps[0].1);
        let (att, fin) = collect_run(p2, steps.subrange(1, steps.len() as int));
        (
            match o {
                Some(v) => v + att,
                None => att,
            },
            fin,
        )
    }
}

impl<T> AudioCollector<T> {
    /// Nothing collected.
    pub fn new() -> (r: Self)
        ensures
            r.pending@ == Seq::<T>::empty(),
    {
        AudioCollector { pending: Vec::new() }
    }

    /// Applies a step's plan to the collected audio; `item` is the audio
    /// buffer the step peeked. Returns the audio for the output buffer where
    /// the step outputs one.
    pub fn apply(&mut self, plan: &AggregatePlan, item: Option<T>) -> (r: Option<Vec<T>>)
        ensures
            ({
                let (o, p2) = collect_step(old(self).pending@, *plan, item);
                &&& final(self).pending@ == p2
                &&& match r {
                    Some(v) => o == Some(v@),
                    None => o is None,
                }
            }),
    {
        if plan.include_audio.is_some() {
            if let Some(it) = item {
                self.pending.push(it);
            }
        }
        if plan.outcome == Outcome::FinishCurrent || matches!(plan.outcome, Outcome::FinishDummy { .. }) {
            let mut out: Vec<T> = Vec::new();
            std::mem::swap(&mut out, &mut self.pending);
            Some(out)
        } else {
            None
        }
    }
}

/// Every audio buffer taken in is attached to exactly one output buffer or
/// still collected at the end, in the order taken in: the attached audio,
/// output after output, followed by what is still collected, is what was
/// collected at the start followed by every buffer taken in.
pub proof fn lemma_audio_attached_in_order<T>(pending: Seq<T>, steps: Seq<(AggregatePlan, Option<T>)>)
    ensures
        ({
            let (att, fin) = collect_run(pending, steps);
            att + fin == pending + taken_items(steps)
        }),
    decreases steps.len(),
{
    if steps.len() > 0 {
        let (p, item) = steps[0];
        let rest = steps.subrange(1, steps.len() as int);
        let (o, p2) = collect_step(pending, p, item);
        lemma_audio_attached_in_order(p2, rest);
        let (att, fin) = collect_run(p2, rest);
        let c = if p.include_audio is Some && item is Some {
            pending.push(item->0)
        } else {
            pending
        };
        if p.include_audio is Some && item is Some {
            assert(c == pending + seq![item->0]);
            assert(pending + taken_items(steps) =~= c + taken_items(rest));
        } else {
            assert(pending + taken_items(steps) =~= c + taken_items(rest));
        }
        if outputs(p) {
            assert(att + fin == Seq::<T>::empty() + taken_items(rest));
            assert((c + att) + fin =~= c + (att + fin));
            assert(Seq::<T>::empty() + taken_items(rest) =~= taken_items(rest));
        }
    }
}

/// A step removes the peeked audio buffer from its pad only where it takes
/// it in or where it is an empty gap buffer: no audio with content is ever
/// dropped without being collected for an output.
pub proof fn lemma_audio_dropped_only_when_taken(
    state: Option<CombinerState>,
    video: VideoPeek,
    audio: AudioPeek,
    video_segment_is_time: bool,
    dummy_video_pts: Option<u64>,
    base_time: Option<u64>,
)
    ensures
        ({
            let (s2, p) = spec_aggregate(
                state,
                video,
                audio,
                video_segment_is_time,
                dummy_video_pts,
                base_time,
            );
            p.drop_audio ==> (p.include_audio is Some || audio is Empty)
        }),
{
}

} // verus!
