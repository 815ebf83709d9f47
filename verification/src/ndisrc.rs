//! The source elements: their settings, when they may start, how they answer
//! latency queries, how state changes steer the receiver, and what each
//! produce step returns.
use vstd::prelude::*;

use crate::clock;
use crate::format::FlowError;
use crate::ndisys;
use crate::receiver::ReceiverItem;
use crate::TimestampMode;

verus! {

/// The settings of a source element.
#[derive(Debug)]
pub struct Settings {
    pub ndi_name: Option<String>,
    pub url_address: Option<String>,
    /// Connection timeout in ms.
    pub connect_timeout: u32,
    /// Receive timeout in ms.
    pub timeout: u32,
    pub max_queue_length: u32,
    pub receiver_ndi_name: String,
    pub bandwidth: i32,
    pub timestamp_mode: TimestampMode,
}

/// Why a source element cannot start.
#[derive(Debug, Copy, Clone, PartialEq, Eq, Structural)]
pub enum StartError {
    /// Neither an NDI name nor an address was given.
    NoSource,
}

impl Settings {
    /// The defaults: no source, 10 s to connect, 5 s receive timeout, a
    /// queue of 5, highest bandwidth, receive time corrected by timecode.
    pub fn new(default_receiver_ndi_name: String) -> (r: Self)
        ensures
            r.ndi_name is None,
            r.url_address is None,
            r.connect_timeout == 10000,
            r.timeout == 5000,
            r.max_queue_length == 5,
            r.receiver_ndi_name == default_receiver_ndi_name,
            r.bandwidth == ndisys::NDIlib_recv_bandwidth_highest,
            r.timestamp_mode == TimestampMode::ReceiveTimeTimecode,
    {
        Settings {
            ndi_name: None,
            url_address: None,
            connect_timeout: 10000,
            timeout: 5000,
            max_queue_length: 5,
            receiver_ndi_name: default_receiver_ndi_name,
            bandwidth: ndisys::NDIlib_recv_bandwidth_highest,
            timestamp_mode: TimestampMode::ReceiveTimeTimecode,
        }
    }

    /// Sets the name of the sender to receive from.
    pub fn set_ndi_name(&mut self, value: Option<String>)
        ensures
            *final(self) == (Settings { ndi_name: value, ..*old(self) }),
    {
        self.ndi_name = value;
    }

    /// Sets the address of the sender to receive from.
    pub fn set_url_address(&mut self, value: Option<String>)
        ensures
            *final(self) == (Settings { url_address: value, ..*old(self) }),
    {
        self.url_address = value;
    }

    /// Sets the connection timeout in milliseconds.
    pub fn set_connect_timeout(&mut self, value: u32)
        ensures
            *final(self) == (Settings { connect_timeout: value, ..*old(self) }),
    {
        self.connect_timeout = value;
    }

    /// Sets the receive timeout in milliseconds.
    pub fn set_timeout(&mut self, value: u32)
        ensures
            *final(self) == (Settings { timeout: value, ..*old(self) }),
    {
        self.timeout = value;
    }

    /// Sets the most buffers the receive queue holds.
    pub fn set_max_queue_length(&mut self, value: u32)
        ensures
            *final(self) == (Settings { max_queue_length: value, ..*old(self) }),
    {
        self.max_queue_length = value;
    }

    /// Sets the bandwidth to ask the sender for.
    pub fn set_bandwidth(&mut self, value: i32)
        ensures
            *final(self) == (Settings { bandwidth: value, ..*old(self) }),
    {
        self.bandwidth = value;
    }

    /// Sets the receiver's own name; a missing value restores the default.
    pub fn set_receiver_ndi_name(&mut self, value: Option<String>, default_name: String)
        ensures
            *final(self) == (Settings {
                receiver_ndi_name: match value {
                    Some(v) => v,
                    None => default_name,
                },
                ..*old(self)
            }),
    {
        self.receiver_ndi_name = match value {
            Some(v) => v,
            None => default_name,
        };
    }

    /// Sets the timestamp mode; returns whether it changed, in which case the
    /// latency has to be queried anew.
    pub fn set_timestamp_mode(&mut self, mode: TimestampMode) -> (r: bool)
        ensures
            *final(self) == (Settings { timestamp_mode: mode, ..*old(self) }),
            r == (old(self).timestamp_mode != mode),
    {
        let changed = self.timestamp_mode != mode;
        self.timestamp_mode = mode;
        changed
    }

    /// Whether the element may start: it needs an NDI name or an address.
    pub fn check_start(&self) -> (r: Result<(), StartError>)
        ensures
            r is Err <==> self.ndi_name is None && self.url_address is None,
    {
        if self.ndi_name.is_none() && self.url_address.is_none() {
            Err(StartError::NoSource)
        } else {
            Ok(())
        }
    }
}

/// The answer to a latency query: none before the first buffer; otherwise
/// the buffer duration as minimum (zero when timestamps are the sender's
/// timecodes) and five times it as maximum.
pub fn latency(current_latency: Option<u64>, mode: TimestampMode) -> (r: Option<(u64, u64)>)
    requires
        current_latency matches Some(l) ==> 5 * l <= u64::MAX,
    ensures
        current_latency is None ==> r is None,
        current_latency matches Some(l) ==> r == Some(
            (
                if mode != TimestampMode::Timecode {
                    l
                } else {
                    0u64
                },
                (5 * l) as u64,
            ),
        ),
{
    match current_latency {
        None => None,
        Some(l) => {
            let min = if mode != TimestampMode::Timecode {
                l
            } else {
                0
            };
            Some((min, 5 * l))
        },
    }
}

/// The element's state changes that concern the receiver.
#[derive(Debug, Copy, Clone, PartialEq, Eq, Structural)]
pub enum StateChange {
    PausedToPlaying,
    PlayingToPaused,
    PausedToReady,
    Other,
}

/// What a state change asks of the receiver.
#[derive(Debug, Copy, Clone, PartialEq, Eq, Structural)]
pub enum ReceiverControl {
    SetPlaying(bool),
    Shutdown,
    Nothing,
}

/// Playing starts and stops the receiver's playing state; going to ready
/// shuts it down.
pub fn state_change_control(t: StateChange) -> (r: ReceiverControl)
    ensures
        r == (match t {
            StateChange::PausedToPlaying => ReceiverControl::SetPlaying(true),
            StateChange::PlayingToPaused => ReceiverControl::SetPlaying(false),
            StateChange::PausedToReady => ReceiverControl::Shutdown,
            StateChange::Other => ReceiverControl::Nothing,
        }),
{
    match t {
        StateChange::PausedToPlaying => ReceiverControl::SetPlaying(true),
        StateChange::PlayingToPaused => ReceiverControl::SetPlaying(false),
        StateChange::PausedToReady => ReceiverControl::Shutdown,
        StateChange::Other => ReceiverControl::Nothing,
    }
}

/// What the produce step returns for the receiver's item: the buffer, or
/// flushing, end of stream for a timeout, or the receiver's error.
pub fn create_result<T>(item: ReceiverItem<T>) -> (r: Result<T, FlowError>)
    ensures
        match item {
            ReceiverItem::Buffer(b) => r == Ok::<T, FlowError>(b),
            ReceiverItem::Flushing => r == Err::<T, FlowError>(FlowError::Flushing),
            ReceiverItem::Timeout => r == Err::<T, FlowError>(FlowError::Eos),
            ReceiverItem::Error(e) => r == Err::<T, FlowError>(e),
        },
{
    match item {
        ReceiverItem::Buffer(b) => Ok(b),
        ReceiverItem::Flushing => Err(FlowError::Flushing),
        ReceiverItem::Timeout => Err(FlowError::Eos),
        ReceiverItem::Error(e) => Err(e),
    }
}

/// The number of samples in the next block: at most `samples_per_buffer`,
/// and no more than remain before the stop sample where there is one.
pub open spec fn spec_block_len(sample_offset: u64, sample_stop: Option<u64>, samples_per_buffer: u32) -> int {
    match sample_stop {
        Some(stop) => if stop - sample_offset < samples_per_buffer {
            stop - sample_offset
        } else {
            samples_per_buffer as int
        },
        None => samples_per_buffer as int,
    }
}

/// The next block of a generated audio stream: `Err(Eos)` once the stop
/// sample is reached; otherwise the number of samples (at most
/// `samples_per_buffer`, and no more than remain before the stop), the PTS of
/// the first sample and the duration up to the PTS of the sample after the
/// block.
pub fn next_sample_block(
    sample_offset: u64,
    sample_stop: Option<u64>,
    samples_per_buffer: u32,
    rate: u32,
) -> (r: Result<(u64, u64, u64), FlowError>)
    requires
        rate > 0,
        sample_stop is None ==> sample_offset + samples_per_buffer <= u64::MAX,
        clock::spec_mul_div_floor(sample_offset, clock::SECOND, rate as u64) is Some,
        sample_stop matches Some(stop) && stop <= sample_offset || clock::spec_mul_div_floor(
            (sample_offset + spec_block_len(sample_offset, sample_stop, samples_per_buffer)) as u64,
            clock::SECOND,
            rate as u64,
        ) is Some,
    ensures
        r is Err <==> (sample_stop matches Some(stop) && stop <= sample_offset),
        r is Err ==> r == Err::<(u64, u64, u64), FlowError>(FlowError::Eos),
        r matches Ok((n, pts, duration)) ==> {
            &&& n == spec_block_len(sample_offset, sample_stop, samples_per_buffer)
            &&& Some(pts) == clock::spec_mul_div_floor(sample_offset, clock::SECOND, rate as u64)
            &&& clock::spec_mul_div_floor(
                (sample_offset + n) as u64,
                clock::SECOND,
                rate as u64,
            ) matches Some(next) && pts <= next && duration == next - pts
        },
{
    let n: u64 = match sample_stop {
        Some(stop) => {
            if stop <= sample_offset {
                return Err(FlowError::Eos);
            }
            if stop - sample_offset < samples_per_buffer as u64 {
                stop - sample_offset
            } else {
                samples_per_buffer as u64
            }
        },
        None => samples_per_buffer as u64,
    };
    let pts = clock::mul_div_floor(sample_offset, clock::SECOND, rate as u64).unwrap();
    let next = clock::mul_div_floor(sample_offset + n, clock::SECOND, rate as u64).unwrap();
    proof {
        assert(pts <= next) by (nonlinear_arith)
            requires
                pts as int == (sample_offset as int * 1_000_000_000) / (rate as int),
                next as int == ((sample_offset + n) as int * 1_000_000_000) / (rate as int),
                rate > 0,
                n >= 0,
        ;
    }
    Ok((n, pts, next - pts))
}

/// The PTS of a frame relative to the first one, from its SDK time (in units
/// of 100 ns). While `first` is 0 the frame is taken as the first: `first`
/// becomes its time in nanoseconds and its PTS is 0; later frames get their
/// time minus `first`.
pub fn relative_pts(first: &mut u64, ndi_time: i64) -> (r: u64)
    requires
        0 <= ndi_time,
        ndi_time * 100 <= u64::MAX,
        *old(first) != 0 ==> ndi_time * 100 >= *old(first),
    ensures
        *old(first) == 0 ==> *final(first) == ndi_time * 100 && r == 0,
        *old(first) != 0 ==> *final(first) == *old(first) && r == ndi_time * 100 - *old(first),
{
    let t: u64 = (ndi_time as u64) * 100;
    if *first == 0 {
        *first = t;
        0
    } else {
        t - *first
    }
}

/// Blocks follow each other without gap or overlap: the block that starts
/// where one of `n` samples ends starts at that block's PTS plus its duration.
pub proof fn lemma_blocks_are_contiguous(sample_offset: u64, n: u64, rate: u32, pts: u64, duration: u64)
    requires
        rate > 0,
        sample_offset + n <= u64::MAX,
        Some(pts) == clock::spec_mul_div_floor(sample_offset, clock::SECOND, rate as u64),
        clock::spec_mul_div_floor((sample_offset + n) as u64, clock::SECOND, rate as u64) matches Some(
            next,
        ) && pts <= next && duration == next - pts,
    ensures
        clock::spec_mul_div_floor((sample_offset + n) as u64, clock::SECOND, rate as u64) == Some(
            (pts + duration) as u64,
        ),
{
}

/// Settings of the test-tone source, all but its volume (a float, kept by
/// the element).
#[derive(Debug)]
pub struct TestSrcSettings {
    pub stream_name: String,
    pub samples_per_buffer: u32,
    pub freq: u32,
    pub mute: bool,
    pub is_live: bool,
}

impl TestSrcSettings {
    /// The defaults: 1024 samples per buffer, 440 Hz, not muted, not live.
    pub fn new(stream_name: String) -> (r: Self)
        ensures
            r.stream_name == stream_name,
            r.samples_per_buffer == 1024,
            r.freq == 440,
            !r.mute,
            !r.is_live,
    {
        TestSrcSettings { stream_name, samples_per_buffer: 1024, freq: 440, mute: false, is_live: false }
    }

    pub fn set_stream_name(&mut self, value: String)
        ensures
            *final(self) == (TestSrcSettings { stream_name: value, ..*old(self) }),
    {
        self.stream_name = value;
    }

    pub fn set_samples_per_buffer(&mut self, value: u32)
        ensures
            *final(self) == (TestSrcSettings { samples_per_buffer: value, ..*old(self) }),
    {
        self.samples_per_buffer = value;
    }

    pub fn set_freq(&mut self, value: u32)
        ensures
            *final(self) == (TestSrcSettings { freq: value, ..*old(self) }),
    {
        self.freq = value;
    }

    pub fn set_mute(&mut self, value: bool)
        ensures
            *final(self) == (TestSrcSettings { mute: value, ..*old(self) }),
    {
        self.mute = value;
    }

    pub fn set_is_live(&mut self, value: bool)
        ensures
            *final(self) == (TestSrcSettings { is_live: value, ..*old(self) }),
    {
        self.is_live = value;
    }
}

/// The audio format the test-tone source was configured with.
#[derive(Debug, Copy, Clone, PartialEq, Eq, Structural)]
pub struct TestSrcFormat {
    pub rate: u32,
    /// Bytes per frame (all channels of one sample).
    pub bpf: u32,
}

/// The stream state of the test-tone source: its format once caps are set,
/// the next sample to produce and the sample to stop at (from a seek).
#[derive(Debug, Copy, Clone, PartialEq, Eq, Structural)]
pub struct TestSrcState {
    pub format: Option<TestSrcFormat>,
    pub sample_offset: u64,
    pub sample_stop: Option<u64>,
}

/// A sample position at one rate, at another: `v * new_rate / old_rate`,
/// rounded down; before any caps positions count nanoseconds.
pub open spec fn spec_rescale(v: u64, old_rate: Option<u32>, new_rate: u32) -> Option<u64> {
    let old = match old_rate {
        Some(r) => r as u64,
        None => clock::SECOND,
    };
    clock::spec_mul_div_floor(v, new_rate as u64, old)
}

/// The sample offset and stop after the rate changes from `old_rate` (none:
/// positions in nanoseconds) to `new_rate`.
pub fn rescale_on_caps(old_rate: Option<u32>, new_rate: u32, offset: u64, stop: Option<u64>) -> (r: (
    u64,
    Option<u64>,
))
    requires
        old_rate matches Some(o) ==> o > 0,
        spec_rescale(offset, old_rate, new_rate) is Some,
        stop matches Some(s) ==> spec_rescale(s, old_rate, new_rate) is Some,
    ensures
        Some(r.0) == spec_rescale(offset, old_rate, new_rate),
        r.1 == (match stop {
            Some(s) => spec_rescale(s, old_rate, new_rate),
            None => None,
        }),
{
    let old: u64 = match old_rate {
        Some(o) => o as u64,
        None => clock::SECOND,
    };
    let offset2 = clock::mul_div_floor(offset, new_rate as u64, old).unwrap();
    let stop2 = match stop {
        Some(v) => Some(clock::mul_div_floor(v, new_rate as u64, old).unwrap()),
        None => None,
    };
    (offset2, stop2)
}

/// The latency of the live test-tone source: one buffer's duration.
pub fn test_src_latency(samples_per_buffer: u32, rate: u32) -> (r: u64)
    requires
        rate > 0,
        clock::spec_mul_div_floor(clock::SECOND, samples_per_buffer as u64, rate as u64) is Some,
    ensures
        Some(r) == clock::spec_mul_div_floor(clock::SECOND, samples_per_buffer as u64, rate as u64),
{
    clock::mul_div_floor(clock::SECOND, samples_per_buffer as u64, rate as u64).unwrap()
}

impl TestSrcState {
    /// No caps yet, at sample 0, no stop.
    pub fn new() -> (r: Self)
        ensures
            r.format is None,
            r.sample_offset == 0,
            r.sample_stop is None,
    {
        TestSrcState { format: None, sample_offset: 0, sample_stop: None }
    }

    /// Takes new caps: the format becomes `rate` and `bpf`, and the sample
    /// offset and stop are carried over to the new rate.
    pub fn set_caps(&mut self, rate: u32, bpf: u32)
        requires
            rate > 0,
            old(self).format matches Some(f) ==> f.rate > 0,
            spec_rescale(
                old(self).sample_offset,
                match old(self).format {
                    Some(f) => Some(f.rate),
                    None => None,
                },
                rate,
            ) is Some,
            old(self).sample_stop matches Some(s) ==> spec_rescale(
                s,
                match old(self).format {
                    Some(f) => Some(f.rate),
                    None => None,
                },
                rate,
            ) is Some,
        ensures
            ({
                let old_rate = match old(self).format {
                    Some(f) => Some(f.rate),
                    None => None,
                };
                &&& final(self).format == Some(TestSrcFormat { rate, bpf })
                &&& Some(final(self).sample_offset) == spec_rescale(
                    old(self).sample_offset,
                    old_rate,
                    rate,
                )
                &&& final(self).sample_stop == (match old(self).sample_stop {
                    Some(s) => spec_rescale(s, old_rate, rate),
                    None => None,
                })
            }),
    {
        let old_rate = match self.format {
            Some(f) => Some(f.rate),
            None => None,
        };
        let (offset, stop) = rescale_on_caps(old_rate, rate, self.sample_offset, self.sample_stop);
        self.format = Some(TestSrcFormat { rate, bpf });
        self.sample_offset = offset;
        self.sample_stop = stop;
    }

    /// One produce step: `Err(NotNegotiated)` without caps and `Err(Eos)`
    /// at the stop sample, both leaving the state alone; otherwise the block
    /// of `next_sample_block` with its size in bytes, and the sample offset
    /// moves past the block.
    pub fn produce_step(&mut self, samples_per_buffer: u32) -> (r: Result<(u64, u64, u64, usize), FlowError>)
        requires
            old(self).format matches Some(f) ==> {
                let o = old(self).sample_offset;
                let n = spec_block_len(o, old(self).sample_stop, samples_per_buffer);
                &&& f.rate > 0
                &&& old(self).sample_stop is None ==> o + samples_per_buffer <= u64::MAX
                &&& clock::spec_mul_div_floor(o, clock::SECOND, f.rate as u64) is Some
                &&& (old(self).sample_stop matches Some(stop) && stop <= o) || (
                clock::spec_mul_div_floor((o + n) as u64, clock::SECOND, f.rate as u64) is Some
                    && n * f.bpf <= usize::MAX)
            },
        ensures
            old(self).format is None ==> r == Err::<(u64, u64, u64, usize), FlowError>(
                FlowError::NotNegotiated,
            ) && *final(self) == *old(self),
            old(self).format matches Some(f) ==> {
                let o = old(self).sample_offset;
                let stop = old(self).sample_stop;
                &&& r is Err <==> (stop matches Some(s) && s <= o)
                &&& r is Err ==> r == Err::<(u64, u64, u64, usize), FlowError>(FlowError::Eos)
                    && *final(self) == *old(self)
                &&& r matches Ok((k, pts, duration, size)) ==> {
                    &&& k == spec_block_len(o, stop, samples_per_buffer)
                    &&& Some(pts) == clock::spec_mul_div_floor(o, clock::SECOND, f.rate as u64)
                    &&& clock::spec_mul_div_floor((o + k) as u64, clock::SECOND, f.rate as u64) matches Some(
                        next,
                    ) && pts <= next && duration == next - pts
                    &&& size == k * f.bpf
                    &&& final(self).sample_offset == o + k
                    &&& final(self).format == old(self).format
                    &&& final(self).sample_stop == stop
                }
            },
    {
        let f = match self.format {
            None => return Err(FlowError::NotNegotiated),
            Some(f) => f,
        };
        let (k, pts, duration) = next_sample_block(
            self.sample_offset,
            self.sample_stop,
            samples_per_buffer,
            f.rate,
        )?;
        proof {
            assert(self.sample_offset + k <= u64::MAX);
        }
        let size: usize = (k as usize) * (f.bpf as usize);
        self.sample_offset = self.sample_offset + k;
        Ok((k, pts, duration, size))
    }
}

} // verus!
