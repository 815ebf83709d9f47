//! Plain-value model of the NDI SDK objects: finder, receiver and sender
//! settings, sources, tally state and the frame headers with their layout
//! arithmetic.
use vstd::prelude::*;

use crate::format::{InterlaceMode, VideoFormat};
use crate::ndisys;
use crate::ndisys::NDIlib_frame_format_type_e;

verus! {

/// Settings of a source finder.
#[derive(Debug)]
pub struct FindBuilder {
    pub show_local_sources: bool,
    pub groups: Option<String>,
    pub extra_ips: Option<String>,
}

impl FindBuilder {
    /// The default finder settings: local sources shown, no groups, no extra addresses.
    pub fn new() -> (r: Self)
        ensures
            r.show_local_sources,
            r.groups is None,
            r.extra_ips is None,
    {
        FindBuilder { show_local_sources: true, groups: None, extra_ips: None }
    }

    /// Sets whether sources on this machine are shown.
    pub fn show_local_sources(self, show_local_sources: bool) -> (r: Self)
        ensures
            r.show_local_sources == show_local_sources,
            r.groups == self.groups,
            r.extra_ips == self.extra_ips,
    {
        FindBuilder { show_local_sources, groups: self.groups, extra_ips: self.extra_ips }
    }

    /// Sets the groups to search.
    pub fn groups(self, groups: String) -> (r: Self)
        ensures
            r.show_local_sources == self.show_local_sources,
            r.groups == Some(groups),
            r.extra_ips == self.extra_ips,
    {
        FindBuilder {
            show_local_sources: self.show_local_sources,
            groups: Some(groups),
            extra_ips: self.extra_ips,
        }
    }

    /// Sets further addresses to search.
    pub fn extra_ips(self, extra_ips: String) -> (r: Self)
        ensures
            r.show_local_sources == self.show_local_sources,
            r.groups == self.groups,
            r.extra_ips == Some(extra_ips),
    {
        FindBuilder {
            show_local_sources: self.show_local_sources,
            groups: self.groups,
            extra_ips: Some(extra_ips),
        }
    }
}

/// An NDI source on the network: its name and its URL or address.
#[derive(Debug)]
pub struct Source {
    pub ndi_name: String,
    pub url_address: String,
}

/// Two sources are the same where both name and address agree.
pub open spec fn same_source(a: Source, b: Source) -> bool {
    a.ndi_name@ == b.ndi_name@ && a.url_address@ == b.url_address@
}

impl Source {
    pub fn new(ndi_name: String, url_address: String) -> (r: Self)
        ensures
            r.ndi_name == ndi_name,
            r.url_address == url_address,
    {
        Source { ndi_name, url_address }
    }

    pub fn ndi_name(&self) -> (r: &str)
        ensures
            r@ == self.ndi_name@,
    {
        self.ndi_name.as_str()
    }

    pub fn url_address(&self) -> (r: &str)
        ensures
            r@ == self.url_address@,
    {
        self.url_address.as_str()
    }

    /// An owned copy of this source.
    pub fn to_owned(&self) -> (r: Source)
        ensures
            r.ndi_name@ == self.ndi_name@,
            r.url_address@ == self.url_address@,
    {
        Source { ndi_name: self.ndi_name.clone(), url_address: self.url_address.clone() }
    }

    /// Whether both name and address agree.
    pub fn eq(&self, other: &Source) -> (r: bool)
        ensures
            r == same_source(*self, *other),
    {
        self.ndi_name == other.ndi_name && self.url_address == other.url_address
    }
}

/// A source with name `ndi_name` or address `url_address`.
pub open spec fn source_matches(s: Source, ndi_name: Seq<char>, url_address: Seq<char>) -> bool {
    s.ndi_name@ == ndi_name || s.url_address@ == url_address
}

/// The first source whose name is `ndi_name` or whose address is `url_address`.
pub fn find_source(sources: &Vec<Source>, ndi_name: &String, url_address: &String) -> (r: Option<
    usize,
>)
    ensures
        r matches Some(i) ==> i < sources@.len() && source_matches(
            sources@[i as int],
            ndi_name@,
            url_address@,
        ),
        r matches Some(i) ==> forall|j: int|
            0 <= j < i ==> !source_matches(#[trigger] sources@[j], ndi_name@, url_address@),
        r is None ==> forall|j: int|
            0 <= j < sources@.len() ==> !source_matches(
                #[trigger] sources@[j],
                ndi_name@,
                url_address@,
            ),
{
    let n = sources.len();
    let mut i: usize = 0;
    while i < n
        invariant
            n == sources@.len(),
            i <= n,
            forall|j: int|
                0 <= j < i ==> !source_matches(#[trigger] sources@[j], ndi_name@, url_address@),
        decreases n - i,
    {
        let name_matches = sources[i].ndi_name == *ndi_name;
        let address_matches = sources[i].url_address == *url_address;
        if name_matches || address_matches {
            return Some(i);
        }
        i = i + 1;
    }
    None
}

/// The names and addresses of the sources that receivers are connected to,
/// so that a source is not connected twice.
#[derive(Debug)]
pub struct ConnectionRegistry {
    keys: Vec<String>,
}

impl ConnectionRegistry {
    /// The names and addresses registered.
    pub closed spec fn keys(&self) -> Set<Seq<char>> {
        Set::new(|k: Seq<char>| exists|i: int| 0 <= i < self.keys@.len() && #[trigger] self.keys@[i]@ == k)
    }

    /// No connections.
    pub fn new() -> (r: Self)
        ensures
            r.keys() == Set::<Seq<char>>::empty(),
    {
        let r = ConnectionRegistry { keys: Vec::new() };
        assert(r.keys() =~= Set::<Seq<char>>::empty());
        r
    }

    /// Whether a receiver is connected to a source with this name or this address.
    pub fn is_connected(&self, ndi_name: &String, url_address: &String) -> (r: bool)
        ensures
            r == (self.keys().contains(ndi_name@) || self.keys().contains(url_address@)),
    {
        let n = self.keys.len();
        let mut i: usize = 0;
        while i < n
            invariant
                n == self.keys@.len(),
                i <= n,
                forall|j: int|
                    0 <= j < i ==> #[trigger] self.keys@[j]@ != ndi_name@ && self.keys@[j]@
                        != url_address@,
            decreases n - i,
        {
            let k = &self.keys[i];
            if *k == *ndi_name || *k == *url_address {
                assert(self.keys@[i as int]@ == ndi_name@ || self.keys@[i as int]@ == url_address@);
                return true;
            }
            i = i + 1;
        }
        false
    }

    /// Records a connection to the source with this name and address.
    pub fn register(&mut self, ndi_name: String, url_address: String)
        ensures
            final(self).keys() == old(self).keys().insert(ndi_name@).insert(url_address@),
    {
        let ghost n0 = ndi_name@;
        let ghost a0 = url_address@;
        self.keys.push(ndi_name);
        self.keys.push(url_address);
        proof {
            let old_keys = old(self).keys@;
            assert(self.keys@ == old_keys.push(self.keys@[old_keys.len() as int]).push(
                self.keys@[old_keys.len() as int + 1],
            ));
            assert forall|k: Seq<char>| #[trigger] self.keys().contains(k) == old(self).keys().insert(
                n0,
            ).insert(a0).contains(k) by {
                if old(self).keys().contains(k) {
                    let i = choose|i: int| 0 <= i < old_keys.len() && #[trigger] old_keys[i]@ == k;
                    assert(self.keys@[i]@ == k);
                }
                if self.keys().contains(k) {
                    let i = choose|i: int| 0 <= i < self.keys@.len() && #[trigger] self.keys@[i]@ == k;
                    if i < old_keys.len() {
                        assert(old_keys[i]@ == k);
                    }
                }
                if k == n0 {
                    assert(self.keys@[old_keys.len() as int]@ == k);
                }
                if k == a0 {
                    assert(self.keys@[old_keys.len() as int + 1]@ == k);
                }
            }
            assert(self.keys() =~= old(self).keys().insert(n0).insert(a0));
        }
    }
}

/// A source, once registered, counts as connected by its name and by its
/// address, and every source connected before stays connected.
pub proof fn lemma_registered_source_is_connected(
    before: ConnectionRegistry,
    after: ConnectionRegistry,
    ndi_name: Seq<char>,
    url_address: Seq<char>,
    other: Seq<char>,
)
    requires
        after.keys() == before.keys().insert(ndi_name).insert(url_address),
    ensures
        after.keys().contains(ndi_name),
        after.keys().contains(url_address),
        before.keys().contains(other) ==> after.keys().contains(other),
{
}

/// Settings of a receiver.
#[derive(Debug)]
pub struct RecvBuilder {
    pub ndi_name: Option<String>,
    pub url_address: Option<String>,
    pub allow_video_fields: bool,
    pub bandwidth: i32,
    pub color_format: u32,
    pub ndi_recv_name: String,
}

impl RecvBuilder {
    /// Receiver settings for a source given by name and/or address: fields
    /// allowed, highest bandwidth, UYVY (or BGRA with alpha).
    pub fn new(ndi_name: Option<String>, url_address: Option<String>, ndi_recv_name: String) -> (r:
        Self)
        ensures
            r.ndi_name == ndi_name,
            r.url_address == url_address,
            r.ndi_recv_name == ndi_recv_name,
            r.allow_video_fields,
            r.bandwidth == ndisys::NDIlib_recv_bandwidth_highest,
            r.color_format == ndisys::NDIlib_recv_color_format_UYVY_BGRA,
    {
        RecvBuilder {
            ndi_name,
            url_address,
            allow_video_fields: true,
            bandwidth: ndisys::NDIlib_recv_bandwidth_highest,
            color_format: ndisys::NDIlib_recv_color_format_UYVY_BGRA,
            ndi_recv_name,
        }
    }

    pub fn allow_video_fields(self, allow_video_fields: bool) -> (r: Self)
        ensures
            r == (RecvBuilder { allow_video_fields, ..self }),
    {
        RecvBuilder { allow_video_fields, ..self }
    }

    pub fn bandwidth(self, bandwidth: i32) -> (r: Self)
        ensures
            r == (RecvBuilder { bandwidth, ..self }),
    {
        RecvBuilder { bandwidth, ..self }
    }

    pub fn color_format(self, color_format: u32) -> (r: Self)
        ensures
            r == (RecvBuilder { color_format, ..self }),
    {
        RecvBuilder { color_format, ..self }
    }
}

/// Settings of a sender.
#[derive(Debug)]
pub struct SendBuilder {
    pub ndi_name: String,
    pub clock_audio: bool,
    pub clock_video: bool,
}

impl SendBuilder {
    /// Sender settings under the given name, clocked by neither audio nor video.
    pub fn new(ndi_name: String) -> (r: Self)
        ensures
            r.ndi_name == ndi_name,
            !r.clock_audio,
            !r.clock_video,
    {
        SendBuilder { ndi_name, clock_audio: false, clock_video: false }
    }

    pub fn clock_audio(self) -> (r: Self)
        ensures
            r == (SendBuilder { clock_audio: true, ..self }),
    {
        SendBuilder { clock_audio: true, ..self }
    }

    pub fn clock_video(self) -> (r: Self)
        ensures
            r == (SendBuilder { clock_video: true, ..self }),
    {
        SendBuilder { clock_video: true, ..self }
    }
}

/// Tally state sent to a source.
#[derive(Debug, Copy, Clone)]
pub struct Tally(pub ndisys::NDIlib_tally_t);

impl Default for Tally {
    /// On program, not on preview.
    fn default() -> (r: Self)
        ensures
            r.0.on_program,
            !r.0.on_preview,
    {
        Tally(ndisys::NDIlib_tally_t { on_program: true, on_preview: false })
    }
}

impl Tally {
    pub fn new(on_program: bool, on_preview: bool) -> (r: Self)
        ensures
            r.0.on_program == on_program,
            r.0.on_preview == on_preview,
    {
        Tally(ndisys::NDIlib_tally_t { on_program, on_preview })
    }

    pub fn on_program(&self) -> (r: bool)
        ensures
            r == self.0.on_program,
    {
        self.0.on_program
    }

    pub fn on_preview(&self) -> (r: bool)
        ensures
            r == self.0.on_preview,
    {
        self.0.on_preview
    }
}

/// Number of frames waiting in a receiver.
#[derive(Debug, Copy, Clone)]
pub struct Queue(pub ndisys::NDIlib_recv_queue_t);

impl Queue {
    pub fn audio_frames(&self) -> (r: i32)
        ensures
            r == self.0.audio_frames,
    {
        self.0.audio_frames
    }

    pub fn video_frames(&self) -> (r: i32)
        ensures
            r == self.0.video_frames,
    {
        self.0.video_frames
    }

    pub fn metadata_frames(&self) -> (r: i32)
        ensures
            r == self.0.metadata_frames,
    {
        self.0.metadata_frames
    }
}

/// The header of a video frame: everything but the pixel data, the metadata
/// text and the picture aspect ratio.
#[derive(Debug, Copy, Clone)]
pub struct VideoFrame {
    pub xres: i32,
    pub yres: i32,
    pub fourcc: u32,
    pub frame_rate_n: i32,
    pub frame_rate_d: i32,
    pub frame_format_type: NDIlib_frame_format_type_e,
    pub timecode: i64,
    pub line_stride_or_data_size_in_bytes: i32,
    pub timestamp: i64,
}

/// The line stride of a frame: the stated one, or where none is stated the
/// one implied by the width and the FourCC (0 for an unknown FourCC).
pub open spec fn spec_line_stride(xres: i32, fourcc: u32, stride: i32) -> int {
    if stride != 0 {
        stride as int
    } else if fourcc == ndisys::NDIlib_FourCC_video_type_UYVY || fourcc
        == ndisys::NDIlib_FourCC_video_type_UYVA || fourcc == ndisys::NDIlib_FourCC_video_type_YV12
        || fourcc == ndisys::NDIlib_FourCC_video_type_NV12 || fourcc
        == ndisys::NDIlib_FourCC_video_type_I420 || fourcc == ndisys::NDIlib_FourCC_video_type_BGRA
        || fourcc == ndisys::NDIlib_FourCC_video_type_BGRX || fourcc
        == ndisys::NDIlib_FourCC_video_type_RGBA || fourcc
        == ndisys::NDIlib_FourCC_video_type_RGBX {
        xres as int
    } else if fourcc == ndisys::NDIlib_FourCC_video_type_P216 || fourcc
        == ndisys::NDIlib_FourCC_video_type_PA16 {
        2 * xres
    } else {
        0
    }
}

/// Whether a frame carries a single field.
pub open spec fn is_field(t: NDIlib_frame_format_type_e) -> bool {
    t == NDIlib_frame_format_type_e::NDIlib_frame_format_type_field_0 || t
        == NDIlib_frame_format_type_e::NDIlib_frame_format_type_field_1
}

/// The number of bytes of pixel data: height times stride, halved for a single field.
pub open spec fn spec_video_data_size(yres: i32, stride: int, t: NDIlib_frame_format_type_e) -> int {
    if is_field(t) {
        trunc_div_2(yres * stride)
    } else {
        yres * stride
    }
}

/// Halving that rounds towards zero.
pub open spec fn trunc_div_2(a: int) -> int {
    if a >= 0 {
        a / 2
    } else {
        -((-a) / 2)
    }
}

impl VideoFrame {
    pub fn xres(&self) -> (r: i32)
        ensures
            r == self.xres,
    {
        self.xres
    }

    pub fn yres(&self) -> (r: i32)
        ensures
            r == self.yres,
    {
        self.yres
    }

    pub fn fourcc(&self) -> (r: u32)
        ensures
            r == self.fourcc,
    {
        self.fourcc
    }

    /// Numerator and denominator of the frame rate.
    pub fn frame_rate(&self) -> (r: (i32, i32))
        ensures
            r == (self.frame_rate_n, self.frame_rate_d),
    {
        (self.frame_rate_n, self.frame_rate_d)
    }

    pub fn frame_format_type(&self) -> (r: NDIlib_frame_format_type_e)
        ensures
            r == self.frame_format_type,
    {
        self.frame_format_type
    }

    pub fn timecode(&self) -> (r: i64)
        ensures
            r == self.timecode,
    {
        self.timecode
    }

    pub fn timestamp(&self) -> (r: i64)
        ensures
            r == self.timestamp,
    {
        self.timestamp
    }

    /// The line stride: the stated one, or the one implied by width and FourCC.
    pub fn line_stride_or_data_size_in_bytes(&self) -> (r: i32)
        requires
            self.line_stride_or_data_size_in_bytes == 0 ==> 2 * self.xres <= i32::MAX && 2
                * self.xres >= i32::MIN,
        ensures
            r as int == spec_line_stride(
                self.xres,
                self.fourcc,
                self.line_stride_or_data_size_in_bytes,
            ),
    {
        let stride = self.line_stride_or_data_size_in_bytes;
        if stride != 0 {
            return stride;
        }
        let xres = self.xres;
        let f = self.fourcc;
        if f == ndisys::NDIlib_FourCC_video_type_UYVY || f == ndisys::NDIlib_FourCC_video_type_UYVA
            || f == ndisys::NDIlib_FourCC_video_type_YV12 || f
            == ndisys::NDIlib_FourCC_video_type_NV12 || f == ndisys::NDIlib_FourCC_video_type_I420
            || f == ndisys::NDIlib_FourCC_video_type_BGRA || f
            == ndisys::NDIlib_FourCC_video_type_BGRX || f == ndisys::NDIlib_FourCC_video_type_RGBA
            || f == ndisys::NDIlib_FourCC_video_type_RGBX {
            xres
        } else if f == ndisys::NDIlib_FourCC_video_type_P216 || f
            == ndisys::NDIlib_FourCC_video_type_PA16 {
            2 * xres
        } else {
            0
        }
    }

    /// The number of bytes of pixel data that the frame holds.
    pub fn data_size(&self) -> (r: i32)
        requires
            self.line_stride_or_data_size_in_bytes == 0 ==> 2 * self.xres <= i32::MAX && 2
                * self.xres >= i32::MIN,
            i32::MIN <= self.yres * spec_line_stride(
                self.xres,
                self.fourcc,
                self.line_stride_or_data_size_in_bytes,
            ) <= i32::MAX,
        ensures
            r as int == spec_video_data_size(
                self.yres,
                spec_line_stride(self.xres, self.fourcc, self.line_stride_or_data_size_in_bytes),
                self.frame_format_type,
            ),
    {
        let stride = self.line_stride_or_data_size_in_bytes();
        let size: i32 = self.yres * stride;
        if self.frame_format_type == NDIlib_frame_format_type_e::NDIlib_frame_format_type_field_0
            || self.frame_format_type
            == NDIlib_frame_format_type_e::NDIlib_frame_format_type_field_1 {
            if size >= 0 {
                size / 2
            } else {
                let neg: i32 = if size == i32::MIN {
                    i32::MAX / 2 + 1
                } else {
                    (-size) / 2
                };
                -neg
            }
        } else {
            size
        }
    }
}


/// The layout of a mapped raw video frame that is to be sent.
#[derive(Debug, Copy, Clone)]
pub struct SendFrameLayout {
    pub format: VideoFormat,
    pub width: u32,
    pub height: u32,
    pub fps_n: i32,
    pub fps_d: i32,
    pub interlace_mode: InterlaceMode,
    /// The frame holds the top field first.
    pub tff: bool,
    /// Addresses of the first bytes of the planes (unused planes: any value).
    pub plane_addr: [usize; 3],
    pub plane_stride: [i32; 3],
}

/// Plane `next` starts exactly `len` bytes after plane `prev`.
pub open spec fn planes_contiguous(prev: usize, next: usize, len: int) -> bool {
    next >= prev && next - prev == len
}

/// The FourCC under which a frame is sent: planar formats only where their
/// planes lie back to back; I420 and YV12 are swapped, as the SDK names them
/// the other way round than GStreamer; NV21 is sent as NV12.
pub open spec fn spec_send_fourcc(l: SendFrameLayout) -> Option<u32> {
    let luma = l.height as int * (l.plane_stride[0] as usize) as int;
    let chroma = (l.height as int + 1) / 2 * (l.plane_stride[1] as usize) as int;
    match l.format {
        VideoFormat::Uyvy => Some(ndisys::NDIlib_FourCC_video_type_UYVY),
        VideoFormat::I420 => if planes_contiguous(l.plane_addr[0], l.plane_addr[1], luma)
            && planes_contiguous(l.plane_addr[1], l.plane_addr[2], chroma) {
            Some(ndisys::NDIlib_FourCC_video_type_YV12)
        } else {
            None
        },
        VideoFormat::Nv12 | VideoFormat::Nv21 => if planes_contiguous(
            l.plane_addr[0],
            l.plane_addr[1],
            luma,
        ) {
            Some(ndisys::NDIlib_FourCC_video_type_NV12)
        } else {
            None
        },
        VideoFormat::Yv12 => if planes_contiguous(l.plane_addr[0], l.plane_addr[1], luma)
            && planes_contiguous(l.plane_addr[1], l.plane_addr[2], chroma) {
            Some(ndisys::NDIlib_FourCC_video_type_I420)
        } else {
            None
        },
        VideoFormat::Bgra => Some(ndisys::NDIlib_FourCC_video_type_BGRA),
        VideoFormat::Bgrx => Some(ndisys::NDIlib_FourCC_video_type_BGRX),
        VideoFormat::Rgba => Some(ndisys::NDIlib_FourCC_video_type_RGBA),
        VideoFormat::Rgbx => Some(ndisys::NDIlib_FourCC_video_type_RGBX),
    }
}

/// The frame format type under which a frame is sent: progressive and
/// interleaved as they are; single fields (with `interlaced_fields`) by
/// their field order.
pub open spec fn spec_send_frame_format_type(
    mode: InterlaceMode,
    tff: bool,
    interlaced_fields: bool,
) -> Option<NDIlib_frame_format_type_e> {
    match mode {
        InterlaceMode::Progressive => Some(
            NDIlib_frame_format_type_e::NDIlib_frame_format_type_progressive,
        ),
        InterlaceMode::Interleaved => Some(
            NDIlib_frame_format_type_e::NDIlib_frame_format_type_interleaved,
        ),
        InterlaceMode::Alternate if interlaced_fields => if tff {
            Some(NDIlib_frame_format_type_e::NDIlib_frame_format_type_field_0)
        } else {
            Some(NDIlib_frame_format_type_e::NDIlib_frame_format_type_field_1)
        },
        _ => None,
    }
}

fn plane_follows(prev: usize, next: usize, lines: usize, stride: usize) -> (r: bool)
    requires
        lines * stride <= usize::MAX,
    ensures
        r == planes_contiguous(prev, next, lines * stride),
{
    match next.checked_sub(prev) {
        Some(d) => d == lines * stride,
        None => false,
    }
}

impl VideoFrame {
    /// The header under which a mapped raw video frame is sent: `Err` where
    /// its format or interlacing cannot be sent or its planes are not back to
    /// back; otherwise its size, FourCC, frame rate, frame format type, the
    /// given timecode, the first plane's stride and no timestamp.
    pub fn try_from_video_frame(layout: &SendFrameLayout, timecode: i64, interlaced_fields: bool) -> (r:
        Result<VideoFrame, ()>)
        requires
            layout.height as int + 1 <= usize::MAX,
            layout.height as int * (layout.plane_stride[0] as usize) as int <= usize::MAX,
            (layout.height as int + 1) / 2 * (layout.plane_stride[1] as usize) as int <= usize::MAX,
        ensures
            r is Ok <==> spec_send_fourcc(*layout) is Some && spec_send_frame_format_type(
                layout.interlace_mode,
                layout.tff,
                interlaced_fields,
            ) is Some,
            r matches Ok(f) ==> {
                &&& f.xres == layout.width as i32
                &&& f.yres == layout.height as i32
                &&& Some(f.fourcc) == spec_send_fourcc(*layout)
                &&& f.frame_rate_n == layout.fps_n
                &&& f.frame_rate_d == layout.fps_d
                &&& Some(f.frame_format_type) == spec_send_frame_format_type(
                    layout.interlace_mode,
                    layout.tff,
                    interlaced_fields,
                )
                &&& f.timecode == timecode
                &&& f.line_stride_or_data_size_in_bytes == layout.plane_stride[0]
                &&& f.timestamp == 0
            },
    {
        let h = layout.height as usize;
        let s0 = layout.plane_stride[0] as usize;
        let s1 = layout.plane_stride[1] as usize;
        let a = layout.plane_addr;
        let fourcc = match layout.format {
            VideoFormat::Uyvy => ndisys::NDIlib_FourCC_video_type_UYVY,
            VideoFormat::I420 => {
                if !plane_follows(a[0], a[1], h, s0) || !plane_follows(a[1], a[2], (h + 1) / 2, s1) {
                    return Err(());
                }
                ndisys::NDIlib_FourCC_video_type_YV12
            },
            VideoFormat::Nv12 | VideoFormat::Nv21 => {
                if !plane_follows(a[0], a[1], h, s0) {
                    return Err(());
                }
                ndisys::NDIlib_FourCC_video_type_NV12
            },
            VideoFormat::Yv12 => {
                if !plane_follows(a[0], a[1], h, s0) || !plane_follows(a[1], a[2], (h + 1) / 2, s1) {
                    return Err(());
                }
                ndisys::NDIlib_FourCC_video_type_I420
            },
            VideoFormat::Bgra => ndisys::NDIlib_FourCC_video_type_BGRA,
            VideoFormat::Bgrx => ndisys::NDIlib_FourCC_video_type_BGRX,
            VideoFormat::Rgba => ndisys::NDIlib_FourCC_video_type_RGBA,
            VideoFormat::Rgbx => ndisys::NDIlib_FourCC_video_type_RGBX,
        };
        let frame_format_type = match layout.interlace_mode {
            InterlaceMode::Progressive => NDIlib_frame_format_type_e::NDIlib_frame_format_type_progressive,
            InterlaceMode::Interleaved => NDIlib_frame_format_type_e::NDIlib_frame_format_type_interleaved,
            InterlaceMode::Alternate => {
                if !interlaced_fields {
                    return Err(());
                }
                if layout.tff {
                    NDIlib_frame_format_type_e::NDIlib_frame_format_type_field_0
                } else {
                    NDIlib_frame_format_type_e::NDIlib_frame_format_type_field_1
                }
            },
            InterlaceMode::Other => return Err(()),
        };
        Ok(VideoFrame {
            xres: layout.width as i32,
            yres: layout.height as i32,
            fourcc,
            frame_rate_n: layout.fps_n,
            frame_rate_d: layout.fps_d,
            frame_format_type,
            timecode,
            line_stride_or_data_size_in_bytes: layout.plane_stride[0],
            timestamp: 0,
        })
    }
}

/// The header of an audio frame in planar 32-bit float layout.
#[derive(Debug, Copy, Clone)]
pub struct AudioFrame {
    pub sample_rate: i32,
    pub no_channels: i32,
    pub no_samples: i32,
    pub timecode: i64,
    pub channel_stride_in_bytes: i32,
    pub timestamp: i64,
}

impl AudioFrame {
    pub fn sample_rate(&self) -> (r: i32)
        ensures
            r == self.sample_rate,
    {
        self.sample_rate
    }

    pub fn no_channels(&self) -> (r: i32)
        ensures
            r == self.no_channels,
    {
        self.no_channels
    }

    pub fn no_samples(&self) -> (r: i32)
        ensures
            r == self.no_samples,
    {
        self.no_samples
    }

    pub fn timecode(&self) -> (r: i64)
        ensures
            r == self.timecode,
    {
        self.timecode
    }

    pub fn channel_stride_in_bytes(&self) -> (r: i32)
        ensures
            r == self.channel_stride_in_bytes,
    {
        self.channel_stride_in_bytes
    }

    pub fn timestamp(&self) -> (r: i64)
        ensures
            r == self.timestamp,
    {
        self.timestamp
    }

    /// The number of bytes of sample data: samples times channel stride.
    pub fn data_size(&self) -> (r: i32)
        requires
            i32::MIN <= self.no_samples * self.channel_stride_in_bytes <= i32::MAX,
        ensures
            r == self.no_samples * self.channel_stride_in_bytes,
    {
        self.no_samples * self.channel_stride_in_bytes
    }

    /// The number of 16-bit values in the interleaved form of the frame.
    pub fn interleaved_16s_len(&self) -> (r: i32)
        requires
            i32::MIN <= self.no_samples * self.no_channels <= i32::MAX,
        ensures
            r == self.no_samples * self.no_channels,
    {
        self.no_samples * self.no_channels
    }

    /// The header of a frame converted from interleaved signed 16-bit samples:
    /// `Err` unless the input is in that format; as many samples as whole
    /// interleaved groups of `channels` values, each channel's plane holding
    /// 4-byte floats, time stamp 0.
    pub fn try_from_interleaved_16s(
        is_s16: bool,
        rate: u32,
        channels: u32,
        sample_values: usize,
        timecode: i64,
    ) -> (r: Result<Self, ()>)
        requires
            is_s16 ==> 0 < channels <= i32::MAX,
            is_s16 ==> rate <= i32::MAX,
            is_s16 ==> sample_values <= i32::MAX,
            is_s16 ==> (sample_values as int) / (channels as int) * 4 <= i32::MAX,
        ensures
            r is Err <==> !is_s16,
            r matches Ok(f) ==> {
                &&& f.sample_rate == rate
                &&& f.no_channels == channels
                &&& f.no_samples == (sample_values as int) / (channels as int)
                &&& f.channel_stride_in_bytes == f.no_samples * 4
                &&& f.timecode == timecode
                &&& f.timestamp == 0
            },
    {
        if !is_s16 {
            return Err(());
        }
        let no_channels: i32 = channels as i32;
        let no_samples: i32 = (sample_values as i32) / no_channels;
        proof {
            assert(no_samples >= 0) by (nonlinear_arith)
                requires
                    no_samples == (sample_values as int) / (channels as int),
                    channels >= 1,
                    0 <= sample_values,
            ;
        }
        Ok(AudioFrame {
            sample_rate: rate as i32,
            no_channels,
            no_samples,
            timecode,
            channel_stride_in_bytes: no_samples * 4,
            timestamp: 0,
        })
    }
}

/// A metadata frame: a timecode and an optional text.
#[derive(Debug)]
pub struct MetadataFrame {
    pub timecode: i64,
    pub data: Option<String>,
}

impl Default for MetadataFrame {
    /// No text, timecode 0.
    fn default() -> (r: Self)
        ensures
            r.timecode == 0,
            r.data is None,
    {
        MetadataFrame { timecode: 0, data: None }
    }
}

impl MetadataFrame {
    /// A metadata frame with the given timecode and text.
    pub fn new(timecode: i64, data: Option<String>) -> (r: Self)
        ensures
            r.timecode == timecode,
            r.data == data,
    {
        MetadataFrame { timecode, data }
    }

    pub fn timecode(&self) -> (r: i64)
        ensures
            r == self.timecode,
    {
        self.timecode
    }

    pub fn metadata(&self) -> (r: Option<&str>)
        ensures
            r is Some <==> self.data is Some,
            r matches Some(s) ==> s@ == self.data->0@,
    {
        match &self.data {
            Some(s) => Some(s.as_str()),
            None => None,
        }
    }

}

} // verus!
