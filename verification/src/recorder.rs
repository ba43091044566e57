use vstd::prelude::*;
use vstd::string::*;
use crate::media::{
    supported_format, SPA_VIDEO_FORMAT_BGRX, SPA_VIDEO_FORMAT_I420, SPA_VIDEO_FORMAT_RGB,
    SPA_VIDEO_FORMAT_RGBA, SPA_VIDEO_FORMAT_RGBX, SPA_VIDEO_FORMAT_YUY2,
};
use crate::text::{decimal, push_decimal};

verus! {

/// Placeholder recorder for platforms without a capture backend.
pub struct RecorderWindows {}

impl RecorderWindows {
    pub fn new() -> (r: RecorderWindows)
    {
        RecorderWindows {}
    }

    /// Recording is not implemented on this platform: nothing happens.
    pub fn start_recording(&self)
    {
    }
}

/// One captured video frame, as handed from the capture thread to the encoder.
pub struct RawFrame {
    pub data: Vec<u8>,
    pub format: u32,
    pub width: u32,
    pub height: u32,
}

impl RawFrame {
    pub fn new(data: Vec<u8>, format: u32, width: u32, height: u32) -> (r: RawFrame)
        ensures
            r.data@ == data@,
            r.format == format,
            r.width == width,
            r.height == height,
    {
        RawFrame { data, format, width, height }
    }
}

/// SPA parameter id of a negotiated stream format.
pub const SPA_PARAM_FORMAT: u32 = 4;
/// SPA media type id of video.
pub const SPA_MEDIA_TYPE_VIDEO: u32 = 2;
/// SPA media subtype id of raw (uncompressed) data.
pub const SPA_MEDIA_SUBTYPE_RAW: u32 = 1;

/// Width and height of a frame, in pixels.
pub struct FrameSize {
    pub width: u32,
    pub height: u32,
}

/// A frame rate as the fraction `num / denom` frames per second.
pub struct FrameRate {
    pub num: u32,
    pub denom: u32,
}

/// What the capture stream asks the compositor for when negotiating a raw
/// video format: one of `formats` (the first is preferred), a size between
/// `size_min` and `size_max` (preferring `size_default`) and a frame rate
/// between `rate_min` and `rate_max` (preferring `rate_default`).
pub struct FormatRequest {
    /// SPA media type id: video.
    pub media_type: u32,
    /// SPA media subtype id: raw.
    pub media_subtype: u32,
    pub formats: Vec<u32>,
    pub size_default: FrameSize,
    pub size_min: FrameSize,
    pub size_max: FrameSize,
    pub rate_default: FrameRate,
    pub rate_min: FrameRate,
    pub rate_max: FrameRate,
}

/// The SPA video formats offered in negotiation, in order of preference:
/// BGRx (the compositor's native layout) first.
pub open spec fn requested_formats() -> Seq<u32> {
    seq![
        SPA_VIDEO_FORMAT_BGRX,
        SPA_VIDEO_FORMAT_I420,
        SPA_VIDEO_FORMAT_YUY2,
        SPA_VIDEO_FORMAT_RGBX,
        SPA_VIDEO_FORMAT_RGBA,
        SPA_VIDEO_FORMAT_RGB,
    ]
}

/// The negotiation request of the capture stream: raw video in the formats of
/// `requested_formats`, sizes from 1x1 to 7680x4320 preferring 1920x1080,
/// and frame rates from 0/1 to 1000/1 preferring 30/1.
pub fn format_request() -> (r: FormatRequest)
    ensures
        r.media_type == SPA_MEDIA_TYPE_VIDEO,
        r.media_subtype == SPA_MEDIA_SUBTYPE_RAW,
        r.formats@ == requested_formats(),
        r.size_default == (FrameSize { width: 1920, height: 1080 }),
        r.size_min == (FrameSize { width: 1, height: 1 }),
        r.size_max == (FrameSize { width: 7680, height: 4320 }),
        r.rate_default == (FrameRate { num: 30, denom: 1 }),
        r.rate_min == (FrameRate { num: 0, denom: 1 }),
        r.rate_max == (FrameRate { num: 1000, denom: 1 }),
{
    let mut formats: Vec<u32> = Vec::new();
    formats.push(SPA_VIDEO_FORMAT_BGRX);
    formats.push(SPA_VIDEO_FORMAT_I420);
    formats.push(SPA_VIDEO_FORMAT_YUY2);
    formats.push(SPA_VIDEO_FORMAT_RGBX);
    formats.push(SPA_VIDEO_FORMAT_RGBA);
    formats.push(SPA_VIDEO_FORMAT_RGB);
    assert(formats@ == requested_formats());
    FormatRequest {
        media_type: SPA_MEDIA_TYPE_VIDEO,
        media_subtype: SPA_MEDIA_SUBTYPE_RAW,
        formats,
        size_default: FrameSize { width: 1920, height: 1080 },
        size_min: FrameSize { width: 1, height: 1 },
        size_max: FrameSize { width: 7680, height: 4320 },
        rate_default: FrameRate { num: 30, denom: 1 },
        rate_min: FrameRate { num: 0, denom: 1 },
        rate_max: FrameRate { num: 1000, denom: 1 },
    }
}

/// Every format the capture stream may agree on can be handed to the
/// encoder: `parse_format` accepts each of them.
pub proof fn requested_formats_are_encodable()
    ensures
        forall|i: int|
            0 <= i < requested_formats().len() ==> #[trigger] supported_format(
                requested_formats()[i],
            ),
{
}

/// How the mouse cursor appears in the captured picture.
#[derive(Clone, Copy, Debug, PartialEq, Eq, Structural)]
pub enum CursorChoice {
    /// Drawn into the frames.
    Embedded,
}

/// What the screencast portal is asked to let the user pick.
pub struct SourceSelection {
    pub cursor: CursorChoice,
    /// Whole monitors may be picked.
    pub monitors: bool,
    /// Single windows may be picked.
    pub windows: bool,
    /// More than one source may be picked.
    pub multiple: bool,
    /// Whether the permission is remembered for later sessions.
    pub persist: bool,
}

/// The portal request: cursor embedded in the frames, monitors or windows,
/// several sources allowed, permission not remembered.
pub fn source_selection() -> (s: SourceSelection)
    ensures
        s.cursor == CursorChoice::Embedded,
        s.monitors,
        s.windows,
        s.multiple,
        !s.persist,
{
    SourceSelection {
        cursor: CursorChoice::Embedded,
        monitors: true,
        windows: true,
        multiple: true,
        persist: false,
    }
}

/// How the capture stream is created and connected to the picked node.
pub struct StreamSetup {
    pub name: &'static str,
    pub media_type: &'static str,
    pub media_category: &'static str,
    pub media_role: &'static str,
    /// Link the stream to the node automatically.
    pub autoconnect: bool,
    /// Run the frame callback on the real-time thread.
    pub realtime_process: bool,
    /// Let PipeWire map the buffers; off, since frames are mapped with
    /// exact bounds by `plan_copy`'s plan instead.
    pub map_buffers: bool,
}

/// The capture stream: named "screen_capture", a video capture in the
/// screen role, connected automatically with real-time processing and
/// without PipeWire-mapped buffers.
pub fn stream_setup() -> (s: StreamSetup)
    ensures
        s.name@ == "screen_capture"@,
        s.media_type@ == "Video"@,
        s.media_category@ == "Capture"@,
        s.media_role@ == "Screen"@,
        s.autoconnect,
        s.realtime_process,
        !s.map_buffers,
{
    StreamSetup {
        name: "screen_capture",
        media_type: "Video",
        media_category: "Capture",
        media_role: "Screen",
        autoconnect: true,
        realtime_process: true,
        map_buffers: false,
    }
}

/// The node of the first stream that the screencast portal started.
pub fn capture_node(stream_nodes: &Vec<u32>) -> (node: u32)
    requires
        stream_nodes.len() > 0,
    ensures
        node == stream_nodes@[0],
{
    stream_nodes[0]
}

/// Whether a changed stream parameter is a format that should be inspected:
/// it is present and its id is the format parameter.
pub fn param_is_format(present: bool, id: u32) -> (b: bool)
    ensures
        b == (present && id == SPA_PARAM_FORMAT),
{
    present && id == SPA_PARAM_FORMAT
}

/// Whether a parsed format header describes raw video.
pub fn is_raw_video(media_type: u32, media_subtype: u32) -> (b: bool)
    ensures
        b == (media_type == SPA_MEDIA_TYPE_VIDEO && media_subtype == SPA_MEDIA_SUBTYPE_RAW),
{
    media_type == SPA_MEDIA_TYPE_VIDEO && media_subtype == SPA_MEDIA_SUBTYPE_RAW
}

/// A negotiated raw video format.
#[derive(Clone, Copy, Debug)]
pub struct VideoFormat {
    pub media_type: u32,
    pub media_subtype: u32,
    /// SPA video format id.
    pub format: u32,
    pub width: u32,
    pub height: u32,
    pub framerate_num: u32,
    pub framerate_denom: u32,
}

/// The raw video description parsed from a format parameter.
#[derive(Clone, Copy, Debug)]
pub struct RawVideoInfo {
    /// SPA video format id.
    pub format: u32,
    pub width: u32,
    pub height: u32,
    pub framerate_num: u32,
    pub framerate_denom: u32,
}

/// A change of one stream parameter, with what could be parsed from it:
/// `header` is the media type and subtype when the header parse succeeded,
/// `raw` the raw video description when that parse succeeded. A parse that
/// was not attempted is reported as `None`.
pub struct ParamChange {
    pub present: bool,
    pub id: u32,
    pub header: Option<(u32, u32)>,
    pub raw: Option<RawVideoInfo>,
}

/// Whether a format is raw video.
pub open spec fn is_raw_video_format(f: VideoFormat) -> bool {
    f.media_type == SPA_MEDIA_TYPE_VIDEO && f.media_subtype == SPA_MEDIA_SUBTYPE_RAW
}

/// Whether a parameter change is accepted as the stream's new format: it
/// is a present format parameter whose header is raw video and whose raw
/// description parsed.
pub open spec fn accepted(c: ParamChange) -> bool {
    &&& c.present
    &&& c.id == SPA_PARAM_FORMAT
    &&& c.header matches Some((t, s)) && t == SPA_MEDIA_TYPE_VIDEO && s == SPA_MEDIA_SUBTYPE_RAW
    &&& c.raw is Some
}

/// The format that an accepted parameter change describes.
pub open spec fn format_of(c: ParamChange) -> VideoFormat
    recommends
        accepted(c),
{
    let (t, s) = c.header->0;
    let raw = c.raw->0;
    VideoFormat {
        media_type: t,
        media_subtype: s,
        format: raw.format,
        width: raw.width,
        height: raw.height,
        framerate_num: raw.framerate_num,
        framerate_denom: raw.framerate_denom,
    }
}

/// The recorded format after a parameter change: an accepted change
/// replaces it entirely, any other change leaves it as it was.
pub open spec fn format_after(before: Option<VideoFormat>, c: ParamChange) -> Option<VideoFormat> {
    if accepted(c) {
        Some(format_of(c))
    } else {
        before
    }
}

/// The recorded format after a sequence of parameter changes.
pub open spec fn format_after_all(
    before: Option<VideoFormat>,
    changes: Seq<ParamChange>,
) -> Option<VideoFormat>
    decreases changes.len(),
{
    if changes.len() == 0 {
        before
    } else {
        format_after(format_after_all(before, changes.drop_last()), changes.last())
    }
}

/// State the capture stream's callbacks share: the format negotiated so far,
/// which is always raw video.
pub struct StreamData {
    format: Option<VideoFormat>,
}

impl View for StreamData {
    type V = Option<VideoFormat>;

    closed spec fn view(&self) -> Option<VideoFormat> {
        self.format
    }
}

/// The text describing the stream state: the media type and subtype of the
/// negotiated format, or that there is none.
pub open spec fn describe_spec(format: Option<VideoFormat>) -> Seq<char> {
    match format {
        Some(f) => "media_type="@ + decimal(f.media_type as nat) + " subtype="@ + decimal(
            f.media_subtype as nat,
        ),
        None => "no format"@,
    }
}

impl StreamData {
    #[verifier::type_invariant]
    spec fn only_raw_video(self) -> bool {
        self.format matches Some(f) ==> is_raw_video_format(f)
    }

    /// No format negotiated yet.
    pub fn new() -> (d: StreamData)
        ensures
            d@ is None,
    {
        StreamData { format: None }
    }

    /// The format negotiated so far.
    pub fn format(&self) -> (f: Option<VideoFormat>)
        ensures
            f == self@,
            f matches Some(v) ==> is_raw_video_format(v),
    {
        proof {
            use_type_invariant(self);
        }
        self.format
    }

    /// Handles a changed stream parameter: records its format when the
    /// change is accepted, and otherwise keeps the recorded one. Returns
    /// whether it was accepted.
    pub fn on_param_changed(&mut self, change: ParamChange) -> (ok: bool)
        ensures
            ok == accepted(change),
            final(self)@ == format_after(old(self)@, change),
            !ok ==> final(self)@ == old(self)@,
            ok ==> (final(self)@ matches Some(f) && {
                let raw = change.raw->0;
                let (t, st) = change.header->0;
                &&& f.media_type == t
                &&& f.media_subtype == st
                &&& f.format == raw.format
                &&& f.width == raw.width
                &&& f.height == raw.height
                &&& f.framerate_num == raw.framerate_num
                &&& f.framerate_denom == raw.framerate_denom
            }),
    {
        if !param_is_format(change.present, change.id) {
            return false;
        }
        let (media_type, media_subtype) = match change.header {
            Some(h) => h,
            None => return false,
        };
        if !is_raw_video(media_type, media_subtype) {
            return false;
        }
        match change.raw {
            Some(raw) => {
                self.format = Some(
                    VideoFormat {
                        media_type,
                        media_subtype,
                        format: raw.format,
                        width: raw.width,
                        height: raw.height,
                        framerate_num: raw.framerate_num,
                        framerate_denom: raw.framerate_denom,
                    },
                );
                true
            },
            None => false,
        }
    }

    /// Describes the negotiated format for diagnostics.
    pub fn describe(&self) -> (s: String)
        ensures
            s@ == describe_spec(self@),
    {
        match &self.format {
            Some(f) => {
                let mut s = String::from_str("media_type=");
                push_decimal(&mut s, f.media_type);
                s.append(" subtype=");
                push_decimal(&mut s, f.media_subtype);
                s
            },
            None => String::from_str("no format"),
        }
    }

    /// Wraps captured bytes into a frame of the negotiated format; frames
    /// captured before any format was negotiated are not forwarded. A frame
    /// always carries an accepted raw-video format.
    pub fn frame_from_bytes(&self, bytes: Vec<u8>) -> (r: Option<RawFrame>)
        ensures
            r is Some <==> self@ is Some,
            r is Some ==> {
                let f = self@->0;
                let frame = r->0;
                &&& is_raw_video_format(f)
                &&& frame.data@ == bytes@
                &&& frame.format == f.format
                &&& frame.width == f.width
                &&& frame.height == f.height
            },
    {
        proof {
            use_type_invariant(self);
        }
        match &self.format {
            Some(f) => Some(RawFrame::new(bytes, f.format, f.width, f.height)),
            None => None,
        }
    }
}

/// A rejected parameter change (absent, not a format, not raw video, or not
/// parsed) leaves the recorded format unchanged; an accepted one replaces it
/// entirely by the format it describes, which is raw video.
pub proof fn param_change_outcome(before: Option<VideoFormat>, c: ParamChange)
    ensures
        !accepted(c) ==> format_after(before, c) == before,
        accepted(c) ==> format_after(before, c) == Some(format_of(c)) && is_raw_video_format(
            format_of(c),
        ),
{
}

/// Starting with no format, a stream has a format after a sequence of
/// parameter changes only if one of them was accepted, and then it is the
/// format of the last accepted change: no frame can be formed before an
/// accepted raw-video format parameter.
pub proof fn format_comes_from_last_accepted_change(changes: Seq<ParamChange>)
    ensures
        format_after_all(None, changes) is Some ==> exists|i: int|
            0 <= i < changes.len() && #[trigger] accepted(changes[i]) && format_after_all(
                None,
                changes,
            ) == Some(format_of(changes[i])) && forall|j: int|
                i < j < changes.len() ==> !#[trigger] accepted(changes[j]),
    decreases changes.len(),
{
    if changes.len() > 0 {
        let init = changes.drop_last();
        format_comes_from_last_accepted_change(init);
        let n = changes.len() - 1;
        if accepted(changes[n]) {
            assert(accepted(changes[n]));
        } else if format_after_all(None, changes) is Some {
            let i = choose|i: int|
                0 <= i < init.len() && #[trigger] accepted(init[i]) && format_after_all(None, init)
                    == Some(format_of(init[i])) && forall|j: int|
                    i < j < init.len() ==> !#[trigger] accepted(init[j]);
            assert(changes[i] == init[i]);
            assert forall|j: int| i < j < changes.len() implies !#[trigger] accepted(
                changes[j],
            ) by {
                if j < n {
                    assert(changes[j] == init[j]);
                }
            }
        }
    }
}

/// How a buffer's memory is reachable.
pub enum DataKind {
    /// The buffer is already mapped; its data pointer can be read.
    MemPtr,
    /// The buffer is a file descriptor to be mapped by the reader.
    MemFd,
    /// Any other SPA data type.
    Other(u32),
}

/// How to obtain the valid bytes of a dequeued buffer.
pub enum CopyPlan {
    /// The buffer has no chunk: skip it, reporting the missing chunk.
    NoChunk,
    /// The chunk holds no bytes: skip it silently.
    Empty,
    /// Map `map_size` bytes of the descriptor from the page-aligned
    /// `map_offset`, copy `len` bytes from `inner_offset` within the mapping,
    /// then unmap.
    MapFd { map_offset: u64, map_size: u64, inner_offset: u64, len: u64 },
    /// Copy `len` bytes starting `offset` bytes past the data pointer.
    FromPointer { offset: u64, len: u64 },
    /// The descriptor is negative or the data pointer is null: skip.
    Unreadable,
    /// The data type is not supported: skip, reporting the type.
    Unsupported(u32),
}

/// Start of the page that holds byte `offset`.
pub open spec fn page_start(offset: nat, page_size: nat) -> nat
    recommends
        page_size > 0,
{
    (offset / page_size) * page_size
}

/// Whether a page size is needed to plan the copy (only for a non-empty
/// chunk in a valid file descriptor).
pub open spec fn needs_page_size(
    chunk_present: bool,
    kind: DataKind,
    fd: i32,
    size: u32,
) -> bool {
    chunk_present && size > 0 && kind is MemFd && fd >= 0
}

/// The plan for copying the `size` valid bytes at `offset` of a buffer.
pub open spec fn copy_plan_spec(
    chunk_present: bool,
    kind: DataKind,
    fd: i32,
    data_is_null: bool,
    offset: u32,
    size: u32,
    page_size: u64,
) -> CopyPlan {
    if !chunk_present {
        CopyPlan::NoChunk
    } else if size == 0 {
        CopyPlan::Empty
    } else {
        match kind {
            DataKind::MemFd => if fd < 0 {
                CopyPlan::Unreadable
            } else {
                let map_offset = page_start(offset as nat, page_size as nat);
                CopyPlan::MapFd {
                    map_offset: map_offset as u64,
                    map_size: (offset - map_offset + size) as u64,
                    inner_offset: (offset - map_offset) as u64,
                    len: size as u64,
                }
            },
            DataKind::MemPtr => if data_is_null {
                CopyPlan::Unreadable
            } else {
                CopyPlan::FromPointer { offset: offset as u64, len: size as u64 }
            },
            DataKind::Other(t) => CopyPlan::Unsupported(t),
        }
    }
}

proof fn lemma_page_start(offset: nat, page_size: nat)
    requires
        page_size > 0,
    ensures
        page_start(offset, page_size) <= offset,
        offset - page_start(offset, page_size) < page_size,
        page_start(offset, page_size) % page_size == 0,
{
    let q = offset / page_size;
    let r = offset % page_size;
    assert(offset == q * page_size + r && 0 <= r < page_size) by (nonlinear_arith)
        requires
            page_size > 0,
            q == offset / page_size,
            r == offset % page_size,
    ;
    assert((q * page_size) % page_size == 0) by (nonlinear_arith)
        requires
            page_size > 0,
            q >= 0,
    ;
}

/// Decides how the valid bytes of a dequeued buffer are read.
pub fn plan_copy(
    chunk_present: bool,
    kind: DataKind,
    fd: i32,
    data_is_null: bool,
    offset: u32,
    size: u32,
    page_size: u64,
) -> (plan: CopyPlan)
    requires
        needs_page_size(chunk_present, kind, fd, size) ==> page_size > 0,
    ensures
        plan == copy_plan_spec(chunk_present, kind, fd, data_is_null, offset, size, page_size),
        !chunk_present ==> plan is NoChunk,
        chunk_present && size == 0 ==> plan is Empty,
        plan matches CopyPlan::MapFd { len, .. } ==> size > 0 && len == size,
        plan matches CopyPlan::FromPointer { offset: o, len } ==> size > 0 && len == size && o
            == offset,
        chunk_present && size > 0 && kind is MemFd ==> (fd < 0 <==> plan is Unreadable) && (fd
            >= 0 <==> plan is MapFd),
        chunk_present && size > 0 && kind is MemPtr ==> (data_is_null <==> plan is Unreadable)
            && (!data_is_null <==> plan is FromPointer),
        chunk_present && size > 0 ==> (kind matches DataKind::Other(t) ==> plan
            == CopyPlan::Unsupported(t)),
{
    if !chunk_present {
        return CopyPlan::NoChunk;
    }
    if size == 0 {
        return CopyPlan::Empty;
    }
    match kind {
        DataKind::MemFd => {
            if fd < 0 {
                CopyPlan::Unreadable
            } else {
                proof {
                    lemma_page_start(offset as nat, page_size as nat);
                }
                let off = offset as u64;
                let map_offset = (off / page_size) * page_size;
                let inner_offset = off - map_offset;
                CopyPlan::MapFd {
                    map_offset,
                    map_size: inner_offset + size as u64,
                    inner_offset,
                    len: size as u64,
                }
            }
        },
        DataKind::MemPtr => {
            if data_is_null {
                CopyPlan::Unreadable
            } else {
                CopyPlan::FromPointer { offset: offset as u64, len: size as u64 }
            }
        },
        DataKind::Other(t) => CopyPlan::Unsupported(t),
    }
}

/// The mapping planned for a file-descriptor buffer starts on a page
/// boundary, covers the requested bytes and ends exactly where they end:
/// it never reaches past `offset + size`, and the bytes copied from
/// `inner_offset` are the requested ones.
pub proof fn mapping_covers_exactly_the_frame(
    fd: i32,
    data_is_null: bool,
    offset: u32,
    size: u32,
    page_size: u64,
)
    requires
        fd >= 0,
        size > 0,
        page_size > 0,
    ensures
        copy_plan_spec(true, DataKind::MemFd, fd, data_is_null, offset, size, page_size) matches CopyPlan::MapFd { map_offset, map_size, inner_offset, len } && {
            &&& map_offset % page_size == 0
            &&& map_offset <= offset
            &&& inner_offset < page_size
            &&& map_offset + inner_offset == offset
            &&& inner_offset + len == map_size
            &&& map_offset + map_size == offset + size
            &&& len == size
        },
{
    lemma_page_start(offset as nat, page_size as nat);
}

/// Copies the `len` bytes starting at `start` out of `bytes` (a mapped
/// window or the memory behind a data pointer).
pub fn copy_window(bytes: &[u8], start: u64, len: u64) -> (r: Vec<u8>)
    requires
        start + len <= bytes@.len(),
    ensures
        r@ == bytes@.subrange(start as int, start + len),
{
    let total = bytes.len();
    assert(start + len <= total);
    assert(bytes@.len() == total);
    let s = start as usize;
    let n = len as usize;
    let mut r: Vec<u8> = Vec::new();
    let mut i: usize = 0;
    while i < n
        invariant
            s + n <= bytes@.len(),
            bytes@.len() <= usize::MAX,
            s == start,
            n == len,
            i <= n,
            r@ == bytes@.subrange(s as int, s + i),
        decreases n - i,
    {
        r.push(bytes[s + i]);
        assert(bytes@.subrange(s as int, s + i + 1) == bytes@.subrange(s as int, s + i).push(
            bytes@[s + i],
        ));
        i = i + 1;
    }
    r
}

/// The bytes a plan yields: for a descriptor, the planned window of the
/// file's contents `fd_bytes`, then `len` bytes from `inner_offset` within
/// it; for a pointer, `len` bytes from `offset` of the memory `ptr_bytes`.
pub open spec fn plan_bytes(plan: CopyPlan, fd_bytes: Seq<u8>, ptr_bytes: Seq<u8>) -> Option<Seq<u8>> {
    match plan {
        CopyPlan::MapFd { map_offset, map_size, inner_offset, len } => Some(
            fd_bytes.subrange(map_offset as int, map_offset + map_size).subrange(
                inner_offset as int,
                inner_offset + len,
            ),
        ),
        CopyPlan::FromPointer { offset, len } => Some(
            ptr_bytes.subrange(offset as int, offset + len),
        ),
        _ => None,
    }
}

/// A descriptor buffer and a pointer buffer that hold the same bytes at
/// `[offset, offset + size)` give the same frame: both plans read exactly
/// those `size` bytes.
pub proof fn fd_and_pointer_buffers_copy_alike(
    fd: i32,
    offset: u32,
    size: u32,
    page_size: u64,
    file: Seq<u8>,
    memory: Seq<u8>,
)
    requires
        fd >= 0,
        size > 0,
        page_size > 0,
        offset + size <= file.len(),
        offset + size <= memory.len(),
        file.subrange(offset as int, offset + size) == memory.subrange(offset as int, offset + size),
    ensures
        ({
            let p1 = copy_plan_spec(true, DataKind::MemFd, fd, false, offset, size, page_size);
            let p2 = copy_plan_spec(true, DataKind::MemPtr, fd, false, offset, size, page_size);
            &&& plan_bytes(p1, file, memory) is Some
            &&& plan_bytes(p1, file, memory) == plan_bytes(p2, file, memory)
            &&& plan_bytes(p1, file, memory)->0.len() == size
        }),
{
    lemma_page_start(offset as nat, page_size as nat);
    let p1 = copy_plan_spec(true, DataKind::MemFd, fd, false, offset, size, page_size);
    let mo = page_start(offset as nat, page_size as nat) as int;
    let inner = offset - mo;
    let a = file.subrange(mo, offset + size).subrange(inner, inner + size);
    assert(a =~= file.subrange(offset as int, offset + size));
}

/// A buffer whose chunk holds no bytes is skipped, whatever its kind:
/// only a buffer with a present, non-empty chunk is ever copied, and a copy
/// takes exactly the chunk's `size` bytes.
pub proof fn empty_chunks_are_never_copied(
    kind: DataKind,
    fd: i32,
    data_is_null: bool,
    offset: u32,
    size: u32,
    page_size: u64,
)
    ensures
        copy_plan_spec(true, kind, fd, data_is_null, offset, 0, page_size) is Empty,
        copy_plan_spec(false, kind, fd, data_is_null, offset, size, page_size) is NoChunk,
        forall|present: bool|
            #![trigger copy_plan_spec(present, kind, fd, data_is_null, offset, size, page_size)]
            match copy_plan_spec(present, kind, fd, data_is_null, offset, size, page_size) {
                CopyPlan::MapFd { len, .. } => present && size > 0 && len == size,
                CopyPlan::FromPointer { offset: o, len } => present && size > 0 && len == size
                    && o == offset,
                _ => true,
            },
{
}

/// An accepted parameter change records exactly the parsed description: the
/// header's media type and subtype and the raw description's format, size
/// and frame rate, unaltered.
pub proof fn accepted_change_records_parsed_description(
    before: Option<VideoFormat>,
    c: ParamChange,
)
    requires
        accepted(c),
    ensures
        format_after(before, c) matches Some(f) && {
            let raw = c.raw->0;
            let (t, st) = c.header->0;
            &&& f.media_type == t
            &&& f.media_subtype == st
            &&& f.format == raw.format
            &&& f.width == raw.width
            &&& f.height == raw.height
            &&& f.framerate_num == raw.framerate_num
            &&& f.framerate_denom == raw.framerate_denom
        },
{
}

} // verus!
