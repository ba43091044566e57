use vstd::prelude::*;

verus! {

/// SPA video format identifiers that the capture side can deliver.
pub const SPA_VIDEO_FORMAT_I420: u32 = 2;
pub const SPA_VIDEO_FORMAT_YUY2: u32 = 4;
pub const SPA_VIDEO_FORMAT_RGBX: u32 = 7;
pub const SPA_VIDEO_FORMAT_BGRX: u32 = 8;
pub const SPA_VIDEO_FORMAT_RGBA: u32 = 11;
pub const SPA_VIDEO_FORMAT_RGB: u32 = 15;

/// Encoder-side pixel layouts (named as in libav's `AVPixelFormat`).
#[derive(Clone, Copy, Debug, PartialEq, Eq, Structural)]
pub enum PixelFormat {
    /// Planar 4:2:0 YUV (`YUV420P`).
    Yuv420p,
    /// Packed 4:2:2 YUYV (`YUYV422`).
    Yuyv422,
    /// Packed `[R, G, B, x]` (`RGB0`).
    Rgbz,
    /// Packed `[B, G, R, x]` (`BGR0`).
    Bgrz,
    /// Packed `[R, G, B, A]` (`RGBA`).
    Rgba,
    /// Packed `[R, G, B]` (`RGB24`).
    Rgb24,
}

/// The SPA video format ids for which a pixel layout is known.
pub open spec fn supported_format(format: u32) -> bool {
    format == SPA_VIDEO_FORMAT_I420
    || format == SPA_VIDEO_FORMAT_YUY2
    || format == SPA_VIDEO_FORMAT_RGBX
    || format == SPA_VIDEO_FORMAT_BGRX
    || format == SPA_VIDEO_FORMAT_RGBA
    || format == SPA_VIDEO_FORMAT_RGB
}

/// The pixel layout that a supported SPA video format id stands for.
pub open spec fn pixel_of(format: u32) -> PixelFormat
    recommends
        supported_format(format),
{
    if format == SPA_VIDEO_FORMAT_I420 {
        PixelFormat::Yuv420p
    } else if format == SPA_VIDEO_FORMAT_YUY2 {
        PixelFormat::Yuyv422
    } else if format == SPA_VIDEO_FORMAT_RGBX {
        PixelFormat::Rgbz
    } else if format == SPA_VIDEO_FORMAT_BGRX {
        PixelFormat::Bgrz
    } else if format == SPA_VIDEO_FORMAT_RGBA {
        PixelFormat::Rgba
    } else {
        PixelFormat::Rgb24
    }
}

/// Whether `parse_format` accepts `format`.
pub fn format_supported(format: u32) -> (b: bool)
    ensures
        b == supported_format(format),
{
    format == SPA_VIDEO_FORMAT_I420 || format == SPA_VIDEO_FORMAT_YUY2 || format
        == SPA_VIDEO_FORMAT_RGBX || format == SPA_VIDEO_FORMAT_BGRX || format
        == SPA_VIDEO_FORMAT_RGBA || format == SPA_VIDEO_FORMAT_RGB
}

/// Maps an SPA video format id to the matching encoder pixel layout.
/// Packed 32-bit formats keep their byte order: BGRx bytes `[B, G, R, x]`
/// are `BGR0`, RGBx bytes `[R, G, B, x]` are `RGB0`.
pub fn parse_format(format: u32) -> (p: PixelFormat)
    requires
        supported_format(format),
    ensures
        p == pixel_of(format),
{
    if format == SPA_VIDEO_FORMAT_I420 {
        PixelFormat::Yuv420p
    } else if format == SPA_VIDEO_FORMAT_YUY2 {
        PixelFormat::Yuyv422
    } else if format == SPA_VIDEO_FORMAT_RGBX {
        PixelFormat::Rgbz
    } else if format == SPA_VIDEO_FORMAT_BGRX {
        PixelFormat::Bgrz
    } else if format == SPA_VIDEO_FORMAT_RGBA {
        PixelFormat::Rgba
    } else {
        PixelFormat::Rgb24
    }
}

/// Distinct supported SPA formats never map to the same pixel layout, so a
/// frame's layout is never confused with another's.
pub proof fn parse_format_injective(a: u32, b: u32)
    requires
        supported_format(a),
        supported_format(b),
        pixel_of(a) == pixel_of(b),
    ensures
        a == b,
{
}


/// How the scaler resamples: the fast bilinear filter.
#[derive(Clone, Copy, Debug, PartialEq, Eq, Structural)]
pub enum ScaleAlgorithm {
    FastBilinear,
}

/// Parameters the H.264 encoder context is configured and opened with.
pub struct EncoderSettings {
    pub width: u32,
    pub height: u32,
    /// Pixel layout the encoder consumes.
    pub format: PixelFormat,
    /// Average bit rate in bits per second.
    pub bit_rate: usize,
    pub max_b_frames: usize,
    /// Distance between key frames, in frames.
    pub gop: u32,
    pub time_base_num: i32,
    pub time_base_den: i32,
    /// libx264 `preset` option.
    pub preset: &'static str,
    /// libx264 `tune` option.
    pub tune: &'static str,
}

/// Parameters of the converter from the captured layout to the encoder's.
pub struct ScalerSettings {
    pub src_format: PixelFormat,
    pub src_width: u32,
    pub src_height: u32,
    pub dst_format: PixelFormat,
    pub dst_width: u32,
    pub dst_height: u32,
    pub algorithm: ScaleAlgorithm,
}

/// Where the encoding loop stands.
#[derive(Clone, Copy, Debug, PartialEq, Eq, Structural)]
pub enum EncodePhase {
    /// Waiting for the next captured frame.
    AwaitingFrame,
    /// A frame was handed out for conversion.
    Converting,
    /// A converted frame was handed out for submission.
    Sending,
    /// Pulling the packets the submitted frame produced.
    Draining,
    /// The frame channel closed; end of stream was handed out.
    Flushing,
    /// Pulling (and dropping) the packets left after end of stream.
    FlushDraining,
    /// Everything was flushed.
    Finished,
    /// A submission to the encoder failed; the loop stops with an error.
    Failed,
}

/// What the outside world reports to the encoding loop.
pub enum EncodeEvent {
    /// A captured frame arrived on the channel.
    FrameReceived { format: u32, width: u32, height: u32 },
    /// The frame channel closed.
    ChannelClosed,
    /// Conversion of the current frame failed.
    ScaleFailed,
    /// Conversion of the current frame succeeded.
    ScaleSucceeded,
    /// The encoder refused the submitted frame or end-of-stream marker.
    SubmitFailed,
    /// The encoder accepted the submitted frame or end-of-stream marker.
    Submitted,
    /// The encoder produced a packet; `has_data` tells whether it carries bytes.
    PacketReceived { has_data: bool },
    /// The encoder has no further packet for now.
    NoMorePackets,
}

/// What the encoding loop asks the outside world to do next.
pub enum EncodeAction {
    /// Convert the received frame from `src_format` to `dst_format` at the
    /// same size, stamping it with presentation time `pts`.
    Convert { src_format: PixelFormat, dst_format: PixelFormat, width: u32, height: u32, pts: i64 },
    /// Drop the frame (after logging) and wait for the next one.
    SkipFrame,
    /// Submit the converted frame to the encoder.
    SubmitFrame,
    /// Submit the end-of-stream marker to the encoder.
    SubmitEof,
    /// Ask the encoder for the next packet.
    ReceivePacket,
    /// Tag the packet with stream `stream_index`, send its bytes out when
    /// `forward_data`, then ask for the next packet.
    ForwardPacket { stream_index: usize, forward_data: bool },
    /// Drop the packet, then ask for the next one.
    DiscardPacket,
    /// Wait for the next captured frame.
    AwaitFrame,
    /// Stop with the encoder's error.
    Fail,
    /// Stop successfully.
    Finish,
}

/// The encoding loop's state: the number of fully encoded frames and the phase.
pub struct EncoderState {
    pub frame_count: i64,
    pub phase: EncodePhase,
}

/// Whether `event` can be reported in state `s`.
pub open spec fn spec_accepts(s: EncoderState, event: EncodeEvent) -> bool {
    match event {
        EncodeEvent::FrameReceived { format, .. } => s.phase == EncodePhase::AwaitingFrame
            && supported_format(format),
        EncodeEvent::ChannelClosed => s.phase == EncodePhase::AwaitingFrame,
        EncodeEvent::ScaleFailed => s.phase == EncodePhase::Converting,
        EncodeEvent::ScaleSucceeded => s.phase == EncodePhase::Converting,
        EncodeEvent::SubmitFailed => s.phase == EncodePhase::Sending || s.phase
            == EncodePhase::Flushing,
        EncodeEvent::Submitted => s.phase == EncodePhase::Sending || s.phase
            == EncodePhase::Flushing,
        EncodeEvent::PacketReceived { .. } => s.phase == EncodePhase::Draining || s.phase
            == EncodePhase::FlushDraining,
        EncodeEvent::NoMorePackets => (s.phase == EncodePhase::Draining && s.frame_count
            < i64::MAX) || s.phase == EncodePhase::FlushDraining,
    }
}

/// One transition of the encoding loop: the next state and the action to perform.
pub open spec fn spec_step(s: EncoderState, event: EncodeEvent) -> (EncoderState, EncodeAction) {
    let count = s.frame_count;
    match event {
        EncodeEvent::FrameReceived { format, width, height } => (
            EncoderState { frame_count: count, phase: EncodePhase::Converting },
            EncodeAction::Convert {
                src_format: pixel_of(format),
                dst_format: PixelFormat::Yuv420p,
                width,
                height,
                pts: count,
            },
        ),
        EncodeEvent::ChannelClosed => (
            EncoderState { frame_count: count, phase: EncodePhase::Flushing },
            EncodeAction::SubmitEof,
        ),
        EncodeEvent::ScaleFailed => (
            EncoderState { frame_count: count, phase: EncodePhase::AwaitingFrame },
            EncodeAction::SkipFrame,
        ),
        EncodeEvent::ScaleSucceeded => (
            EncoderState { frame_count: count, phase: EncodePhase::Sending },
            EncodeAction::SubmitFrame,
        ),
        EncodeEvent::SubmitFailed => (
            EncoderState { frame_count: count, phase: EncodePhase::Failed },
            EncodeAction::Fail,
        ),
        EncodeEvent::Submitted => if s.phase == EncodePhase::Sending {
            (
                EncoderState { frame_count: count, phase: EncodePhase::Draining },
                EncodeAction::ReceivePacket,
            )
        } else {
            (
                EncoderState { frame_count: count, phase: EncodePhase::FlushDraining },
                EncodeAction::ReceivePacket,
            )
        },
        EncodeEvent::PacketReceived { has_data } => if s.phase == EncodePhase::Draining {
            (s, EncodeAction::ForwardPacket { stream_index: 0, forward_data: has_data })
        } else {
            (s, EncodeAction::DiscardPacket)
        },
        EncodeEvent::NoMorePackets => if s.phase == EncodePhase::Draining {
            (
                EncoderState { frame_count: (count + 1) as i64, phase: EncodePhase::AwaitingFrame },
                EncodeAction::AwaitFrame,
            )
        } else {
            (
                EncoderState { frame_count: count, phase: EncodePhase::Finished },
                EncodeAction::Finish,
            )
        },
    }
}

/// The encoder's configuration together with the state of its encoding loop.
pub struct VideoEncoder {
    pub settings: EncoderSettings,
    pub scaler: ScalerSettings,
    pub state: EncoderState,
}

impl View for VideoEncoder {
    type V = EncoderState;

    open spec fn view(&self) -> EncoderState {
        self.state
    }
}

impl VideoEncoder {
    /// Configuration for encoding `width` x `height` frames captured in the SPA
    /// format `pixel_format`: H.264 in YUV420P at 2 Mbit/s, no B-frames, a key
    /// frame every 60 frames, time base 1/60, `ultrafast` / `zerolatency`, and a
    /// fast-bilinear converter from the captured layout to YUV420P at the same size.
    pub fn new(width: u32, height: u32, pixel_format: u32) -> (e: VideoEncoder)
        requires
            supported_format(pixel_format),
        ensures
            e.settings.width == width,
            e.settings.height == height,
            e.settings.format == PixelFormat::Yuv420p,
            e.settings.bit_rate == 2_000_000,
            e.settings.max_b_frames == 0,
            e.settings.gop == 60,
            e.settings.time_base_num == 1,
            e.settings.time_base_den == 60,
            e.settings.preset@ == "ultrafast"@,
            e.settings.tune@ == "zerolatency"@,
            e.scaler.src_format == pixel_of(pixel_format),
            e.scaler.src_width == width,
            e.scaler.src_height == height,
            e.scaler.dst_format == PixelFormat::Yuv420p,
            e.scaler.dst_width == width,
            e.scaler.dst_height == height,
            e.scaler.algorithm == ScaleAlgorithm::FastBilinear,
            e@.frame_count == 0,
            e@.phase == EncodePhase::AwaitingFrame,
    {
        let settings = EncoderSettings {
            width,
            height,
            format: PixelFormat::Yuv420p,
            bit_rate: 2_000_000,
            max_b_frames: 0,
            gop: 60,
            time_base_num: 1,
            time_base_den: 60,
            preset: "ultrafast",
            tune: "zerolatency",
        };
        let scaler = ScalerSettings {
            src_format: parse_format(pixel_format),
            src_width: width,
            src_height: height,
            dst_format: PixelFormat::Yuv420p,
            dst_width: width,
            dst_height: height,
            algorithm: ScaleAlgorithm::FastBilinear,
        };
        VideoEncoder {
            settings,
            scaler,
            state: EncoderState { frame_count: 0, phase: EncodePhase::AwaitingFrame },
        }
    }

    /// Number of frames fully encoded so far.
    pub fn frame_count(&self) -> (n: i64)
        ensures
            n == self@.frame_count,
    {
        self.state.frame_count
    }

    pub fn phase(&self) -> (p: EncodePhase)
        ensures
            p == self@.phase,
    {
        self.state.phase
    }

    /// Whether `event` can be reported now.
    pub fn accepts(&self, event: &EncodeEvent) -> (b: bool)
        ensures
            b == spec_accepts(self@, *event),
    {
        let phase = self.state.phase;
        match event {
            EncodeEvent::FrameReceived { format, .. } => {
                phase == EncodePhase::AwaitingFrame && format_supported(*format)
            },
            EncodeEvent::ChannelClosed => phase == EncodePhase::AwaitingFrame,
            EncodeEvent::ScaleFailed => phase == EncodePhase::Converting,
            EncodeEvent::ScaleSucceeded => phase == EncodePhase::Converting,
            EncodeEvent::SubmitFailed => phase == EncodePhase::Sending || phase
                == EncodePhase::Flushing,
            EncodeEvent::Submitted => phase == EncodePhase::Sending || phase
                == EncodePhase::Flushing,
            EncodeEvent::PacketReceived { .. } => phase == EncodePhase::Draining || phase
                == EncodePhase::FlushDraining,
            EncodeEvent::NoMorePackets => (phase == EncodePhase::Draining
                && self.state.frame_count < i64::MAX) || phase == EncodePhase::FlushDraining,
        }
    }

    /// Advances the encoding loop by one reported event and says what to do next.
    pub fn step(&mut self, event: EncodeEvent) -> (a: EncodeAction)
        requires
            spec_accepts(old(self)@, event),
        ensures
            (final(self)@, a) == spec_step(old(self)@, event),
            event is ChannelClosed ==> a is SubmitEof && final(self)@.phase
                == EncodePhase::Flushing && final(self)@.frame_count == old(self)@.frame_count,
            event matches EncodeEvent::FrameReceived { format, width, height } ==> a
                == (EncodeAction::Convert {
                src_format: pixel_of(format),
                dst_format: PixelFormat::Yuv420p,
                width,
                height,
                pts: old(self)@.frame_count,
            }) && final(self)@.phase == EncodePhase::Converting,
            event is ScaleFailed ==> a is SkipFrame && final(self)@.phase
                == EncodePhase::AwaitingFrame,
            event is ScaleSucceeded ==> a is SubmitFrame && final(self)@.phase
                == EncodePhase::Sending,
            event is SubmitFailed ==> a is Fail && final(self)@.phase == EncodePhase::Failed,
            event is Submitted ==> a is ReceivePacket && final(self)@.phase == if old(self)@.phase
                == EncodePhase::Sending {
                EncodePhase::Draining
            } else {
                EncodePhase::FlushDraining
            },
            event matches EncodeEvent::PacketReceived { has_data } ==> final(self)@ == old(self)@
                && a == if old(self)@.phase == EncodePhase::Draining {
                EncodeAction::ForwardPacket { stream_index: 0, forward_data: has_data }
            } else {
                EncodeAction::DiscardPacket
            },
            event is NoMorePackets && old(self)@.phase == EncodePhase::Draining ==> a is AwaitFrame
                && final(self)@.phase == EncodePhase::AwaitingFrame && final(self)@.frame_count
                == old(self)@.frame_count + 1,
            event is NoMorePackets && old(self)@.phase != EncodePhase::Draining ==> a is Finish
                && final(self)@.phase == EncodePhase::Finished,
            !(event is NoMorePackets && old(self)@.phase == EncodePhase::Draining)
                ==> final(self)@.frame_count == old(self)@.frame_count,
            final(self).settings == old(self).settings,
            final(self).scaler == old(self).scaler,
    {
        let count = self.state.frame_count;
        let phase = self.state.phase;
        match event {
            EncodeEvent::FrameReceived { format, width, height } => {
                self.state.phase = EncodePhase::Converting;
                EncodeAction::Convert {
                    src_format: parse_format(format),
                    dst_format: PixelFormat::Yuv420p,
                    width,
                    height,
                    pts: count,
                }
            },
            EncodeEvent::ChannelClosed => {
                self.state.phase = EncodePhase::Flushing;
                EncodeAction::SubmitEof
            },
            EncodeEvent::ScaleFailed => {
                self.state.phase = EncodePhase::AwaitingFrame;
                EncodeAction::SkipFrame
            },
            EncodeEvent::ScaleSucceeded => {
                self.state.phase = EncodePhase::Sending;
                EncodeAction::SubmitFrame
            },
            EncodeEvent::SubmitFailed => {
                self.state.phase = EncodePhase::Failed;
                EncodeAction::Fail
            },
            EncodeEvent::Submitted => {
                if phase == EncodePhase::Sending {
                    self.state.phase = EncodePhase::Draining;
                } else {
                    self.state.phase = EncodePhase::FlushDraining;
                }
                EncodeAction::ReceivePacket
            },
            EncodeEvent::PacketReceived { has_data } => {
                if phase == EncodePhase::Draining {
                    EncodeAction::ForwardPacket { stream_index: 0, forward_data: has_data }
                } else {
                    EncodeAction::DiscardPacket
                }
            },
            EncodeEvent::NoMorePackets => {
                if phase == EncodePhase::Draining {
                    self.state.frame_count = count + 1;
                    self.state.phase = EncodePhase::AwaitingFrame;
                    EncodeAction::AwaitFrame
                } else {
                    self.state.phase = EncodePhase::Finished;
                    EncodeAction::Finish
                }
            },
        }
    }
}

/// Only the end of a frame's packet drain changes the frame count, and it
/// adds exactly one: every other report leaves the count as it was.
pub proof fn frame_count_changes_only_when_a_frame_is_done(s: EncoderState, e: EncodeEvent)
    requires
        spec_accepts(s, e),
    ensures
        spec_step(s, e).0.frame_count == if s.phase == EncodePhase::Draining
            && e is NoMorePackets {
            s.frame_count + 1
        } else {
            s.frame_count as int
        },
{
}

/// A frame that is received, converted, accepted by the encoder and drained
/// is stamped with the number of frames encoded before it, and afterwards the
/// count is one higher and the loop waits for the next frame.
pub proof fn encoded_frame_gets_next_pts(s: EncoderState, format: u32, width: u32, height: u32)
    requires
        s.phase == EncodePhase::AwaitingFrame,
        supported_format(format),
        s.frame_count < i64::MAX,
    ensures
        ({
            let (s1, a1) = spec_step(s, EncodeEvent::FrameReceived { format, width, height });
            let (s2, a2) = spec_step(s1, EncodeEvent::ScaleSucceeded);
            let (s3, a3) = spec_step(s2, EncodeEvent::Submitted);
            let (s4, a4) = spec_step(s3, EncodeEvent::NoMorePackets);
            &&& spec_accepts(s1, EncodeEvent::ScaleSucceeded)
            &&& spec_accepts(s2, EncodeEvent::Submitted)
            &&& spec_accepts(s3, EncodeEvent::NoMorePackets)
            &&& a1 == (EncodeAction::Convert {
                src_format: pixel_of(format),
                dst_format: PixelFormat::Yuv420p,
                width,
                height,
                pts: s.frame_count,
            })
            &&& a2 is SubmitFrame
            &&& a3 is ReceivePacket
            &&& a4 is AwaitFrame
            &&& s4.frame_count == s.frame_count + 1
            &&& s4.phase == EncodePhase::AwaitingFrame
        }),
{
}

/// Packets pulled from the encoder never change the loop's state, however
/// many there are.
pub proof fn packets_leave_state_unchanged(s: EncoderState, has_data: bool)
    requires
        spec_accepts(s, EncodeEvent::PacketReceived { has_data }),
    ensures
        spec_step(s, EncodeEvent::PacketReceived { has_data }).0 == s,
{
}

/// A frame whose conversion fails is dropped: the loop returns to the state
/// it was in before the frame arrived.
pub proof fn failed_conversion_drops_frame(s: EncoderState, format: u32, width: u32, height: u32)
    requires
        s.phase == EncodePhase::AwaitingFrame,
        supported_format(format),
    ensures
        ({
            let (s1, _a1) = spec_step(s, EncodeEvent::FrameReceived { format, width, height });
            let (s2, a2) = spec_step(s1, EncodeEvent::ScaleFailed);
            &&& spec_accepts(s1, EncodeEvent::ScaleFailed)
            &&& a2 is SkipFrame
            &&& s2 == s
        }),
{
}

/// Once finished or failed, the loop accepts no further report.
pub proof fn stopped_loop_accepts_nothing(s: EncoderState, e: EncodeEvent)
    requires
        s.phase == EncodePhase::Finished || s.phase == EncodePhase::Failed,
    ensures
        !spec_accepts(s, e),
{
}

/// However many frames were encoded, closing the frame channel sends the
/// end-of-stream marker and keeps the count; once the encoder accepts it,
/// the remaining packets are pulled and dropped, and the loop then finishes.
pub proof fn closing_the_channel_always_flushes(s: EncoderState, has_data: bool)
    requires
        s.phase == EncodePhase::AwaitingFrame,
    ensures
        ({
            let (s1, a1) = spec_step(s, EncodeEvent::ChannelClosed);
            let (s2, a2) = spec_step(s1, EncodeEvent::Submitted);
            let (s3, a3) = spec_step(s2, EncodeEvent::PacketReceived { has_data });
            let (s4, a4) = spec_step(s3, EncodeEvent::NoMorePackets);
            &&& spec_accepts(s, EncodeEvent::ChannelClosed)
            &&& a1 is SubmitEof
            &&& s1.phase == EncodePhase::Flushing
            &&& s1.frame_count == s.frame_count
            &&& spec_accepts(s1, EncodeEvent::Submitted)
            &&& a2 is ReceivePacket
            &&& spec_accepts(s2, EncodeEvent::PacketReceived { has_data })
            &&& a3 is DiscardPacket
            &&& spec_accepts(s3, EncodeEvent::NoMorePackets)
            &&& a4 is Finish
            &&& s4.phase == EncodePhase::Finished
            &&& s4.frame_count == s.frame_count
        }),
{
}

} // verus!
