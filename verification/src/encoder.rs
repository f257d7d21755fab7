//! Encode pipeline state machine: one raw frame in, zero or more ordered
//! compressed packets out. The native codec and color converter are external
//! capabilities driven from outside; everything the pipeline decides — codec
//! selection, the fixed low-latency configuration, the lazy converter
//! binding, timestamp stamping, intra-frame forcing, classification of the
//! codec's drain status codes, and packet assembly — stands here, verified.

#![allow(non_snake_case)]

use vstd::prelude::*;

use crate::ipc::{EncoderError, FrameData, PacketData, PixelFormat};

verus! {

/// The "output not available right now" errno the codec reports while
/// draining; distinguished from end of stream.
pub const EAGAIN: i32 = 11;

/// The codec's dedicated end-of-stream status code.
pub const AVERROR_EOF: i32 = -541478725;

/// Packet flag bit marking a key/IDR access unit.
pub const AV_PKT_FLAG_KEY: i32 = 1;

/// Status-code conventions of the native codec interface: its return values
/// carry errno values negated.
#[allow(non_camel_case_types)]
pub struct ffi;

impl ffi {
    /// The codec interface reports an errno value `e` as the status code `-e`.
    pub fn AVERROR(e: i32) -> (r: i32)
        requires
            e > i32::MIN,
        ensures
            r == -e,
    {
        -e
    }
}

/// The compressed formats the encoder can be opened for.
#[derive(Clone, Copy, Debug, PartialEq, Eq, Structural)]
pub enum CodecKind {
    H264,
    Hevc,
}

/// Meaning of the codec selector string: "hevc" and "h265" select the HEVC
/// encoder; anything else, including the default "h264", selects H.264.
pub open spec fn codec_kind_of(name: Seq<char>) -> CodecKind {
    if name == "hevc"@ || name == "h265"@ {
        CodecKind::Hevc
    } else {
        CodecKind::H264
    }
}

impl CodecKind {
    /// Decides the codec from the process's codec selector argument.
    pub fn from_name(name: &str) -> (k: CodecKind)
        ensures
            k == codec_kind_of(name@),
    {
        let n = name.to_owned();
        if n == "hevc".to_owned() || n == "h265".to_owned() {
            CodecKind::Hevc
        } else {
            CodecKind::H264
        }
    }
}

/// The fixed policy the encoder is opened with, all chosen for the lowest
/// end-to-end latency: an all-intra group of pictures (`gop_size` 0), no
/// buffered reference frames (`max_b_frames` 0), a nanosecond time base,
/// and a default bitrate ceiling that `set_bitrate` adjusts later.
#[derive(Clone, Copy, Debug, PartialEq, Eq, Structural)]
pub struct EncoderConfig {
    pub codec: CodecKind,
    pub width: u32,
    pub height: u32,
    pub time_base_num: u32,
    pub time_base_den: u32,
    pub framerate: u32,
    pub gop_size: u32,
    pub max_b_frames: u32,
    pub bitrate_bps: u64,
}

/// The configuration a freshly opened encoder carries.
pub open spec fn default_config(codec: CodecKind, width: u32, height: u32) -> EncoderConfig {
    EncoderConfig {
        codec,
        width,
        height,
        time_base_num: 1,
        time_base_den: 1_000_000_000,
        framerate: 72,
        gop_size: 0,
        max_b_frames: 0,
        bitrate_bps: 30_000_000,
    }
}

/// Name/value option pair asking the native encoder for its fastest preset.
pub fn preset_option() -> (r: (&'static str, &'static str))
    ensures
        r.0@ == "preset"@,
        r.1@ == "ultrafast"@,
{
    ("preset", "ultrafast")
}

/// Name/value option pair asking the native encoder for zero-latency tuning.
pub fn tune_option() -> (r: (&'static str, &'static str))
    ensures
        r.0@ == "tune"@,
        r.1@ == "zerolatency"@,
{
    ("tune", "zerolatency")
}

/// Everything the conversion and submission step needs to know about one
/// frame: which source format the converter reads, the source geometry, the
/// presentation timestamp to stamp, and whether a fully-intra (key) frame is
/// forced rather than left to the encoder's choice.
#[derive(Clone, Copy, Debug, PartialEq, Eq, Structural)]
pub struct FrameSubmission {
    /// Source pixel format the bound converter reads.
    pub src_format: PixelFormat,
    /// Row stride of the source payload in bytes.
    pub row_pitch: u32,
    /// Number of source rows handed to the converter.
    pub rows: u32,
    /// Presentation timestamp: the frame's capture timestamp, nanoseconds.
    pub pts: u64,
    /// Force a key/IDR frame instead of letting the encoder decide.
    pub force_idr: bool,
}

/// The encode pipeline's own state: the configuration the codec was opened
/// with (with the current bitrate target) and the lazily bound source format
/// of the color converter — bound on the first frame, because only then is
/// the source format known, and reused for every frame after.
#[derive(Debug)]
pub struct VideoEncoder {
    pub config: EncoderConfig,
    pub bound_format: Option<PixelFormat>,
    /// Number of frames submitted so far.
    pub frame_count: u64,
}

/// The encoder with only its bitrate target replaced.
pub open spec fn with_bitrate(e: VideoEncoder, bitrate_bps: u64) -> VideoEncoder {
    VideoEncoder { config: EncoderConfig { bitrate_bps, ..e.config }, ..e }
}

/// The converter binding in force while `frame` is encoded: the format
/// already bound, or — on the first frame — the frame's own format.
pub open spec fn binding_for(e: VideoEncoder, frame: FrameData) -> PixelFormat {
    match e.bound_format {
        Some(p) => p,
        None => frame.pixel_format,
    }
}

/// The submission `begin_encode` builds for `frame` in state `e`.
pub open spec fn submission_spec(e: VideoEncoder, frame: FrameData) -> FrameSubmission {
    FrameSubmission {
        src_format: binding_for(e, frame),
        row_pitch: frame.row_pitch,
        rows: frame.height,
        pts: frame.timestamp_ns,
        force_idr: frame.insert_idr,
    }
}

/// What the drain loop does with one codec return code.
#[derive(Clone, Copy, Debug, PartialEq, Eq, Structural)]
pub enum DrainDecision {
    /// A packet is available: accept it and ask again.
    Accept,
    /// No more output right now (or end of stream, which this pipeline
    /// never signals): stop draining, the frame is done.
    Stop,
    /// The drain itself failed: abandon this frame's encoding.
    Fail,
}

/// Classification of a codec return code during draining.
pub open spec fn drain_decision_spec(ret: i32) -> DrainDecision {
    if ret == -(EAGAIN as int) || ret == AVERROR_EOF {
        DrainDecision::Stop
    } else if ret < 0 {
        DrainDecision::Fail
    } else {
        DrainDecision::Accept
    }
}

/// One compressed packet exactly as the codec's drain hands it out: payload
/// bytes, the presentation timestamp it reports, and its flag bits.
#[derive(Debug)]
pub struct RawPacket {
    pub data: Vec<u8>,
    pub pts: i64,
    pub flags: i32,
}

/// `p` is the in-process packet built from the codec output `raw`: the
/// payload carried whole, the timestamp forwarded, and the key/IDR mark
/// taken from the key flag bit.
pub open spec fn packet_of_raw(p: PacketData, raw: RawPacket) -> bool {
    &&& p.data@ == raw.data@
    &&& p.timestamp_ns == raw.pts as u64
    &&& p.is_idr == ((raw.flags & AV_PKT_FLAG_KEY) != 0)
}

impl VideoEncoder {
    /// Opens the pipeline for the given geometry and codec selector. The
    /// color converter stays unbound until the first frame shows its format.
    pub fn new(width: u32, height: u32, codec_name: &str) -> (e: VideoEncoder)
        ensures
            e.config == default_config(codec_kind_of(codec_name@), width, height),
            e.bound_format is None,
            e.frame_count == 0,
    {
        VideoEncoder {
            config: EncoderConfig {
                codec: CodecKind::from_name(codec_name),
                width,
                height,
                time_base_num: 1,
                time_base_den: 1_000_000_000,
                framerate: 72,
                gop_size: 0,
                max_b_frames: 0,
                bitrate_bps: 30_000_000,
            },
            bound_format: None,
            frame_count: 0,
        }
    }

    /// Updates the target bitrate for subsequent frames. Any value is
    /// accepted, nothing else in the pipeline moves, and the change takes
    /// effect no later than the next `encode` call.
    pub fn set_bitrate(&mut self, bitrate_bps: u64)
        ensures
            *final(self) == with_bitrate(*old(self), bitrate_bps),
    {
        self.config.bitrate_bps = bitrate_bps;
    }

    /// First half of an encode call: binds the converter to the frame's
    /// pixel format if this is the first frame, counts the submission, and
    /// builds the conversion-and-submission order — the frame's timestamp as
    /// presentation timestamp and a forced key frame exactly when the frame
    /// requests one.
    pub fn begin_encode(&mut self, frame: &FrameData) -> (sub: FrameSubmission)
        requires
            old(self).frame_count < u64::MAX,
        ensures
            sub == submission_spec(*old(self), *frame),
            final(self).bound_format == Some(binding_for(*old(self), *frame)),
            final(self).config == old(self).config,
            final(self).frame_count == old(self).frame_count + 1,
    {
        let src_format = match self.bound_format {
            Some(p) => p,
            None => {
                self.bound_format = Some(frame.pixel_format);
                frame.pixel_format
            },
        };
        self.frame_count = self.frame_count + 1;
        FrameSubmission {
            src_format,
            row_pitch: frame.row_pitch,
            rows: frame.height,
            pts: frame.timestamp_ns,
            force_idr: frame.insert_idr,
        }
    }
}

/// Outcome of handing one converted, stamped frame to the encoder: a
/// negative status code fails this frame's encoding. The failure is
/// reported to the caller and the frame is not retried — a late frame is
/// worse than a gap in a real-time stream.
pub fn submit_outcome(ret: i32) -> (r: Result<(), EncoderError>)
    ensures
        ret < 0 ==> r == Err::<(), EncoderError>(EncoderError::CodecEncodeError),
        ret >= 0 ==> r == Ok::<(), EncoderError>(()),
{
    if ret < 0 {
        Err(EncoderError::CodecEncodeError)
    } else {
        Ok(())
    }
}

/// Classifies one codec return code while draining: a non-negative code is
/// an available packet; the codec's "no output available right now" errno
/// and its end-of-stream code stop the drain; any other negative code fails
/// the frame.
pub fn drain_decision(ret: i32) -> (d: DrainDecision)
    ensures
        d == drain_decision_spec(ret),
{
    if ret == ffi::AVERROR(EAGAIN) || ret == AVERROR_EOF {
        DrainDecision::Stop
    } else if ret < 0 {
        DrainDecision::Fail
    } else {
        DrainDecision::Accept
    }
}

/// Builds the in-process packet from one drained codec output.
pub fn accept_packet(raw: RawPacket) -> (p: PacketData)
    ensures
        packet_of_raw(p, raw),
{
    let RawPacket { data, pts, flags } = raw;
    PacketData { data, timestamp_ns: pts as u64, is_idr: (flags & AV_PKT_FLAG_KEY) != 0 }
}

/// Builds the in-process packets for a whole drained batch, in order.
pub fn collect_packets(raws: Vec<RawPacket>) -> (ps: Vec<PacketData>)
    ensures
        ps@.len() == raws@.len(),
        forall|i: int| 0 <= i < raws@.len() ==> packet_of_raw(#[trigger] ps@[i], raws@[i]),
{
    let mut ps: Vec<PacketData> = Vec::new();
    let mut rest = raws;
    let mut i: usize = 0;
    let n = rest.len();
    while i < n
        invariant
            n == raws@.len(),
            rest@ == raws@.skip(i as int),
            ps@.len() == i,
            i <= n,
            forall|j: int| 0 <= j < i ==> packet_of_raw(#[trigger] ps@[j], raws@[j]),
        decreases n - i,
    {
        let raw = rest.remove(0);
        assert(raw == raws@[i as int]);
        ps.push(accept_packet(raw));
        assert(rest@ =~= raws@.skip(i + 1 as int));
        i += 1;
    }
    ps
}

/// Law: a frame that yields exactly one packet yields it with the frame's
/// own capture timestamp. The submission is stamped with that timestamp,
/// and the codec reports each output with the timestamp of the frame it
/// encodes — for a single output, the submitted frame itself.
pub proof fn lemma_single_packet_timestamp(
    e: VideoEncoder,
    frame: FrameData,
    raws: Seq<RawPacket>,
    ps: Seq<PacketData>,
)
    requires
        raws.len() == 1,
        raws[0].pts == submission_spec(e, frame).pts as i64,
        ps.len() == raws.len(),
        forall|i: int| 0 <= i < raws.len() ==> packet_of_raw(#[trigger] ps[i], raws[i]),
    ensures
        ps[0].timestamp_ns == frame.timestamp_ns,
{
    let t = frame.timestamp_ns;
    assert(t as i64 as u64 == t) by (bit_vector);
}

/// Law: monotonically non-decreasing capture timestamps give monotonically
/// non-decreasing packet timestamps across successive encode calls, again
/// provided the codec reports each output with the timestamp of the frame
/// it encodes.
pub proof fn lemma_timestamps_monotonic(
    e1: VideoEncoder,
    e2: VideoEncoder,
    f1: FrameData,
    f2: FrameData,
    raw1: RawPacket,
    raw2: RawPacket,
    p1: PacketData,
    p2: PacketData,
)
    requires
        f1.timestamp_ns <= f2.timestamp_ns,
        raw1.pts == submission_spec(e1, f1).pts as i64,
        raw2.pts == submission_spec(e2, f2).pts as i64,
        packet_of_raw(p1, raw1),
        packet_of_raw(p2, raw2),
    ensures
        p1.timestamp_ns <= p2.timestamp_ns,
{
    let t1 = f1.timestamp_ns;
    let t2 = f2.timestamp_ns;
    assert(t1 as i64 as u64 == t1) by (bit_vector);
    assert(t2 as i64 as u64 == t2) by (bit_vector);
}

/// Law: a frame that requests a key frame yields at least one packet marked
/// as a key/IDR access unit, provided the codec sets the key flag bit on
/// some output of a submission that forces an intra frame (it does: the
/// forced frame is encoded fully intra and flagged key).
pub proof fn lemma_insert_idr_yields_key_packet(
    e: VideoEncoder,
    frame: FrameData,
    raws: Seq<RawPacket>,
    ps: Seq<PacketData>,
)
    requires
        frame.insert_idr,
        submission_spec(e, frame).force_idr ==> exists|i: int|
            0 <= i < raws.len() && #[trigger] raws[i].flags & AV_PKT_FLAG_KEY != 0,
        ps.len() == raws.len(),
        forall|i: int| 0 <= i < raws.len() ==> packet_of_raw(#[trigger] ps[i], raws[i]),
    ensures
        exists|i: int| 0 <= i < ps.len() && #[trigger] ps[i].is_idr,
{
    let i = choose|i: int| 0 <= i < raws.len() && #[trigger] raws[i].flags & AV_PKT_FLAG_KEY != 0;
    assert(ps[i].is_idr);
}

/// Law: a bitrate change never disturbs the encode path. The submission
/// built for any frame, and the converter binding it uses, are the same
/// with and without an intervening `set_bitrate`, so encoding goes on
/// producing packets of the same structure as before the change.
pub proof fn lemma_set_bitrate_preserves_encoding(e: VideoEncoder, bitrate_bps: u64, frame: FrameData)
    ensures
        submission_spec(with_bitrate(e, bitrate_bps), frame) == submission_spec(e, frame),
        binding_for(with_bitrate(e, bitrate_bps), frame) == binding_for(e, frame),
        with_bitrate(e, bitrate_bps).config.bitrate_bps == bitrate_bps,
        with_bitrate(e, bitrate_bps).bound_format == e.bound_format,
{
}

} // verus!
