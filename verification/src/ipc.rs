//! Shared-memory transport: the value model of the shared region (the
//! cross-process ABI), the single-slot channel with its three signals, and
//! the bounds-checked conversion between headers and in-process samples.
//!
//! The region holds exactly one frame header, one packet header, one frame
//! payload buffer and one packet payload buffer; turn-taking between the two
//! processes rests entirely on the auto-reset semantics of the frame-ready
//! and packet-ready signals, modelled here as consume-on-receive booleans.

use vstd::prelude::*;

verus! {

/// Capacity of the frame payload buffer: one 4K frame in the widest
/// supported (packed, four bytes per sample) pixel format.
pub const FRAME_BUFFER_SIZE: usize = 4096 * 2160 * 4;

/// Capacity of the packet payload buffer, sized generously above the
/// typical compressed-frame size.
pub const PACKET_BUFFER_SIZE: usize = 4 * 1024 * 1024;

/// Everything that can go wrong in the transport or the pipeline. Startup
/// failures are fatal; the steady-state failures are isolated to the
/// offending frame or packet and the main loop continues.
#[derive(Clone, Copy, Debug, PartialEq, Eq, Structural)]
pub enum EncoderError {
    /// The shared region or a signal could not be allocated or opened.
    TransportInitError,
    /// The native encoder rejected the requested codec or configuration.
    CodecInitError,
    /// A received header is self-inconsistent (its declared payload size
    /// exceeds the frame buffer capacity).
    ProtocolViolation,
    /// A packet exceeds the packet buffer capacity; it is dropped whole.
    TransportWriteError,
    /// Submitting a frame to the encoder or draining its output failed.
    CodecEncodeError,
    /// The blocking wait on a signal failed at the OS level.
    WaitFailure,
}

/// Source pixel format of a raw frame, as tagged in the frame header.
#[derive(Clone, Copy, Debug, PartialEq, Eq, Structural)]
pub enum PixelFormat {
    /// Packed RGBA, four bytes per sample.
    Rgba,
    /// Semi-planar NV12.
    Nv12,
    /// Semi-planar P010.
    P010,
}

/// Meaning of the `pixel_format` header tag. An unrecognized tag falls back
/// to the packed format; the producer is expected to write only 0, 1 or 2.
pub open spec fn pixel_format_of(v: u8) -> PixelFormat {
    if v == 1 {
        PixelFormat::Nv12
    } else if v == 2 {
        PixelFormat::P010
    } else {
        PixelFormat::Rgba
    }
}

impl From<u8> for PixelFormat {
    fn from(v: u8) -> (r: Self) {
        if v == 1 {
            PixelFormat::Nv12
        } else if v == 2 {
            PixelFormat::P010
        } else {
            PixelFormat::Rgba
        }
    }
}

impl vstd::std_specs::convert::FromSpecImpl<u8> for PixelFormat {
    open spec fn obeys_from_spec() -> bool {
        true
    }

    open spec fn from_spec(v: u8) -> Self {
        pixel_format_of(v)
    }
}

/// Fixed-size record the producer writes before signaling frame-ready.
/// Field for field, this is the frame half of the cross-process ABI.
#[derive(Clone, Copy, Debug, PartialEq, Eq, Structural)]
pub struct FrameHeader {
    pub width: u32,
    pub height: u32,
    /// Capture timestamp in nanoseconds, monotonic.
    pub timestamp_ns: u64,
    /// Nonzero requests a key/IDR frame.
    pub insert_idr: u8,
    /// Pixel format tag; see [`pixel_format_of`].
    pub pixel_format: u8,
    /// Row stride of the payload in bytes.
    pub row_pitch: u32,
    /// Number of valid payload bytes in the frame buffer.
    pub data_size: u32,
    /// Nonzero asks the consumer to terminate cleanly.
    pub shutdown: u8,
}

impl FrameHeader {
    pub open spec fn is_zeroed(&self) -> bool {
        *self == (FrameHeader {
            width: 0,
            height: 0,
            timestamp_ns: 0,
            insert_idr: 0,
            pixel_format: 0,
            row_pitch: 0,
            data_size: 0,
            shutdown: 0,
        })
    }

    #[allow(clippy::too_many_arguments)]
    pub fn new(
        width: u32,
        height: u32,
        timestamp_ns: u64,
        insert_idr: u8,
        pixel_format: u8,
        row_pitch: u32,
        data_size: u32,
        shutdown: u8,
    ) -> (r: Self)
        ensures
            r == (FrameHeader {
                width,
                height,
                timestamp_ns,
                insert_idr,
                pixel_format,
                row_pitch,
                data_size,
                shutdown,
            }),
    {
        FrameHeader { width, height, timestamp_ns, insert_idr, pixel_format, row_pitch, data_size, shutdown }
    }
}

impl Default for FrameHeader {
    fn default() -> (r: Self)
        ensures
            r.is_zeroed(),
    {
        FrameHeader {
            width: 0,
            height: 0,
            timestamp_ns: 0,
            insert_idr: 0,
            pixel_format: 0,
            row_pitch: 0,
            data_size: 0,
            shutdown: 0,
        }
    }
}

/// Fixed-size record the consumer writes before signaling packet-ready:
/// the packet half of the cross-process ABI.
#[derive(Clone, Copy, Debug, PartialEq, Eq, Structural)]
pub struct PacketHeader {
    /// Number of valid payload bytes in the packet buffer.
    pub size: u32,
    /// Timestamp carried through unchanged from the source frame.
    pub timestamp_ns: u64,
    /// Nonzero marks a key/IDR access unit.
    pub is_idr: u8,
}

impl PacketHeader {
    pub open spec fn is_zeroed(&self) -> bool {
        *self == (PacketHeader { size: 0, timestamp_ns: 0, is_idr: 0 })
    }
}

impl Default for PacketHeader {
    fn default() -> (r: Self)
        ensures
            r.is_zeroed(),
    {
        PacketHeader { size: 0, timestamp_ns: 0, is_idr: 0 }
    }
}

/// In-process frame sample: the frame header's fields decoded to plain
/// values plus an owned copy of the payload, so the shared region can be
/// reused for the next handoff immediately.
#[derive(Debug)]
pub struct FrameData {
    pub width: u32,
    pub height: u32,
    pub timestamp_ns: u64,
    pub insert_idr: bool,
    pub pixel_format: PixelFormat,
    pub row_pitch: u32,
    pub data: Vec<u8>,
    pub shutdown: bool,
}

/// One compressed access unit with its timestamp and key-frame flag.
#[derive(Debug)]
pub struct PacketData {
    pub data: Vec<u8>,
    pub timestamp_ns: u64,
    pub is_idr: bool,
}

/// `f` is exactly the sample that decoding header `h` over a frame buffer
/// holding `payload` must yield.
pub open spec fn frame_matches_header(f: FrameData, h: FrameHeader, payload: Seq<u8>) -> bool {
    &&& f.width == h.width
    &&& f.height == h.height
    &&& f.timestamp_ns == h.timestamp_ns
    &&& f.insert_idr == (h.insert_idr != 0)
    &&& f.pixel_format == pixel_format_of(h.pixel_format)
    &&& f.row_pitch == h.row_pitch
    &&& f.data@ == payload
    &&& f.shutdown == (h.shutdown != 0)
}

/// `h` is exactly the header that publishing packet `p` must write.
pub open spec fn packet_matches_header(p: PacketData, h: PacketHeader) -> bool {
    &&& h.size == p.data@.len()
    &&& h.timestamp_ns == p.timestamp_ns
    &&& h.is_idr == (if p.is_idr { 1u8 } else { 0u8 })
}

/// Validated payload length of a frame header: the number of bytes to copy
/// out of the frame buffer. A header claiming more than the buffer capacity
/// is a protocol violation, never an out-of-bounds read.
pub fn frame_payload_len(header: &FrameHeader) -> (r: Result<usize, EncoderError>)
    ensures
        header.data_size <= FRAME_BUFFER_SIZE as u32 ==> r == Ok::<usize, EncoderError>(
            header.data_size as usize,
        ),
        header.data_size > FRAME_BUFFER_SIZE as u32 ==> r == Err::<usize, EncoderError>(
            EncoderError::ProtocolViolation,
        ),
{
    if header.data_size as usize <= FRAME_BUFFER_SIZE {
        Ok(header.data_size as usize)
    } else {
        Err(EncoderError::ProtocolViolation)
    }
}

/// Decodes a frame header plus its (already validated and copied) payload
/// into an owned frame sample.
pub fn frame_data_from(header: &FrameHeader, data: Vec<u8>) -> (f: FrameData)
    requires
        data@.len() == header.data_size,
    ensures
        frame_matches_header(f, *header, data@),
{
    FrameData {
        width: header.width,
        height: header.height,
        timestamp_ns: header.timestamp_ns,
        insert_idr: header.insert_idr != 0,
        pixel_format: PixelFormat::from(header.pixel_format),
        row_pitch: header.row_pitch,
        data,
        shutdown: header.shutdown != 0,
    }
}

/// Builds the packet header for a packet, or refuses a packet that exceeds
/// the packet buffer capacity. Refusal drops the packet whole: truncating
/// would corrupt the bitstream.
pub fn packet_header_for(packet: &PacketData) -> (r: Result<PacketHeader, EncoderError>)
    ensures
        packet.data@.len() <= PACKET_BUFFER_SIZE ==> (r matches Ok(h)
            && packet_matches_header(*packet, h)),
        packet.data@.len() > PACKET_BUFFER_SIZE ==> r == Err::<PacketHeader, EncoderError>(
            EncoderError::TransportWriteError,
        ),
{
    if packet.data.len() <= PACKET_BUFFER_SIZE {
        Ok(PacketHeader {
            size: packet.data.len() as u32,
            timestamp_ns: packet.timestamp_ns,
            is_idr: if packet.is_idr { 1 } else { 0 },
        })
    } else {
        Err(EncoderError::TransportWriteError)
    }
}

/// Value model of the shared region: one frame header, one packet header,
/// and the two payload buffers, laid out in this order in the mapping. The
/// buffers always keep their full capacity; a publish overwrites a prefix.
pub struct SharedMemoryLayout {
    pub frame_header: FrameHeader,
    pub packet_header: PacketHeader,
    pub frame_buffer: Vec<u8>,
    pub packet_buffer: Vec<u8>,
}

impl SharedMemoryLayout {
    /// The buffers hold exactly their fixed capacity.
    pub open spec fn wf(&self) -> bool {
        &&& self.frame_buffer@.len() == FRAME_BUFFER_SIZE
        &&& self.packet_buffer@.len() == PACKET_BUFFER_SIZE
    }

    /// A freshly mapped region: zeroed headers, zeroed buffers.
    pub fn new() -> (r: Self)
        ensures
            r.wf(),
            r.frame_header.is_zeroed(),
            r.packet_header.is_zeroed(),
            forall|i: int| 0 <= i < FRAME_BUFFER_SIZE ==> r.frame_buffer@[i] == 0u8,
            forall|i: int| 0 <= i < PACKET_BUFFER_SIZE ==> r.packet_buffer@[i] == 0u8,
    {
        SharedMemoryLayout {
            frame_header: FrameHeader::default(),
            packet_header: PacketHeader::default(),
            frame_buffer: vec![0u8; FRAME_BUFFER_SIZE],
            packet_buffer: vec![0u8; PACKET_BUFFER_SIZE],
        }
    }
}

/// Overwrites the first `src.len()` bytes of `dst` and leaves the rest of
/// the buffer untouched.
fn copy_into_prefix(dst: &mut Vec<u8>, src: &Vec<u8>)
    requires
        src@.len() <= old(dst)@.len(),
    ensures
        final(dst)@.len() == old(dst)@.len(),
        final(dst)@ == src@ + old(dst)@.skip(src@.len() as int),
{
    let n = src.len();
    let mut i: usize = 0;
    while i < n
        invariant
            n == src@.len() <= dst@.len(),
            dst@.len() == old(dst)@.len(),
            i <= n,
            forall|j: int| 0 <= j < i ==> dst@[j] == src@[j],
            forall|j: int| i <= j < dst@.len() ==> dst@[j] == old(dst)@[j],
        decreases n - i,
    {
        dst[i] = src[i];
        i += 1;
    }
    assert(dst@ =~= src@ + old(dst)@.skip(src@.len() as int));
}

/// Copies the first `n` bytes of `src` into a fresh owned buffer.
fn copy_prefix(src: &Vec<u8>, n: usize) -> (r: Vec<u8>)
    requires
        n <= src@.len(),
    ensures
        r@ == src@.take(n as int),
{
    let mut r: Vec<u8> = Vec::new();
    let mut i: usize = 0;
    while i < n
        invariant
            n <= src@.len(),
            i <= n,
            r@ == src@.take(i as int),
        decreases n - i,
    {
        r.push(src[i]);
        assert(r@ =~= src@.take(i + 1 as int));
        i += 1;
    }
    r
}

/// The UTF-16 code units of one character: a single unit for a basic-plane
/// character, a surrogate pair for a supplementary one.
pub open spec fn utf16_units_of_char(c: char) -> Seq<u16> {
    if (c as u32) < 0x10000 {
        seq![(c as u32) as u16]
    } else {
        let v = ((c as u32) - 0x10000) as u32;
        seq![(0xD800 + (v >> 10)) as u16, (0xDC00 + (v & 0x3FF)) as u16]
    }
}

/// The UTF-16 code units of a string's characters, in order.
pub open spec fn utf16_units(s: Seq<char>) -> Seq<u16> {
    s.map_values(|c: char| utf16_units_of_char(c)).flatten()
}

/// Relies on str::encode_utf16: yields the UTF-16 code units of the
/// string's characters in order — one unit for a basic-plane character, a
/// surrogate pair for a supplementary one.
#[verifier::external_body]
fn encode_utf16_units(s: &str) -> (r: Vec<u16>)
    ensures
        r@ == utf16_units(s@),
{
    s.encode_utf16().collect()
}

/// Encodes a name for the OS's named-object calls: the name's UTF-16 code
/// units with a terminating zero unit.
pub fn to_wide_string(s: &str) -> (r: Vec<u16>)
    ensures
        r@ == utf16_units(s@).push(0u16),
{
    let mut r = encode_utf16_units(s);
    r.push(0);
    r
}

/// The single-slot channel: the shared region plus its three named signals.
/// `frame_ready` and `packet_ready` model auto-reset signals (consumed by
/// the one waiter they wake); `encoder_ready` models the manual-reset latch
/// set exactly once after the codec is initialized.
pub struct SharedChannel {
    pub layout: SharedMemoryLayout,
    pub frame_ready: bool,
    pub packet_ready: bool,
    pub encoder_ready: bool,
}

/// Effect of `publish_frame`: the frame half of the region is overwritten
/// (header whole, buffer prefix), the packet half and the other signals are
/// untouched, and the frame-ready signal is set.
pub open spec fn publish_frame_rel(
    pre: SharedChannel,
    post: SharedChannel,
    header: FrameHeader,
    payload: Seq<u8>,
) -> bool {
    &&& post.layout.frame_header == header
    &&& post.layout.frame_buffer@ == payload + pre.layout.frame_buffer@.skip(payload.len() as int)
    &&& post.layout.packet_header == pre.layout.packet_header
    &&& post.layout.packet_buffer@ == pre.layout.packet_buffer@
    &&& post.frame_ready
    &&& post.packet_ready == pre.packet_ready
    &&& post.encoder_ready == pre.encoder_ready
}

/// Effect of one receive attempt. Without a pending frame-ready signal the
/// call yields nothing and changes nothing — the blocking wait. With one,
/// the signal is consumed (auto-reset), the region is only read, and the
/// result is the decoded sample, or a protocol violation for a header whose
/// declared size exceeds the frame buffer capacity.
pub open spec fn receive_rel(
    pre: SharedChannel,
    post: SharedChannel,
    r: Option<Result<FrameData, EncoderError>>,
) -> bool {
    &&& (!pre.frame_ready ==> r is None && post == pre)
    &&& (pre.frame_ready ==> {
        &&& !post.frame_ready
        &&& post.layout == pre.layout
        &&& post.packet_ready == pre.packet_ready
        &&& post.encoder_ready == pre.encoder_ready
        &&& (pre.layout.frame_header.data_size > FRAME_BUFFER_SIZE as u32 ==> r == Some(
            Err::<FrameData, EncoderError>(EncoderError::ProtocolViolation),
        ))
        &&& (pre.layout.frame_header.data_size <= FRAME_BUFFER_SIZE as u32 ==> (r matches Some(
            res,
        ) && res matches Ok(f) && frame_matches_header(
            f,
            pre.layout.frame_header,
            pre.layout.frame_buffer@.take(pre.layout.frame_header.data_size as int),
        )))
    })
}

/// Effect of `publish_packet`: an oversized packet is refused whole and the
/// channel is left exactly as it was (all-or-nothing); otherwise the packet
/// half of the region is overwritten, the frame half and the other signals
/// are untouched, and the packet-ready signal is set.
pub open spec fn publish_packet_rel(
    pre: SharedChannel,
    post: SharedChannel,
    p: PacketData,
    r: Result<(), EncoderError>,
) -> bool {
    if p.data@.len() > PACKET_BUFFER_SIZE {
        &&& r == Err::<(), EncoderError>(EncoderError::TransportWriteError)
        &&& post == pre
    } else {
        &&& r == Ok::<(), EncoderError>(())
        &&& packet_matches_header(p, post.layout.packet_header)
        &&& post.layout.packet_buffer@ == p.data@ + pre.layout.packet_buffer@.skip(
            p.data@.len() as int,
        )
        &&& post.layout.frame_header == pre.layout.frame_header
        &&& post.layout.frame_buffer@ == pre.layout.frame_buffer@
        &&& post.packet_ready
        &&& post.frame_ready == pre.frame_ready
        &&& post.encoder_ready == pre.encoder_ready
    }
}

impl SharedChannel {
    pub open spec fn wf(&self) -> bool {
        self.layout.wf()
    }

    /// A freshly created channel: zeroed region, no signal pending, the
    /// encoder-ready latch not yet set.
    pub fn new() -> (c: Self)
        ensures
            c.wf(),
            !c.frame_ready,
            !c.packet_ready,
            !c.encoder_ready,
            c.layout.frame_header.is_zeroed(),
            c.layout.packet_header.is_zeroed(),
    {
        SharedChannel {
            layout: SharedMemoryLayout::new(),
            frame_ready: false,
            packet_ready: false,
            encoder_ready: false,
        }
    }

    /// Sets the manual-reset encoder-ready latch. Once set it stays set, so
    /// calling this again changes nothing: the operation is idempotent.
    pub fn signal_ready(&mut self)
        ensures
            final(self).encoder_ready,
            final(self).layout == old(self).layout,
            final(self).frame_ready == old(self).frame_ready,
            final(self).packet_ready == old(self).packet_ready,
    {
        self.encoder_ready = true;
    }

    /// Producer side of the frame handoff: writes the header and exactly
    /// `header.data_size` payload bytes, then sets the frame-ready signal.
    pub fn publish_frame(&mut self, header: FrameHeader, payload: &Vec<u8>)
        requires
            old(self).wf(),
            payload@.len() == header.data_size,
            header.data_size <= FRAME_BUFFER_SIZE as u32,
        ensures
            final(self).wf(),
            publish_frame_rel(*old(self), *final(self), header, payload@),
    {
        self.layout.frame_header = header;
        copy_into_prefix(&mut self.layout.frame_buffer, payload);
        self.frame_ready = true;
    }

    /// Consumer side of the frame handoff. A pending frame-ready signal is
    /// consumed and the frame decoded out of the region into an owned
    /// sample; with no signal pending the attempt yields nothing — the real
    /// channel blocks here. A header claiming more payload than the buffer
    /// holds is reported as a protocol violation and nothing is read out of
    /// bounds.
    pub fn try_receive_frame(&mut self) -> (r: Option<Result<FrameData, EncoderError>>)
        requires
            old(self).wf(),
        ensures
            final(self).wf(),
            receive_rel(*old(self), *final(self), r),
    {
        if !self.frame_ready {
            return None;
        }
        self.frame_ready = false;
        let header = self.layout.frame_header;
        match frame_payload_len(&header) {
            Err(e) => Some(Err(e)),
            Ok(n) => {
                let data = copy_prefix(&self.layout.frame_buffer, n);
                Some(Ok(frame_data_from(&header, data)))
            },
        }
    }

    /// Consumer side of the packet handoff: writes the packet header and
    /// payload, then sets the packet-ready signal. A packet exceeding the
    /// buffer capacity is refused whole — nothing is copied partially.
    pub fn publish_packet(&mut self, packet: &PacketData) -> (r: Result<(), EncoderError>)
        requires
            old(self).wf(),
        ensures
            final(self).wf(),
            publish_packet_rel(*old(self), *final(self), *packet, r),
    {
        match packet_header_for(packet) {
            Err(e) => Err(e),
            Ok(h) => {
                self.layout.packet_header = h;
                copy_into_prefix(&mut self.layout.packet_buffer, &packet.data);
                self.packet_ready = true;
                Ok(())
            },
        }
    }
}

/// Law: a frame published with a valid header (its declared size equal to
/// the payload length and within the frame buffer capacity) is received
/// back intact — the sample matches the header field for field and the
/// payload byte for byte.
pub proof fn lemma_publish_receive_round_trip(
    pre: SharedChannel,
    mid: SharedChannel,
    post: SharedChannel,
    header: FrameHeader,
    payload: Seq<u8>,
    r: Option<Result<FrameData, EncoderError>>,
)
    requires
        pre.wf(),
        payload.len() == header.data_size,
        header.data_size <= FRAME_BUFFER_SIZE as u32,
        publish_frame_rel(pre, mid, header, payload),
        receive_rel(mid, post, r),
    ensures
        r matches Some(res) && res matches Ok(f) && frame_matches_header(f, header, payload),
{
    assert(mid.layout.frame_buffer@.take(header.data_size as int) =~= payload);
}

/// Law: the frame-ready signal is auto-reset — one receive attempt consumes
/// it, so a second attempt with no publish in between finds no signal,
/// yields nothing (the real channel blocks indefinitely) and leaves the
/// channel unchanged. There is no missed-wakeup race in the model: exactly
/// one receive pairs with each publish.
pub proof fn lemma_second_receive_blocks(
    pre: SharedChannel,
    mid: SharedChannel,
    post: SharedChannel,
    r1: Option<Result<FrameData, EncoderError>>,
    r2: Option<Result<FrameData, EncoderError>>,
)
    requires
        pre.frame_ready,
        receive_rel(pre, mid, r1),
        receive_rel(mid, post, r2),
    ensures
        r2 is None,
        post == mid,
{
}

} // verus!
