//! Advanced Orbiting Systems Space Datalink Protocol (AOS-SDLP)
//!
//! Defined by CCSDS 732.0-B-4.
//!
//! AOS Frames are fixed-length frames optimized for high-speed, mixed-media data
//! (e.g., audio, video, and packets interleaved). They are the standard for
//! Space Station (ISS) and modern constellation Inter-Satellite Links.
//!
//! # Layout
//!
//! ```text
//! +------------------------------------+----------+
//! | Field Name                         | Size     |
//! +------------------------------------+----------+
//! | -- Primary Header (6 bytes) ------ |          |
//! | Version Number (01)                | 2 bits   |
//! | Spacecraft ID                      | 8 bits   |
//! | Virtual Channel ID                 | 6 bits   |
//! | Virtual Channel Frame Count        | 24 bits  |
//! | Replay Flag                        | 1 bit    |
//! | Usage Flag (Spare)                 | 1 bit    |
//! | Spare                              | 6 bits   |
//! |                                    |          |
//! | -- Insert Zone (Optional) -------- | Variable |
//! | -- Data Field -------------------- | Variable |
//! | -- Trailer (Optional) ------------ |          |
//! | Frame Error Control (CRC)          | 2 bytes  |
//! +------------------------------------+----------+
//! ```
use vstd::prelude::*;

use crate::datalink::framing::{spec_push_outcome, FrameReader, FrameWriter, PushError};
use crate::utils::{be_bytes, be_value, copy_in, read_be, splice, write_be};

verus! {

/// Bitmask for the 2-bit version number field.
pub const VERSION_MASK: u16 = 0b_11000000_00000000;

/// Bitmask for the 8-bit Spacecraft ID field.
pub const SCID_MASK: u16 = 0b_00111111_11000000;

/// Bitmask for the 6-bit Virtual Channel ID field.
pub const VCID_MASK: u16 = 0b_00000000_00111111;

/// Bitmask for the 1-bit replay flag.
pub const REPLAY_FLAG_MASK: u8 = 0b_10000000;

/// Bitmask for the 1-bit usage/spare flag.
pub const USAGE_FLAG_MASK: u8 = 0b_01000000;

/// Bitmask for the 6-bit spare field.
pub const SPARE_MASK: u8 = 0b_00111111;

/// An error that can occur during AOS Transfer Frame construction.
#[derive(Debug, Copy, Clone, Eq, PartialEq, Structural)]
pub enum BuildError {
    /// The provided Spacecraft ID is outside the valid 8-bit range.
    InvalidScid(u16),
    /// The provided Virtual Channel ID is outside the valid 6-bit range.
    InvalidVcid(u8),
    /// The provided buffer is too small to hold the requested frame.
    BufferTooSmall {
        /// Minimum number of bytes needed for the frame.
        required: usize,
        /// Actual buffer size provided.
        provided: usize,
    },
}

/// An error that can occur during AOS Transfer Frame parsing.
#[derive(Debug, Copy, Clone, Eq, PartialEq, Structural)]
pub enum ParseError {
    /// The provided slice is shorter than the 6-byte primary header.
    TooShortForHeader,
    /// The header version field does not match the expected AOS version.
    InvalidVersion(u8),
}

/// The ranges of the header fields.
proof fn lemma_field_bounds()
    by (bit_vector)
    ensures
        forall|x: u16| #[trigger] (x >> 14u16) < 4,
        forall|x: u16| #[trigger] ((x & SCID_MASK) >> 6u16) < 256,
        forall|x: u16| #[trigger] (x & VCID_MASK) < 64,
{
}

/// The 6-byte Primary Header of an AOS Frame.
#[derive(Debug, Copy, Clone, Eq, PartialEq, Structural)]
pub struct AosPrimaryHeader {
    version_scid_vcid_field: u16,
    vc_frame_count: u32,
    replay_usage_spare_field: u8,
}

/// The header that the first 6 bytes of `b` hold.
pub closed spec fn spec_header_from(b: Seq<u8>) -> AosPrimaryHeader {
    AosPrimaryHeader {
        version_scid_vcid_field: be_value(b.subrange(0, 2)) as u16,
        vc_frame_count: be_value(b.subrange(2, 5)) as u32,
        replay_usage_spare_field: b[5],
    }
}

/// The first header word of a frame: version `01`, the SCID, and the low
/// 6 bits of the VCID.
pub open spec fn spec_word0(scid: u8, vcid: u8) -> u16 {
    0x4000u16 | (((scid as u16) << 6u16) as u16) | ((vcid as u16) & VCID_MASK)
}

/// The flags byte of a frame over `b5`: replay and usage flags, the
/// spare bits of `b5` kept.
pub open spec fn spec_flags(b5: u8, replay: bool, usage: bool) -> u8 {
    (b5 & SPARE_MASK) | (if replay {
        REPLAY_FLAG_MASK
    } else {
        0u8
    }) | (if usage {
        USAGE_FLAG_MASK
    } else {
        0u8
    })
}

/// Buffer `b` with a primary header stamped over its first 6 bytes.
pub open spec fn spec_stamped(
    b: Seq<u8>,
    scid: u8,
    vcid: u8,
    count: u32,
    replay: bool,
    usage: bool,
) -> Seq<u8> {
    be_bytes(spec_word0(scid, vcid) as nat, 2) + be_bytes((count % 0x100_0000) as nat, 3) + seq![
        spec_flags(b[5], replay, usage),
    ] + b.subrange(6, b.len() as int)
}

impl AosPrimaryHeader {
    /// The first header word.
    pub closed spec fn spec_w0(&self) -> u16 {
        self.version_scid_vcid_field
    }

    /// The 24-bit Virtual Channel Frame Count.
    pub closed spec fn spec_count(&self) -> u32 {
        self.vc_frame_count
    }

    /// The flags byte.
    pub closed spec fn spec_flags_byte(&self) -> u8 {
        self.replay_usage_spare_field
    }

    /// The 2-bit version.
    pub open spec fn spec_version(&self) -> u8 {
        (self.spec_w0() >> 14u16) as u8
    }

    /// Reads the header from the first 6 bytes of `b`.
    fn from_bytes(b: &[u8]) -> (h: Self)
        requires
            b@.len() >= 6,
        ensures
            h == spec_header_from(b@),
    {
        proof {
            crate::utils::lemma_pow256_values();
            crate::utils::lemma_be_value_bound(b@.subrange(0, 2));
            crate::utils::lemma_be_value_bound(b@.subrange(2, 5));
        }
        AosPrimaryHeader {
            version_scid_vcid_field: read_be(b, 0, 2) as u16,
            vc_frame_count: read_be(b, 2, 3) as u32,
            replay_usage_spare_field: b[5],
        }
    }

    /// Returns the 2-bit Transfer Frame Version Number.
    pub fn version(&self) -> (v: u8)
        ensures
            v == self.spec_version(),
    {
        proof {
            lemma_field_bounds();
        }
        (self.version_scid_vcid_field >> 14) as u8
    }

    /// Sets the 2-bit Transfer Frame Version Number (its low 2 bits).
    pub fn set_version(&mut self, version: u8)
        ensures
            final(self).spec_w0() == (old(self).spec_w0() & !VERSION_MASK) | ((((version as u16)
                << 14u16) as u16) & VERSION_MASK),
            final(self).spec_count() == old(self).spec_count(),
            final(self).spec_flags_byte() == old(self).spec_flags_byte(),
    {
        self.version_scid_vcid_field = (self.version_scid_vcid_field & !VERSION_MASK) | (((version
            as u16) << 14) & VERSION_MASK);
    }

    /// Returns the 8-bit Spacecraft ID.
    pub fn scid(&self) -> (s: u8)
        ensures
            s == (self.spec_w0() & SCID_MASK) >> 6u16,
    {
        proof {
            lemma_field_bounds();
        }
        ((self.version_scid_vcid_field & SCID_MASK) >> 6) as u8
    }

    /// Sets the 8-bit Spacecraft ID.
    pub fn set_scid(&mut self, scid: u8)
        ensures
            final(self).spec_w0() == (old(self).spec_w0() & !SCID_MASK) | ((((scid as u16) << 6u16)
                as u16) & SCID_MASK),
            final(self).spec_count() == old(self).spec_count(),
            final(self).spec_flags_byte() == old(self).spec_flags_byte(),
    {
        self.version_scid_vcid_field = (self.version_scid_vcid_field & !SCID_MASK) | (((scid as u16)
            << 6) & SCID_MASK);
    }

    /// Returns the 6-bit Virtual Channel ID.
    pub fn vcid(&self) -> (v: u8)
        ensures
            v == self.spec_w0() & VCID_MASK,
    {
        proof {
            lemma_field_bounds();
        }
        (self.version_scid_vcid_field & VCID_MASK) as u8
    }

    /// Sets the 6-bit Virtual Channel ID (its low 6 bits).
    pub fn set_vcid(&mut self, vcid: u8)
        ensures
            final(self).spec_w0() == (old(self).spec_w0() & !VCID_MASK) | ((vcid as u16) & VCID_MASK),
            final(self).spec_count() == old(self).spec_count(),
            final(self).spec_flags_byte() == old(self).spec_flags_byte(),
    {
        self.version_scid_vcid_field = (self.version_scid_vcid_field & !VCID_MASK) | ((vcid as u16)
            & VCID_MASK);
    }

    /// Returns the 24-bit Virtual Channel Frame Count.
    pub fn vc_frame_count(&self) -> (c: u32)
        ensures
            c == self.spec_count(),
    {
        self.vc_frame_count
    }

    /// Sets the 24-bit Virtual Channel Frame Count (the low 24 bits of
    /// `count`).
    pub fn set_vc_frame_count(&mut self, count: u32)
        ensures
            final(self).spec_count() == count % 0x100_0000,
            final(self).spec_w0() == old(self).spec_w0(),
            final(self).spec_flags_byte() == old(self).spec_flags_byte(),
    {
        self.vc_frame_count = count % 0x100_0000;
    }

    /// Returns true if the replay flag is set.
    pub fn is_replay(&self) -> (b: bool)
        ensures
            b == (self.spec_flags_byte() & REPLAY_FLAG_MASK != 0),
    {
        self.replay_usage_spare_field & REPLAY_FLAG_MASK != 0
    }

    /// Sets the replay flag.
    pub fn set_replay(&mut self, replay: bool)
        ensures
            final(self).spec_flags_byte() == (old(self).spec_flags_byte() & !REPLAY_FLAG_MASK) | (
            if replay {
                REPLAY_FLAG_MASK
            } else {
                0u8
            }),
            final(self).spec_w0() == old(self).spec_w0(),
            final(self).spec_count() == old(self).spec_count(),
    {
        let bit: u8 = if replay {
            REPLAY_FLAG_MASK
        } else {
            0
        };
        self.replay_usage_spare_field = (self.replay_usage_spare_field & !REPLAY_FLAG_MASK) | bit;
    }

    /// Returns the usage/spare flag value.
    pub fn usage_flag(&self) -> (b: bool)
        ensures
            b == (self.spec_flags_byte() & USAGE_FLAG_MASK != 0),
    {
        self.replay_usage_spare_field & USAGE_FLAG_MASK != 0
    }

    /// Sets the usage/spare flag value.
    pub fn set_usage_flag(&mut self, usage: bool)
        ensures
            final(self).spec_flags_byte() == (old(self).spec_flags_byte() & !USAGE_FLAG_MASK) | (
            if usage {
                USAGE_FLAG_MASK
            } else {
                0u8
            }),
            final(self).spec_w0() == old(self).spec_w0(),
            final(self).spec_count() == old(self).spec_count(),
    {
        let bit: u8 = if usage {
            USAGE_FLAG_MASK
        } else {
            0
        };
        self.replay_usage_spare_field = (self.replay_usage_spare_field & !USAGE_FLAG_MASK) | bit;
    }
}

/// Stamps the primary header of a frame (version `01`) over the first 6
/// bytes of `buf`.
fn stamp_header(buf: &mut [u8], scid: u8, vcid: u8, count: u32, replay: bool, usage: bool)
    requires
        old(buf)@.len() >= 6,
    ensures
        final(buf)@ == spec_stamped(old(buf)@, scid, vcid, count, replay, usage),
{
    let mut h = AosPrimaryHeader::from_bytes(buf);
    let ghost w = h.version_scid_vcid_field;
    let ghost f = h.replay_usage_spare_field;
    h.set_version(AosTransferFrame::AOS_VERSION);
    h.set_scid(scid);
    h.set_vcid(vcid);
    h.set_vc_frame_count(count);
    h.set_replay(replay);
    h.set_usage_flag(usage);
    proof {
        let s = scid as u16;
        let v = vcid as u16;
        let x = h.version_scid_vcid_field;
        assert(x == 0x4000u16 | (((s << 6u16) as u16)) | (v & VCID_MASK)) by (bit_vector)
            requires
                x == (((((w & !VERSION_MASK) | ((((1u8 as u16) << 14u16) as u16) & VERSION_MASK))
                    & !SCID_MASK) | (((s << 6u16) as u16) & SCID_MASK)) & !VCID_MASK) | (v
                    & VCID_MASK),
                s < 256,
        ;
        let y = h.replay_usage_spare_field;
        let rb: u8 = if replay {
            REPLAY_FLAG_MASK
        } else {
            0u8
        };
        let ub: u8 = if usage {
            USAGE_FLAG_MASK
        } else {
            0u8
        };
        assert(y == (f & SPARE_MASK) | rb | ub) by (bit_vector)
            requires
                y == (((f & !REPLAY_FLAG_MASK) | rb) & !USAGE_FLAG_MASK) | ub,
                rb == 0 || rb == REPLAY_FLAG_MASK,
                ub == 0 || ub == USAGE_FLAG_MASK,
        ;
        crate::utils::lemma_be_bytes_len(x as nat, 2);
        crate::utils::lemma_be_bytes_len(h.vc_frame_count as nat, 3);
    }
    let ghost b0 = buf@;
    write_be(buf, 0, 2, h.version_scid_vcid_field as u64);
    write_be(buf, 2, 3, h.vc_frame_count as u64);
    buf[5] = h.replay_usage_spare_field;
    assert(buf@ =~= spec_stamped(b0, scid, vcid, count, replay, usage));
}

/// A parsed AOS Transfer Frame: its primary header and a view of its data
/// field.
#[derive(Debug)]
pub struct AosTransferFrame<'a> {
    header: AosPrimaryHeader,
    data_field: &'a [u8],
}

impl<'a> AosTransferFrame<'a> {
    /// The AOS Transfer Frame version number (01 binary).
    pub const AOS_VERSION: u8 = 0b01;

    /// The size of the AOS Transfer Frame primary header in bytes.
    pub const HEADER_SIZE: usize = 6;

    /// The parsed header.
    pub closed spec fn spec_header(&self) -> AosPrimaryHeader {
        self.header
    }

    /// The data field bytes.
    pub closed spec fn spec_data(&self) -> Seq<u8> {
        self.data_field@
    }

    /// Constructs a new AOS Transfer Frame at the start of `buffer`: the
    /// primary header, then `payload`. Returns the frame length, 6 +
    /// the payload length; bytes after the frame are left alone, and so
    /// are the spare bits of the header's last byte.
    pub fn new(
        buffer: &mut [u8],
        scid: u8,
        vcid: u8,
        vc_frame_count: u32,
        replay_flag: bool,
        usage_flag: bool,
        payload: &[u8],
    ) -> (r: Result<usize, BuildError>)
        requires
            6 + payload@.len() <= usize::MAX,
        ensures
            old(buffer)@.len() < 6 + payload@.len() ==> r == Err::<usize, BuildError>(
                BuildError::BufferTooSmall {
                    required: (6 + payload@.len()) as usize,
                    provided: old(buffer)@.len() as usize,
                },
            ),
            old(buffer)@.len() >= 6 + payload@.len() && vcid > 0x3F ==> r == Err::<usize, BuildError>(
                BuildError::InvalidVcid(vcid),
            ),
            r is Err ==> final(buffer)@ == old(buffer)@,
            old(buffer)@.len() >= 6 + payload@.len() && vcid <= 0x3F ==> r == Ok::<usize, BuildError>(
                (6 + payload@.len()) as usize,
            ) && final(buffer)@ == splice(
                spec_stamped(old(buffer)@, scid, vcid, vc_frame_count, replay_flag, usage_flag),
                6,
                payload@,
            ),
    {
        if buffer.len() < 6 || buffer.len() - 6 < payload.len() {
            return Err(
                BuildError::BufferTooSmall { required: 6 + payload.len(), provided: buffer.len() },
            );
        }
        if vcid > 0x3F {
            return Err(BuildError::InvalidVcid(vcid));
        }
        let total = 6 + payload.len();
        stamp_header(buffer, scid, vcid, vc_frame_count, replay_flag, usage_flag);
        proof {
            crate::utils::lemma_be_bytes_len(spec_word0(scid, vcid) as nat, 2);
            crate::utils::lemma_be_bytes_len((vc_frame_count % 0x100_0000) as nat, 3);
        }
        copy_in(buffer, 6, payload);
        Ok(total)
    }

    /// Parses a transfer frame without applying derandomization: the
    /// first 6 bytes are its header, which must carry version `01`, and
    /// the rest its data field.
    pub fn parse_raw(bytes: &'a [u8]) -> (r: Result<Self, ParseError>)
        ensures
            bytes@.len() < 6 ==> r == Err::<Self, ParseError>(ParseError::TooShortForHeader),
            bytes@.len() >= 6 && spec_header_from(bytes@).spec_version() != 1 ==> r == Err::<
                Self,
                ParseError,
            >(ParseError::InvalidVersion(spec_header_from(bytes@).spec_version())),
            bytes@.len() >= 6 && spec_header_from(bytes@).spec_version() == 1 ==> (r matches Ok(f)
                && f.spec_header() == spec_header_from(bytes@) && f.spec_data() == bytes@.subrange(
                6,
                bytes@.len() as int,
            )),
    {
        if bytes.len() < Self::HEADER_SIZE {
            return Err(ParseError::TooShortForHeader);
        }
        let header = AosPrimaryHeader::from_bytes(bytes);
        let version = header.version();
        if version != Self::AOS_VERSION {
            return Err(ParseError::InvalidVersion(version));
        }
        let data_field = vstd::slice::slice_subrange(bytes, 6, bytes.len());
        Ok(AosTransferFrame { header, data_field })
    }

    /// Returns a reference to the frame's primary header.
    pub fn header(&self) -> (h: &AosPrimaryHeader)
        ensures
            *h == self.spec_header(),
    {
        &self.header
    }

    /// Returns a reference to the frame's data field.
    pub fn data(&self) -> (d: &'a [u8])
        ensures
            d@ == self.spec_data(),
    {
        self.data_field
    }
}

/// A frame that `new` builds parses back as a version `01` frame whose
/// header reads back the SCID, the VCID, the frame count (its low 24 bits)
/// and the flags, and whose data field is the payload.
pub proof fn lemma_build_parse_roundtrip(
    b: Seq<u8>,
    scid: u8,
    vcid: u8,
    count: u32,
    replay: bool,
    usage: bool,
    payload: Seq<u8>,
)
    requires
        b.len() >= 6 + payload.len(),
        vcid <= 0x3F,
    ensures
        ({
            let out = splice(spec_stamped(b, scid, vcid, count, replay, usage), 6, payload).subrange(
                0,
                (6 + payload.len()) as int,
            );
            let h = spec_header_from(out);
            &&& h.spec_version() == 1
            &&& (h.spec_w0() & SCID_MASK) >> 6u16 == scid
            &&& h.spec_w0() & VCID_MASK == vcid
            &&& h.spec_count() == count % 0x100_0000
            &&& (h.spec_flags_byte() & REPLAY_FLAG_MASK != 0) == replay
            &&& (h.spec_flags_byte() & USAGE_FLAG_MASK != 0) == usage
            &&& out.subrange(6, out.len() as int) == payload
        }),
{
    let w = spec_word0(scid, vcid);
    let c = (count % 0x100_0000) as nat;
    let f = spec_flags(b[5], replay, usage);
    crate::utils::lemma_be_bytes_len(w as nat, 2);
    crate::utils::lemma_be_bytes_len(c, 3);
    crate::utils::lemma_pow256_values();
    crate::utils::lemma_be_roundtrip_fits(w as nat, 2);
    crate::utils::lemma_be_roundtrip_fits(c, 3);
    let st = spec_stamped(b, scid, vcid, count, replay, usage);
    let out = splice(st, 6, payload).subrange(0, (6 + payload.len()) as int);
    assert(out.subrange(0, 2) =~= be_bytes(w as nat, 2));
    assert(out.subrange(2, 5) =~= be_bytes(c, 3));
    assert(out[5] == f);
    assert(out.subrange(6, out.len() as int) =~= payload);
    let s = scid as u16;
    let v = vcid as u16;
    assert(w >> 14u16 == 1 && (w & SCID_MASK) >> 6u16 == s && w & VCID_MASK == v) by (bit_vector)
        requires
            w == 0x4000u16 | (((s << 6u16) as u16)) | (v & VCID_MASK),
            s < 256,
            v <= 0x3F,
    ;
    let rb: u8 = if replay {
        REPLAY_FLAG_MASK
    } else {
        0u8
    };
    let ub: u8 = if usage {
        USAGE_FLAG_MASK
    } else {
        0u8
    };
    let b5 = b[5];
    assert((f & REPLAY_FLAG_MASK != 0) == (rb != 0) && (f & USAGE_FLAG_MASK != 0) == (ub != 0))
        by (bit_vector)
        requires
            f == (b5 & SPARE_MASK) | rb | ub,
            rb == 0 || rb == REPLAY_FLAG_MASK,
            ub == 0 || ub == USAGE_FLAG_MASK,
    ;
}

/// Configuration for building AOS transfer frames.
#[derive(Debug, Clone, Copy)]
pub struct AosFrameWriterConfig {
    /// Spacecraft ID (8-bit).
    pub scid: u8,
    /// Virtual Channel ID (6-bit).
    pub vcid: u8,
    /// Maximum data field length in bytes.
    pub max_data_field_len: usize,
}

/// Accumulates packets into AOS transfer frames.
///
/// Owns its frame buffer internally (sized by `BUF`). Packets
/// are pushed directly into the buffer at the correct offset.
/// [`finish()`](FrameWriter::finish) stamps the header and
/// returns a borrow of the completed frame.
pub struct AosFrameWriter<const BUF: usize> {
    config: AosFrameWriterConfig,
    vc_frame_count: u32,
    data_len: usize,
    buf: Vec<u8>,
}

impl<const BUF: usize> AosFrameWriter<BUF> {
    /// The configuration.
    pub closed spec fn spec_config(&self) -> AosFrameWriterConfig {
        self.config
    }

    /// The Virtual Channel Frame Count of the next frame.
    pub closed spec fn spec_count(&self) -> u32 {
        self.vc_frame_count
    }

    /// The number of payload bytes pushed into the current frame.
    pub closed spec fn spec_data_len(&self) -> nat {
        self.data_len as nat
    }

    /// The frame buffer.
    pub closed spec fn spec_buf(&self) -> Seq<u8> {
        self.buf@
    }

    /// The buffer holds `BUF` bytes and the pushed payload is within the
    /// data field's capacity.
    pub open spec fn wf(&self) -> bool {
        &&& self.spec_buf().len() == BUF
        &&& self.spec_data_len() <= self.spec_config().max_data_field_len
    }

    /// Creates a new AOS frame writer.
    pub fn new(config: AosFrameWriterConfig) -> (w: Self)
        ensures
            w.wf(),
            w.spec_config() == config,
            w.spec_count() == 0,
            w.spec_data_len() == 0,
    {
        AosFrameWriter { config, vc_frame_count: 0, data_len: 0, buf: vec![0u8; BUF] }
    }

    /// Bytes of data field still free in the current frame.
    fn remaining(&self) -> (n: usize)
        requires
            self.wf(),
        ensures
            n == self.config.max_data_field_len - self.data_len,
    {
        self.config.max_data_field_len - self.data_len
    }
}

impl<const BUF: usize> FrameWriter for AosFrameWriter<BUF> {
    type Error = BuildError;

    /// Well formed, and the largest frame fits in the buffer.
    open spec fn ready(&self) -> bool {
        &&& self.wf()
        &&& 6 + self.spec_config().max_data_field_len <= BUF
    }

    /// No payload has been pushed into the current frame.
    open spec fn spec_is_empty(&self) -> bool {
        self.spec_data_len() == 0
    }

    open spec fn spec_push_result(&self, data: Seq<u8>) -> Result<(), PushError> {
        spec_push_outcome(data.len(), self.spec_config().max_data_field_len as nat, self.spec_data_len())
    }

    open spec fn spec_finish_ok(&self) -> bool {
        true
    }

    open spec fn spec_finished_len(&self) -> nat {
        6 + self.spec_data_len()
    }

    /// The pushed payload under a header stamped with the current frame
    /// count.
    open spec fn spec_finished_frame(&self) -> Seq<u8> {
        let c = self.spec_config();
        spec_stamped(self.spec_buf(), c.scid, c.vcid, self.spec_count(), false, false).subrange(
            0,
            (6 + self.spec_data_len()) as int,
        )
    }

    fn is_empty(&self) -> (b: bool)
        ensures
            b == (self.spec_data_len() == 0),
    {
        self.data_len == 0
    }

    fn finish_ok(&self) -> (b: bool) {
        true
    }

    fn finished_len(&self) -> (n: usize) {
        6 + self.data_len
    }

    /// Appends `data` to the data field: `TooLarge` beyond the data
    /// field's capacity, `Full` beyond what is left of it.
    fn push(&mut self, data: &[u8]) -> (r: Result<(), PushError>)
        ensures
            ({
                let c = old(self).spec_config();
                let used = old(self).spec_data_len();
                &&& data@.len() > c.max_data_field_len ==> r == Err::<(), PushError>(PushError::TooLarge)
                &&& data@.len() <= c.max_data_field_len && data@.len() > c.max_data_field_len - used
                    ==> r == Err::<(), PushError>(PushError::Full)
                &&& r is Err ==> final(self).spec_buf() == old(self).spec_buf() && final(self).spec_data_len() == used
                &&& r is Ok ==> final(self).spec_buf() == splice(old(self).spec_buf(), (6 + used) as int, data@)
                    && final(self).spec_data_len() == used + data@.len()
                &&& data@.len() <= c.max_data_field_len - used ==> r is Ok
                &&& final(self).spec_config() == c
                &&& final(self).spec_count() == old(self).spec_count()
            }),
    {
        if data.len() > self.config.max_data_field_len {
            return Err(PushError::TooLarge);
        }
        if data.len() > self.remaining() {
            return Err(PushError::Full);
        }
        let off = AosTransferFrame::HEADER_SIZE + self.data_len;
        copy_in(self.buf.as_mut_slice(), off, data);
        self.data_len = self.data_len + data.len();
        Ok(())
    }

    /// Stamps the primary header (the current frame count, which then
    /// moves on by one modulo 2^24; replay and usage flags clear) over the
    /// pushed payload and returns the frame: 6 + payload bytes.
    fn finish(&mut self) -> (r: Result<&[u8], BuildError>)
        ensures
            ({
                let c = old(self).spec_config();
                let n = old(self).spec_data_len();
                let count = old(self).spec_count();
                &&& final(self).spec_count() == (if count == u32::MAX {
                    0
                } else {
                    (count + 1) as u32
                }) % 0x100_0000
                &&& final(self).spec_config() == c
                &&& final(self).spec_buf() == spec_stamped(
                    old(self).spec_buf(),
                    c.scid,
                    c.vcid,
                    count,
                    false,
                    false,
                )
                &&& final(self).spec_data_len() == 0
                &&& r matches Ok(s) && s@ == final(self).spec_buf().subrange(0, (6 + n) as int)
            }),
    {
        let total = AosTransferFrame::HEADER_SIZE + self.data_len;
        let count = self.vc_frame_count;
        self.vc_frame_count = self.vc_frame_count.wrapping_add(1) & 0xFF_FFFF;
        proof {
            let x = count;
            assert((if x == u32::MAX {
                0u32
            } else {
                (x + 1) as u32
            }) & 0xFF_FFFFu32 == (if x == u32::MAX {
                0u32
            } else {
                (x + 1) as u32
            }) % 0x100_0000) by (bit_vector);
        }
        proof {
            crate::utils::lemma_be_bytes_len(spec_word0(self.config.scid, self.config.vcid) as nat, 2);
            crate::utils::lemma_be_bytes_len((count % 0x100_0000) as nat, 3);
        }
        stamp_header(self.buf.as_mut_slice(), self.config.scid, self.config.vcid, count, false, false);
        self.data_len = 0;
        Ok(vstd::slice::slice_subrange(self.buf.as_slice(), 0, total))
    }
}

/// Extracts packets from a received AOS transfer frame.
///
/// Owns its frame buffer internally (sized by `BUF`). The
/// coding layer writes into
/// [`buffer_mut()`](FrameReader::buffer_mut),
/// [`feed()`](FrameReader::feed) validates the header, and
/// [`next()`](FrameReader::next) returns the data field once.
pub struct AosFrameReader<const BUF: usize> {
    buf: Vec<u8>,
    data_start: usize,
    data_end: usize,
    pending: bool,
}

impl<const BUF: usize> AosFrameReader<BUF> {
    /// The reception buffer.
    pub closed spec fn spec_buf(&self) -> Seq<u8> {
        self.buf@
    }

    /// The data field bounds found by the last successful `feed`.
    pub closed spec fn spec_data_bounds(&self) -> (nat, nat) {
        (self.data_start as nat, self.data_end as nat)
    }

    /// Whether `next` still has the data field to hand out.
    pub closed spec fn spec_pending(&self) -> bool {
        self.pending
    }

    /// Creates a new AOS frame reader.
    pub fn new() -> (r: Self)
        ensures
            r.ready(),
            r.spec_data_bounds() == (0nat, 0nat),
            !r.spec_pending(),
    {
        AosFrameReader { buf: vec![0u8; BUF], data_start: 0, data_end: 0, pending: false }
    }

    /// The data field of the last frame fed.
    pub fn data_field(&self) -> (d: &[u8])
        requires
            self.ready(),
        ensures
            d@ == self.spec_buf().subrange(
                self.spec_data_bounds().0 as int,
                self.spec_data_bounds().1 as int,
            ),
    {
        vstd::slice::slice_subrange(self.buf.as_slice(), self.data_start, self.data_end)
    }
}

impl<const BUF: usize> FrameReader for AosFrameReader<BUF> {
    type Error = ParseError;

    /// `len` is within the buffer.
    open spec fn can_feed(&self, len: nat) -> bool {
        len <= BUF
    }

    fn can_feed_len(&self, len: usize) -> (b: bool) {
        len <= BUF
    }

    /// The buffer holds `BUF` bytes and the data bounds lie within it.
    closed spec fn ready(&self) -> bool {
        &&& self.buf@.len() == BUF
        &&& self.data_start <= self.data_end <= BUF
    }

    open spec fn spec_feed_ok(&self, len: nat) -> bool {
        len >= 6 && spec_header_from(self.spec_buf().subrange(0, len as int)).spec_version() == 1
    }

    /// The data field of the new frame: from byte 6 to `len`.
    open spec fn spec_fed_next(&self, len: nat) -> Option<Seq<u8>> {
        Some(self.spec_buf().subrange(6, len as int))
    }

    /// The data field of the frame fed last, while not handed out yet.
    open spec fn spec_next(&self) -> Option<Seq<u8>> {
        if self.spec_pending() {
            Some(self.spec_buf().subrange(self.spec_data_bounds().0 as int, self.spec_data_bounds().1 as int))
        } else {
            None
        }
    }

    /// The reception buffer.
    open spec fn spec_buffer(&self) -> Seq<u8> {
        self.spec_buf()
    }

    fn buffer_len(&self) -> (n: usize) {
        self.buf.len()
    }

    fn buffer_mut(&mut self) -> (b: &mut [u8])
        ensures
            b@ == old(self).spec_buf(),
            final(self).spec_buf() == final(b)@,
            final(self).spec_data_bounds() == old(self).spec_data_bounds(),
            final(self).spec_pending() == old(self).spec_pending(),
    {
        self.buf.as_mut_slice()
    }

    /// Takes the first `len` bytes as a frame: its data field runs from
    /// byte 6 to `len`, if the header carries version `01`.
    fn feed(&mut self, len: usize) -> (r: Result<(), ParseError>)
        ensures
            ({
                let b = old(self).spec_buf().subrange(0, len as int);
                let v = spec_header_from(b).spec_version();
                &&& len < 6 ==> r == Err::<(), ParseError>(ParseError::TooShortForHeader)
                &&& len >= 6 && v != 1 ==> r == Err::<(), ParseError>(ParseError::InvalidVersion(v))
                &&& r is Err ==> final(self).spec_data_bounds() == old(self).spec_data_bounds()
                    && final(self).spec_pending() == old(self).spec_pending()
                &&& len >= 6 && v == 1 ==> r is Ok && final(self).spec_pending()
                    && final(self).spec_data_bounds() == (6nat, len as nat)
                &&& final(self).spec_buf() == old(self).spec_buf()
            }),
    {
        let bytes = vstd::slice::slice_subrange(self.buf.as_slice(), 0, len);
        let parsed = match AosTransferFrame::parse_raw(bytes) {
            Ok(f) => f,
            Err(e) => {
                return Err(e);
            },
        };
        let data = parsed.data();
        self.data_start = AosTransferFrame::HEADER_SIZE;
        self.data_end = self.data_start + data.len();
        self.pending = true;
        Ok(())
    }

    /// The data field of the frame fed last, once.
    fn next(&mut self) -> (r: Option<&[u8]>)
        ensures
            old(self).spec_pending() ==> (r matches Some(d) && d@ == old(self).spec_buf().subrange(
                old(self).spec_data_bounds().0 as int,
                old(self).spec_data_bounds().1 as int,
            )),
            !old(self).spec_pending() ==> r is None,
            !final(self).spec_pending(),
            final(self).spec_buf() == old(self).spec_buf(),
            final(self).spec_data_bounds() == old(self).spec_data_bounds(),
    {
        if !self.pending {
            return None;
        }
        self.pending = false;
        Some(vstd::slice::slice_subrange(self.buf.as_slice(), self.data_start, self.data_end))
    }
}

} // verus!
