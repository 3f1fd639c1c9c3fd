//! Telemetry Space Data Link Protocol (TM-SDLP)
//!
//! Defined by CCSDS 132.0-B-3.
//!
//! The Telemetry Transfer Frame is the "envelope" used to package `SpacePacket`s for
//! downlink (sending data from a satellite to the ground).
//!
//! # Layout
//!
//! A TM Transfer Frame consists of a 6-byte header followed by a data field.
//!
//! ```text
//! +------------------------------------+----------+
//! | Field Name                         | Size     |
//! +------------------------------------+----------+
//! + -- Transfer Frame Header (6 bytes) |          |
//! |                                    |          |
//! | Transfer Frame Version             | 2 bits   |
//! | Spacecraft ID (SCID)               | 10 bits  |
//! | Virtual Channel ID (VCID)          | 3 bits   |
//! | OCF Flag                           | 1 bit    |
//! | Master Channel Frame Count         | 8 bits   |
//! | Virtual Channel Frame Count        | 8 bits   |
//! | Data Field Status                  | 16 bits  |
//! |   ... First Header Pointer         | 11 bits  |
//! |                                    |          |
//! + -- Data Field -------------------- | Variable |
//! |                                    |          |
//! | Contains idle data and/or          |          |
//! | one or more Space Packets          |          |
//! +------------------------------------+----------+
//! | (Optional) OCF                     | 4 bytes  |
//! +------------------------------------+----------+
//! | (Optional) Frame Error Control     | 2 bytes  |
//! +------------------------------------+----------+
//! ```
use vstd::prelude::*;

use crate::datalink::framing::{spec_push_outcome, FrameReader, FrameWriter, PushError};
use crate::ids::{Scid, Vcid};
use crate::utils::{be_bytes, be_value, copy_in, read_be, splice, write_be};

verus! {

/// Bitmask for the 2-bit version field.
pub const VERSION_MASK: u16 = 0b_1100_0000_0000_0000;

/// Bitmask for the 10-bit Spacecraft ID field.
pub const SCID_MASK: u16 = 0b_0011_1111_1111_0000;

/// Bitmask for the 3-bit Virtual Channel ID field.
pub const VCID_MASK: u16 = 0b_0000_0000_0000_1110;

/// Bitmask for the 1-bit Operational Control Field flag.
pub const OCF_FLAG_MASK: u16 = 0b_0000_0000_0000_0001;

/// Bitmask for the 11-bit First Header Pointer field.
pub const FIRST_HEADER_POINTER_MASK: u16 = 0b_0000_0111_1111_1111;

/// An error that can occur during Telemetry frame construction.
#[derive(Debug, Copy, Clone, Eq, PartialEq, Structural)]
pub enum BuildError {
    /// The provided Spacecraft ID is outside the valid 10-bit range (0-1023).
    InvalidScid(Scid),
    /// The provided Virtual Channel ID is outside the valid 3-bit range (0-7).
    InvalidVcid(Vcid),
    /// The provided buffer is too small to hold the requested frame.
    BufferTooSmall {
        /// Minimum number of bytes needed.
        required_len: usize,
        /// Actual buffer size provided.
        provided_len: usize,
    },
}

/// An error that can occur during Telemetry frame parsing.
#[derive(Debug, Copy, Clone, Eq, PartialEq, Structural)]
pub enum ParseError {
    /// The provided buffer is not large enough to hold the de-randomized frame,
    /// or the input and output buffers have different lengths.
    InvalidBufferLength,
    /// The buffer is too small to hold a valid TM frame header.
    TooShortForHeader,
}

/// The 6-byte header of a Telemetry TransferFrame.
#[derive(Debug, Copy, Clone, Eq, PartialEq, Structural)]
pub struct TelemetryTransferFrameHeader {
    /// Contains the 2-bit Version, 10-bit SCID, 3-bit VCID, and 1-bit OCF Flag.
    version_scid_vcid_and_ocf: u16,
    /// Contains the 8-bit Master Channel Frame Count for all frames.
    mc_frame_count: u8,
    /// Contains the 8-bit Virtual Channel Frame Count for this VCID.
    vc_frame_count: u8,
    /// Contains status flags and the 11-bit First Header Pointer to the first Space Packet.
    data_field_status: u16,
}

/// The header that the first 6 bytes of `b` hold.
pub closed spec fn spec_header_from(b: Seq<u8>) -> TelemetryTransferFrameHeader {
    TelemetryTransferFrameHeader {
        version_scid_vcid_and_ocf: be_value(b.subrange(0, 2)) as u16,
        mc_frame_count: b[2],
        vc_frame_count: b[3],
        data_field_status: be_value(b.subrange(4, 6)) as u16,
    }
}

/// The first header word that `new` writes over `w0`: version, SCID and
/// VCID in their fields (cut to their widths), the OCF flag of `w0` kept.
pub open spec fn spec_word0(w0: u16, version: u8, scid: u32, vcid: u32) -> u16 {
    (w0 & OCF_FLAG_MASK) | ((((version as u16) << 14u16) as u16) & VERSION_MASK) | ((((scid as u16)
        << 4u16) as u16) & SCID_MASK) | ((((vcid as u16) << 1u16) as u16) & VCID_MASK)
}

/// The Data Field Status word that `new` writes over `w2`: the First
/// Header Pointer in its field, the status flags of `w2` kept.
pub open spec fn spec_status(w2: u16, fhp: u16) -> u16 {
    (w2 & !FIRST_HEADER_POINTER_MASK) | (fhp & FIRST_HEADER_POINTER_MASK)
}

/// The bytes that `new` leaves in a buffer `b` that it accepts.
pub open spec fn spec_built(
    b: Seq<u8>,
    version: u8,
    scid: u32,
    vcid: u32,
    mc: u8,
    vc: u8,
    fhp: u16,
) -> Seq<u8> {
    be_bytes(spec_word0(be_value(b.subrange(0, 2)) as u16, version, scid, vcid) as nat, 2) + seq![
        mc,
        vc,
    ] + be_bytes(spec_status(be_value(b.subrange(4, 6)) as u16, fhp) as nat, 2) + b.subrange(
        6,
        b.len() as int,
    )
}

/// The outcome of `new` on a buffer of `len` bytes.
pub open spec fn spec_build_result(len: nat, scid: Scid, vcid: Vcid) -> Result<usize, BuildError> {
    if len < 6 {
        Err(BuildError::BufferTooSmall { required_len: 6, provided_len: len as usize })
    } else if scid.0 > 0x3FF {
        Err(BuildError::InvalidScid(scid))
    } else if vcid.0 > 7 {
        Err(BuildError::InvalidVcid(vcid))
    } else {
        Ok(len as usize)
    }
}

impl TelemetryTransferFrameHeader {
    /// The first header word.
    pub closed spec fn spec_w0(&self) -> u16 {
        self.version_scid_vcid_and_ocf
    }

    /// The Master Channel Frame Count.
    pub closed spec fn spec_mc(&self) -> u8 {
        self.mc_frame_count
    }

    /// The Virtual Channel Frame Count.
    pub closed spec fn spec_vc(&self) -> u8 {
        self.vc_frame_count
    }

    /// The Data Field Status word.
    pub closed spec fn spec_status_word(&self) -> u16 {
        self.data_field_status
    }

    /// Reads the header from the first 6 bytes of `b`.
    fn from_bytes(b: &[u8]) -> (h: Self)
        requires
            b@.len() >= 6,
        ensures
            h == spec_header_from(b@),
    {
        proof {
            crate::utils::lemma_pow256_values();
            crate::utils::lemma_be_value_bound(b@.subrange(0, 2));
            crate::utils::lemma_be_value_bound(b@.subrange(4, 6));
        }
        TelemetryTransferFrameHeader {
            version_scid_vcid_and_ocf: read_be(b, 0, 2) as u16,
            mc_frame_count: b[2],
            vc_frame_count: b[3],
            data_field_status: read_be(b, 4, 2) as u16,
        }
    }

    /// Returns the Transfer Frame Version Number.
    pub fn version(&self) -> (v: u8)
        ensures
            v == (self.spec_w0() & VERSION_MASK) >> 14u16,
    {
        let x = self.version_scid_vcid_and_ocf;
        assert((x & VERSION_MASK) >> 14u16 < 4) by (bit_vector);
        ((self.version_scid_vcid_and_ocf & VERSION_MASK) >> 14) as u8
    }

    /// Sets the Transfer Frame Version Number (its low 2 bits).
    pub fn set_version(&mut self, version: u8)
        ensures
            final(self).spec_w0() == (old(self).spec_w0() & !VERSION_MASK) | ((((version as u16)
                << 14u16) as u16) & VERSION_MASK),
            final(self).spec_mc() == old(self).spec_mc(),
            final(self).spec_vc() == old(self).spec_vc(),
            final(self).spec_status_word() == old(self).spec_status_word(),
    {
        self.version_scid_vcid_and_ocf = (self.version_scid_vcid_and_ocf & !VERSION_MASK) | (((
        version as u16) << 14) & VERSION_MASK);
    }

    /// Returns the Spacecraft ID (SCID).
    pub fn scid(&self) -> (s: Scid)
        ensures
            s.0 == (self.spec_w0() & SCID_MASK) >> 4u16,
    {
        Scid::new(((self.version_scid_vcid_and_ocf & SCID_MASK) >> 4) as u32)
    }

    /// Sets the Spacecraft ID (SCID) (its low 10 bits).
    pub fn set_scid(&mut self, scid: Scid)
        ensures
            final(self).spec_w0() == (old(self).spec_w0() & !SCID_MASK) | ((((scid.0 as u16)
                << 4u16) as u16) & SCID_MASK),
            final(self).spec_mc() == old(self).spec_mc(),
            final(self).spec_vc() == old(self).spec_vc(),
            final(self).spec_status_word() == old(self).spec_status_word(),
    {
        self.version_scid_vcid_and_ocf = (self.version_scid_vcid_and_ocf & !SCID_MASK) | (((
        scid.get() as u16) << 4) & SCID_MASK);
    }

    /// Returns the Virtual Channel ID (VCID).
    pub fn vcid(&self) -> (v: Vcid)
        ensures
            v.0 == (self.spec_w0() & VCID_MASK) >> 1u16,
    {
        Vcid::new(((self.version_scid_vcid_and_ocf & VCID_MASK) >> 1) as u32)
    }

    /// Sets the Virtual Channel ID (VCID) (its low 3 bits).
    pub fn set_vcid(&mut self, vcid: Vcid)
        ensures
            final(self).spec_w0() == (old(self).spec_w0() & !VCID_MASK) | ((((vcid.0 as u16)
                << 1u16) as u16) & VCID_MASK),
            final(self).spec_mc() == old(self).spec_mc(),
            final(self).spec_vc() == old(self).spec_vc(),
            final(self).spec_status_word() == old(self).spec_status_word(),
    {
        self.version_scid_vcid_and_ocf = (self.version_scid_vcid_and_ocf & !VCID_MASK) | (((
        vcid.get() as u16) << 1) & VCID_MASK);
    }

    /// Returns the Master Channel Frame Count.
    pub fn mc_frame_count(&self) -> (c: u8)
        ensures
            c == self.spec_mc(),
    {
        self.mc_frame_count
    }

    /// Sets the Master Channel Frame Count.
    pub fn set_mc_frame_count(&mut self, count: u8)
        ensures
            final(self).spec_mc() == count,
            final(self).spec_w0() == old(self).spec_w0(),
            final(self).spec_vc() == old(self).spec_vc(),
            final(self).spec_status_word() == old(self).spec_status_word(),
    {
        self.mc_frame_count = count;
    }

    /// Returns the Virtual Channel Frame Count.
    pub fn vc_frame_count(&self) -> (c: u8)
        ensures
            c == self.spec_vc(),
    {
        self.vc_frame_count
    }

    /// Sets the Virtual Channel Frame Count.
    pub fn set_vc_frame_count(&mut self, count: u8)
        ensures
            final(self).spec_vc() == count,
            final(self).spec_w0() == old(self).spec_w0(),
            final(self).spec_mc() == old(self).spec_mc(),
            final(self).spec_status_word() == old(self).spec_status_word(),
    {
        self.vc_frame_count = count;
    }

    /// Returns the First Header Pointer to the first Space Packet in the data field.
    pub fn first_header_pointer(&self) -> (p: u16)
        ensures
            p == self.spec_status_word() & FIRST_HEADER_POINTER_MASK,
    {
        self.data_field_status & FIRST_HEADER_POINTER_MASK
    }

    /// Sets the First Header Pointer value (its low 11 bits).
    pub fn set_first_header_pointer(&mut self, fhp: u16)
        ensures
            final(self).spec_status_word() == spec_status(old(self).spec_status_word(), fhp),
            final(self).spec_w0() == old(self).spec_w0(),
            final(self).spec_mc() == old(self).spec_mc(),
            final(self).spec_vc() == old(self).spec_vc(),
    {
        self.data_field_status = (self.data_field_status & !FIRST_HEADER_POINTER_MASK) | (fhp
            & FIRST_HEADER_POINTER_MASK);
    }
}

/// A parsed Telemetry Transfer Frame: its header and a view of its data
/// field.
///
/// This is the "envelope" used to send one or more `SpacePacket`s from a
/// spacecraft to the ground (the downlink). In addition to routing and
/// sequencing, it includes a "First Header Pointer" to locate the first
/// `SpacePacket` within its data field.
#[derive(Debug)]
pub struct TelemetryTransferFrame<'a> {
    header: TelemetryTransferFrameHeader,
    data_field: &'a [u8],
}

impl<'a> TelemetryTransferFrame<'a> {
    /// The size of the Telemetry Transfer Frame header in bytes.
    pub const HEADER_SIZE: usize = 6;

    /// The parsed header.
    pub closed spec fn spec_header(&self) -> TelemetryTransferFrameHeader {
        self.header
    }

    /// The data field bytes.
    pub closed spec fn spec_data(&self) -> Seq<u8> {
        self.data_field@
    }

    /// Parses a transfer frame (already derandomized): the first 6 bytes
    /// are its header and the rest its data field.
    pub fn parse_raw(bytes: &'a [u8]) -> (r: Result<Self, ParseError>)
        ensures
            bytes@.len() < 6 ==> r == Err::<Self, ParseError>(ParseError::TooShortForHeader),
            bytes@.len() >= 6 ==> (r matches Ok(f) && f.spec_header() == spec_header_from(bytes@)
                && f.spec_data() == bytes@.subrange(6, bytes@.len() as int)),
    {
        if bytes.len() < Self::HEADER_SIZE {
            return Err(ParseError::TooShortForHeader);
        }
        let header = TelemetryTransferFrameHeader::from_bytes(bytes);
        let data_field = vstd::slice::slice_subrange(bytes, 6, bytes.len());
        Ok(TelemetryTransferFrame { header, data_field })
    }

    /// Returns a reference to the frame's header.
    pub fn header(&self) -> (h: &TelemetryTransferFrameHeader)
        ensures
            *h == self.spec_header(),
    {
        &self.header
    }

    /// Returns a reference to the frame's data field.
    ///
    /// This slice typically contains one or more `SpacePacket`s that can now be
    /// parsed individually.
    pub fn data_field(&self) -> (d: &'a [u8])
        ensures
            d@ == self.spec_data(),
    {
        self.data_field
    }

    /// Constructs a TM Transfer Frame header at the start of `buffer`; the
    /// frame spans the whole buffer, its data field the bytes after the
    /// header. Returns the frame length.
    ///
    /// The OCF flag and the Data Field Status flags keep the values that
    /// `buffer` held there.
    pub fn new(
        buffer: &mut [u8],
        version: u8,
        scid: Scid,
        vcid: Vcid,
        mc_frame_count: u8,
        vc_frame_count: u8,
        first_header_pointer: u16,
    ) -> (r: Result<usize, BuildError>)
        ensures
            r == spec_build_result(old(buffer)@.len(), scid, vcid),
            r is Err ==> final(buffer)@ == old(buffer)@,
            r is Ok ==> final(buffer)@ == spec_built(
                old(buffer)@,
                version,
                scid.0,
                vcid.0,
                mc_frame_count,
                vc_frame_count,
                first_header_pointer,
            ),
    {
        if buffer.len() < Self::HEADER_SIZE {
            return Err(
                BuildError::BufferTooSmall { required_len: Self::HEADER_SIZE, provided_len: buffer.len() },
            );
        }
        if scid.get() > 0x3FF {
            return Err(BuildError::InvalidScid(scid));
        }
        if vcid.get() > 7 {
            return Err(BuildError::InvalidVcid(vcid));
        }
        let mut header = TelemetryTransferFrameHeader::from_bytes(buffer);
        let ghost w0 = header.version_scid_vcid_and_ocf;
        header.set_version(version);
        header.set_scid(scid);
        header.set_vcid(vcid);
        header.set_mc_frame_count(mc_frame_count);
        header.set_vc_frame_count(vc_frame_count);
        header.set_first_header_pointer(first_header_pointer);
        proof {
            let v = version as u16;
            let s = scid.0 as u16;
            let c = vcid.0 as u16;
            let w = header.version_scid_vcid_and_ocf;
            assert(w == (w0 & OCF_FLAG_MASK) | (((v << 14u16) as u16) & VERSION_MASK) | (((s
                << 4u16) as u16) & SCID_MASK) | (((c << 1u16) as u16) & VCID_MASK)) by (bit_vector)
                requires
                    w == (((((w0 & !VERSION_MASK) | (((v << 14u16) as u16) & VERSION_MASK)) & !SCID_MASK)
                        | (((s << 4u16) as u16) & SCID_MASK)) & !VCID_MASK) | (((c << 1u16) as u16)
                        & VCID_MASK),
            ;
        }
        let ghost b0 = buffer@;
        proof {
            crate::utils::lemma_be_bytes_len(header.version_scid_vcid_and_ocf as nat, 2);
            crate::utils::lemma_be_bytes_len(header.data_field_status as nat, 2);
        }
        write_be(buffer, 0, 2, header.version_scid_vcid_and_ocf as u64);
        buffer[2] = header.mc_frame_count;
        buffer[3] = header.vc_frame_count;
        write_be(buffer, 4, 2, header.data_field_status as u64);
        proof {
            assert(buffer@ =~= spec_built(
                b0,
                version,
                scid.0,
                vcid.0,
                mc_frame_count,
                vc_frame_count,
                first_header_pointer,
            ));
        }
        Ok(buffer.len())
    }
}

/// Configuration for building TM transfer frames.
#[derive(Debug, Clone, Copy)]
pub struct TmFrameWriterConfig {
    /// Spacecraft ID.
    pub scid: Scid,
    /// Virtual Channel ID.
    pub vcid: Vcid,
    /// Maximum data field length in bytes.
    pub max_data_field_len: usize,
}

/// Accumulates packets into TM transfer frames.
///
/// Owns its frame buffer internally (sized by `BUF`). Packets
/// are pushed directly into the buffer at the correct offset.
/// [`finish()`](FrameWriter::finish) stamps the header and
/// returns a borrow of the completed frame.
pub struct TmFrameWriter<const BUF: usize> {
    config: TmFrameWriterConfig,
    mc_frame_count: u8,
    vc_frame_count: u8,
    data_len: usize,
    buf: Vec<u8>,
}

impl<const BUF: usize> TmFrameWriter<BUF> {
    /// The configuration.
    pub closed spec fn spec_config(&self) -> TmFrameWriterConfig {
        self.config
    }

    /// The Master and Virtual Channel Frame Counts of the next frame.
    pub closed spec fn spec_counts(&self) -> (u8, u8) {
        (self.mc_frame_count, self.vc_frame_count)
    }

    /// The number of payload bytes pushed into the current frame.
    pub closed spec fn spec_data_len(&self) -> nat {
        self.data_len as nat
    }

    /// The frame buffer.
    pub closed spec fn spec_buf(&self) -> Seq<u8> {
        self.buf@
    }

    /// The buffer holds `BUF` bytes and the pushed payload is within the
    /// data field's capacity.
    pub open spec fn wf(&self) -> bool {
        &&& self.spec_buf().len() == BUF
        &&& self.spec_data_len() <= self.spec_config().max_data_field_len
    }

    /// Creates a new TM frame writer.
    pub fn new(config: TmFrameWriterConfig) -> (w: Self)
        ensures
            w.wf(),
            w.spec_config() == config,
            w.spec_counts() == (0u8, 0u8),
            w.spec_data_len() == 0,
            w.spec_buf() == Seq::new(BUF as nat, |i: int| 0u8),
    {
        let w = TmFrameWriter {
            config,
            mc_frame_count: 0,
            vc_frame_count: 0,
            data_len: 0,
            buf: vec![0u8; BUF],
        };
        assert(w.buf@ =~= Seq::new(BUF as nat, |i: int| 0u8));
        w
    }

    /// Bytes of data field still free in the current frame.
    fn remaining(&self) -> (n: usize)
        requires
            self.wf(),
        ensures
            n == self.config.max_data_field_len - self.data_len,
    {
        self.config.max_data_field_len - self.data_len
    }
}

impl<const BUF: usize> FrameWriter for TmFrameWriter<BUF> {
    type Error = BuildError;

    /// Well formed, and the largest frame fits in the buffer.
    open spec fn ready(&self) -> bool {
        &&& self.wf()
        &&& 6 + self.spec_config().max_data_field_len <= BUF
    }

    /// No payload has been pushed into the current frame.
    open spec fn spec_is_empty(&self) -> bool {
        self.spec_data_len() == 0
    }

    open spec fn spec_push_result(&self, data: Seq<u8>) -> Result<(), PushError> {
        spec_push_outcome(data.len(), self.spec_config().max_data_field_len as nat, self.spec_data_len())
    }

    open spec fn spec_finish_ok(&self) -> bool {
        spec_build_result(BUF as nat, self.spec_config().scid, self.spec_config().vcid) is Ok
    }

    open spec fn spec_finished_len(&self) -> nat {
        6 + self.spec_data_len()
    }

    /// The pushed payload under a header with version 0, the current frame
    /// counts and a First Header Pointer of 0.
    open spec fn spec_finished_frame(&self) -> Seq<u8> {
        let c = self.spec_config();
        let (mc, vc) = self.spec_counts();
        spec_built(self.spec_buf(), 0, c.scid.0, c.vcid.0, mc, vc, 0).subrange(
            0,
            (6 + self.spec_data_len()) as int,
        )
    }

    fn is_empty(&self) -> (b: bool)
        ensures
            b == (self.spec_data_len() == 0),
    {
        self.data_len == 0
    }

    fn finish_ok(&self) -> (b: bool) {
        BUF >= 6 && self.config.scid.0 <= 0x3FF && self.config.vcid.0 <= 7
    }

    fn finished_len(&self) -> (n: usize) {
        6 + self.data_len
    }

    /// Appends `data` to the data field: `TooLarge` beyond the data
    /// field's capacity, `Full` beyond what is left of it.
    fn push(&mut self, data: &[u8]) -> (r: Result<(), PushError>)
        ensures
            ({
                let c = old(self).spec_config();
                let used = old(self).spec_data_len();
                &&& data@.len() > c.max_data_field_len ==> r == Err::<(), PushError>(PushError::TooLarge)
                &&& data@.len() <= c.max_data_field_len && data@.len() > c.max_data_field_len - used
                    ==> r == Err::<(), PushError>(PushError::Full)
                &&& r is Err ==> final(self).spec_buf() == old(self).spec_buf() && final(self).spec_data_len() == used
                &&& r is Ok ==> final(self).spec_buf() == splice(old(self).spec_buf(), (6 + used) as int, data@)
                    && final(self).spec_data_len() == used + data@.len()
                &&& data@.len() <= c.max_data_field_len - used ==> r is Ok
                &&& final(self).spec_config() == c
                &&& final(self).spec_counts() == old(self).spec_counts()
            }),
    {
        if data.len() > self.config.max_data_field_len {
            return Err(PushError::TooLarge);
        }
        if data.len() > self.remaining() {
            return Err(PushError::Full);
        }
        let off = TelemetryTransferFrame::HEADER_SIZE + self.data_len;
        copy_in(self.buf.as_mut_slice(), off, data);
        self.data_len = self.data_len + data.len();
        Ok(())
    }

    /// Stamps the header (version 0, the current frame counts, which then
    /// move on by one, wrapping, and a First Header Pointer of 0) over the
    /// pushed payload and returns the frame: 6 + payload bytes.
    fn finish(&mut self) -> (r: Result<&[u8], BuildError>)
        ensures
            ({
                let c = old(self).spec_config();
                let n = old(self).spec_data_len();
                let (mc, vc) = old(self).spec_counts();
                let b0 = old(self).spec_buf();
                let built = spec_build_result(BUF as nat, c.scid, c.vcid);
                &&& final(self).spec_counts() == ((if mc == 255 {
                    0
                } else {
                    (mc + 1) as u8
                }), (if vc == 255 {
                    0
                } else {
                    (vc + 1) as u8
                }))
                &&& final(self).spec_config() == c
                &&& built matches Err(e) ==> r == Err::<&[u8], BuildError>(e) && final(self).spec_buf()
                    == b0 && final(self).spec_data_len() == n
                &&& built is Ok ==> {
                    &&& final(self).spec_buf() == spec_built(b0, 0, c.scid.0, c.vcid.0, mc, vc, 0)
                    &&& final(self).spec_data_len() == 0
                    &&& r matches Ok(s) && s@ == final(self).spec_buf().subrange(0, (6 + n) as int)
                }
            }),
    {
        let total = TelemetryTransferFrame::HEADER_SIZE + self.data_len;
        let mc = self.mc_frame_count;
        let vc = self.vc_frame_count;
        self.mc_frame_count = self.mc_frame_count.wrapping_add(1);
        self.vc_frame_count = self.vc_frame_count.wrapping_add(1);
        let ghost b0 = self.buf@;
        proof {
            crate::utils::lemma_be_bytes_len(
                spec_word0(be_value(b0.subrange(0, 2)) as u16, 0, self.config.scid.0, self.config.vcid.0)
                    as nat,
                2,
            );
            crate::utils::lemma_be_bytes_len(spec_status(be_value(b0.subrange(4, 6)) as u16, 0) as nat, 2);
        }
        let built = TelemetryTransferFrame::new(
            self.buf.as_mut_slice(),
            0,
            self.config.scid,
            self.config.vcid,
            mc,
            vc,
            0,
        );
        match built {
            Ok(_) => {},
            Err(e) => {
                return Err(e);
            },
        }
        self.data_len = 0;
        Ok(vstd::slice::slice_subrange(self.buf.as_slice(), 0, total))
    }
}

/// Extracts packets from a received TM transfer frame.
///
/// Owns its frame buffer internally (sized by `BUF`). The
/// coding layer writes into
/// [`buffer_mut()`](FrameReader::buffer_mut),
/// [`feed()`](FrameReader::feed) validates the header, and
/// [`next()`](FrameReader::next) returns the data field once.
pub struct TmFrameReader<const BUF: usize> {
    buf: Vec<u8>,
    data_start: usize,
    data_end: usize,
    pending: bool,
}

impl<const BUF: usize> TmFrameReader<BUF> {
    /// The reception buffer.
    pub closed spec fn spec_buf(&self) -> Seq<u8> {
        self.buf@
    }

    /// The data field bounds found by the last successful `feed`.
    pub closed spec fn spec_data_bounds(&self) -> (nat, nat) {
        (self.data_start as nat, self.data_end as nat)
    }

    /// Whether `next` still has the data field to hand out.
    pub closed spec fn spec_pending(&self) -> bool {
        self.pending
    }

    /// Creates a new TM frame reader.
    pub fn new() -> (r: Self)
        ensures
            r.ready(),
            r.spec_data_bounds() == (0nat, 0nat),
            !r.spec_pending(),
    {
        TmFrameReader { buf: vec![0u8; BUF], data_start: 0, data_end: 0, pending: false }
    }

    /// The data field of the last frame fed.
    pub fn data_field(&self) -> (d: &[u8])
        requires
            self.ready(),
        ensures
            d@ == self.spec_buf().subrange(
                self.spec_data_bounds().0 as int,
                self.spec_data_bounds().1 as int,
            ),
    {
        vstd::slice::slice_subrange(self.buf.as_slice(), self.data_start, self.data_end)
    }
}

impl<const BUF: usize> FrameReader for TmFrameReader<BUF> {
    type Error = ParseError;

    /// `len` is within the buffer.
    open spec fn can_feed(&self, len: nat) -> bool {
        len <= BUF
    }

    fn can_feed_len(&self, len: usize) -> (b: bool) {
        len <= BUF
    }

    /// The buffer holds `BUF` bytes and the data bounds lie within it.
    closed spec fn ready(&self) -> bool {
        &&& self.buf@.len() == BUF
        &&& self.data_start <= self.data_end <= BUF
    }

    open spec fn spec_feed_ok(&self, len: nat) -> bool {
        len >= 6
    }

    /// The data field of the new frame: from byte 6 to `len`.
    open spec fn spec_fed_next(&self, len: nat) -> Option<Seq<u8>> {
        Some(self.spec_buf().subrange(6, len as int))
    }

    /// The data field of the frame fed last, while not handed out yet.
    open spec fn spec_next(&self) -> Option<Seq<u8>> {
        if self.spec_pending() {
            Some(self.spec_buf().subrange(self.spec_data_bounds().0 as int, self.spec_data_bounds().1 as int))
        } else {
            None
        }
    }

    /// The reception buffer.
    open spec fn spec_buffer(&self) -> Seq<u8> {
        self.spec_buf()
    }

    fn buffer_len(&self) -> (n: usize) {
        self.buf.len()
    }

    fn buffer_mut(&mut self) -> (b: &mut [u8])
        ensures
            b@ == old(self).spec_buf(),
            final(self).spec_buf() == final(b)@,
            final(self).spec_data_bounds() == old(self).spec_data_bounds(),
            final(self).spec_pending() == old(self).spec_pending(),
    {
        self.buf.as_mut_slice()
    }

    /// Takes the first `len` bytes as a frame: its data field runs from
    /// byte 6 to `len`; `TooShortForHeader` below 6 bytes.
    fn feed(&mut self, len: usize) -> (r: Result<(), ParseError>)
        ensures
            len < 6 ==> r == Err::<(), ParseError>(ParseError::TooShortForHeader)
                && final(self).spec_data_bounds() == old(self).spec_data_bounds()
                && final(self).spec_pending() == old(self).spec_pending(),
            len >= 6 ==> r is Ok && final(self).spec_pending() && final(self).spec_data_bounds() == (
                6nat,
                len as nat,
            ),
            final(self).spec_buf() == old(self).spec_buf(),
    {
        let bytes = vstd::slice::slice_subrange(self.buf.as_slice(), 0, len);
        let parsed = match TelemetryTransferFrame::parse_raw(bytes) {
            Ok(f) => f,
            Err(e) => {
                return Err(e);
            },
        };
        let data = parsed.data_field();
        self.data_start = TelemetryTransferFrame::HEADER_SIZE;
        self.data_end = self.data_start + data.len();
        self.pending = true;
        Ok(())
    }

    /// The data field of the frame fed last, once.
    fn next(&mut self) -> (r: Option<&[u8]>)
        ensures
            old(self).spec_pending() ==> (r matches Some(d) && d@ == old(self).spec_buf().subrange(
                old(self).spec_data_bounds().0 as int,
                old(self).spec_data_bounds().1 as int,
            )),
            !old(self).spec_pending() ==> r is None,
            !final(self).spec_pending(),
            final(self).spec_buf() == old(self).spec_buf(),
            final(self).spec_data_bounds() == old(self).spec_data_bounds(),
    {
        if !self.pending {
            return None;
        }
        self.pending = false;
        Some(vstd::slice::slice_subrange(self.buf.as_slice(), self.data_start, self.data_end))
    }
}

/// A frame that `new` builds parses back: its header reads back the
/// version, SCID and VCID (cut to their widths), the frame counts and the
/// First Header Pointer, and its data field is the rest of the buffer.
pub proof fn lemma_build_parse_roundtrip(
    b: Seq<u8>,
    version: u8,
    scid: u32,
    vcid: u32,
    mc: u8,
    vc: u8,
    fhp: u16,
)
    requires
        b.len() >= 6,
    ensures
        ({
            let out = spec_built(b, version, scid, vcid, mc, vc, fhp);
            let h = spec_header_from(out);
            &&& (h.spec_w0() & VERSION_MASK) >> 14u16 == version & 3
            &&& (h.spec_w0() & SCID_MASK) >> 4u16 == scid & 0x3FF
            &&& (h.spec_w0() & VCID_MASK) >> 1u16 == vcid & 7
            &&& h.spec_mc() == mc
            &&& h.spec_vc() == vc
            &&& h.spec_status_word() & FIRST_HEADER_POINTER_MASK == fhp & FIRST_HEADER_POINTER_MASK
            &&& out.subrange(6, out.len() as int) == b.subrange(6, b.len() as int)
        }),
{
    let w0 = be_value(b.subrange(0, 2)) as u16;
    let w2 = be_value(b.subrange(4, 6)) as u16;
    let x = spec_word0(w0, version, scid, vcid);
    let y = spec_status(w2, fhp);
    let out = spec_built(b, version, scid, vcid, mc, vc, fhp);
    crate::utils::lemma_be_bytes_len(x as nat, 2);
    crate::utils::lemma_be_bytes_len(y as nat, 2);
    crate::utils::lemma_pow256_values();
    crate::utils::lemma_be_roundtrip_fits(x as nat, 2);
    crate::utils::lemma_be_roundtrip_fits(y as nat, 2);
    assert(out.subrange(0, 2) =~= be_bytes(x as nat, 2));
    assert(out.subrange(4, 6) =~= be_bytes(y as nat, 2));
    assert(out.subrange(6, out.len() as int) =~= b.subrange(6, b.len() as int));
    let v = version as u16;
    let s = scid as u16;
    let c = vcid as u16;
    assert((x & VERSION_MASK) >> 14u16 == version & 3 && (x & SCID_MASK) >> 4u16 == scid & 0x3FF && (
    x & VCID_MASK) >> 1u16 == vcid & 7 && y & FIRST_HEADER_POINTER_MASK == fhp
        & FIRST_HEADER_POINTER_MASK) by (bit_vector)
        requires
            x == (w0 & OCF_FLAG_MASK) | (((v << 14u16) as u16) & VERSION_MASK) | (((s << 4u16) as u16)
                & SCID_MASK) | (((c << 1u16) as u16) & VCID_MASK),
            y == (w2 & !FIRST_HEADER_POINTER_MASK) | (fhp & FIRST_HEADER_POINTER_MASK),
            v == version as u16,
            s == scid as u16,
            c == vcid as u16,
    ;
}

/// A frame count after one frame: one more, wrapping from 255 to 0.
pub open spec fn spec_count_step(c: u8) -> u8 {
    if c == 255 {
        0
    } else {
        (c + 1) as u8
    }
}

/// One step from `c + m` (mod 256) is `c + m + 1` (mod 256).
proof fn lemma_count_step_mod(c: u8, m: nat)
    ensures
        spec_count_step(((c + m) % 256) as u8) == ((c + m + 1) % 256) as u8,
{
    let x = (c + m) % 256;
    assert((c + m + 1) % 256 == if x == 255 { 0 } else { x + 1 }) by (nonlinear_arith)
        requires
            x == (c + m) % 256,
            c + m >= 0,
    ;
}

/// Over a run of `finish` calls, each moving both frame counts on by one
/// as `finish` does, the counts after `n` calls are the first counts plus
/// `n`, modulo 256.
pub proof fn lemma_frame_counts_over_finishes<const BUF: usize>(ws: Seq<TmFrameWriter<BUF>>)
    requires
        ws.len() >= 1,
        forall|i: int|
            0 <= i < ws.len() - 1 ==> #[trigger] ws[i + 1].spec_counts() == (
                spec_count_step(ws[i].spec_counts().0),
                spec_count_step(ws[i].spec_counts().1),
            ),
    ensures
        ws.last().spec_counts() == (
            ((ws[0].spec_counts().0 + ws.len() - 1) % 256) as u8,
            ((ws[0].spec_counts().1 + ws.len() - 1) % 256) as u8,
        ),
    decreases ws.len(),
{
    if ws.len() > 1 {
        let prev = ws.drop_last();
        assert forall|i: int| 0 <= i < prev.len() - 1 implies #[trigger] prev[i + 1].spec_counts() == (
            spec_count_step(prev[i].spec_counts().0),
            spec_count_step(prev[i].spec_counts().1),
        ) by {
            assert(prev[i + 1] == ws[i + 1]);
            assert(prev[i] == ws[i]);
        }
        lemma_frame_counts_over_finishes(prev);
        let k = ws.len() - 2;
        assert(ws[k + 1].spec_counts() == (
            spec_count_step(ws[k].spec_counts().0),
            spec_count_step(ws[k].spec_counts().1),
        ));
        assert(prev.last() == ws[k]);
        lemma_count_step_mod(ws[0].spec_counts().0, (ws.len() - 2) as nat);
        lemma_count_step_mod(ws[0].spec_counts().1, (ws.len() - 2) as nat);
    }
}

/// Over a run of successful `push` calls into a frame that was empty, each
/// writing its payload after the ones before as `push` does, the data field
/// holds the payloads one after the other, and the frame that `finish`
/// then builds carries them behind its 6-byte header.
pub proof fn lemma_pushes_fill_data_field<const BUF: usize>(ws: Seq<TmFrameWriter<BUF>>, ps: Seq<Seq<u8>>)
    requires
        ws.len() == ps.len() + 1,
        ws[0].spec_data_len() == 0,
        6 <= BUF,
        forall|i: int| 0 <= i < ws.len() ==> (#[trigger] ws[i]).spec_buf().len() == BUF,
        forall|i: int|
            0 <= i < ps.len() ==> {
                &&& #[trigger] ws[i + 1].spec_buf() == splice(
                    ws[i].spec_buf(),
                    (6 + ws[i].spec_data_len()) as int,
                    ps[i],
                )
                &&& ws[i + 1].spec_data_len() == ws[i].spec_data_len() + ps[i].len()
                &&& 6 + ws[i + 1].spec_data_len() <= BUF
            },
    ensures
        ws.last().spec_data_len() == ps.flatten().len(),
        ws.last().spec_buf().subrange(6, (6 + ps.flatten().len()) as int) == ps.flatten(),
        ws.last().spec_finished_frame().subrange(6, (6 + ps.flatten().len()) as int) == ps.flatten(),
    decreases ps.len(),
{
    ps.lemma_flatten_and_flatten_alt_are_equivalent();
    if ps.len() > 0 {
        let k = ps.len() - 1;
        let pw = ws.drop_last();
        let pp = ps.drop_last();
        assert forall|i: int| 0 <= i < pp.len() implies {
            &&& #[trigger] pw[i + 1].spec_buf() == splice(pw[i].spec_buf(), (6 + pw[i].spec_data_len()) as int, pp[i])
            &&& pw[i + 1].spec_data_len() == pw[i].spec_data_len() + pp[i].len()
            &&& 6 + pw[i + 1].spec_data_len() <= BUF
        } by {
            assert(pw[i + 1] == ws[i + 1]);
            assert(pw[i] == ws[i]);
            assert(pp[i] == ps[i]);
        }
        assert forall|i: int| 0 <= i < pw.len() implies (#[trigger] pw[i]).spec_buf().len() == BUF by {
            assert(pw[i] == ws[i]);
        }
        lemma_pushes_fill_data_field(pw, pp);
        pp.lemma_flatten_and_flatten_alt_are_equivalent();
        assert(pw.last() == ws[k]);
        assert(ws[k + 1].spec_buf() == splice(ws[k].spec_buf(), (6 + ws[k].spec_data_len()) as int, ps[k]));
        assert(ps.flatten_alt() == pp.flatten_alt() + ps[k]);
        let n0 = pp.flatten().len();
        let b0 = ws[k].spec_buf();
        let b1 = ws[k + 1].spec_buf();
        assert(b1.subrange(6, (6 + n0 + ps[k].len()) as int) =~= b0.subrange(6, (6 + n0) as int) + ps[k]);
    }
    let w = ws.last();
    let n = w.spec_data_len();
    let c = w.spec_config();
    let (mc, vc) = w.spec_counts();
    crate::utils::lemma_be_bytes_len(
        spec_word0(be_value(w.spec_buf().subrange(0, 2)) as u16, 0, c.scid.0, c.vcid.0) as nat,
        2,
    );
    crate::utils::lemma_be_bytes_len(spec_status(be_value(w.spec_buf().subrange(4, 6)) as u16, 0) as nat, 2);
    let b = w.spec_buf();
    let built = spec_built(b, 0, c.scid.0, c.vcid.0, mc, vc, 0);
    assert(built.len() == b.len());
    assert(built.subrange(6, 6 + n as int) =~= b.subrange(6, 6 + n as int));
    assert(w.spec_finished_frame() == built.subrange(0, 6 + n as int));
    assert(w.spec_finished_frame().subrange(6, 6 + n as int) =~= b.subrange(6, 6 + n as int));
}

} // verus!
