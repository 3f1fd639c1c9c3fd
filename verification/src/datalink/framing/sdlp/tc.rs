//! Telecommand Space Data Link Protocol (TC-SDLP)
//!
//! Defined by CCSDS 232.0-B-4.
//!
//! The Telecommand Transfer Frame is the "envelope" used to package
//! space packets for uplink.
//!
//! ```text
//! byte 0-1: Version(2) | Bypass(1) | Control(1) | Reserved(2) | SCID(10)
//! byte 2-3: VCID(6) | Frame Length - 1 (10)
//! byte 4:   Frame Sequence Number
//! ```
use vstd::prelude::*;

verus! {

/// An error during frame construction.
#[derive(Debug, Copy, Clone, Eq, PartialEq, Structural)]
pub enum BuildError {
    /// SCID exceeds 10 bits.
    InvalidScid(u16),
    /// VCID exceeds 6 bits.
    InvalidVcid(u8),
    /// Data field exceeds the maximum length.
    DataTooLong(usize),
    /// Buffer too small for the frame.
    BufferTooSmall {
        /// Bytes needed.
        required: usize,
        /// Bytes provided.
        provided: usize,
    },
}

/// An error during frame parsing.
#[derive(Debug, Copy, Clone, Eq, PartialEq, Structural)]
pub enum ParseError {
    /// Fewer than 5 bytes.
    TooShortForHeader {
        /// Bytes provided.
        actual: usize,
    },
    /// The header's length field exceeds the buffer.
    IncompleteFrame {
        /// Frame length from the header.
        header_len: usize,
        /// Bytes provided.
        buffer_len: usize,
    },
}

/// Bypass flag: Type-A (sequence controlled) or Type-B (expedited).
#[derive(Debug, Copy, Clone, Eq, PartialEq, Structural)]
pub enum BypassFlag {
    /// Sequence-controlled (0).
    TypeA,
    /// Expedited / bypass (1).
    TypeB,
}

/// Control command flag: Type-D (data) or Type-C (control).
#[derive(Debug, Copy, Clone, Eq, PartialEq, Structural)]
pub enum ControlFlag {
    /// Data (0).
    TypeD,
    /// Control command (1).
    TypeC,
}

/// The 5-byte header of a TC Transfer Frame, field by field.
#[derive(Debug, Copy, Clone, Eq, PartialEq, Structural)]
pub struct TelecommandTransferFrameHeader {
    /// 2-bit version number.
    pub version: u8,
    /// Bypass flag bit.
    pub bypass: u8,
    /// Control command flag bit.
    pub control: u8,
    /// 2 reserved bits.
    pub reserved: u8,
    /// 10-bit spacecraft identifier.
    pub scid: u16,
    /// 6-bit virtual channel identifier.
    pub vcid: u8,
    /// 10-bit frame length field (total octets - 1).
    pub length_field: u16,
    /// Frame sequence number.
    pub sequence_num: u8,
}

/// The header that five bytes denote.
pub open spec fn spec_tc_header(b: Seq<u8>) -> TelecommandTransferFrameHeader {
    TelecommandTransferFrameHeader {
        version: (b[0] / 64) as u8,
        bypass: (b[0] / 32 % 2) as u8,
        control: (b[0] / 16 % 2) as u8,
        reserved: (b[0] / 4 % 4) as u8,
        scid: ((b[0] % 4) * 256 + b[1]) as u16,
        vcid: (b[2] / 4) as u8,
        length_field: ((b[2] % 4) * 256 + b[3]) as u16,
        sequence_num: b[4],
    }
}

/// The five bytes of a header.
pub open spec fn spec_tc_header_bytes(h: TelecommandTransferFrameHeader) -> Seq<u8> {
    seq![
        ((h.version % 4) * 64 + (h.bypass % 2) * 32 + (h.control % 2) * 16 + (h.reserved % 4) * 4
            + (h.scid % 1024) / 256) as u8,
        (h.scid % 256) as u8,
        ((h.vcid % 64) * 4 + (h.length_field % 1024) / 256) as u8,
        (h.length_field % 256) as u8,
        h.sequence_num,
    ]
}

impl TelecommandTransferFrameHeader {
    /// Every field within its bit width.
    pub open spec fn wf(&self) -> bool {
        &&& self.version < 4
        &&& self.bypass < 2
        &&& self.control < 2
        &&& self.reserved < 4
        &&& self.scid < 1024
        &&& self.vcid < 64
        &&& self.length_field < 1024
    }

    /// Reads a header from the first five bytes.
    pub fn from_bytes(b: &[u8]) -> (h: Self)
        requires
            b@.len() >= 5,
        ensures
            h == spec_tc_header(b@),
            h.wf(),
    {
        TelecommandTransferFrameHeader {
            version: b[0] / 64,
            bypass: b[0] / 32 % 2,
            control: b[0] / 16 % 2,
            reserved: b[0] / 4 % 4,
            scid: (b[0] % 4) as u16 * 256 + b[1] as u16,
            vcid: b[2] / 4,
            length_field: (b[2] % 4) as u16 * 256 + b[3] as u16,
            sequence_num: b[4],
        }
    }

    /// Writes the header into the first five bytes of `out`.
    pub fn write_to(&self, out: &mut [u8])
        requires
            old(out)@.len() >= 5,
        ensures
            final(out)@ == spec_tc_header_bytes(*self) + old(out)@.subrange(5, old(out)@.len() as int),
    {
        out[0] = ((self.version % 4) * 64 + (self.bypass % 2) * 32 + (self.control % 2) * 16 + (
        self.reserved % 4) * 4 + ((self.scid % 1024) / 256) as u8) as u8;
        out[1] = (self.scid % 256) as u8;
        out[2] = ((self.vcid % 64) * 4 + ((self.length_field % 1024) / 256) as u8) as u8;
        out[3] = (self.length_field % 256) as u8;
        out[4] = self.sequence_num;
        assert(out@ =~= spec_tc_header_bytes(*self) + old(out)@.subrange(5, old(out)@.len() as int));
    }

    /// Returns the 10-bit Spacecraft Identifier.
    pub fn scid(&self) -> (v: u16)
        ensures
            v == self.scid,
    {
        self.scid
    }

    /// Sets the Spacecraft Identifier (low 10 bits).
    pub fn set_scid(&mut self, scid: u16)
        ensures
            *final(self) == (TelecommandTransferFrameHeader { scid: scid % 1024, ..*old(self) }),
    {
        self.scid = scid % 1024;
    }

    /// Returns the 6-bit Virtual Channel Identifier.
    pub fn vcid(&self) -> (v: u8)
        ensures
            v == self.vcid,
    {
        self.vcid
    }

    /// Sets the Virtual Channel Identifier (low 6 bits).
    pub fn set_vcid(&mut self, vcid: u8)
        ensures
            *final(self) == (TelecommandTransferFrameHeader { vcid: vcid % 64, ..*old(self) }),
    {
        self.vcid = vcid % 64;
    }

    /// Returns the total frame length in bytes (length field + 1).
    pub fn frame_len(&self) -> (n: usize)
        ensures
            n == self.length_field + 1,
    {
        self.length_field as usize + 1
    }

    /// Sets the frame length from the total byte count.
    pub fn set_frame_len(&mut self, length: usize)
        requires
            length >= 1,
        ensures
            *final(self) == (TelecommandTransferFrameHeader {
                length_field: ((length - 1) % 1024) as u16,
                ..*old(self)
            }),
    {
        self.length_field = ((length - 1) % 1024) as u16;
    }

    /// Returns the frame sequence number.
    pub fn sequence_num(&self) -> (v: u8)
        ensures
            v == self.sequence_num,
    {
        self.sequence_num
    }

    /// Sets the frame sequence number.
    pub fn set_sequence_num(&mut self, seq: u8)
        ensures
            *final(self) == (TelecommandTransferFrameHeader { sequence_num: seq, ..*old(self) }),
    {
        self.sequence_num = seq;
    }

    /// Returns the bypass flag.
    pub fn bypass_flag(&self) -> (f: BypassFlag)
        ensures
            f == (if self.bypass == 1 {
                BypassFlag::TypeB
            } else {
                BypassFlag::TypeA
            }),
    {
        if self.bypass == 1 {
            BypassFlag::TypeB
        } else {
            BypassFlag::TypeA
        }
    }

    /// Sets the bypass flag.
    pub fn set_bypass_flag(&mut self, flag: BypassFlag)
        ensures
            *final(self) == (TelecommandTransferFrameHeader {
                bypass: if flag == BypassFlag::TypeB {
                    1
                } else {
                    0
                },
                ..*old(self)
            }),
    {
        self.bypass = match flag {
            BypassFlag::TypeA => 0,
            BypassFlag::TypeB => 1,
        };
    }

    /// Returns the control command flag.
    pub fn control_flag(&self) -> (f: ControlFlag)
        ensures
            f == (if self.control == 1 {
                ControlFlag::TypeC
            } else {
                ControlFlag::TypeD
            }),
    {
        if self.control == 1 {
            ControlFlag::TypeC
        } else {
            ControlFlag::TypeD
        }
    }

    /// Sets the control command flag.
    pub fn set_control_flag(&mut self, flag: ControlFlag)
        ensures
            *final(self) == (TelecommandTransferFrameHeader {
                control: if flag == ControlFlag::TypeC {
                    1
                } else {
                    0
                },
                ..*old(self)
            }),
    {
        self.control = match flag {
            ControlFlag::TypeD => 0,
            ControlFlag::TypeC => 1,
        };
    }
}

/// A parsed TC Transfer Frame: its header and a view of its data field.
#[derive(Debug)]
pub struct TelecommandTransferFrame<'a> {
    header: TelecommandTransferFrameHeader,
    data_field: &'a [u8],
}

/// Header size in bytes.
pub const TC_HEADER_SIZE: usize = 5;

/// Maximum data field length in bytes.
pub const TC_MAX_DATA_FIELD_LEN: usize = 1019;

impl<'a> TelecommandTransferFrame<'a> {
    /// The parsed header.
    pub closed spec fn spec_header(&self) -> TelecommandTransferFrameHeader {
        self.header
    }

    /// The data field bytes.
    pub closed spec fn spec_data(&self) -> Seq<u8> {
        self.data_field@
    }

    #[verifier::type_invariant]
    spec fn inv(self) -> bool {
        self.data_field@.len() <= 1019
    }

    /// Parses a TC frame: the header's length field fixes the frame's end,
    /// which must lie within `bytes`; bytes beyond it are ignored. A frame
    /// whose length field announces fewer than 5 octets is not a frame
    /// (the length covers at least the header).
    pub fn parse(bytes: &'a [u8]) -> (r: Result<Self, ParseError>)
        requires
            bytes@.len() >= 5 ==> spec_tc_header(bytes@).length_field >= 4,
        ensures
            bytes@.len() < 5 ==> r == Err::<Self, ParseError>(
                ParseError::TooShortForHeader { actual: bytes@.len() as usize },
            ),
            bytes@.len() >= 5 ==> {
                let h = spec_tc_header(bytes@);
                let total = h.length_field + 1;
                &&& total > bytes@.len() ==> r == Err::<Self, ParseError>(
                    ParseError::IncompleteFrame {
                        header_len: total as usize,
                        buffer_len: bytes@.len() as usize,
                    },
                )
                &&& total <= bytes@.len() ==> (r matches Ok(f) && f.spec_header() == h
                    && f.spec_data() == bytes@.subrange(5, total))
            },
    {
        if bytes.len() < TC_HEADER_SIZE {
            return Err(ParseError::TooShortForHeader { actual: bytes.len() });
        }
        let header = TelecommandTransferFrameHeader::from_bytes(bytes);
        let specified_len = header.frame_len();
        if specified_len > bytes.len() {
            return Err(
                ParseError::IncompleteFrame { header_len: specified_len, buffer_len: bytes.len() },
            );
        }
        let data_field = vstd::slice::slice_subrange(bytes, TC_HEADER_SIZE, specified_len);
        Ok(TelecommandTransferFrame { header, data_field })
    }

    /// Returns the header.
    pub fn header(&self) -> (h: &TelecommandTransferFrameHeader)
        ensures
            *h == self.spec_header(),
    {
        &self.header
    }

    /// Returns the data field contents.
    pub fn data_field(&self) -> (d: &'a [u8])
        ensures
            d@ == self.spec_data(),
    {
        self.data_field
    }

    /// Total frame length in bytes (header + data).
    pub fn frame_len(&self) -> (n: usize)
        ensures
            n == 5 + self.spec_data().len(),
    {
        proof {
            use_type_invariant(self);
        }
        TC_HEADER_SIZE + self.data_field.len()
    }

    /// Writes a TC frame header for a frame of `5 + data_field_len` bytes into
    /// `buffer` and returns the frame length; the data field follows the header
    /// in `buffer`. The version and reserved bits keep what `buffer` held.
    pub fn new(
        buffer: &mut [u8],
        scid: u16,
        vcid: u8,
        bypass_flag: BypassFlag,
        control_flag: ControlFlag,
        seq: u8,
        data_field_len: usize,
    ) -> (r: Result<usize, BuildError>)
        ensures
            scid > 0x3FF ==> r == Err::<usize, BuildError>(BuildError::InvalidScid(scid)),
            scid <= 0x3FF && vcid > 0x3F ==> r == Err::<usize, BuildError>(
                BuildError::InvalidVcid(vcid),
            ),
            scid <= 0x3FF && vcid <= 0x3F && data_field_len > 1019 ==> r == Err::<usize, BuildError>(
                BuildError::DataTooLong(data_field_len),
            ),
            scid <= 0x3FF && vcid <= 0x3F && data_field_len <= 1019 && old(buffer)@.len() < 5
                + data_field_len ==> r == Err::<usize, BuildError>(
                BuildError::BufferTooSmall {
                    required: (5 + data_field_len) as usize,
                    provided: old(buffer)@.len() as usize,
                },
            ),
            r is Err ==> final(buffer)@ == old(buffer)@,
            r matches Ok(total) ==> {
                let h = spec_tc_header(old(buffer)@);
                &&& scid <= 0x3FF && vcid <= 0x3F && data_field_len <= 1019
                &&& total == 5 + data_field_len
                &&& total <= old(buffer)@.len()
                &&& final(buffer)@ == spec_tc_header_bytes(
                    TelecommandTransferFrameHeader {
                        scid,
                        vcid,
                        bypass: if bypass_flag == BypassFlag::TypeB {
                            1
                        } else {
                            0
                        },
                        control: if control_flag == ControlFlag::TypeC {
                            1
                        } else {
                            0
                        },
                        sequence_num: seq,
                        length_field: (total - 1) as u16,
                        ..h
                    },
                ) + old(buffer)@.subrange(5, old(buffer)@.len() as int)
            },
    {
        if scid > 0x3FF {
            return Err(BuildError::InvalidScid(scid));
        }
        if vcid > 0x3F {
            return Err(BuildError::InvalidVcid(vcid));
        }
        if data_field_len > TC_MAX_DATA_FIELD_LEN {
            return Err(BuildError::DataTooLong(data_field_len));
        }
        let total_len = TC_HEADER_SIZE + data_field_len;
        if buffer.len() < total_len {
            return Err(BuildError::BufferTooSmall { required: total_len, provided: buffer.len() });
        }
        let mut header = TelecommandTransferFrameHeader::from_bytes(buffer);
        header.set_scid(scid);
        header.set_vcid(vcid);
        header.set_bypass_flag(bypass_flag);
        header.set_control_flag(control_flag);
        header.set_sequence_num(seq);
        header.set_frame_len(total_len);
        header.write_to(buffer);
        Ok(total_len)
    }
}

/// Reading back a written header gives the header.
pub proof fn lemma_tc_header_roundtrip(h: TelecommandTransferFrameHeader)
    requires
        h.wf(),
    ensures
        spec_tc_header(spec_tc_header_bytes(h)) == h,
{
    let b = spec_tc_header_bytes(h);
    let v = h.version;
    let by = h.bypass;
    let c = h.control;
    let r = h.reserved;
    let sh = (h.scid / 256) as u8;
    assert(b[0] == (v * 64 + by * 32 + c * 16 + r * 4 + sh) as u8);
    assert({
        let x = (v * 64 + by * 32 + c * 16 + r * 4 + sh) as u8;
        x / 64 == v && x / 32 % 2 == by && x / 16 % 2 == c && x / 4 % 4 == r && x % 4 == sh
    }) by (bit_vector)
        requires
            v < 4,
            by < 2,
            c < 2,
            r < 4,
            sh < 4,
    ;
    let vc = h.vcid;
    let lh = (h.length_field / 256) as u8;
    assert(b[2] == (vc * 4 + lh) as u8);
    assert({
        let x = (vc * 4 + lh) as u8;
        x / 4 == vc && x % 4 == lh
    }) by (bit_vector)
        requires
            vc < 64,
            lh < 4,
    ;
}

/// Where each field of a well-formed TC header sits in its five bytes:
/// version in bits 7-6 of byte 0, then the bypass flag, the control
/// command flag, the two spare bits and the top two SCID bits; the low
/// SCID byte; the VCID in bits 7-2 of byte 2 with the top two bits of the
/// frame length field; the low length byte; the frame sequence number.
pub proof fn lemma_tc_header_layout(h: TelecommandTransferFrameHeader)
    requires
        h.wf(),
    ensures
        ({
            let b = spec_tc_header_bytes(h);
            &&& b.len() == 5
            &&& b[0] / 64 == h.version
            &&& b[0] / 32 % 2 == h.bypass
            &&& b[0] / 16 % 2 == h.control
            &&& b[0] / 4 % 4 == h.reserved
            &&& (b[0] % 4) * 256 + b[1] == h.scid
            &&& b[2] / 4 == h.vcid
            &&& (b[2] % 4) * 256 + b[3] == h.length_field
            &&& b[4] == h.sequence_num
        }),
{
    lemma_tc_header_roundtrip(h);
}

} // verus!
