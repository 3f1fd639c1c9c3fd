//! Unified Space Data Link Protocol (USLP)
//!
//! Defined by CCSDS 732.1-B-3.
//!
//! USLP (CCSDS 732.1-B-3) defines a unified transfer frame format
//! that replaces the separate TM, TC, and AOS frame protocols.
//! It supports both fixed-length and variable-length frames with
//! a variable-size primary header (4-14 bytes).
//!
//! # Frame Layout
//!
//! ```text
//! +-------------------------------------+---------+
//! | Field                               | Size    |
//! +-------------------------------------+---------+
//! | Primary Header (fixed part)         | 7 bytes |
//! |   TFVN + SCID + Src/Dst + VCID      |         |
//! |   + MAP ID + EOFPH Flag             | 4 bytes |
//! |   Frame Length                      | 2 bytes |
//! |   Flags + VCF Count Length          | 1 byte  |
//! | Primary Header (VCF Count)          | 0-7 B   |
//! +-------------------------------------+---------+
//! | Insert Zone (optional)              | Varies  |
//! +-------------------------------------+---------+
//! | Transfer Frame Data Field           |         |
//! |   TFDF Header (rules + UPID)        | 1 byte  |
//! |   First Header / Last Octet Ptr     | 0 or 2  |
//! |   Transfer Frame Data Zone          | Varies  |
//! +-------------------------------------+---------+
//! | Operational Control Field (opt)     | 4 bytes |
//! +-------------------------------------+---------+
//! | Frame Error Control Field (opt)     | 2 bytes |
//! +-------------------------------------+---------+
//! ```
use vstd::prelude::*;

use super::{spec_push_outcome, FrameReader, FrameWriter, PushError};
use crate::utils::{be_bytes, be_value, copy_in, read_be, splice, write_be};

verus! {

/// USLP Transfer Frame Version Number (`0b1100` = 12).
pub const USLP_TFVN: u8 = 0b1100;

/// VCID reserved for Only Idle Data (OID) Transfer Frames.
pub const OID_VCID: u8 = 63;

/// 4-bit Transfer Frame Version Number (CCSDS bits 0-3).
pub const TFVN_MASK: u32 = 0xF000_0000;

/// 16-bit Spacecraft Identifier (CCSDS bits 4-19).
pub const SCID_MASK: u32 = 0x0FFF_F000;

/// 1-bit Source-or-Destination Identifier (CCSDS bit 20).
pub const SRC_DEST_MASK: u32 = 0x0000_0800;

/// 6-bit Virtual Channel Identifier (CCSDS bits 21-26).
pub const VCID_MASK: u32 = 0x0000_07E0;

/// 4-bit Multiplexer Access Point ID (CCSDS bits 27-30).
pub const MAP_ID_MASK: u32 = 0x0000_001E;

/// 1-bit End of Frame Primary Header Flag (CCSDS bit 31).
pub const EOFPH_MASK: u32 = 0x0000_0001;

/// 1-bit Bypass/Sequence Control Flag.
pub const BYPASS_FLAG_MASK: u8 = 0b_1000_0000;

/// 1-bit Protocol Control Command Flag.
pub const PCC_FLAG_MASK: u8 = 0b_0100_0000;

/// 2-bit Reserve Spares (shall be `00`).
pub const SPARE_MASK: u8 = 0b_0011_0000;

/// 1-bit Operational Control Field Flag.
pub const OCF_FLAG_MASK: u8 = 0b_0000_1000;

/// 3-bit VC Frame Count Length.
pub const VCF_COUNT_LEN_MASK: u8 = 0b_0000_0111;

/// 3-bit TFDZ Construction Rules.
pub const TFDZ_RULES_MASK: u8 = 0b_1110_0000;

/// 5-bit USLP Protocol Identifier.
pub const UPID_MASK: u8 = 0b_0001_1111;

/// TFDZ Construction Rules (CCSDS 732.1-B-3, Table 4-3).
#[derive(Debug, Copy, Clone, Eq, PartialEq, Structural)]
pub enum TfdzRule {
    /// Packets spanning multiple frames (fixed-length TFDZ).
    PacketsSpanning,
    /// Start of MAPA_SDU or VCA_SDU (fixed-length TFDZ).
    SduStart,
    /// Continuing portion of MAPA_SDU or VCA_SDU (fixed).
    SduContinue,
    /// Octet stream, continuous (variable-length TFDZ).
    OctetStream,
    /// Starting segment of a large SDU (variable-length).
    StartingSegment,
    /// Continuing segment (variable-length).
    ContinuingSegment,
    /// Last segment (variable-length).
    LastSegment,
    /// No segmentation (variable-length TFDZ).
    NoSegmentation,
}

impl TfdzRule {
    /// The 3-bit code of the rule.
    pub open spec fn spec_code(self) -> u8 {
        match self {
            TfdzRule::PacketsSpanning => 0,
            TfdzRule::SduStart => 1,
            TfdzRule::SduContinue => 2,
            TfdzRule::OctetStream => 3,
            TfdzRule::StartingSegment => 4,
            TfdzRule::ContinuingSegment => 5,
            TfdzRule::LastSegment => 6,
            TfdzRule::NoSegmentation => 7,
        }
    }

    /// The rules 000, 001 and 010 carry the 16-bit pointer.
    pub open spec fn spec_has_pointer(self) -> bool {
        self.spec_code() <= 2
    }

    /// The 3-bit code of the rule.
    pub fn code(self) -> (c: u8)
        ensures
            c == self.spec_code(),
    {
        match self {
            TfdzRule::PacketsSpanning => 0,
            TfdzRule::SduStart => 1,
            TfdzRule::SduContinue => 2,
            TfdzRule::OctetStream => 3,
            TfdzRule::StartingSegment => 4,
            TfdzRule::ContinuingSegment => 5,
            TfdzRule::LastSegment => 6,
            TfdzRule::NoSegmentation => 7,
        }
    }

    /// Parses from a 3-bit raw value.
    pub fn from_bits(bits: u8) -> (r: Self)
        ensures
            r.spec_code() == bits % 8,
    {
        match bits % 8 {
            0 => TfdzRule::PacketsSpanning,
            1 => TfdzRule::SduStart,
            2 => TfdzRule::SduContinue,
            3 => TfdzRule::OctetStream,
            4 => TfdzRule::StartingSegment,
            5 => TfdzRule::ContinuingSegment,
            6 => TfdzRule::LastSegment,
            _ => TfdzRule::NoSegmentation,
        }
    }

    /// Whether this rule uses the optional 16-bit pointer.
    pub fn has_pointer(self) -> (b: bool)
        ensures
            b == self.spec_has_pointer(),
    {
        match self {
            TfdzRule::PacketsSpanning | TfdzRule::SduStart | TfdzRule::SduContinue => true,
            _ => false,
        }
    }
}

/// Well-known USLP Protocol Identifier (UPID) values.
///
/// These are registered in the SANA UPID registry.
#[derive(Debug, Copy, Clone, Eq, PartialEq, Structural)]
pub enum Upid {
    /// CCSDS Space Packets.
    SpacePackets,
    /// CCSDS Encapsulation Packets.
    EncapsulationPackets,
    /// COP-1 Control Commands.
    Cop1Commands,
    /// COP-P / Proximity-1 SPDUs.
    CopPCommands,
    /// SDLS Protocol data.
    Sdls,
    /// Idle data in a fixed-length TFDZ.
    IdleData,
    /// Only Idle Data (OID Transfer Frames).
    OnlyIdleData,
}

impl Upid {
    /// The registered 5-bit value.
    pub open spec fn spec_code(self) -> u8 {
        match self {
            Upid::SpacePackets => 0,
            Upid::EncapsulationPackets => 1,
            Upid::Cop1Commands => 2,
            Upid::CopPCommands => 3,
            Upid::Sdls => 4,
            Upid::IdleData => 30,
            Upid::OnlyIdleData => 31,
        }
    }

    /// The registered 5-bit value.
    pub fn code(self) -> (c: u8)
        ensures
            c == self.spec_code(),
    {
        match self {
            Upid::SpacePackets => 0,
            Upid::EncapsulationPackets => 1,
            Upid::Cop1Commands => 2,
            Upid::CopPCommands => 3,
            Upid::Sdls => 4,
            Upid::IdleData => 30,
            Upid::OnlyIdleData => 31,
        }
    }
}

/// An error during USLP frame construction.
#[derive(Debug, Copy, Clone, Eq, PartialEq, Structural)]
pub enum BuildError {
    /// VCID exceeds 6-bit range (0-63).
    InvalidVcid(u8),
    /// MAP ID exceeds 4-bit range (0-15).
    InvalidMapId(u8),
    /// VCF Count Length exceeds 3-bit range (0-7).
    InvalidVcfCountLength(u8),
    /// Buffer too small for the frame.
    BufferTooSmall {
        /// Minimum number of bytes needed.
        required_len: usize,
        /// Actual buffer size provided.
        provided_len: usize,
    },
    /// Frame exceeds the 16-bit Frame Length limit (65536 bytes).
    FrameTooLarge {
        /// Maximum allowed length.
        max_len: usize,
        /// Actual buffer size provided.
        provided_len: usize,
    },
}

/// An error during USLP frame parsing.
#[derive(Debug, Copy, Clone, Eq, PartialEq, Structural)]
pub enum ParseError {
    /// Buffer too short for the 7-byte fixed header.
    TooShortForHeader,
    /// Frame Length field does not match the buffer size.
    LengthMismatch {
        /// Expected from the Frame Length field.
        expected: usize,
        /// Actual buffer size.
        actual: usize,
    },
    /// TFVN is not `0b1100` (Version-4).
    InvalidVersion(u8),
    /// Truncated header (EOFPH=1) is not supported.
    TruncatedHeader,
}

/// The ranges of the header fields.
proof fn lemma_field_bounds()
    by (bit_vector)
    ensures
        forall|x: u32| #[trigger] ((x & TFVN_MASK) >> 28u32) < 16,
        forall|x: u32| #[trigger] ((x & SCID_MASK) >> 12u32) < 0x1_0000,
        forall|x: u32| #[trigger] ((x & VCID_MASK) >> 5u32) < 64,
        forall|x: u32| #[trigger] ((x & MAP_ID_MASK) >> 1u32) < 16,
        forall|x: u8| #[trigger] (x & VCF_COUNT_LEN_MASK) <= 7,
{
}

/// The 7-byte fixed portion of a non-truncated USLP Primary Header.
///
/// Covers bytes 0-6: identification fields, frame length, and
/// control flags. The variable-length VCF Count (0-7 bytes)
/// follows immediately after this in the frame body.
///
/// ```text
/// +--------+----------+------+------+------+------+
/// | TFVN   | SCID     | S/D  | VCID | MAP  | EOFPH|
/// | 4 bits | 16 bits  | 1b   | 6b   | 4b   | 1b   |
/// +--------+----------+------+------+------+------+
/// | Frame Length             | Flags byte         |
/// | 16 bits                  | Byp PCC Sp OCF VCL |
/// +--------+----------+------+------+------+------+
/// ```
#[derive(Debug, Copy, Clone, Eq, PartialEq, Structural)]
pub struct UslpPrimaryHeaderFixed {
    /// Bytes 0-3: TFVN(4) + SCID(16) + Src/Dst(1) + VCID(6)
    /// + MAP_ID(4) + EOFPH(1).
    id: u32,
    /// Bytes 4-5: Frame Length (total octets - 1).
    frame_length: u16,
    /// Byte 6: Bypass(1) + PCC(1) + Spare(2) + OCF(1) +
    /// VCF Count Length(3).
    flags: u8,
}

/// The identification word, the frame length and the flags byte of a
/// header read from the first 7 bytes of `b`.
pub open spec fn spec_header_of(b: Seq<u8>) -> (u32, u16, u8) {
    (be_value(b.subrange(0, 4)) as u32, be_value(b.subrange(4, 6)) as u16, b[6])
}

/// The 7 bytes of a header with these raw fields.
pub open spec fn spec_header_bytes(id: u32, frame_length: u16, flags: u8) -> Seq<u8> {
    be_bytes(id as nat, 4) + be_bytes(frame_length as nat, 2) + seq![flags]
}

/// The header read from the first 7 bytes of `b`.
pub closed spec fn spec_header_from(b: Seq<u8>) -> UslpPrimaryHeaderFixed {
    let (id, fl, flags) = spec_header_of(b);
    UslpPrimaryHeaderFixed { id, frame_length: fl, flags }
}

impl UslpPrimaryHeaderFixed {
    /// The raw identification word.
    pub closed spec fn spec_id(&self) -> u32 {
        self.id
    }

    /// The raw frame length field.
    pub closed spec fn spec_frame_length(&self) -> u16 {
        self.frame_length
    }

    /// The raw flags byte.
    pub closed spec fn spec_flags(&self) -> u8 {
        self.flags
    }

    /// The 4-bit TFVN.
    pub open spec fn spec_tfvn(&self) -> u8 {
        ((self.spec_id() & TFVN_MASK) >> 28u32) as u8
    }

    /// The 16-bit SCID.
    pub open spec fn spec_scid(&self) -> u16 {
        ((self.spec_id() & SCID_MASK) >> 12u32) as u16
    }

    /// The source-or-destination bit.
    pub open spec fn spec_source_or_dest(&self) -> bool {
        self.spec_id() & SRC_DEST_MASK != 0
    }

    /// The 6-bit VCID.
    pub open spec fn spec_vcid(&self) -> u8 {
        ((self.spec_id() & VCID_MASK) >> 5u32) as u8
    }

    /// The 4-bit MAP ID.
    pub open spec fn spec_map_id(&self) -> u8 {
        ((self.spec_id() & MAP_ID_MASK) >> 1u32) as u8
    }

    /// The EOFPH bit.
    pub open spec fn spec_eofph(&self) -> bool {
        self.spec_id() & EOFPH_MASK != 0
    }

    /// The bypass bit.
    pub open spec fn spec_bypass(&self) -> bool {
        self.spec_flags() & BYPASS_FLAG_MASK != 0
    }

    /// The protocol control command bit.
    pub open spec fn spec_pcc(&self) -> bool {
        self.spec_flags() & PCC_FLAG_MASK != 0
    }

    /// The OCF bit.
    pub open spec fn spec_ocf_flag(&self) -> bool {
        self.spec_flags() & OCF_FLAG_MASK != 0
    }

    /// The 3-bit VCF Count Length.
    pub open spec fn spec_vcf_count_length(&self) -> u8 {
        self.spec_flags() & VCF_COUNT_LEN_MASK
    }

    /// Reads the header from the first 7 bytes of `b`.
    pub fn from_bytes(b: &[u8]) -> (h: Self)
        requires
            b@.len() >= 7,
        ensures
            (h.spec_id(), h.spec_frame_length(), h.spec_flags()) == spec_header_of(b@),
            h == spec_header_from(b@),
    {
        proof {
            crate::utils::lemma_pow256_values();
            crate::utils::lemma_be_value_bound(b@.subrange(0, 4));
            crate::utils::lemma_be_value_bound(b@.subrange(4, 6));
        }
        UslpPrimaryHeaderFixed {
            id: read_be(b, 0, 4) as u32,
            frame_length: read_be(b, 4, 2) as u16,
            flags: b[6],
        }
    }

    /// Writes the header into the first 7 bytes of `out`.
    pub fn write_to(&self, out: &mut [u8])
        requires
            old(out)@.len() >= 7,
        ensures
            final(out)@ == spec_header_bytes(self.spec_id(), self.spec_frame_length(), self.spec_flags())
                + old(out)@.subrange(7, old(out)@.len() as int),
    {
        proof {
            crate::utils::lemma_be_bytes_len(self.id as nat, 4);
            crate::utils::lemma_be_bytes_len(self.frame_length as nat, 2);
        }
        write_be(out, 0, 4, self.id as u64);
        write_be(out, 4, 2, self.frame_length as u64);
        out[6] = self.flags;
        assert(final(out)@ =~= spec_header_bytes(self.id, self.frame_length, self.flags) + old(
            out,
        )@.subrange(7, old(out)@.len() as int));
    }

    /// Returns the 4-bit Transfer Frame Version Number.
    pub fn tfvn(&self) -> (v: u8)
        ensures
            v == self.spec_tfvn(),
    {
        proof {
            lemma_field_bounds();
        }
        ((self.id & TFVN_MASK) >> 28) as u8
    }

    /// Sets the Transfer Frame Version Number (its low 4 bits).
    pub fn set_tfvn(&mut self, v: u8)
        ensures
            final(self).spec_id() == (old(self).spec_id() & !TFVN_MASK) | (((v as u32) << 28u32)
                & TFVN_MASK),
            final(self).spec_frame_length() == old(self).spec_frame_length(),
            final(self).spec_flags() == old(self).spec_flags(),
    {
        self.id = (self.id & !TFVN_MASK) | (((v as u32) << 28) & TFVN_MASK);
    }

    /// Returns the 16-bit Spacecraft Identifier.
    pub fn scid(&self) -> (v: u16)
        ensures
            v == self.spec_scid(),
    {
        proof {
            lemma_field_bounds();
        }
        ((self.id & SCID_MASK) >> 12) as u16
    }

    /// Sets the Spacecraft Identifier.
    pub fn set_scid(&mut self, v: u16)
        ensures
            final(self).spec_id() == (old(self).spec_id() & !SCID_MASK) | (((v as u32) << 12u32)
                & SCID_MASK),
            final(self).spec_frame_length() == old(self).spec_frame_length(),
            final(self).spec_flags() == old(self).spec_flags(),
    {
        self.id = (self.id & !SCID_MASK) | (((v as u32) << 12) & SCID_MASK);
    }

    /// Returns the Source-or-Destination Identifier.
    ///
    /// `false` = SCID is the source; `true` = SCID is the dest.
    pub fn source_or_dest(&self) -> (v: bool)
        ensures
            v == self.spec_source_or_dest(),
    {
        self.id & SRC_DEST_MASK != 0
    }

    /// Sets the Source-or-Destination Identifier.
    pub fn set_source_or_dest(&mut self, v: bool)
        ensures
            final(self).spec_id() == (old(self).spec_id() & !SRC_DEST_MASK) | (if v {
                SRC_DEST_MASK
            } else {
                0u32
            }),
            final(self).spec_frame_length() == old(self).spec_frame_length(),
            final(self).spec_flags() == old(self).spec_flags(),
    {
        let bit: u32 = if v {
            SRC_DEST_MASK
        } else {
            0
        };
        self.id = (self.id & !SRC_DEST_MASK) | bit;
    }

    /// Returns the 6-bit Virtual Channel Identifier.
    pub fn vcid(&self) -> (v: u8)
        ensures
            v == self.spec_vcid(),
    {
        proof {
            lemma_field_bounds();
        }
        ((self.id & VCID_MASK) >> 5) as u8
    }

    /// Sets the Virtual Channel Identifier (its low 6 bits).
    pub fn set_vcid(&mut self, v: u8)
        ensures
            final(self).spec_id() == (old(self).spec_id() & !VCID_MASK) | (((v as u32) << 5u32)
                & VCID_MASK),
            final(self).spec_frame_length() == old(self).spec_frame_length(),
            final(self).spec_flags() == old(self).spec_flags(),
    {
        self.id = (self.id & !VCID_MASK) | (((v as u32) << 5) & VCID_MASK);
    }

    /// Returns the 4-bit Multiplexer Access Point Identifier.
    pub fn map_id(&self) -> (v: u8)
        ensures
            v == self.spec_map_id(),
    {
        proof {
            lemma_field_bounds();
        }
        ((self.id & MAP_ID_MASK) >> 1) as u8
    }

    /// Sets the MAP Identifier (its low 4 bits).
    pub fn set_map_id(&mut self, v: u8)
        ensures
            final(self).spec_id() == (old(self).spec_id() & !MAP_ID_MASK) | (((v as u32) << 1u32)
                & MAP_ID_MASK),
            final(self).spec_frame_length() == old(self).spec_frame_length(),
            final(self).spec_flags() == old(self).spec_flags(),
    {
        self.id = (self.id & !MAP_ID_MASK) | (((v as u32) << 1) & MAP_ID_MASK);
    }

    /// Returns the End of Frame Primary Header Flag.
    ///
    /// `false` = non-truncated (13 fields);
    /// `true` = truncated (6 fields only).
    pub fn eofph(&self) -> (v: bool)
        ensures
            v == self.spec_eofph(),
    {
        self.id & EOFPH_MASK != 0
    }

    /// Sets the End of Frame Primary Header Flag.
    pub fn set_eofph(&mut self, v: bool)
        ensures
            final(self).spec_id() == (old(self).spec_id() & !EOFPH_MASK) | (if v {
                EOFPH_MASK
            } else {
                0u32
            }),
            final(self).spec_frame_length() == old(self).spec_frame_length(),
            final(self).spec_flags() == old(self).spec_flags(),
    {
        let bit: u32 = if v {
            EOFPH_MASK
        } else {
            0
        };
        self.id = (self.id & !EOFPH_MASK) | bit;
    }

    /// Returns the Frame Length field value.
    ///
    /// Total frame size in bytes = `frame_length() + 1`.
    pub fn frame_length(&self) -> (v: u16)
        ensures
            v == self.spec_frame_length(),
    {
        self.frame_length
    }

    /// Sets the Frame Length field.
    pub fn set_frame_length(&mut self, v: u16)
        ensures
            final(self).spec_frame_length() == v,
            final(self).spec_id() == old(self).spec_id(),
            final(self).spec_flags() == old(self).spec_flags(),
    {
        self.frame_length = v;
    }

    /// Returns the Bypass/Sequence Control Flag.
    ///
    /// `false` = Sequence-Controlled (Type-A);
    /// `true` = Expedited / bypass (Type-B).
    pub fn bypass(&self) -> (v: bool)
        ensures
            v == self.spec_bypass(),
    {
        self.flags & BYPASS_FLAG_MASK != 0
    }

    /// Sets the Bypass/Sequence Control Flag.
    pub fn set_bypass(&mut self, v: bool)
        ensures
            final(self).spec_flags() == (old(self).spec_flags() & !BYPASS_FLAG_MASK) | (if v {
                BYPASS_FLAG_MASK
            } else {
                0u8
            }),
            final(self).spec_id() == old(self).spec_id(),
            final(self).spec_frame_length() == old(self).spec_frame_length(),
    {
        let bit: u8 = if v {
            BYPASS_FLAG_MASK
        } else {
            0
        };
        self.flags = (self.flags & !BYPASS_FLAG_MASK) | bit;
    }

    /// Returns the Protocol Control Command Flag.
    ///
    /// `false` = user data; `true` = protocol control commands.
    pub fn protocol_control_command(&self) -> (v: bool)
        ensures
            v == self.spec_pcc(),
    {
        self.flags & PCC_FLAG_MASK != 0
    }

    /// Sets the Protocol Control Command Flag.
    pub fn set_protocol_control_command(&mut self, v: bool)
        ensures
            final(self).spec_flags() == (old(self).spec_flags() & !PCC_FLAG_MASK) | (if v {
                PCC_FLAG_MASK
            } else {
                0u8
            }),
            final(self).spec_id() == old(self).spec_id(),
            final(self).spec_frame_length() == old(self).spec_frame_length(),
    {
        let bit: u8 = if v {
            PCC_FLAG_MASK
        } else {
            0
        };
        self.flags = (self.flags & !PCC_FLAG_MASK) | bit;
    }

    /// Returns the OCF Flag.
    ///
    /// `true` = OCF (4 bytes) is present in this frame.
    pub fn ocf_flag(&self) -> (v: bool)
        ensures
            v == self.spec_ocf_flag(),
    {
        self.flags & OCF_FLAG_MASK != 0
    }

    /// Sets the OCF Flag.
    pub fn set_ocf_flag(&mut self, v: bool)
        ensures
            final(self).spec_flags() == (old(self).spec_flags() & !OCF_FLAG_MASK) | (if v {
                OCF_FLAG_MASK
            } else {
                0u8
            }),
            final(self).spec_id() == old(self).spec_id(),
            final(self).spec_frame_length() == old(self).spec_frame_length(),
    {
        let bit: u8 = if v {
            OCF_FLAG_MASK
        } else {
            0
        };
        self.flags = (self.flags & !OCF_FLAG_MASK) | bit;
    }

    /// Returns the VCF Count Length (0-7).
    ///
    /// Determines how many bytes are used for the VCF Count
    /// field following this fixed header.
    pub fn vcf_count_length(&self) -> (v: u8)
        ensures
            v == self.spec_vcf_count_length(),
            v <= 7,
    {
        proof {
            lemma_field_bounds();
        }
        self.flags & VCF_COUNT_LEN_MASK
    }

    /// Sets the VCF Count Length (its low 3 bits).
    pub fn set_vcf_count_length(&mut self, v: u8)
        ensures
            final(self).spec_flags() == (old(self).spec_flags() & !VCF_COUNT_LEN_MASK) | (v
                & VCF_COUNT_LEN_MASK),
            final(self).spec_id() == old(self).spec_id(),
            final(self).spec_frame_length() == old(self).spec_frame_length(),
    {
        self.flags = (self.flags & !VCF_COUNT_LEN_MASK) | (v & VCF_COUNT_LEN_MASK);
    }
}

/// The header that `UslpTransferFrame::new` builds: TFVN 12, the given
/// identifiers and flags, EOFPH 0, frame length `len - 1`.
pub open spec fn spec_built_id(scid: u16, source_or_dest: bool, vcid: u8, map_id: u8) -> u32 {
    0xC000_0000u32 | ((scid as u32) << 12u32) | (if source_or_dest {
        0x800u32
    } else {
        0u32
    }) | ((vcid as u32) << 5u32) | ((map_id as u32) << 1u32)
}

/// The flags byte that `UslpTransferFrame::new` builds.
pub open spec fn spec_built_flags(bypass: bool, pcc: bool, ocf_flag: bool, vcf_count_length: u8) -> u8 {
    (if bypass {
        0x80u8
    } else {
        0u8
    }) | (if pcc {
        0x40u8
    } else {
        0u8
    }) | (if ocf_flag {
        0x08u8
    } else {
        0u8
    }) | vcf_count_length
}

/// The outcome of building a frame of `len` bytes: the identifier and
/// length checks in order, or the frame length.
pub open spec fn spec_build_result(len: nat, vcid: u8, map_id: u8, vcf_count_length: u8) -> Result<
    usize,
    BuildError,
> {
    if vcid > 63 {
        Err(BuildError::InvalidVcid(vcid))
    } else if map_id > 15 {
        Err(BuildError::InvalidMapId(map_id))
    } else if vcf_count_length > 7 {
        Err(BuildError::InvalidVcfCountLength(vcf_count_length))
    } else if len < 7 + vcf_count_length {
        Err(
            BuildError::BufferTooSmall {
                required_len: (7 + vcf_count_length) as usize,
                provided_len: len as usize,
            },
        )
    } else if len > 65536 {
        Err(BuildError::FrameTooLarge { max_len: 65536, provided_len: len as usize })
    } else {
        Ok(len as usize)
    }
}

/// The primary header and VCF Count of a built frame of `len` bytes.
pub open spec fn spec_built_prefix(
    len: nat,
    scid: u16,
    vcid: u8,
    source_or_dest: bool,
    map_id: u8,
    bypass: bool,
    pcc: bool,
    ocf_flag: bool,
    vcf_count_length: u8,
    vcf_count: u64,
) -> Seq<u8> {
    spec_header_bytes(
        spec_built_id(scid, source_or_dest, vcid, map_id),
        (len - 1) as u16,
        spec_built_flags(bypass, pcc, ocf_flag, vcf_count_length),
    ) + be_bytes(vcf_count as nat, vcf_count_length as nat)
}

/// A parsed view over a USLP Transfer Frame.
///
/// The 7-byte fixed header is followed by a variable-length body
/// containing the VCF Count, optional Insert Zone, Transfer Frame
/// Data Field (TFDF Header + TFDZ), optional OCF, and optional
/// FECF.
#[derive(Debug)]
pub struct UslpTransferFrame<'a> {
    header: UslpPrimaryHeaderFixed,
    body: &'a [u8],
}

/// What parsing the bytes `b` gives: `Ok` exactly when the frame has a
/// 7-byte header, TFVN 12, EOFPH 0 and a frame length that matches.
pub open spec fn spec_parse_error(b: Seq<u8>) -> Option<ParseError> {
    if b.len() < 7 {
        Some(ParseError::TooShortForHeader)
    } else {
        let (id, fl, flags) = spec_header_of(b);
        let tfvn = ((id & TFVN_MASK) >> 28u32) as u8;
        if tfvn != USLP_TFVN {
            Some(ParseError::InvalidVersion(tfvn))
        } else if id & EOFPH_MASK != 0 {
            Some(ParseError::TruncatedHeader)
        } else if b.len() != fl + 1 {
            Some(ParseError::LengthMismatch { expected: (fl + 1) as usize, actual: b.len() as usize })
        } else {
            None
        }
    }
}

impl<'a> UslpTransferFrame<'a> {
    /// Size of the fixed portion of the primary header (bytes).
    pub const FIXED_HEADER_SIZE: usize = 7;

    /// Maximum total frame size (16-bit Frame Length field).
    pub const MAX_FRAME_SIZE: usize = 65536;

    /// The parsed header.
    pub closed spec fn spec_header(&self) -> UslpPrimaryHeaderFixed {
        self.header
    }

    /// The bytes after the 7-byte header.
    pub closed spec fn spec_body(&self) -> Seq<u8> {
        self.body@
    }

    /// VCF Count length plus Insert Zone length: where the TFDF starts
    /// within the body.
    pub open spec fn tfdf_offset(&self, insert_zone_len: nat) -> nat {
        (self.spec_header().spec_vcf_count_length() + insert_zone_len) as nat
    }

    /// Where the trailer (OCF then FECF) starts within the body.
    pub open spec fn trailer_start(&self, fecf_present: bool) -> int {
        self.spec_body().len() - (if self.spec_header().spec_ocf_flag() {
            4int
        } else {
            0
        }) - (if fecf_present {
            2int
        } else {
            0
        })
    }

    /// Parses a byte slice into a USLP Transfer Frame view.
    ///
    /// Validates the TFVN (must be `0b1100`), the EOFPH flag
    /// (truncated frames are not supported), and the Frame Length
    /// field consistency with the buffer size.
    pub fn parse(bytes: &'a [u8]) -> (r: Result<Self, ParseError>)
        ensures
            spec_parse_error(bytes@) matches Some(e) ==> r == Err::<Self, ParseError>(e),
            spec_parse_error(bytes@) is None ==> (r matches Ok(f) && f.spec_header() == spec_header_from(
                bytes@,
            ) && f.spec_body() == bytes@.subrange(7, bytes@.len() as int)),
    {
        if bytes.len() < 7 {
            return Err(ParseError::TooShortForHeader);
        }
        let header = UslpPrimaryHeaderFixed::from_bytes(bytes);
        let tfvn = header.tfvn();
        if tfvn != USLP_TFVN {
            return Err(ParseError::InvalidVersion(tfvn));
        }
        if header.eofph() {
            return Err(ParseError::TruncatedHeader);
        }
        let expected = header.frame_length() as usize + 1;
        if bytes.len() != expected {
            return Err(ParseError::LengthMismatch { expected, actual: bytes.len() });
        }
        let body = vstd::slice::slice_subrange(bytes, 7, bytes.len());
        Ok(UslpTransferFrame { header, body })
    }

    /// Returns a reference to the fixed primary header.
    pub fn header(&self) -> (h: &UslpPrimaryHeaderFixed)
        ensures
            *h == self.spec_header(),
    {
        &self.header
    }

    /// Returns the complete body after the 7-byte fixed header.
    ///
    /// Contains VCF Count + Insert Zone + TFDF + OCF + FECF.
    pub fn body(&self) -> (b: &'a [u8])
        ensures
            b@ == self.spec_body(),
    {
        self.body
    }

    /// Total size of the primary header including VCF Count.
    pub fn primary_header_size(&self) -> (n: usize)
        ensures
            n == 7 + self.spec_header().spec_vcf_count_length(),
    {
        7 + self.header.vcf_count_length() as usize
    }

    /// Returns the VCF Count value (big-endian, 0-56 bits).
    pub fn vcf_count(&self) -> (v: u64)
        requires
            self.spec_header().spec_vcf_count_length() <= self.spec_body().len(),
        ensures
            v == be_value(self.spec_body().subrange(0, self.spec_header().spec_vcf_count_length() as int)),
    {
        let len = self.header.vcf_count_length() as usize;
        read_be(self.body, 0, len)
    }

    /// Returns the Insert Zone slice.
    ///
    /// `insert_zone_len` is a managed parameter configured for the
    /// Physical Channel (0 if no Insert Zone).
    pub fn insert_zone(&self, insert_zone_len: usize) -> (z: &'a [u8])
        requires
            self.tfdf_offset(insert_zone_len as nat) <= self.spec_body().len(),
        ensures
            z@ == self.spec_body().subrange(
                self.spec_header().spec_vcf_count_length() as int,
                self.tfdf_offset(insert_zone_len as nat) as int,
            ),
    {
        let blen = self.body.len();
        let start = self.header.vcf_count_length() as usize;
        vstd::slice::slice_subrange(self.body, start, start + insert_zone_len)
    }

    /// Returns the Transfer Frame Data Field (TFDF Header + TFDZ).
    ///
    /// `insert_zone_len` is the managed Insert Zone size.
    /// `fecf_present` indicates whether a 2-byte FECF is appended.
    pub fn data_field(&self, insert_zone_len: usize, fecf_present: bool) -> (d: &'a [u8])
        requires
            self.tfdf_offset(insert_zone_len as nat) <= self.trailer_start(fecf_present),
        ensures
            d@ == self.spec_body().subrange(
                self.tfdf_offset(insert_zone_len as nat) as int,
                self.trailer_start(fecf_present),
            ),
    {
        let blen = self.body.len();
        let start = self.header.vcf_count_length() as usize + insert_zone_len;
        let ocf_len: usize = if self.header.ocf_flag() {
            4
        } else {
            0
        };
        let fecf_len: usize = if fecf_present {
            2
        } else {
            0
        };
        let end = self.body.len() - ocf_len - fecf_len;
        vstd::slice::slice_subrange(self.body, start, end)
    }

    /// Returns the TFDZ Construction Rule from the TFDF Header.
    pub fn tfdz_rule(&self, insert_zone_len: usize) -> (r: TfdzRule)
        requires
            self.tfdf_offset(insert_zone_len as nat) < self.spec_body().len(),
        ensures
            r.spec_code() == self.spec_body()[self.tfdf_offset(insert_zone_len as nat) as int] >> 5u8,
    {
        let blen = self.body.len();
        let off = self.header.vcf_count_length() as usize + insert_zone_len;
        let b = self.body[off];
        assert(b >> 5u8 < 8 && (b >> 5u8) % 8 == b >> 5u8) by (bit_vector);
        TfdzRule::from_bits(b >> 5)
    }

    /// Returns the UPID from the TFDF Header.
    pub fn upid(&self, insert_zone_len: usize) -> (u: u8)
        requires
            self.tfdf_offset(insert_zone_len as nat) < self.spec_body().len(),
        ensures
            u == self.spec_body()[self.tfdf_offset(insert_zone_len as nat) as int] & UPID_MASK,
    {
        let blen = self.body.len();
        let off = self.header.vcf_count_length() as usize + insert_zone_len;
        self.body[off] & UPID_MASK
    }

    /// Returns the First Header / Last Valid Octet Pointer.
    ///
    /// Only present for TFDZ Construction Rules 000, 001, and 010.
    /// Returns `None` if the current rule does not use a pointer.
    pub fn pointer(&self, insert_zone_len: usize) -> (p: Option<u16>)
        requires
            self.tfdf_offset(insert_zone_len as nat) < self.spec_body().len(),
            (self.spec_body()[self.tfdf_offset(insert_zone_len as nat) as int] >> 5u8) <= 2
                ==> self.tfdf_offset(insert_zone_len as nat) + 3 <= self.spec_body().len(),
        ensures
            ({
                let off = self.tfdf_offset(insert_zone_len as nat) as int;
                let b = self.spec_body();
                &&& (b[off] >> 5u8) > 2 ==> p is None
                &&& (b[off] >> 5u8) <= 2 ==> p == Some((b[off + 1] * 256 + b[off + 2]) as u16)
            }),
    {
        let rule = self.tfdz_rule(insert_zone_len);
        if !rule.has_pointer() {
            return None;
        }
        let blen = self.body.len();
        let off = self.header.vcf_count_length() as usize + insert_zone_len + 1;
        let hi = self.body[off] as u16;
        let lo = self.body[off + 1] as u16;
        Some(hi * 256 + lo)
    }

    /// Returns the Transfer Frame Data Zone (payload only).
    ///
    /// This is the TFDF minus the TFDF Header bytes.
    pub fn data_zone(&self, insert_zone_len: usize, fecf_present: bool) -> (d: &'a [u8])
        requires
            self.tfdf_offset(insert_zone_len as nat) < self.spec_body().len(),
            self.tfdf_offset(insert_zone_len as nat) + (if (self.spec_body()[self.tfdf_offset(
                insert_zone_len as nat,
            ) as int] >> 5u8) <= 2 {
                3int
            } else {
                1
            }) <= self.trailer_start(fecf_present),
        ensures
            ({
                let off = self.tfdf_offset(insert_zone_len as nat) as int;
                let hl = if (self.spec_body()[off] >> 5u8) <= 2 {
                    3int
                } else {
                    1
                };
                d@ == self.spec_body().subrange(off + hl, self.trailer_start(fecf_present))
            }),
    {
        let rule = self.tfdz_rule(insert_zone_len);
        let tfdf_hdr_len: usize = if rule.has_pointer() {
            3
        } else {
            1
        };
        let blen = self.body.len();
        let start = self.header.vcf_count_length() as usize + insert_zone_len + tfdf_hdr_len;
        let ocf_len: usize = if self.header.ocf_flag() {
            4
        } else {
            0
        };
        let fecf_len: usize = if fecf_present {
            2
        } else {
            0
        };
        let end = self.body.len() - ocf_len - fecf_len;
        vstd::slice::slice_subrange(self.body, start, end)
    }

    /// Returns the OCF (4 bytes) if present.
    pub fn ocf(&self, fecf_present: bool) -> (o: Option<&'a [u8]>)
        requires
            self.spec_header().spec_ocf_flag() ==> self.trailer_start(fecf_present) >= 0,
        ensures
            !self.spec_header().spec_ocf_flag() ==> o is None,
            self.spec_header().spec_ocf_flag() ==> (o matches Some(s) && s@ == self.spec_body().subrange(
                self.trailer_start(fecf_present),
                self.trailer_start(fecf_present) + 4,
            )),
    {
        if !self.header.ocf_flag() {
            return None;
        }
        let fecf_len: usize = if fecf_present {
            2
        } else {
            0
        };
        let end = self.body.len() - fecf_len;
        Some(vstd::slice::slice_subrange(self.body, end - 4, end))
    }

    /// Returns the FECF (2 bytes) if present.
    ///
    /// `fecf_present` is a managed parameter for the Physical
    /// Channel.
    pub fn fecf(&self, fecf_present: bool) -> (f: Option<&'a [u8]>)
        requires
            fecf_present ==> self.spec_body().len() >= 2,
        ensures
            !fecf_present ==> f is None,
            fecf_present ==> (f matches Some(s) && s@ == self.spec_body().subrange(
                self.spec_body().len() - 2,
                self.spec_body().len() as int,
            )),
    {
        if !fecf_present {
            return None;
        }
        let len = self.body.len();
        Some(vstd::slice::slice_subrange(self.body, len - 2, len))
    }

    /// Writes the TFDF Header of the frame in `buffer`: the rule and the
    /// UPID in the first byte of the data field (after the VCF Count and
    /// the Insert Zone), then the pointer when one is given.
    pub fn set_tfdf_header(
        buffer: &mut [u8],
        insert_zone_len: usize,
        rule: TfdzRule,
        upid: u8,
        pointer: Option<u16>,
    )
        requires
            old(buffer)@.len() >= 7,
            7 + (old(buffer)@[6] & VCF_COUNT_LEN_MASK) + insert_zone_len + (if pointer is Some {
                3int
            } else {
                1
            }) <= old(buffer)@.len(),
        ensures
            ({
                let off = 7 + (old(buffer)@[6] & VCF_COUNT_LEN_MASK) + insert_zone_len;
                let b0 = ((rule.spec_code() << 5u8) | (upid & UPID_MASK)) as u8;
                let hdr = match pointer {
                    Some(p) => seq![b0, (p / 256) as u8, (p % 256) as u8],
                    None => seq![b0],
                };
                final(buffer)@ == splice(old(buffer)@, off, hdr)
            }),
    {
        let off = 7 + (buffer[6] & VCF_COUNT_LEN_MASK) as usize + insert_zone_len;
        let r = rule.code();
        assert(r <= 7 ==> (r << 5u8) >> 5u8 == r) by (bit_vector);
        let byte0 = (r << 5) | (upid & UPID_MASK);
        let ghost b = buffer@;
        buffer[off] = byte0;
        match pointer {
            Some(p) => {
                buffer[off + 1] = (p / 256) as u8;
                buffer[off + 2] = (p % 256) as u8;
                assert(buffer@ =~= splice(b, off as int, seq![byte0, (p / 256) as u8, (p % 256) as u8]));
            },
            None => {
                assert(buffer@ =~= splice(b, off as int, seq![byte0]));
            },
        }
    }

    /// Sets the VCF Count of the frame in `buffer` (big-endian, the low
    /// VCF-Count-Length bytes of `count`).
    pub fn set_vcf_count(buffer: &mut [u8], count: u64)
        requires
            old(buffer)@.len() >= 7 + (old(buffer)@[6] & VCF_COUNT_LEN_MASK),
        ensures
            final(buffer)@ == splice(
                old(buffer)@,
                7,
                be_bytes(count as nat, (old(buffer)@[6] & VCF_COUNT_LEN_MASK) as nat),
            ),
    {
        proof {
            lemma_field_bounds();
        }
        let len = (buffer[6] & VCF_COUNT_LEN_MASK) as usize;
        let ghost b = buffer@;
        proof {
            crate::utils::lemma_be_bytes_len(count as nat, len as nat);
        }
        write_be(buffer, 7, len, count);
        assert(buffer@ =~= splice(b, 7, be_bytes(count as nat, len as nat)));
    }

    /// Constructs a new USLP Transfer Frame in the provided buffer.
    ///
    /// The frame length is determined by the buffer size: the primary
    /// header and the VCF Count are written and the rest of the body is
    /// zeroed; use [`Self::set_tfdf_header`] and the buffer itself to fill
    /// in the Insert Zone, TFDF, OCF, and FECF. Returns the frame length.
    pub fn new(
        buffer: &mut [u8],
        scid: u16,
        vcid: u8,
        source_or_dest: bool,
        map_id: u8,
        bypass: bool,
        protocol_control_command: bool,
        ocf_flag: bool,
        vcf_count_length: u8,
        vcf_count: u64,
    ) -> (r: Result<usize, BuildError>)
        ensures
            r == spec_build_result(old(buffer)@.len(), vcid, map_id, vcf_count_length),
            r is Err ==> final(buffer)@ == old(buffer)@,
            r is Ok ==> final(buffer)@ == spec_built_prefix(
                old(buffer)@.len(),
                scid,
                vcid,
                source_or_dest,
                map_id,
                bypass,
                protocol_control_command,
                ocf_flag,
                vcf_count_length,
                vcf_count,
            ) + Seq::new((old(buffer)@.len() - 7 - vcf_count_length) as nat, |i: int| 0u8),
    {
        let n = buffer.len();
        let r = Self::build(
            buffer,
            n,
            scid,
            vcid,
            source_or_dest,
            map_id,
            bypass,
            protocol_control_command,
            ocf_flag,
            vcf_count_length,
            vcf_count,
        );
        match r {
            Ok(_) => {
                let at = 7 + vcf_count_length as usize;
                let ghost b = buffer@;
                proof {
                    crate::utils::lemma_be_bytes_len(vcf_count as nat, vcf_count_length as nat);
                    crate::utils::lemma_be_bytes_len(spec_built_id(scid, source_or_dest, vcid, map_id) as nat, 4);
                    crate::utils::lemma_be_bytes_len(((n - 1) as u16) as nat, 2);
                    assert(spec_built_prefix(
                        n as nat,
                        scid,
                        vcid,
                        source_or_dest,
                        map_id,
                        bypass,
                        protocol_control_command,
                        ocf_flag,
                        vcf_count_length,
                        vcf_count,
                    ).len() == at);
                }
                crate::utils::zero_from(buffer, at);
                proof {
                    assert(b.subrange(0, at as int) =~= spec_built_prefix(
                        n as nat,
                        scid,
                        vcid,
                        source_or_dest,
                        map_id,
                        bypass,
                        protocol_control_command,
                        ocf_flag,
                        vcf_count_length,
                        vcf_count,
                    ));
                }
            },
            Err(_) => {},
        }
        r
    }

    /// Writes the header and VCF Count of a frame of `provided_len` bytes
    /// at the start of `buffer`, leaving the rest of the buffer as it was.
    fn build(
        buffer: &mut [u8],
        provided_len: usize,
        scid: u16,
        vcid: u8,
        source_or_dest: bool,
        map_id: u8,
        bypass: bool,
        protocol_control_command: bool,
        ocf_flag: bool,
        vcf_count_length: u8,
        vcf_count: u64,
    ) -> (r: Result<usize, BuildError>)
        requires
            provided_len <= old(buffer)@.len(),
        ensures
            r == spec_build_result(provided_len as nat, vcid, map_id, vcf_count_length),
            r is Err ==> final(buffer)@ == old(buffer)@,
            r is Ok ==> final(buffer)@ == spec_built_prefix(
                provided_len as nat,
                scid,
                vcid,
                source_or_dest,
                map_id,
                bypass,
                protocol_control_command,
                ocf_flag,
                vcf_count_length,
                vcf_count,
            ) + old(buffer)@.subrange(7 + vcf_count_length, old(buffer)@.len() as int),
    {
        if vcid > 63 {
            return Err(BuildError::InvalidVcid(vcid));
        }
        if map_id > 15 {
            return Err(BuildError::InvalidMapId(map_id));
        }
        if vcf_count_length > 7 {
            return Err(BuildError::InvalidVcfCountLength(vcf_count_length));
        }
        let min_size = 7 + vcf_count_length as usize;
        if provided_len < min_size {
            return Err(BuildError::BufferTooSmall { required_len: min_size, provided_len });
        }
        if provided_len > 65536 {
            return Err(BuildError::FrameTooLarge { max_len: 65536, provided_len });
        }
        let mut header = UslpPrimaryHeaderFixed { id: 0, frame_length: 0, flags: 0 };
        header.set_tfvn(USLP_TFVN);
        let ghost i1 = header.id;
        header.set_scid(scid);
        let ghost i2 = header.id;
        header.set_source_or_dest(source_or_dest);
        let ghost i3 = header.id;
        header.set_vcid(vcid);
        let ghost i4 = header.id;
        header.set_map_id(map_id);
        let ghost i5 = header.id;
        header.set_eofph(false);
        header.set_frame_length((provided_len - 1) as u16);
        header.set_bypass(bypass);
        let ghost f1 = header.flags;
        header.set_protocol_control_command(protocol_control_command);
        let ghost f2 = header.flags;
        header.set_ocf_flag(ocf_flag);
        let ghost f3 = header.flags;
        header.set_vcf_count_length(vcf_count_length);
        proof {
            let s = scid;
            let v = vcid;
            let m = map_id;
            let sd: u32 = if source_or_dest {
                0x800
            } else {
                0
            };
            let i6 = header.id;
            assert(i6 == 0xC000_0000u32 | ((s as u32) << 12u32) | sd | ((v as u32) << 5u32) | ((m
                as u32) << 1u32)) by (bit_vector)
                requires
                    i1 == (0u32 & !TFVN_MASK) | (((12u8 as u32) << 28u32) & TFVN_MASK),
                    i2 == (i1 & !SCID_MASK) | (((s as u32) << 12u32) & SCID_MASK),
                    i3 == (i2 & !SRC_DEST_MASK) | sd,
                    i4 == (i3 & !VCID_MASK) | (((v as u32) << 5u32) & VCID_MASK),
                    i5 == (i4 & !MAP_ID_MASK) | (((m as u32) << 1u32) & MAP_ID_MASK),
                    i6 == (i5 & !EOFPH_MASK) | 0u32,
                    v <= 63,
                    m <= 15,
                    sd == 0 || sd == 0x800,
            ;
            let b: u8 = if bypass {
                0x80
            } else {
                0
            };
            let p: u8 = if protocol_control_command {
                0x40
            } else {
                0
            };
            let o: u8 = if ocf_flag {
                0x08
            } else {
                0
            };
            let c = vcf_count_length;
            let f4 = header.flags;
            assert(f4 == b | p | o | c) by (bit_vector)
                requires
                    f1 == (0u8 & !BYPASS_FLAG_MASK) | b,
                    f2 == (f1 & !PCC_FLAG_MASK) | p,
                    f3 == (f2 & !OCF_FLAG_MASK) | o,
                    f4 == (f3 & !VCF_COUNT_LEN_MASK) | (c & VCF_COUNT_LEN_MASK),
                    b == 0 || b == 0x80,
                    p == 0 || p == 0x40,
                    o == 0 || o == 0x08,
                    c <= 7,
            ;
        }
        let ghost b0 = buffer@;
        proof {
            crate::utils::lemma_be_bytes_len(header.id as nat, 4);
            crate::utils::lemma_be_bytes_len(header.frame_length as nat, 2);
        }
        header.write_to(buffer);
        let vcf_len = vcf_count_length as usize;
        proof {
            crate::utils::lemma_be_bytes_len(vcf_count as nat, vcf_len as nat);
        }
        write_be(buffer, 7, vcf_len, vcf_count);
        assert(buffer@ =~= spec_built_prefix(
            provided_len as nat,
            scid,
            vcid,
            source_or_dest,
            map_id,
            bypass,
            protocol_control_command,
            ocf_flag,
            vcf_count_length,
            vcf_count,
        ) + b0.subrange(7 + vcf_count_length, b0.len() as int));
        Ok(provided_len)
    }
}

/// A frame that `UslpTransferFrame::new` built parses, and its header
/// reports the identifiers, flags, VCF Count Length and frame length it
/// was built with.
pub proof fn lemma_build_parse_roundtrip(
    len: nat,
    scid: u16,
    vcid: u8,
    source_or_dest: bool,
    map_id: u8,
    bypass: bool,
    pcc: bool,
    ocf_flag: bool,
    vcf_count_length: u8,
    vcf_count: u64,
    rest: Seq<u8>,
)
    requires
        vcid <= 63,
        map_id <= 15,
        vcf_count_length <= 7,
        7 + vcf_count_length <= len <= 65536,
        rest.len() == len - 7 - vcf_count_length,
    ensures
        ({
            let b = spec_built_prefix(
                len,
                scid,
                vcid,
                source_or_dest,
                map_id,
                bypass,
                pcc,
                ocf_flag,
                vcf_count_length,
                vcf_count,
            ) + rest;
            let h = spec_header_from(b);
            &&& spec_parse_error(b) is None
            &&& h.spec_tfvn() == USLP_TFVN
            &&& h.spec_scid() == scid
            &&& h.spec_source_or_dest() == source_or_dest
            &&& h.spec_vcid() == vcid
            &&& h.spec_map_id() == map_id
            &&& !h.spec_eofph()
            &&& h.spec_frame_length() == len - 1
            &&& h.spec_bypass() == bypass
            &&& h.spec_pcc() == pcc
            &&& h.spec_ocf_flag() == ocf_flag
            &&& h.spec_vcf_count_length() == vcf_count_length
            &&& b.subrange(7, 7 + vcf_count_length) == be_bytes(vcf_count as nat, vcf_count_length as nat)
        }),
{
    let id = spec_built_id(scid, source_or_dest, vcid, map_id);
    let flags = spec_built_flags(bypass, pcc, ocf_flag, vcf_count_length);
    let fl = (len - 1) as u16;
    let b = spec_built_prefix(len, scid, vcid, source_or_dest, map_id, bypass, pcc, ocf_flag, vcf_count_length, vcf_count) + rest;
    crate::utils::lemma_pow256_values();
    crate::utils::lemma_be_roundtrip_fits(id as nat, 4);
    crate::utils::lemma_be_roundtrip_fits(fl as nat, 2);
    crate::utils::lemma_be_bytes_len(vcf_count as nat, vcf_count_length as nat);
    assert(b.subrange(0, 4) =~= be_bytes(id as nat, 4));
    assert(b.subrange(4, 6) =~= be_bytes(fl as nat, 2));
    assert(b[6] == flags);
    assert(b.subrange(7, 7 + vcf_count_length) =~= be_bytes(vcf_count as nat, vcf_count_length as nat));
    let s = scid;
    let v = vcid;
    let m = map_id;
    let sd: u32 = if source_or_dest {
        0x800
    } else {
        0
    };
    assert(((id & TFVN_MASK) >> 28u32) as u8 == 12u8 && ((id & SCID_MASK) >> 12u32) as u16 == s && (id
        & SRC_DEST_MASK != 0) == (sd != 0) && ((id & VCID_MASK) >> 5u32) as u8 == v && ((id
        & MAP_ID_MASK) >> 1u32) as u8 == m && id & EOFPH_MASK == 0) by (bit_vector)
        requires
            id == 0xC000_0000u32 | ((s as u32) << 12u32) | sd | ((v as u32) << 5u32) | ((m as u32)
                << 1u32),
            v <= 63,
            m <= 15,
            sd == 0 || sd == 0x800,
    ;
    let bp: u8 = if bypass {
        0x80
    } else {
        0
    };
    let pc: u8 = if pcc {
        0x40
    } else {
        0
    };
    let oc: u8 = if ocf_flag {
        0x08
    } else {
        0
    };
    let c = vcf_count_length;
    assert((flags & BYPASS_FLAG_MASK != 0) == (bp != 0) && (flags & PCC_FLAG_MASK != 0) == (pc != 0)
        && (flags & OCF_FLAG_MASK != 0) == (oc != 0) && flags & VCF_COUNT_LEN_MASK == c) by (bit_vector)
        requires
            flags == bp | pc | oc | c,
            bp == 0 || bp == 0x80,
            pc == 0 || pc == 0x40,
            oc == 0 || oc == 0x08,
            c <= 7,
    ;
}

/// Configuration for building USLP transfer frames.
#[derive(Debug, Clone)]
pub struct UslpFrameWriterConfig {
    /// Spacecraft ID (16-bit).
    pub scid: u16,
    /// Virtual Channel ID (6-bit).
    pub vcid: u8,
    /// Multiplexer Access Point ID (4-bit).
    pub map_id: u8,
    /// Bypass/Sequence Control Flag.
    pub bypass: bool,
    /// Protocol Control Command Flag.
    pub protocol_control_command: bool,
    /// Operational Control Field Flag.
    pub ocf_flag: bool,
    /// VCF Count field length in bytes (0-7).
    pub vcf_count_length: u8,
    /// Insert Zone length in bytes.
    pub insert_zone_len: usize,
    /// TFDZ Construction Rule.
    pub tfdz_rule: TfdzRule,
    /// USLP Protocol Identifier.
    pub upid: u8,
    /// Whether a 2-byte FECF is appended.
    pub fecf_present: bool,
    /// Maximum data zone length in bytes (payload capacity).
    pub max_data_zone_len: usize,
}

/// Where the data zone starts in a frame built with `c`: after the fixed
/// header, the VCF Count, the Insert Zone and the TFDF Header.
pub open spec fn spec_data_zone_offset(c: UslpFrameWriterConfig) -> nat {
    (7 + c.vcf_count_length + c.insert_zone_len + (if c.tfdz_rule.spec_has_pointer() {
        3nat
    } else {
        1nat
    })) as nat
}

/// The OCF and FECF lengths of frames built with `c`.
pub open spec fn spec_trailer_len(c: UslpFrameWriterConfig) -> nat {
    (if c.ocf_flag {
        4nat
    } else {
        0nat
    }) + (if c.fecf_present {
        2nat
    } else {
        0nat
    })
}

/// The TFDF Header bytes of frames built with `c`: rule and UPID, then a
/// zero pointer for the rules that carry one.
pub open spec fn spec_tfdf_header(c: UslpFrameWriterConfig) -> Seq<u8> {
    let b0 = ((c.tfdz_rule.spec_code() << 5u8) | (c.upid & UPID_MASK)) as u8;
    if c.tfdz_rule.spec_has_pointer() {
        seq![b0, 0u8, 0u8]
    } else {
        seq![b0]
    }
}

/// Accumulates packets into USLP transfer frames.
///
/// Owns its frame buffer internally (sized by `BUF`). Packets
/// are pushed directly into the buffer at the correct offset.
/// [`finish()`](FrameWriter::finish) stamps the header and
/// returns a borrow of the completed frame.
pub struct UslpFrameWriter<const BUF: usize> {
    config: UslpFrameWriterConfig,
    vcf_count: u64,
    data_zone_offset: usize,
    data_len: usize,
    buf: Vec<u8>,
}

impl<const BUF: usize> UslpFrameWriter<BUF> {
    /// The configuration.
    pub closed spec fn spec_config(&self) -> UslpFrameWriterConfig {
        self.config
    }

    /// The VCF Count that the next frame carries.
    pub closed spec fn spec_vcf_count(&self) -> u64 {
        self.vcf_count
    }

    /// The number of payload bytes pushed into the current frame.
    pub closed spec fn spec_data_len(&self) -> nat {
        self.data_len as nat
    }

    /// The frame buffer.
    pub closed spec fn spec_buf(&self) -> Seq<u8> {
        self.buf@
    }

    /// The buffer holds `BUF` bytes, the data zone starts where the
    /// configuration puts it, and the pushed payload is within the data
    /// zone's capacity.
    pub open spec fn wf(&self) -> bool {
        &&& self.spec_buf().len() == BUF
        &&& self.offset_matches_config()
        &&& self.spec_data_len() <= self.spec_config().max_data_zone_len
    }

    /// The data zone offset kept by the writer is the one its
    /// configuration gives.
    pub closed spec fn offset_matches_config(&self) -> bool {
        self.data_zone_offset == spec_data_zone_offset(self.config)
    }

    /// Creates a new USLP frame writer.
    pub fn new(config: UslpFrameWriterConfig) -> (w: Self)
        requires
            spec_data_zone_offset(config) <= usize::MAX,
        ensures
            w.wf(),
            w.spec_config() == config,
            w.spec_vcf_count() == 0,
            w.spec_data_len() == 0,
    {
        let tfdf_header_len: usize = if config.tfdz_rule.has_pointer() {
            3
        } else {
            1
        };
        let data_zone_offset = 7 + config.vcf_count_length as usize + config.insert_zone_len
            + tfdf_header_len;
        UslpFrameWriter { config, vcf_count: 0, data_zone_offset, data_len: 0, buf: vec![0u8; BUF] }
    }

    /// Bytes of data zone still free in the current frame.
    fn remaining(&self) -> (n: usize)
        requires
            self.wf(),
        ensures
            n == self.config.max_data_zone_len - self.data_len,
    {
        self.config.max_data_zone_len - self.data_len
    }
}

impl<const BUF: usize> FrameWriter for UslpFrameWriter<BUF> {
    type Error = BuildError;

    /// Well formed, and the largest frame (full data zone and trailer)
    /// fits in the buffer.
    open spec fn ready(&self) -> bool {
        &&& self.wf()
        &&& spec_data_zone_offset(self.spec_config()) + self.spec_config().max_data_zone_len
            + spec_trailer_len(self.spec_config()) <= BUF
    }

    /// No payload has been pushed into the current frame.
    open spec fn spec_is_empty(&self) -> bool {
        self.spec_data_len() == 0
    }

    open spec fn spec_push_result(&self, data: Seq<u8>) -> Result<(), PushError> {
        spec_push_outcome(data.len(), self.spec_config().max_data_zone_len as nat, self.spec_data_len())
    }

    open spec fn spec_finish_ok(&self) -> bool {
        spec_build_result(
            spec_data_zone_offset(self.spec_config()) + self.spec_data_len() + spec_trailer_len(self.spec_config()),
            self.spec_config().vcid,
            self.spec_config().map_id,
            self.spec_config().vcf_count_length,
        ) is Ok
    }

    open spec fn spec_finished_len(&self) -> nat {
        spec_data_zone_offset(self.spec_config()) + self.spec_data_len() + spec_trailer_len(self.spec_config())
    }

    /// The pushed payload behind a primary header with the configured
    /// fields, the frame length and the current VC frame count, the
    /// insert zone and a TFDF header.
    open spec fn spec_finished_frame(&self) -> Seq<u8> {
        let c = self.spec_config();
        let total = self.spec_finished_len();
        let b0 = self.spec_buf();
        let b1 = spec_built_prefix(
            total,
            c.scid,
            c.vcid,
            false,
            c.map_id,
            c.bypass,
            c.protocol_control_command,
            c.ocf_flag,
            c.vcf_count_length,
            self.spec_vcf_count(),
        ) + b0.subrange(7 + c.vcf_count_length, b0.len() as int);
        splice(b1, 7 + c.vcf_count_length + c.insert_zone_len, spec_tfdf_header(c)).subrange(
            0,
            total as int,
        )
    }

    fn is_empty(&self) -> (b: bool)
        ensures
            b == (self.spec_data_len() == 0),
    {
        self.data_len == 0
    }

    fn finish_ok(&self) -> (b: bool) {
        let total = self.finished_len();
        self.config.vcid <= 63 && self.config.map_id <= 15 && self.config.vcf_count_length <= 7
            && total >= 7 + self.config.vcf_count_length as usize && total <= 65536
    }

    fn finished_len(&self) -> (n: usize) {
        let trailer: usize = (if self.config.ocf_flag {
            4
        } else {
            0
        }) + (if self.config.fecf_present {
            2
        } else {
            0
        });
        self.data_zone_offset + self.data_len + trailer
    }

    /// Appends `data` to the data zone: `TooLarge` beyond the data zone's
    /// capacity, `Full` beyond what is left of it.
    fn push(&mut self, data: &[u8]) -> (r: Result<(), PushError>)
        ensures
            ({
                let c = old(self).spec_config();
                let used = old(self).spec_data_len();
                &&& data@.len() > c.max_data_zone_len ==> r == Err::<(), PushError>(PushError::TooLarge)
                &&& data@.len() <= c.max_data_zone_len && data@.len() > c.max_data_zone_len - used
                    ==> r == Err::<(), PushError>(PushError::Full)
                &&& r is Err ==> final(self).spec_buf() == old(self).spec_buf() && final(self).spec_data_len() == used
                &&& r is Ok ==> final(self).spec_buf() == splice(
                    old(self).spec_buf(),
                    (spec_data_zone_offset(c) + used) as int,
                    data@,
                ) && final(self).spec_data_len() == used + data@.len()
                &&& data@.len() <= c.max_data_zone_len - used ==> r is Ok
                &&& final(self).spec_config() == c
                &&& final(self).spec_vcf_count() == old(self).spec_vcf_count()
            }),
    {
        if data.len() > self.config.max_data_zone_len {
            return Err(PushError::TooLarge);
        }
        if data.len() > self.remaining() {
            return Err(PushError::Full);
        }
        let off = self.data_zone_offset + self.data_len;
        copy_in(self.buf.as_mut_slice(), off, data);
        self.data_len = self.data_len + data.len();
        Ok(())
    }

    /// Stamps the primary header (with the current VCF Count, which then
    /// moves on by one) and the TFDF Header over the pushed payload, and
    /// returns the frame: data zone offset + payload + OCF + FECF bytes.
    #[verifier::rlimit(60)]
    fn finish(&mut self) -> (r: Result<&[u8], BuildError>)
        ensures
            ({
                let c = old(self).spec_config();
                let total = spec_data_zone_offset(c) + old(self).spec_data_len() + spec_trailer_len(c);
                let vcf = old(self).spec_vcf_count();
                let b0 = old(self).spec_buf();
                let built = spec_build_result(total, c.vcid, c.map_id, c.vcf_count_length);
                &&& final(self).spec_vcf_count() == (if vcf == u64::MAX {
                    0
                } else {
                    (vcf + 1) as u64
                })
                &&& final(self).spec_config() == c
                &&& built matches Err(e) ==> r == Err::<&[u8], BuildError>(e) && final(self).spec_buf()
                    == b0 && final(self).spec_data_len() == old(self).spec_data_len()
                &&& built is Ok ==> {
                    let b1 = spec_built_prefix(
                        total,
                        c.scid,
                        c.vcid,
                        false,
                        c.map_id,
                        c.bypass,
                        c.protocol_control_command,
                        c.ocf_flag,
                        c.vcf_count_length,
                        vcf,
                    ) + b0.subrange(7 + c.vcf_count_length, b0.len() as int);
                    &&& final(self).spec_buf() == splice(
                        b1,
                        7 + c.vcf_count_length + c.insert_zone_len,
                        spec_tfdf_header(c),
                    )
                    &&& final(self).spec_data_len() == 0
                    &&& r matches Ok(s) && s@ == final(self).spec_buf().subrange(0, total as int)
                }
            }),
    {
        let ocf_len: usize = if self.config.ocf_flag {
            4
        } else {
            0
        };
        let fecf_len: usize = if self.config.fecf_present {
            2
        } else {
            0
        };
        let total = self.data_zone_offset + self.data_len + ocf_len + fecf_len;
        let vcf_count = self.vcf_count;
        self.vcf_count = self.vcf_count.wrapping_add(1);
        let built = UslpTransferFrame::build(
            self.buf.as_mut_slice(),
            total,
            self.config.scid,
            self.config.vcid,
            false,
            self.config.map_id,
            self.config.bypass,
            self.config.protocol_control_command,
            self.config.ocf_flag,
            self.config.vcf_count_length,
            vcf_count,
        );
        match built {
            Ok(_) => {},
            Err(e) => {
                return Err(e);
            },
        }
        let ghost b1 = self.buf@;
        proof {
            crate::utils::lemma_be_bytes_len(
                spec_built_id(self.config.scid, false, self.config.vcid, self.config.map_id) as nat,
                4,
            );
            crate::utils::lemma_be_bytes_len((total - 1) as nat, 2);
            crate::utils::lemma_be_bytes_len(vcf_count as nat, self.config.vcf_count_length as nat);
            let fl = spec_built_flags(
                self.config.bypass,
                self.config.protocol_control_command,
                self.config.ocf_flag,
                self.config.vcf_count_length,
            );
            let c = self.config.vcf_count_length;
            let bp = self.config.bypass;
            let pc = self.config.protocol_control_command;
            let oc = self.config.ocf_flag;
            assert(b1[6] == fl);
            assert(fl & VCF_COUNT_LEN_MASK == c) by (bit_vector)
                requires
                    c <= 7,
                    fl == (if bp {
                        0x80u8
                    } else {
                        0u8
                    }) | (if pc {
                        0x40u8
                    } else {
                        0u8
                    }) | (if oc {
                        0x08u8
                    } else {
                        0u8
                    }) | c,
            ;
        }
        let pointer: Option<u16> = if self.config.tfdz_rule.has_pointer() {
            Some(0)
        } else {
            None
        };
        UslpTransferFrame::set_tfdf_header(
            self.buf.as_mut_slice(),
            self.config.insert_zone_len,
            self.config.tfdz_rule,
            self.config.upid,
            pointer,
        );
        proof {
            let off = 7 + self.config.vcf_count_length + self.config.insert_zone_len;
            let b0 = ((self.config.tfdz_rule.spec_code() << 5u8) | (self.config.upid & UPID_MASK)) as u8;
            assert(pointer matches Some(p) ==> (p / 256) as u8 == 0u8 && (p % 256) as u8 == 0u8);
        }
        self.data_len = 0;
        Ok(vstd::slice::slice_subrange(self.buf.as_slice(), 0, total))
    }
}

/// Extracts packets from a received USLP transfer frame.
///
/// Owns its frame buffer internally (sized by `BUF`). The
/// coding layer writes into
/// [`buffer_mut()`](FrameReader::buffer_mut),
/// [`feed()`](FrameReader::feed) validates the header, and
/// [`next()`](FrameReader::next) returns the data zone once.
pub struct UslpFrameReader<const BUF: usize> {
    insert_zone_len: usize,
    fecf_present: bool,
    buf: Vec<u8>,
    data_start: usize,
    data_end: usize,
    pending: bool,
}

/// Whether a received frame of `len` bytes (of `b`) that parses can be
/// taken apart with an Insert Zone of `iz` bytes: its TFDF Header and its
/// trailer fit in the frame.
pub open spec fn spec_frame_fits(b: Seq<u8>, len: nat, iz: nat, fecf_present: bool) -> bool {
    spec_parse_error(b.subrange(0, len as int)) is None ==> {
        let flags = b[6];
        let off = 7 + (flags & VCF_COUNT_LEN_MASK) + iz;
        &&& off < len
        &&& off + (if (b[off] >> 5u8) <= 2 {
            3int
        } else {
            1
        }) + (if flags & OCF_FLAG_MASK != 0 {
            4int
        } else {
            0
        }) + (if fecf_present {
            2int
        } else {
            0
        }) <= len
    }
}

impl<const BUF: usize> UslpFrameReader<BUF> {
    /// The reception buffer.
    pub closed spec fn spec_buf(&self) -> Seq<u8> {
        self.buf@
    }

    /// The data zone bounds found by the last successful `feed`.
    pub closed spec fn spec_data_bounds(&self) -> (nat, nat) {
        (self.data_start as nat, self.data_end as nat)
    }

    /// The managed Insert Zone length and FECF presence.
    pub closed spec fn spec_params(&self) -> (nat, bool) {
        (self.insert_zone_len as nat, self.fecf_present)
    }

    /// Whether `next` still has the data zone to hand out.
    pub closed spec fn spec_pending(&self) -> bool {
        self.pending
    }

    /// Where the data zone of a frame in the first `len` bytes of the
    /// buffer lies: behind the primary header, the managed Insert Zone and
    /// the TFDF Header (3 bytes with a pointer, else 1), up to the OCF and
    /// FECF that the frame carries.
    pub open spec fn spec_fed_bounds(&self, len: nat) -> (nat, nat) {
        let b = self.spec_buf().subrange(0, len as int);
        let (iz, fecf) = self.spec_params();
        let flags = b[6];
        let off = 7 + (flags & VCF_COUNT_LEN_MASK) + iz;
        (
            (off + (if (b[off] >> 5u8) <= 2 {
                3nat
            } else {
                1nat
            })) as nat,
            (len - (if flags & OCF_FLAG_MASK != 0 {
                4int
            } else {
                0
            }) - (if fecf {
                2int
            } else {
                0
            })) as nat,
        )
    }

    /// Creates a new USLP frame reader.
    pub fn new(insert_zone_len: usize, fecf_present: bool) -> (r: Self)
        ensures
            r.ready(),
            r.spec_params() == (insert_zone_len as nat, fecf_present),
            !r.spec_pending(),
    {
        UslpFrameReader {
            insert_zone_len,
            fecf_present,
            buf: vec![0u8; BUF],
            data_start: 0,
            data_end: 0,
            pending: false,
        }
    }

    /// The data zone of the last frame fed.
    pub fn data_field(&self) -> (d: &[u8])
        requires
            self.ready(),
        ensures
            d@ == self.spec_buf().subrange(
                self.spec_data_bounds().0 as int,
                self.spec_data_bounds().1 as int,
            ),
    {
        vstd::slice::slice_subrange(self.buf.as_slice(), self.data_start, self.data_end)
    }
}

impl<const BUF: usize> FrameReader for UslpFrameReader<BUF> {
    type Error = ParseError;

    /// `len` is within the buffer, and a frame that parses there has room
    /// for its TFDF Header and trailer.
    open spec fn can_feed(&self, len: nat) -> bool {
        len <= BUF && spec_frame_fits(
            self.spec_buf(),
            len,
            self.spec_params().0,
            self.spec_params().1,
        )
    }

    /// The buffer holds `BUF` bytes and the data bounds lie within it.
    fn can_feed_len(&self, len: usize) -> (b: bool) {
        if len > BUF {
            return false;
        }
        let bytes = vstd::slice::slice_subrange(self.buf.as_slice(), 0, len);
        match UslpTransferFrame::parse(bytes) {
            Ok(_) => {},
            Err(_) => {
                return true;
            },
        }
        proof {
            lemma_field_bounds();
        }
        let flags = bytes[6];
        let vcf_len = (flags & VCF_COUNT_LEN_MASK) as usize;
        let iz = self.insert_zone_len;
        if iz >= len || len - iz <= 7 + vcf_len {
            return false;
        }
        let off = 7 + vcf_len + iz;
        let tfdf: usize = if (bytes[off] >> 5) <= 2 {
            3
        } else {
            1
        };
        let ocf: usize = if flags & OCF_FLAG_MASK != 0 {
            4
        } else {
            0
        };
        let fecf: usize = if self.fecf_present {
            2
        } else {
            0
        };
        len - off >= tfdf + ocf + fecf
    }

    closed spec fn ready(&self) -> bool {
        &&& self.buf@.len() == BUF
        &&& self.data_start <= self.data_end <= BUF
    }

    open spec fn spec_feed_ok(&self, len: nat) -> bool {
        spec_parse_error(self.spec_buf().subrange(0, len as int)) is None
    }

    /// The data zone of the new frame.
    open spec fn spec_fed_next(&self, len: nat) -> Option<Seq<u8>> {
        Some(
            self.spec_buf().subrange(
                self.spec_fed_bounds(len).0 as int,
                self.spec_fed_bounds(len).1 as int,
            ),
        )
    }

    /// The data field of the frame fed last, while not handed out yet.
    open spec fn spec_next(&self) -> Option<Seq<u8>> {
        if self.spec_pending() {
            Some(self.spec_buf().subrange(self.spec_data_bounds().0 as int, self.spec_data_bounds().1 as int))
        } else {
            None
        }
    }

    /// The reception buffer.
    open spec fn spec_buffer(&self) -> Seq<u8> {
        self.spec_buf()
    }

    fn buffer_len(&self) -> (n: usize) {
        self.buf.len()
    }

    fn buffer_mut(&mut self) -> (b: &mut [u8])
        ensures
            b@ == old(self).spec_buf(),
            final(self).spec_buf() == final(b)@,
            final(self).spec_data_bounds() == old(self).spec_data_bounds(),
            final(self).spec_params() == old(self).spec_params(),
            final(self).spec_pending() == old(self).spec_pending(),
    {
        self.buf.as_mut_slice()
    }

    /// Parses the first `len` bytes as a frame and records where its data
    /// zone lies.
    fn feed(&mut self, len: usize) -> (r: Result<(), ParseError>)
        ensures
            ({
                let b = old(self).spec_buf().subrange(0, len as int);
                let (iz, fecf) = old(self).spec_params();
                &&& spec_parse_error(b) matches Some(e) ==> r == Err::<(), ParseError>(e)
                    && final(self).spec_data_bounds() == old(self).spec_data_bounds()
                    && final(self).spec_pending() == old(self).spec_pending()
                &&& spec_parse_error(b) is None ==> {
                    let flags = b[6];
                    let off = 7 + (flags & VCF_COUNT_LEN_MASK) + iz;
                    &&& r is Ok
                    &&& final(self).spec_pending()
                    &&& final(self).spec_data_bounds() == (
                        (off + (if (b[off] >> 5u8) <= 2 {
                            3nat
                        } else {
                            1nat
                        })) as nat,
                        (len - (if flags & OCF_FLAG_MASK != 0 {
                            4int
                        } else {
                            0
                        }) - (if fecf {
                            2int
                        } else {
                            0
                        })) as nat,
                    )
                }
                &&& final(self).spec_buf() == old(self).spec_buf()
                &&& final(self).spec_params() == old(self).spec_params()
            }),
    {
        let bytes = vstd::slice::slice_subrange(self.buf.as_slice(), 0, len);
        let frame = match UslpTransferFrame::parse(bytes) {
            Ok(f) => f,
            Err(e) => {
                return Err(e);
            },
        };
        let rule = frame.tfdz_rule(self.insert_zone_len);
        let tfdf_hdr_len: usize = if rule.has_pointer() {
            3
        } else {
            1
        };
        let header_overhead = 7 + frame.header().vcf_count_length() as usize + self.insert_zone_len
            + tfdf_hdr_len;
        let ocf_len: usize = if frame.header().ocf_flag() {
            4
        } else {
            0
        };
        let fecf_len: usize = if self.fecf_present {
            2
        } else {
            0
        };
        self.data_start = header_overhead;
        self.data_end = len - ocf_len - fecf_len;
        self.pending = true;
        Ok(())
    }

    /// The data zone of the frame fed last, once.
    fn next(&mut self) -> (r: Option<&[u8]>)
        ensures
            old(self).spec_pending() ==> (r matches Some(d) && d@ == old(self).spec_buf().subrange(
                old(self).spec_data_bounds().0 as int,
                old(self).spec_data_bounds().1 as int,
            )),
            !old(self).spec_pending() ==> r is None,
            !final(self).spec_pending(),
            final(self).spec_buf() == old(self).spec_buf(),
            final(self).spec_data_bounds() == old(self).spec_data_bounds(),
            final(self).spec_params() == old(self).spec_params(),
    {
        if !self.pending {
            return None;
        }
        self.pending = false;
        Some(vstd::slice::slice_subrange(self.buf.as_slice(), self.data_start, self.data_end))
    }
}

/// The VCF Count after one frame: one more, wrapping from the top to 0.
pub open spec fn spec_vcf_step(c: u64) -> u64 {
    if c == u64::MAX {
        0
    } else {
        (c + 1) as u64
    }
}

/// Over a run of `finish` calls, each moving the VCF Count on by one as
/// `finish` does, the count after `n` calls is the first count plus `n`,
/// modulo 2^64.
pub proof fn lemma_vcf_count_over_finishes<const BUF: usize>(ws: Seq<UslpFrameWriter<BUF>>)
    requires
        ws.len() >= 1,
        forall|i: int|
            0 <= i < ws.len() - 1 ==> #[trigger] ws[i + 1].spec_vcf_count() == spec_vcf_step(
                ws[i].spec_vcf_count(),
            ),
    ensures
        ws.last().spec_vcf_count() == ((ws[0].spec_vcf_count() + ws.len() - 1)
            % 0x1_0000_0000_0000_0000) as u64,
    decreases ws.len(),
{
    if ws.len() > 1 {
        let prev = ws.drop_last();
        assert forall|i: int| 0 <= i < prev.len() - 1 implies #[trigger] prev[i + 1].spec_vcf_count()
            == spec_vcf_step(prev[i].spec_vcf_count()) by {
            assert(prev[i + 1] == ws[i + 1]);
            assert(prev[i] == ws[i]);
        }
        lemma_vcf_count_over_finishes(prev);
        let k = ws.len() - 2;
        assert(ws[k + 1].spec_vcf_count() == spec_vcf_step(ws[k].spec_vcf_count()));
        assert(prev.last() == ws[k]);
    }
}

/// The frame that `finish` builds carries the data zone of the writer's
/// buffer unchanged: the header and TFDF Header lie before it.
proof fn lemma_finished_keeps_data_zone<const BUF: usize>(w: UslpFrameWriter<BUF>)
    requires
        w.spec_buf().len() == BUF,
        w.spec_finished_len() <= BUF,
    ensures
        ({
            let d = spec_data_zone_offset(w.spec_config()) as int;
            let n = w.spec_data_len() as int;
            w.spec_finished_frame().subrange(d, d + n) == w.spec_buf().subrange(d, d + n)
        }),
{
    let c = w.spec_config();
    let d = spec_data_zone_offset(c) as int;
    let n = w.spec_data_len() as int;
    let total = w.spec_finished_len() as int;
    let b = w.spec_buf();
    let pre = spec_built_prefix(
        total as nat,
        c.scid,
        c.vcid,
        false,
        c.map_id,
        c.bypass,
        c.protocol_control_command,
        c.ocf_flag,
        c.vcf_count_length,
        w.spec_vcf_count(),
    );
    crate::utils::lemma_be_bytes_len(w.spec_vcf_count() as nat, c.vcf_count_length as nat);
    crate::utils::lemma_be_bytes_len(spec_built_id(c.scid, false, c.vcid, c.map_id) as nat, 4);
    crate::utils::lemma_be_bytes_len(((total - 1) as u16) as nat, 2);
    assert(pre.len() == 7 + c.vcf_count_length);
    let b1 = pre + b.subrange(7 + c.vcf_count_length, b.len() as int);
    let h = spec_tfdf_header(c);
    let f = splice(b1, 7 + c.vcf_count_length + c.insert_zone_len, h);
    assert(w.spec_finished_frame() == f.subrange(0, total));
    assert(f.subrange(d, d + n) =~= b.subrange(d, d + n));
    assert(w.spec_finished_frame().subrange(d, d + n) =~= b.subrange(d, d + n));
}

/// Successive pushes at offset `d` onward lay their payloads out one after
/// the other.
proof fn lemma_pushes_lay_out(bufs: Seq<Seq<u8>>, lens: Seq<nat>, ps: Seq<Seq<u8>>, d: int)
    requires
        bufs.len() == ps.len() + 1,
        lens.len() == bufs.len(),
        lens[0] == 0,
        d >= 0,
        forall|i: int| 0 <= i < bufs.len() ==> d + #[trigger] lens[i] <= bufs[i].len(),
        forall|i: int|
            0 <= i < ps.len() ==> {
                &&& #[trigger] bufs[i + 1] == splice(bufs[i], d + lens[i], ps[i])
                &&& lens[i + 1] == lens[i] + ps[i].len()
            },
    ensures
        lens.last() == ps.flatten().len(),
        bufs.last().subrange(d, d + lens.last()) == ps.flatten(),
    decreases ps.len(),
{
    ps.lemma_flatten_and_flatten_alt_are_equivalent();
    if ps.len() > 0 {
        let k = ps.len() - 1;
        let pb = bufs.drop_last();
        let pl = lens.drop_last();
        let pp = ps.drop_last();
        assert forall|i: int| 0 <= i < pb.len() implies d + #[trigger] pl[i] <= pb[i].len() by {
            assert(pl[i] == lens[i]);
            assert(pb[i] == bufs[i]);
        }
        assert forall|i: int| 0 <= i < pp.len() implies {
            &&& #[trigger] pb[i + 1] == splice(pb[i], d + pl[i], pp[i])
            &&& pl[i + 1] == pl[i] + pp[i].len()
        } by {
            assert(pb[i + 1] == bufs[i + 1]);
            assert(pb[i] == bufs[i]);
            assert(pl[i] == lens[i]);
            assert(pl[i + 1] == lens[i + 1]);
            assert(pp[i] == ps[i]);
        }
        lemma_pushes_lay_out(pb, pl, pp, d);
        pp.lemma_flatten_and_flatten_alt_are_equivalent();
        assert(pb.last() == bufs[k]);
        assert(pl.last() == lens[k]);
        assert(bufs[k + 1] == splice(bufs[k], d + lens[k], ps[k]));
        assert(ps.flatten_alt() == pp.flatten_alt() + ps[k]);
        assert(lens[k] <= bufs[k].len());
        assert(bufs[k + 1].subrange(d, d + lens[k] + ps[k].len()) =~= bufs[k].subrange(d, d + lens[k])
            + ps[k]);
    }
}

/// Over a run of successful `push` calls into a frame that was empty, each
/// writing its payload after the ones before as `push` does, the data zone
/// holds the payloads one after the other, and the frame that `finish`
/// then builds carries them at the data zone's offset.
pub proof fn lemma_pushes_fill_data_zone<const BUF: usize>(ws: Seq<UslpFrameWriter<BUF>>, ps: Seq<Seq<u8>>)
    requires
        ws.len() == ps.len() + 1,
        ws[0].spec_data_len() == 0,
        forall|i: int|
            0 <= i < ws.len() ==> {
                &&& (#[trigger] ws[i]).spec_buf().len() == BUF
                &&& ws[i].spec_config() == ws[0].spec_config()
                &&& spec_data_zone_offset(ws[0].spec_config()) + ws[i].spec_data_len() + spec_trailer_len(
                    ws[0].spec_config(),
                ) <= BUF
            },
        forall|i: int|
            0 <= i < ps.len() ==> {
                &&& #[trigger] ws[i + 1].spec_buf() == splice(
                    ws[i].spec_buf(),
                    (spec_data_zone_offset(ws[0].spec_config()) + ws[i].spec_data_len()) as int,
                    ps[i],
                )
                &&& ws[i + 1].spec_data_len() == ws[i].spec_data_len() + ps[i].len()
            },
    ensures
        ({
            let d = spec_data_zone_offset(ws[0].spec_config()) as int;
            let n = ps.flatten().len() as int;
            &&& ws.last().spec_data_len() == n
            &&& ws.last().spec_buf().subrange(d, d + n) == ps.flatten()
            &&& ws.last().spec_finished_frame().subrange(d, d + n) == ps.flatten()
        }),
{
    let c = ws[0].spec_config();
    let d = spec_data_zone_offset(c) as int;
    let bufs = Seq::new(ws.len(), |i: int| ws[i].spec_buf());
    let lens = Seq::new(ws.len(), |i: int| ws[i].spec_data_len());
    assert forall|i: int| 0 <= i < bufs.len() implies d + #[trigger] lens[i] <= bufs[i].len() by {
        assert(ws[i].spec_buf().len() == BUF);
    }
    assert forall|i: int| 0 <= i < ps.len() implies {
        &&& #[trigger] bufs[i + 1] == splice(bufs[i], d + lens[i], ps[i])
        &&& lens[i + 1] == lens[i] + ps[i].len()
    } by {
        assert(ws[i + 1].spec_buf() == splice(ws[i].spec_buf(), d + ws[i].spec_data_len(), ps[i]));
    }
    lemma_pushes_lay_out(bufs, lens, ps, d);
    let w = ws.last();
    assert(w == ws[ws.len() - 1]);
    assert(w.spec_buf().len() == BUF);
    assert(w.spec_config() == c);
    lemma_finished_keeps_data_zone(w);
}

/// The value on the wire of every `TfdzRule`, as the protocol's table fixes it.
pub proof fn lemma_tfdz_rule_values()
    ensures
        TfdzRule::PacketsSpanning.spec_code() == 0,
        TfdzRule::SduStart.spec_code() == 1,
        TfdzRule::SduContinue.spec_code() == 2,
        TfdzRule::OctetStream.spec_code() == 3,
        TfdzRule::StartingSegment.spec_code() == 4,
        TfdzRule::ContinuingSegment.spec_code() == 5,
        TfdzRule::LastSegment.spec_code() == 6,
        TfdzRule::NoSegmentation.spec_code() == 7,
{
}

/// The value on the wire of every `Upid`, as the protocol's table fixes it.
pub proof fn lemma_upid_values()
    ensures
        Upid::SpacePackets.spec_code() == 0,
        Upid::EncapsulationPackets.spec_code() == 1,
        Upid::Cop1Commands.spec_code() == 2,
        Upid::CopPCommands.spec_code() == 3,
        Upid::Sdls.spec_code() == 4,
        Upid::IdleData.spec_code() == 30,
        Upid::OnlyIdleData.spec_code() == 31,
{
}

} // verus!