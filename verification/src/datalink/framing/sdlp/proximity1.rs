//! CCSDS Proximity-1 Space Link Protocol — Data Link Layer (CCSDS 211.0-B-6)
//!
//! Implements the Version-3 Transfer Frame used for short-range,
//! bi-directional space links (e.g., orbiter-to-lander, rover-to-relay).
//!
//! # Layout
//!
//! ```text
//! +--------------------------------------+---------------------+
//! | Field Name                           | Size                |
//! +--------------------------------------+---------------------+
//! | -- Transfer Frame Header (5 bytes) --|                     |
//! | Transfer Frame Version Number        | 2 bits              |
//! | Quality of Service (QoS) Indicator   | 1 bit               |
//! | PDU Type ID                          | 1 bit               |
//! | Data Field Construction ID (DFC ID)  | 2 bits              |
//! | Spacecraft Identifier (SCID)         | 10 bits             |
//! | Physical Channel Identifier (PCID)   | 1 bit               |
//! | Port Identifier                      | 3 bits              |
//! | Source-or-Destination Identifier     | 1 bit               |
//! | Frame Length                         | 11 bits             |
//! | Frame Sequence Number (FSN)          | 8 bits              |
//! | -- Data Field ------------------------| 0 - 2043 bytes      |
//! +--------------------------------------+---------------------+
//! ```
use vstd::prelude::*;

use crate::datalink::framing::{spec_push_outcome, FrameReader, FrameWriter, PushError};
use crate::utils::{be_bytes, be_value, copy_in, read_be, splice, write_be};
use crate::text::{push_decimal, spec_decimal};
use vstd::string::StringExecFns;

verus! {

/// 2-bit Transfer Frame Version Number (bits 0–1).
pub const VERSION_MASK: u16 = 0b_1100_0000_0000_0000;

/// 1-bit Quality of Service indicator (bit 2).
pub const QOS_MASK: u16 = 0b_0010_0000_0000_0000;

/// 1-bit PDU Type ID (bit 3).
pub const PDU_TYPE_MASK: u16 = 0b_0001_0000_0000_0000;

/// 2-bit Data Field Construction ID (bits 4–5).
pub const DFC_ID_MASK: u16 = 0b_0000_1100_0000_0000;

/// 10-bit Spacecraft Identifier (bits 6–15).
pub const SCID_MASK: u16 = 0b_0000_0011_1111_1111;

/// 1-bit Physical Channel Identifier (bit 16).
pub const PCID_MASK: u16 = 0b_1000_0000_0000_0000;

/// 3-bit Port Identifier (bits 17–19).
pub const PORT_ID_MASK: u16 = 0b_0111_0000_0000_0000;

/// 1-bit Source-or-Destination Identifier (bit 20).
pub const SRC_DEST_MASK: u16 = 0b_0000_1000_0000_0000;

/// 11-bit Frame Length field (bits 21–31).
pub const FRAME_LEN_MASK: u16 = 0b_0000_0111_1111_1111;

/// SPDU Format ID (bit 0) — always 1 for fixed-length.
pub const FORMAT_ID_MASK: u16 = 0b_1000_0000_0000_0000;

/// SPDU Type Identifier (bit 1) — 0 = PLCW.
pub const TYPE_ID_MASK: u16 = 0b_0100_0000_0000_0000;

/// Retransmit Flag (bit 2).
pub const RETRANSMIT_MASK: u16 = 0b_0010_0000_0000_0000;

/// PCID (bit 3).
pub const PLCW_PCID_MASK: u16 = 0b_0001_0000_0000_0000;

/// Expedited Frame Counter (bits 5-7), mod-8.
pub const EXP_COUNTER_MASK: u16 = 0b_0000_0111_0000_0000;

/// Report Value V(R) (bits 8-15).
pub const REPORT_VALUE_MASK: u16 = 0b_0000_0000_1111_1111;

/// The Proximity-1 Version-3 Transfer Frame version (binary '10').
pub const PROXIMITY1_VERSION: u8 = 0b10;

/// Maximum total frame size in bytes (header + data).
pub const MAX_FRAME_LEN: usize = 2048;

/// Maximum data field size in bytes.
pub const MAX_DATA_FIELD_LEN: usize = 2043;

/// Quality of Service indicator.
#[derive(Debug, Copy, Clone, Eq, PartialEq, Structural)]
pub enum QoS {
    /// Sequence Controlled service (reliable, in-order delivery).
    SequenceControlled,
    /// Expedited service (best-effort, no ARQ).
    Expedited,
}

/// PDU Type — distinguishes user data from supervisory frames.
#[derive(Debug, Copy, Clone, Eq, PartialEq, Structural)]
pub enum PduType {
    /// U-frame: Transfer Frame Data field contains user data.
    UserData,
    /// P-frame: Transfer Frame Data field contains SPDUs.
    Supervisory,
}

/// Data Field Construction Identifier.
///
/// Indicates how the data field of a U-frame is organized.
/// In a P-frame, this shall be set to `Packets` (binary '00').
#[derive(Debug, Copy, Clone, Eq, PartialEq, Structural)]
pub enum DfcId {
    /// Integer number of unsegmented packets (binary '00').
    Packets,
    /// A complete or segmented packet (binary '01').
    Segments,
    /// Reserved for future CCSDS definition (binary '10').
    Reserved,
    /// User-defined data (binary '11').
    UserDefined,
}

/// The DFC ID with code `code` (its low 2 bits).
pub open spec fn spec_dfc_id(code: u16) -> DfcId {
    if code % 4 == 0 {
        DfcId::Packets
    } else if code % 4 == 1 {
        DfcId::Segments
    } else if code % 4 == 2 {
        DfcId::Reserved
    } else {
        DfcId::UserDefined
    }
}

impl DfcId {
    /// The 2-bit code.
    pub open spec fn spec_code(self) -> u16 {
        match self {
            DfcId::Packets => 0,
            DfcId::Segments => 1,
            DfcId::Reserved => 2,
            DfcId::UserDefined => 3,
        }
    }

    /// The 2-bit code.
    pub fn code(self) -> (c: u8)
        ensures
            c == self.spec_code(),
    {
        match self {
            DfcId::Packets => 0,
            DfcId::Segments => 1,
            DfcId::Reserved => 2,
            DfcId::UserDefined => 3,
        }
    }
}

/// Source-or-Destination Identifier.
#[derive(Debug, Copy, Clone, Eq, PartialEq, Structural)]
pub enum SrcDest {
    /// SCID identifies the source spacecraft.
    Source,
    /// SCID identifies the destination spacecraft.
    Destination,
}

/// An error that can occur during frame construction.
#[derive(Debug, Copy, Clone, Eq, PartialEq, Structural)]
pub enum BuildError {
    /// SCID exceeds the 10-bit range (0–1023).
    InvalidScid(u16),
    /// Port ID exceeds the 3-bit range (0–7).
    InvalidPortId(u8),
    /// Data field exceeds the maximum of 2043 bytes.
    DataTooLong(usize),
    /// The provided buffer is too small for the frame.
    BufferTooSmall {
        /// Minimum number of bytes needed for the frame.
        required: usize,
        /// Actual buffer size provided.
        provided: usize,
    },
}

/// An error that can occur during frame parsing.
#[derive(Debug, Copy, Clone, Eq, PartialEq, Structural)]
pub enum ParseError {
    /// Slice is shorter than the 5-byte header.
    TooShortForHeader {
        /// Actual number of bytes provided.
        actual: usize,
    },
    /// Header length field implies a larger frame than provided.
    IncompleteFrame {
        /// Total frame length declared in the header.
        header_len: usize,
        /// Actual buffer length provided.
        buffer_len: usize,
    },
    /// Version field is not binary '10'.
    InvalidVersion(u8),
}

/// The ranges of the header, PLCW and segment header fields.
proof fn lemma_field_bounds()
    by (bit_vector)
    ensures
        forall|x: u16| #[trigger] (x >> 14u16) < 4,
        forall|x: u16| #[trigger] ((x & DFC_ID_MASK) >> 10u16) <= 3,
        forall|x: u16| #[trigger] ((x & PORT_ID_MASK) >> 12u16) <= 7,
        forall|x: u16| #[trigger] ((x & EXP_COUNTER_MASK) >> 8u16) <= 7,
        forall|x: u16| #[trigger] (x & REPORT_VALUE_MASK) <= 255,
        forall|x: u8| #[trigger] (x >> 6u8) <= 3,
{
}

/// The 5-byte header of a Proximity-1 Version-3 Transfer Frame.
#[derive(Debug, Copy, Clone, Eq, PartialEq, Structural)]
pub struct Proximity1Header {
    /// Version(2) | QoS(1) | PDU Type(1) | DFC ID(2) | SCID(10).
    version_qos_pdu_dfc_scid: u16,
    /// PCID(1) | Port ID(3) | Src/Dest(1) | Frame Length(11).
    pcid_port_srcdst_len: u16,
    /// Frame Sequence Number (8 bits).
    fsn: u8,
}

/// The header that the first 5 bytes of `b` hold.
pub closed spec fn spec_header_from(b: Seq<u8>) -> Proximity1Header {
    Proximity1Header {
        version_qos_pdu_dfc_scid: be_value(b.subrange(0, 2)) as u16,
        pcid_port_srcdst_len: be_value(b.subrange(2, 4)) as u16,
        fsn: b[4],
    }
}

/// The first header word that `new` builds: version `10`, then QoS,
/// PDU type, DFC ID and SCID.
pub open spec fn spec_word0(qos: QoS, pdu_type: PduType, dfc_id: DfcId, scid: u16) -> u16 {
    0x8000u16 | (if qos == QoS::Expedited {
        0x2000u16
    } else {
        0u16
    }) | (if pdu_type == PduType::Supervisory {
        0x1000u16
    } else {
        0u16
    }) | ((dfc_id.spec_code() << 10u16) as u16) | scid
}

/// The second header word that `new` builds: PCID, port, source or
/// destination, and the frame length minus one.
pub open spec fn spec_word1(pcid: bool, port_id: u8, src_dest: SrcDest, total_len: nat) -> u16 {
    (if pcid {
        0x8000u16
    } else {
        0u16
    }) | (((port_id as u16) << 12u16) as u16) | (if src_dest == SrcDest::Destination {
        0x0800u16
    } else {
        0u16
    }) | ((total_len - 1) as u16)
}

impl Proximity1Header {
    /// The first header word.
    pub closed spec fn spec_w0(&self) -> u16 {
        self.version_qos_pdu_dfc_scid
    }

    /// The second header word.
    pub closed spec fn spec_w1(&self) -> u16 {
        self.pcid_port_srcdst_len
    }

    /// The frame sequence number.
    pub closed spec fn spec_fsn(&self) -> u8 {
        self.fsn
    }

    /// The total frame length that the header announces.
    pub open spec fn spec_frame_len(&self) -> nat {
        ((self.spec_w1() & FRAME_LEN_MASK) + 1) as nat
    }

    /// The 2-bit version.
    pub open spec fn spec_version(&self) -> u8 {
        (self.spec_w0() >> 14u16) as u8
    }

    /// Reads the header from the first 5 bytes of `b`.
    pub fn from_bytes(b: &[u8]) -> (h: Self)
        requires
            b@.len() >= 5,
        ensures
            h == spec_header_from(b@),
    {
        proof {
            crate::utils::lemma_pow256_values();
            crate::utils::lemma_be_value_bound(b@.subrange(0, 2));
            crate::utils::lemma_be_value_bound(b@.subrange(2, 4));
        }
        Proximity1Header {
            version_qos_pdu_dfc_scid: read_be(b, 0, 2) as u16,
            pcid_port_srcdst_len: read_be(b, 2, 2) as u16,
            fsn: b[4],
        }
    }

    /// Returns the 2-bit Transfer Frame Version Number.
    pub fn version(&self) -> (v: u8)
        ensures
            v == self.spec_version(),
    {
        proof {
            lemma_field_bounds();
        }
        (self.version_qos_pdu_dfc_scid >> 14) as u8
    }

    /// Sets the 2-bit Transfer Frame Version Number (its low 2 bits).
    pub fn set_version(&mut self, v: u8)
        ensures
            final(self).spec_w0() == (old(self).spec_w0() & !VERSION_MASK) | ((((v as u16) << 14u16)
                as u16) & VERSION_MASK),
            final(self).spec_w1() == old(self).spec_w1(),
            final(self).spec_fsn() == old(self).spec_fsn(),
    {
        self.version_qos_pdu_dfc_scid = (self.version_qos_pdu_dfc_scid & !VERSION_MASK) | (((v
            as u16) << 14) & VERSION_MASK);
    }

    /// Returns the Quality of Service indicator.
    pub fn qos(&self) -> (q: QoS)
        ensures
            (q == QoS::Expedited) == (self.spec_w0() & QOS_MASK != 0),
    {
        if self.version_qos_pdu_dfc_scid & QOS_MASK != 0 {
            QoS::Expedited
        } else {
            QoS::SequenceControlled
        }
    }

    /// Sets the Quality of Service indicator.
    pub fn set_qos(&mut self, qos: QoS)
        ensures
            final(self).spec_w0() == (old(self).spec_w0() & !QOS_MASK) | (if qos == QoS::Expedited {
                QOS_MASK
            } else {
                0u16
            }),
            final(self).spec_w1() == old(self).spec_w1(),
            final(self).spec_fsn() == old(self).spec_fsn(),
    {
        let bit: u16 = match qos {
            QoS::Expedited => QOS_MASK,
            QoS::SequenceControlled => 0,
        };
        self.version_qos_pdu_dfc_scid = (self.version_qos_pdu_dfc_scid & !QOS_MASK) | bit;
    }

    /// Returns the PDU Type ID.
    pub fn pdu_type(&self) -> (t: PduType)
        ensures
            (t == PduType::Supervisory) == (self.spec_w0() & PDU_TYPE_MASK != 0),
    {
        if self.version_qos_pdu_dfc_scid & PDU_TYPE_MASK != 0 {
            PduType::Supervisory
        } else {
            PduType::UserData
        }
    }

    /// Sets the PDU Type ID.
    pub fn set_pdu_type(&mut self, t: PduType)
        ensures
            final(self).spec_w0() == (old(self).spec_w0() & !PDU_TYPE_MASK) | (if t
                == PduType::Supervisory {
                PDU_TYPE_MASK
            } else {
                0u16
            }),
            final(self).spec_w1() == old(self).spec_w1(),
            final(self).spec_fsn() == old(self).spec_fsn(),
    {
        let bit: u16 = match t {
            PduType::Supervisory => PDU_TYPE_MASK,
            PduType::UserData => 0,
        };
        self.version_qos_pdu_dfc_scid = (self.version_qos_pdu_dfc_scid & !PDU_TYPE_MASK) | bit;
    }

    /// Returns the 2-bit Data Field Construction ID.
    pub fn dfc_id(&self) -> (d: DfcId)
        ensures
            d.spec_code() == (self.spec_w0() & DFC_ID_MASK) >> 10u16,
    {
        let x = self.version_qos_pdu_dfc_scid;
        let v = (x & DFC_ID_MASK) >> 10;
        proof {
            lemma_field_bounds();
        }
        if v == 0 {
            DfcId::Packets
        } else if v == 1 {
            DfcId::Segments
        } else if v == 2 {
            DfcId::Reserved
        } else {
            DfcId::UserDefined
        }
    }

    /// Sets the 2-bit Data Field Construction ID.
    pub fn set_dfc_id(&mut self, dfc: DfcId)
        ensures
            final(self).spec_w0() == (old(self).spec_w0() & !DFC_ID_MASK) | ((dfc.spec_code()
                << 10u16) as u16),
            final(self).spec_w1() == old(self).spec_w1(),
            final(self).spec_fsn() == old(self).spec_fsn(),
    {
        let c = dfc.code() as u16;
        self.version_qos_pdu_dfc_scid = (self.version_qos_pdu_dfc_scid & !DFC_ID_MASK) | (c << 10);
    }

    /// Returns the 10-bit Spacecraft Identifier.
    pub fn scid(&self) -> (s: u16)
        ensures
            s == self.spec_w0() & SCID_MASK,
    {
        self.version_qos_pdu_dfc_scid & SCID_MASK
    }

    /// Sets the 10-bit Spacecraft Identifier (its low 10 bits).
    pub fn set_scid(&mut self, scid: u16)
        ensures
            final(self).spec_w0() == (old(self).spec_w0() & !SCID_MASK) | (scid & SCID_MASK),
            final(self).spec_w1() == old(self).spec_w1(),
            final(self).spec_fsn() == old(self).spec_fsn(),
    {
        self.version_qos_pdu_dfc_scid = (self.version_qos_pdu_dfc_scid & !SCID_MASK) | (scid
            & SCID_MASK);
    }

    /// Returns the Physical Channel Identifier.
    pub fn pcid(&self) -> (p: bool)
        ensures
            p == (self.spec_w1() & PCID_MASK != 0),
    {
        self.pcid_port_srcdst_len & PCID_MASK != 0
    }

    /// Sets the Physical Channel Identifier.
    pub fn set_pcid(&mut self, pcid: bool)
        ensures
            final(self).spec_w1() == (old(self).spec_w1() & !PCID_MASK) | (if pcid {
                PCID_MASK
            } else {
                0u16
            }),
            final(self).spec_w0() == old(self).spec_w0(),
            final(self).spec_fsn() == old(self).spec_fsn(),
    {
        let bit: u16 = if pcid {
            PCID_MASK
        } else {
            0
        };
        self.pcid_port_srcdst_len = (self.pcid_port_srcdst_len & !PCID_MASK) | bit;
    }

    /// Returns the 3-bit Port Identifier.
    pub fn port_id(&self) -> (p: u8)
        ensures
            p == (self.spec_w1() & PORT_ID_MASK) >> 12u16,
    {
        proof {
            lemma_field_bounds();
        }
        ((self.pcid_port_srcdst_len & PORT_ID_MASK) >> 12) as u8
    }

    /// Sets the 3-bit Port Identifier (its low 3 bits).
    pub fn set_port_id(&mut self, id: u8)
        ensures
            final(self).spec_w1() == (old(self).spec_w1() & !PORT_ID_MASK) | ((((id as u16)
                << 12u16) as u16) & PORT_ID_MASK),
            final(self).spec_w0() == old(self).spec_w0(),
            final(self).spec_fsn() == old(self).spec_fsn(),
    {
        self.pcid_port_srcdst_len = (self.pcid_port_srcdst_len & !PORT_ID_MASK) | (((id as u16)
            << 12) & PORT_ID_MASK);
    }

    /// Returns the Source-or-Destination Identifier.
    pub fn src_dest(&self) -> (s: SrcDest)
        ensures
            (s == SrcDest::Destination) == (self.spec_w1() & SRC_DEST_MASK != 0),
    {
        if self.pcid_port_srcdst_len & SRC_DEST_MASK != 0 {
            SrcDest::Destination
        } else {
            SrcDest::Source
        }
    }

    /// Sets the Source-or-Destination Identifier.
    pub fn set_src_dest(&mut self, sd: SrcDest)
        ensures
            final(self).spec_w1() == (old(self).spec_w1() & !SRC_DEST_MASK) | (if sd
                == SrcDest::Destination {
                SRC_DEST_MASK
            } else {
                0u16
            }),
            final(self).spec_w0() == old(self).spec_w0(),
            final(self).spec_fsn() == old(self).spec_fsn(),
    {
        let bit: u16 = match sd {
            SrcDest::Destination => SRC_DEST_MASK,
            SrcDest::Source => 0,
        };
        self.pcid_port_srcdst_len = (self.pcid_port_srcdst_len & !SRC_DEST_MASK) | bit;
    }

    /// Returns the total frame length in bytes.
    ///
    /// The header stores `C = total_octets - 1`.
    pub fn frame_len(&self) -> (n: usize)
        ensures
            n == self.spec_frame_len(),
    {
        (self.pcid_port_srcdst_len & FRAME_LEN_MASK) as usize + 1
    }

    /// Sets the frame length from total byte count (1 to 2048).
    pub fn set_frame_len(&mut self, len: usize)
        requires
            1 <= len <= MAX_FRAME_LEN,
        ensures
            final(self).spec_w1() == (old(self).spec_w1() & !FRAME_LEN_MASK) | ((len - 1) as u16),
            final(self).spec_w0() == old(self).spec_w0(),
            final(self).spec_fsn() == old(self).spec_fsn(),
    {
        let c = (len - 1) as u16;
        assert(c <= 2047 ==> c & FRAME_LEN_MASK == c) by (bit_vector);
        self.pcid_port_srcdst_len = (self.pcid_port_srcdst_len & !FRAME_LEN_MASK) | (c
            & FRAME_LEN_MASK);
    }

    /// Returns the 8-bit Frame Sequence Number.
    pub fn fsn(&self) -> (f: u8)
        ensures
            f == self.spec_fsn(),
    {
        self.fsn
    }

    /// Sets the 8-bit Frame Sequence Number.
    pub fn set_fsn(&mut self, fsn: u8)
        ensures
            final(self).spec_fsn() == fsn,
            final(self).spec_w0() == old(self).spec_w0(),
            final(self).spec_w1() == old(self).spec_w1(),
    {
        self.fsn = fsn;
    }
}

/// Parsing the bytes `b` would take a frame whose announced length is
/// shorter than its own header: a header that cannot be a frame.
pub open spec fn spec_short_announced(b: Seq<u8>) -> bool {
    let h = spec_header_from(b);
    b.len() >= 5 && h.spec_frame_len() <= b.len() && h.spec_version() == PROXIMITY1_VERSION
        && h.spec_frame_len() < 5
}

/// The name of a QoS value.
pub open spec fn spec_qos_name(q: QoS) -> Seq<char> {
    match q {
        QoS::SequenceControlled => "SequenceControlled"@,
        QoS::Expedited => "Expedited"@,
    }
}

/// The name of a PDU type.
pub open spec fn spec_pdu_type_name(p: PduType) -> Seq<char> {
    match p {
        PduType::UserData => "UserData"@,
        PduType::Supervisory => "Supervisory"@,
    }
}

/// The name of a DFC ID.
pub open spec fn spec_dfc_id_name(d: DfcId) -> Seq<char> {
    match d {
        DfcId::Packets => "Packets"@,
        DfcId::Segments => "Segments"@,
        DfcId::Reserved => "Reserved"@,
        DfcId::UserDefined => "UserDefined"@,
    }
}

/// The name of a source-or-destination value.
pub open spec fn spec_src_dest_name(sd: SrcDest) -> Seq<char> {
    match sd {
        SrcDest::Source => "Source"@,
        SrcDest::Destination => "Destination"@,
    }
}

/// The text of a frame: `Prox1[v=.. qos=.. pdu=.. dfc=.. scid=.. pcid=..
/// port=.. sd=.. len=.. fsn=..] data=[..B]`, numbers in decimal and the
/// enums by their variant names.
pub open spec fn spec_frame_text(
    version: u8,
    qos: QoS,
    pdu_type: PduType,
    dfc_id: DfcId,
    scid: u16,
    pcid: u8,
    port_id: u8,
    src_dest: SrcDest,
    frame_len: usize,
    fsn: u8,
    data_len: usize,
) -> Seq<char> {
    "Prox1[v="@ + spec_decimal(version as nat) + " qos="@ + spec_qos_name(qos) + " pdu="@
        + spec_pdu_type_name(pdu_type) + " dfc="@ + spec_dfc_id_name(dfc_id) + " scid="@
        + spec_decimal(scid as nat) + " pcid="@ + spec_decimal(pcid as nat) + " port="@
        + spec_decimal(port_id as nat) + " sd="@ + spec_src_dest_name(src_dest) + " len="@
        + spec_decimal(frame_len as nat) + " fsn="@ + spec_decimal(fsn as nat) + "] data=["@
        + spec_decimal(data_len as nat) + "B]"@
}

/// Appends the name of a QoS value.
fn push_qos(s: &mut String, q: QoS)
    ensures
        final(s)@ == old(s)@ + spec_qos_name(q),
{
    match q {
        QoS::SequenceControlled => s.append("SequenceControlled"),
        QoS::Expedited => s.append("Expedited"),
    }
}

/// Appends the name of a PDU type.
fn push_pdu_type(s: &mut String, p: PduType)
    ensures
        final(s)@ == old(s)@ + spec_pdu_type_name(p),
{
    match p {
        PduType::UserData => s.append("UserData"),
        PduType::Supervisory => s.append("Supervisory"),
    }
}

/// Appends the name of a DFC ID.
fn push_dfc_id(s: &mut String, d: DfcId)
    ensures
        final(s)@ == old(s)@ + spec_dfc_id_name(d),
{
    match d {
        DfcId::Packets => s.append("Packets"),
        DfcId::Segments => s.append("Segments"),
        DfcId::Reserved => s.append("Reserved"),
        DfcId::UserDefined => s.append("UserDefined"),
    }
}

/// Appends the name of a source-or-destination value.
fn push_src_dest(s: &mut String, sd: SrcDest)
    ensures
        final(s)@ == old(s)@ + spec_src_dest_name(sd),
{
    match sd {
        SrcDest::Source => s.append("Source"),
        SrcDest::Destination => s.append("Destination"),
    }
}

/// Builds the text of a frame from its fields.
fn format_frame(
    version: u8,
    qos: QoS,
    pdu_type: PduType,
    dfc_id: DfcId,
    scid: u16,
    pcid: u8,
    port_id: u8,
    src_dest: SrcDest,
    frame_len: usize,
    fsn: u8,
    data_len: usize,
) -> (s: String)
    ensures
        s@ == spec_frame_text(
            version,
            qos,
            pdu_type,
            dfc_id,
            scid,
            pcid,
            port_id,
            src_dest,
            frame_len,
            fsn,
            data_len,
        ),
{
    let mut s = String::new();
    s.append("Prox1[v=");
    push_decimal(&mut s, version as u64);
    s.append(" qos=");
    push_qos(&mut s, qos);
    s.append(" pdu=");
    push_pdu_type(&mut s, pdu_type);
    s.append(" dfc=");
    push_dfc_id(&mut s, dfc_id);
    s.append(" scid=");
    push_decimal(&mut s, scid as u64);
    s.append(" pcid=");
    push_decimal(&mut s, pcid as u64);
    s.append(" port=");
    push_decimal(&mut s, port_id as u64);
    s.append(" sd=");
    push_src_dest(&mut s, src_dest);
    s.append(" len=");
    push_decimal(&mut s, frame_len as u64);
    s.append(" fsn=");
    push_decimal(&mut s, fsn as u64);
    s.append("] data=[");
    push_decimal(&mut s, data_len as u64);
    s.append("B]");
    s
}

/// A parsed Proximity-1 Version-3 Transfer Frame: its header and a view
/// of its data field.
#[derive(Debug)]
pub struct Proximity1TransferFrame<'a> {
    header: Proximity1Header,
    data_field: &'a [u8],
}

impl<'a> Proximity1TransferFrame<'a> {
    /// Header size in bytes.
    pub const HEADER_SIZE: usize = 5;

    /// The parsed header.
    pub closed spec fn spec_header(&self) -> Proximity1Header {
        self.header
    }

    /// The data field bytes.
    pub closed spec fn spec_data(&self) -> Seq<u8> {
        self.data_field@
    }

    /// Parses a raw byte slice into a Proximity-1 Transfer Frame: the
    /// announced length must lie within `bytes` and the version must be
    /// `10`; bytes beyond the frame are ignored.
    pub fn parse(bytes: &'a [u8]) -> (r: Result<Self, ParseError>)
        requires
            !spec_short_announced(bytes@),
        ensures
            bytes@.len() < 5 ==> r == Err::<Self, ParseError>(
                ParseError::TooShortForHeader { actual: bytes@.len() as usize },
            ),
            bytes@.len() >= 5 ==> {
                let h = spec_header_from(bytes@);
                &&& h.spec_frame_len() > bytes@.len() ==> r == Err::<Self, ParseError>(
                    ParseError::IncompleteFrame {
                        header_len: h.spec_frame_len() as usize,
                        buffer_len: bytes@.len() as usize,
                    },
                )
                &&& h.spec_frame_len() <= bytes@.len() && h.spec_version() != PROXIMITY1_VERSION ==> r
                    == Err::<Self, ParseError>(ParseError::InvalidVersion(h.spec_version()))
                &&& h.spec_frame_len() <= bytes@.len() && h.spec_version() == PROXIMITY1_VERSION ==> (
                r matches Ok(f) && f.spec_header() == h && f.spec_data() == bytes@.subrange(
                    5,
                    h.spec_frame_len() as int,
                ))
            },
    {
        if bytes.len() < 5 {
            return Err(ParseError::TooShortForHeader { actual: bytes.len() });
        }
        let header = Proximity1Header::from_bytes(bytes);
        let total = header.frame_len();
        if total > bytes.len() {
            return Err(ParseError::IncompleteFrame { header_len: total, buffer_len: bytes.len() });
        }
        let version = header.version();
        if version != PROXIMITY1_VERSION {
            return Err(ParseError::InvalidVersion(version));
        }
        let data_field = vstd::slice::slice_subrange(bytes, 5, total);
        Ok(Proximity1TransferFrame { header, data_field })
    }

    /// Returns a reference to the header.
    pub fn header(&self) -> (h: &Proximity1Header)
        ensures
            *h == self.spec_header(),
    {
        &self.header
    }

    /// Returns the data field contents.
    pub fn data_field(&self) -> (d: &'a [u8])
        ensures
            d@ == self.spec_data(),
    {
        self.data_field
    }

    /// Total frame length in bytes (header + data).
    pub fn frame_len(&self) -> (n: usize)
        requires
            self.spec_data().len() <= MAX_DATA_FIELD_LEN,
        ensures
            n == 5 + self.spec_data().len(),
    {
        5 + self.data_field.len()
    }

    /// The frame as text: its header fields and its data field length.
    pub fn to_string(&self) -> (s: String)
        ensures
            ({
                let h = self.spec_header();
                s@ == spec_frame_text(
                    h.spec_version(),
                    if h.spec_w0() & QOS_MASK != 0 {
                        QoS::Expedited
                    } else {
                        QoS::SequenceControlled
                    },
                    if h.spec_w0() & PDU_TYPE_MASK != 0 {
                        PduType::Supervisory
                    } else {
                        PduType::UserData
                    },
                    spec_dfc_id((h.spec_w0() & DFC_ID_MASK) >> 10u16),
                    h.spec_w0() & SCID_MASK,
                    if h.spec_w1() & PCID_MASK != 0 {
                        1
                    } else {
                        0
                    },
                    ((h.spec_w1() & PORT_ID_MASK) >> 12u16) as u8,
                    if h.spec_w1() & SRC_DEST_MASK != 0 {
                        SrcDest::Destination
                    } else {
                        SrcDest::Source
                    },
                    h.spec_frame_len() as usize,
                    h.spec_fsn(),
                    self.spec_data().len() as usize,
                )
            }),
    {
        let h = &self.header;
        let pcid: u8 = if h.pcid() {
            1
        } else {
            0
        };
        format_frame(
            h.version(),
            h.qos(),
            h.pdu_type(),
            h.dfc_id(),
            h.scid(),
            pcid,
            h.port_id(),
            h.src_dest(),
            h.frame_len(),
            h.fsn(),
            self.data_field.len(),
        )
    }

    /// Constructs a new Proximity-1 Version-3 Transfer Frame header for a
    /// frame of `5 + data_field_len` bytes at the start of `buffer`; the
    /// data field follows the header in `buffer`. Returns the frame length.
    pub fn new(
        buffer: &mut [u8],
        scid: u16,
        qos: QoS,
        pdu_type: PduType,
        dfc_id: DfcId,
        pcid: bool,
        port_id: u8,
        src_dest: SrcDest,
        fsn: u8,
        data_field_len: usize,
    ) -> (r: Result<usize, BuildError>)
        ensures
            r == spec_build_result(old(buffer)@.len(), scid, port_id, data_field_len as nat),
            r is Err ==> final(buffer)@ == old(buffer)@,
            r is Ok ==> final(buffer)@ == be_bytes(spec_word0(qos, pdu_type, dfc_id, scid) as nat, 2)
                + be_bytes(spec_word1(pcid, port_id, src_dest, (5 + data_field_len) as nat) as nat, 2) + seq![fsn]
                + old(buffer)@.subrange(5, old(buffer)@.len() as int),
    {
        if scid > 0x3FF {
            return Err(BuildError::InvalidScid(scid));
        }
        if port_id > 0x07 {
            return Err(BuildError::InvalidPortId(port_id));
        }
        if data_field_len > MAX_DATA_FIELD_LEN {
            return Err(BuildError::DataTooLong(data_field_len));
        }
        let total_len = 5 + data_field_len;
        if buffer.len() < total_len {
            return Err(BuildError::BufferTooSmall { required: total_len, provided: buffer.len() });
        }
        let mut header = Proximity1Header { version_qos_pdu_dfc_scid: 0, pcid_port_srcdst_len: 0, fsn: 0 };
        header.set_version(PROXIMITY1_VERSION);
        let ghost a1 = header.version_qos_pdu_dfc_scid;
        header.set_qos(qos);
        let ghost a2 = header.version_qos_pdu_dfc_scid;
        header.set_pdu_type(pdu_type);
        let ghost a3 = header.version_qos_pdu_dfc_scid;
        header.set_dfc_id(dfc_id);
        let ghost a4 = header.version_qos_pdu_dfc_scid;
        header.set_scid(scid);
        header.set_pcid(pcid);
        let ghost c1 = header.pcid_port_srcdst_len;
        header.set_port_id(port_id);
        let ghost c2 = header.pcid_port_srcdst_len;
        header.set_src_dest(src_dest);
        let ghost c3 = header.pcid_port_srcdst_len;
        header.set_frame_len(total_len);
        header.set_fsn(fsn);
        proof {
            let q: u16 = if qos == QoS::Expedited {
                0x2000
            } else {
                0
            };
            let p: u16 = if pdu_type == PduType::Supervisory {
                0x1000
            } else {
                0
            };
            let d = dfc_id.spec_code();
            let s = scid;
            let a5 = header.version_qos_pdu_dfc_scid;
            assert(a5 == 0x8000u16 | q | p | ((d << 10u16) as u16) | s) by (bit_vector)
                requires
                    a1 == (0u16 & !VERSION_MASK) | ((((2u8 as u16) << 14u16) as u16) & VERSION_MASK),
                    a2 == (a1 & !QOS_MASK) | q,
                    a3 == (a2 & !PDU_TYPE_MASK) | p,
                    a4 == (a3 & !DFC_ID_MASK) | ((d << 10u16) as u16),
                    a5 == (a4 & !SCID_MASK) | (s & SCID_MASK),
                    q == 0 || q == 0x2000,
                    p == 0 || p == 0x1000,
                    d <= 3,
                    s <= 0x3FF,
            ;
            let pc: u16 = if pcid {
                0x8000
            } else {
                0
            };
            let sd: u16 = if src_dest == SrcDest::Destination {
                0x0800
            } else {
                0
            };
            let pt = port_id;
            let l = (total_len - 1) as u16;
            let c4 = header.pcid_port_srcdst_len;
            assert(c4 == pc | (((pt as u16) << 12u16) as u16) | sd | l) by (bit_vector)
                requires
                    c1 == (0u16 & !PCID_MASK) | pc,
                    c2 == (c1 & !PORT_ID_MASK) | ((((pt as u16) << 12u16) as u16) & PORT_ID_MASK),
                    c3 == (c2 & !SRC_DEST_MASK) | sd,
                    c4 == (c3 & !FRAME_LEN_MASK) | l,
                    pc == 0 || pc == 0x8000,
                    sd == 0 || sd == 0x0800,
                    pt <= 7,
                    l <= 2047,
            ;
        }
        let ghost b0 = buffer@;
        proof {
            crate::utils::lemma_be_bytes_len(header.version_qos_pdu_dfc_scid as nat, 2);
            crate::utils::lemma_be_bytes_len(header.pcid_port_srcdst_len as nat, 2);
        }
        write_be(buffer, 0, 2, header.version_qos_pdu_dfc_scid as u64);
        write_be(buffer, 2, 2, header.pcid_port_srcdst_len as u64);
        buffer[4] = header.fsn;
        assert(buffer@ =~= be_bytes(spec_word0(qos, pdu_type, dfc_id, scid) as nat, 2) + be_bytes(
            spec_word1(pcid, port_id, src_dest, total_len as nat) as nat,
            2,
        ) + seq![fsn] + b0.subrange(5, b0.len() as int));
        Ok(total_len)
    }
}

/// The outcome of building a frame with a `data_field_len`-byte data
/// field in a buffer of `buf_len` bytes.
pub open spec fn spec_build_result(buf_len: nat, scid: u16, port_id: u8, data_field_len: nat) -> Result<
    usize,
    BuildError,
> {
    if scid > 0x3FF {
        Err(BuildError::InvalidScid(scid))
    } else if port_id > 7 {
        Err(BuildError::InvalidPortId(port_id))
    } else if data_field_len > MAX_DATA_FIELD_LEN {
        Err(BuildError::DataTooLong(data_field_len as usize))
    } else if buf_len < 5 + data_field_len {
        Err(BuildError::BufferTooSmall { required: (5 + data_field_len) as usize, provided: buf_len as usize })
    } else {
        Ok((5 + data_field_len) as usize)
    }
}

/// A frame that `new` built parses back: the header reports the SCID,
/// QoS, PDU type, DFC ID, PCID, port, source or destination, FSN and
/// length it was built with.
pub proof fn lemma_build_parse_roundtrip(
    scid: u16,
    qos: QoS,
    pdu_type: PduType,
    dfc_id: DfcId,
    pcid: bool,
    port_id: u8,
    src_dest: SrcDest,
    fsn: u8,
    data: Seq<u8>,
)
    requires
        scid <= 0x3FF,
        port_id <= 7,
        data.len() <= MAX_DATA_FIELD_LEN,
    ensures
        ({
            let b = be_bytes(spec_word0(qos, pdu_type, dfc_id, scid) as nat, 2) + be_bytes(
                spec_word1(pcid, port_id, src_dest, 5 + data.len()) as nat,
                2,
            ) + seq![fsn] + data;
            let h = spec_header_from(b);
            &&& !spec_short_announced(b)
            &&& h.spec_frame_len() == b.len()
            &&& h.spec_version() == PROXIMITY1_VERSION
            &&& (h.spec_w0() & QOS_MASK != 0) == (qos == QoS::Expedited)
            &&& (h.spec_w0() & PDU_TYPE_MASK != 0) == (pdu_type == PduType::Supervisory)
            &&& (h.spec_w0() & DFC_ID_MASK) >> 10u16 == dfc_id.spec_code()
            &&& h.spec_w0() & SCID_MASK == scid
            &&& (h.spec_w1() & PCID_MASK != 0) == pcid
            &&& (h.spec_w1() & PORT_ID_MASK) >> 12u16 == port_id
            &&& (h.spec_w1() & SRC_DEST_MASK != 0) == (src_dest == SrcDest::Destination)
            &&& h.spec_fsn() == fsn
            &&& b.subrange(5, b.len() as int) == data
        }),
{
    let w0 = spec_word0(qos, pdu_type, dfc_id, scid);
    let w1 = spec_word1(pcid, port_id, src_dest, 5 + data.len());
    let b = be_bytes(w0 as nat, 2) + be_bytes(w1 as nat, 2) + seq![fsn] + data;
    crate::utils::lemma_pow256_values();
    crate::utils::lemma_be_roundtrip_fits(w0 as nat, 2);
    crate::utils::lemma_be_roundtrip_fits(w1 as nat, 2);
    assert(b.subrange(0, 2) =~= be_bytes(w0 as nat, 2));
    assert(b.subrange(2, 4) =~= be_bytes(w1 as nat, 2));
    assert(b.subrange(5, b.len() as int) =~= data);
    let q: u16 = if qos == QoS::Expedited {
        0x2000
    } else {
        0
    };
    let p: u16 = if pdu_type == PduType::Supervisory {
        0x1000
    } else {
        0
    };
    let d = dfc_id.spec_code();
    let s = scid;
    assert(w0 >> 14u16 == 2 && (w0 & QOS_MASK != 0) == (q != 0) && (w0 & PDU_TYPE_MASK != 0) == (p
        != 0) && (w0 & DFC_ID_MASK) >> 10u16 == d && w0 & SCID_MASK == s) by (bit_vector)
        requires
            w0 == 0x8000u16 | q | p | ((d << 10u16) as u16) | s,
            q == 0 || q == 0x2000,
            p == 0 || p == 0x1000,
            d <= 3,
            s <= 0x3FF,
    ;
    let pc: u16 = if pcid {
        0x8000
    } else {
        0
    };
    let sd: u16 = if src_dest == SrcDest::Destination {
        0x0800
    } else {
        0
    };
    let pt = port_id;
    let l = (4 + data.len()) as u16;
    assert((w1 & PCID_MASK != 0) == (pc != 0) && (w1 & PORT_ID_MASK) >> 12u16 == pt as u16 && (w1
        & SRC_DEST_MASK != 0) == (sd != 0) && w1 & FRAME_LEN_MASK == l) by (bit_vector)
        requires
            w1 == pc | (((pt as u16) << 12u16) as u16) | sd | l,
            pc == 0 || pc == 0x8000,
            sd == 0 || sd == 0x0800,
            pt <= 7,
            l <= 2047,
    ;
}

/// The text of a PLCW: `PLCW[rt=.. pcid=.. exp=.. vr=..]`, in decimal.
pub open spec fn spec_plcw_text(rt: u8, pcid: u8, exp: u8, vr: u8) -> Seq<char> {
    "PLCW[rt="@ + spec_decimal(rt as nat) + " pcid="@ + spec_decimal(pcid as nat) + " exp="@
        + spec_decimal(exp as nat) + " vr="@ + spec_decimal(vr as nat) + "]"@
}

/// Builds the text of a PLCW from its fields.
fn format_plcw(rt: u8, pcid: u8, exp: u8, vr: u8) -> (s: String)
    ensures
        s@ == spec_plcw_text(rt, pcid, exp, vr),
{
    let mut s = String::new();
    s.append("PLCW[rt=");
    push_decimal(&mut s, rt as u64);
    s.append(" pcid=");
    push_decimal(&mut s, pcid as u64);
    s.append(" exp=");
    push_decimal(&mut s, exp as u64);
    s.append(" vr=");
    push_decimal(&mut s, vr as u64);
    s.append("]");
    s
}

/// A Proximity Link Control Word (PLCW).
///
/// This is a 16-bit fixed-length SPDU that reports the receiver's
/// state (V(R), retransmit flag, expedited frame counter) back to
/// the sender via a P-frame.
///
/// Layout: bit 0 SPDU format ID (1), bit 1 type (0 = PLCW), bit 2
/// retransmit flag, bit 3 PCID, bit 4 spare (0), bits 5-7 expedited
/// frame counter, bits 8-15 report value V(R).
#[derive(Debug, Copy, Clone, Eq, PartialEq, Structural)]
pub struct Plcw(u16);

impl Plcw {
    /// The raw 16-bit value.
    pub closed spec fn spec_raw(self) -> u16 {
        self.0
    }

    /// Creates a new PLCW with the given fields.
    pub fn new(retransmit: bool, pcid: bool, expedited_counter: u8, report_value: u8) -> (p: Self)
        ensures
            p.spec_raw() == FORMAT_ID_MASK | (if retransmit {
                RETRANSMIT_MASK
            } else {
                0u16
            }) | (if pcid {
                PLCW_PCID_MASK
            } else {
                0u16
            }) | ((((expedited_counter & 7u8) as u16) << 8u16) as u16) | (report_value as u16),
    {
        let r: u16 = if retransmit {
            RETRANSMIT_MASK
        } else {
            0u16
        };
        let c: u16 = if pcid {
            PLCW_PCID_MASK
        } else {
            0u16
        };
        let e: u16 = (expedited_counter & 0x07) as u16;
        let shifted: u16 = e << 8u16;
        assert(shifted == (((expedited_counter & 7u8) as u16) << 8u16) as u16) by (bit_vector)
            requires
                e == (expedited_counter & 0x07) as u16,
                shifted == e << 8u16,
        ;
        let val: u16 = FORMAT_ID_MASK | r | c | shifted | report_value as u16;
        Plcw(val)
    }

    /// Parses a PLCW from a 2-byte big-endian slice.
    pub fn from_bytes(bytes: &[u8; 2]) -> (p: Self)
        ensures
            p.spec_raw() == bytes@[0] * 256 + bytes@[1],
    {
        Plcw(bytes[0] as u16 * 256 + bytes[1] as u16)
    }

    /// Encodes the PLCW as 2 big-endian bytes.
    pub fn to_bytes(self) -> (b: [u8; 2])
        ensures
            b@ == seq![(self.spec_raw() / 256) as u8, (self.spec_raw() % 256) as u8],
    {
        let b = [(self.0 / 256) as u8, (self.0 % 256) as u8];
        assert(b@ =~= seq![(self.0 / 256) as u8, (self.0 % 256) as u8]);
        b
    }

    /// Returns the raw 16-bit value.
    pub fn raw(self) -> (v: u16)
        ensures
            v == self.spec_raw(),
    {
        self.0
    }

    /// Returns true if the Retransmit Flag is set.
    ///
    /// When set, the sender should retransmit the expected frame.
    pub fn retransmit(&self) -> (b: bool)
        ensures
            b == (self.spec_raw() & RETRANSMIT_MASK != 0),
    {
        self.0 & RETRANSMIT_MASK != 0
    }

    /// Returns the PCID field.
    pub fn pcid(&self) -> (b: bool)
        ensures
            b == (self.spec_raw() & PLCW_PCID_MASK != 0),
    {
        self.0 & PLCW_PCID_MASK != 0
    }

    /// Returns the 3-bit Expedited Frame Counter (mod-8).
    pub fn expedited_counter(&self) -> (c: u8)
        ensures
            c == (self.spec_raw() & EXP_COUNTER_MASK) >> 8u16,
    {
        proof {
            lemma_field_bounds();
        }
        ((self.0 & EXP_COUNTER_MASK) >> 8) as u8
    }

    /// Returns the 8-bit Report Value V(R).
    ///
    /// This is the next expected sequence-controlled FSN.
    pub fn report_value(&self) -> (v: u8)
        ensures
            v == self.spec_raw() & REPORT_VALUE_MASK,
    {
        proof {
            lemma_field_bounds();
        }
        (self.0 & REPORT_VALUE_MASK) as u8
    }

    /// The PLCW as text: `PLCW[rt=<0|1> pcid=<0|1> exp=<n> vr=<n>]`.
    pub fn to_string(&self) -> (s: String)
        ensures
            s@ == spec_plcw_text(
                if self.spec_raw() & RETRANSMIT_MASK != 0 {
                    1
                } else {
                    0
                },
                if self.spec_raw() & PLCW_PCID_MASK != 0 {
                    1
                } else {
                    0
                },
                ((self.spec_raw() & EXP_COUNTER_MASK) >> 8u16) as u8,
                (self.spec_raw() & REPORT_VALUE_MASK) as u8,
            ),
    {
        let rt: u8 = if self.retransmit() {
            1
        } else {
            0
        };
        let pc: u8 = if self.pcid() {
            1
        } else {
            0
        };
        format_plcw(rt, pc, self.expedited_counter(), self.report_value())
    }
}

/// Reading back the fields of a PLCW gives what it was made with (the
/// expedited counter modulo 8), its format bit is set and its type bit
/// clear, and its two bytes read back to it.
pub proof fn lemma_plcw_fields(retransmit: bool, pcid: bool, exp: u8, vr: u8, raw: u16)
    requires
        raw == FORMAT_ID_MASK | (if retransmit {
            RETRANSMIT_MASK
        } else {
            0u16
        }) | (if pcid {
            PLCW_PCID_MASK
        } else {
            0u16
        }) | ((((exp & 7u8) as u16) << 8u16) as u16) | (vr as u16),
    ensures
        (raw & RETRANSMIT_MASK != 0) == retransmit,
        (raw & PLCW_PCID_MASK != 0) == pcid,
        (raw & EXP_COUNTER_MASK) >> 8u16 == (exp % 8) as u16,
        raw & REPORT_VALUE_MASK == vr as u16,
        raw & FORMAT_ID_MASK != 0,
        raw & TYPE_ID_MASK == 0,
        ((raw / 256) as u8) * 256 + ((raw % 256) as u8) == raw,
{
    let r: u16 = if retransmit {
        RETRANSMIT_MASK
    } else {
        0
    };
    let p: u16 = if pcid {
        PLCW_PCID_MASK
    } else {
        0
    };
    assert((raw & RETRANSMIT_MASK != 0) == (r != 0) && (raw & PLCW_PCID_MASK != 0) == (p != 0) && (
    raw & EXP_COUNTER_MASK) >> 8u16 == (exp % 8) as u16 && raw & REPORT_VALUE_MASK == vr as u16
        && raw & FORMAT_ID_MASK != 0 && raw & TYPE_ID_MASK == 0) by (bit_vector)
        requires
            raw == FORMAT_ID_MASK | r | p | ((((exp & 7u8) as u16) << 8u16) as u16) | (vr as u16),
            r == 0 || r == RETRANSMIT_MASK,
            p == 0 || p == PLCW_PCID_MASK,
    ;
}

/// Sequence flags for segmented data units.
#[derive(Debug, Copy, Clone, Eq, PartialEq, Structural)]
pub enum SequenceFlag {
    /// First segment of a packet (binary '01').
    First,
    /// Continuation segment (binary '00').
    Continuation,
    /// Last segment of a packet (binary '10').
    Last,
    /// No segmentation — entire packet (binary '11').
    Unsegmented,
}

impl SequenceFlag {
    /// The 2-bit code.
    pub open spec fn spec_code(self) -> u8 {
        match self {
            SequenceFlag::First => 0b01,
            SequenceFlag::Continuation => 0b00,
            SequenceFlag::Last => 0b10,
            SequenceFlag::Unsegmented => 0b11,
        }
    }

    /// The 2-bit code.
    pub fn code(self) -> (c: u8)
        ensures
            c == self.spec_code(),
    {
        match self {
            SequenceFlag::First => 0b01,
            SequenceFlag::Continuation => 0b00,
            SequenceFlag::Last => 0b10,
            SequenceFlag::Unsegmented => 0b11,
        }
    }
}

/// An 8-bit segment header prepended to the data when DFC ID = 01:
/// sequence flags in bits 0-1, pseudo packet ID in bits 2-7.
#[derive(Debug, Copy, Clone, Eq, PartialEq, Structural)]
pub struct SegmentHeader(u8);

impl SegmentHeader {
    /// The raw byte.
    pub closed spec fn spec_byte(self) -> u8 {
        self.0
    }

    /// Creates a new segment header.
    pub fn new(flags: SequenceFlag, pseudo_packet_id: u8) -> (h: Self)
        ensures
            h.spec_byte() == ((flags.spec_code() << 6u8) as u8) | (pseudo_packet_id & 0x3Fu8),
    {
        SegmentHeader((flags.code() << 6) | (pseudo_packet_id & 0x3F))
    }

    /// Parses a segment header from a byte.
    pub fn from_byte(b: u8) -> (h: Self)
        ensures
            h.spec_byte() == b,
    {
        SegmentHeader(b)
    }

    /// Returns the raw byte value.
    pub fn to_byte(self) -> (b: u8)
        ensures
            b == self.spec_byte(),
    {
        self.0
    }

    /// Returns the sequence flags.
    pub fn flags(&self) -> (f: SequenceFlag)
        ensures
            f.spec_code() == self.spec_byte() >> 6u8,
    {
        proof {
            lemma_field_bounds();
        }
        let v = self.0 >> 6;
        if v == 1 {
            SequenceFlag::First
        } else if v == 0 {
            SequenceFlag::Continuation
        } else if v == 2 {
            SequenceFlag::Last
        } else {
            SequenceFlag::Unsegmented
        }
    }

    /// Returns the 6-bit pseudo packet identifier.
    pub fn pseudo_packet_id(&self) -> (id: u8)
        ensures
            id == self.spec_byte() & 0x3Fu8,
    {
        self.0 & 0x3F
    }
}

/// A segment header reads back its flags and its pseudo packet ID cut to
/// 6 bits.
pub proof fn lemma_segment_header_fields(flags: SequenceFlag, id: u8)
    ensures
        ({
            let b = ((flags.spec_code() << 6u8) as u8) | (id & 0x3Fu8);
            b >> 6u8 == flags.spec_code() && b & 0x3Fu8 == id & 0x3Fu8
        }),
{
    let c = flags.spec_code();
    assert(c <= 3 ==> ((((c << 6u8) as u8) | (id & 0x3Fu8)) >> 6u8 == c && (((c << 6u8) as u8) | (id
        & 0x3Fu8)) & 0x3Fu8 == id & 0x3Fu8)) by (bit_vector);
}


/// Configuration for building Proximity-1 transfer frames.
#[derive(Debug, Clone, Copy)]
pub struct Prox1FrameWriterConfig {
    /// Spacecraft ID (10-bit).
    pub scid: u16,
    /// Quality of Service indicator.
    pub qos: QoS,
    /// PDU type (user data or supervisory).
    pub pdu_type: PduType,
    /// Data field construction identifier.
    pub dfc_id: DfcId,
    /// Physical channel identifier.
    pub pcid: bool,
    /// Port identifier (3-bit).
    pub port_id: u8,
    /// Source-or-destination identifier.
    pub src_dest: SrcDest,
    /// Maximum data field length in bytes.
    pub max_data_field_len: usize,
}

/// Accumulates packets into Proximity-1 transfer frames.
///
/// Owns its frame buffer internally (sized by `BUF`). Packets
/// are pushed directly into the buffer at the correct offset.
/// [`finish()`](FrameWriter::finish) stamps the header and
/// returns a borrow of the completed frame.
pub struct Prox1FrameWriter<const BUF: usize> {
    config: Prox1FrameWriterConfig,
    fsn: u8,
    data_len: usize,
    buf: Vec<u8>,
}

impl<const BUF: usize> Prox1FrameWriter<BUF> {
    /// The configuration.
    pub closed spec fn spec_config(&self) -> Prox1FrameWriterConfig {
        self.config
    }

    /// The Frame Sequence Number that the next frame carries.
    pub closed spec fn spec_fsn(&self) -> u8 {
        self.fsn
    }

    /// The number of payload bytes pushed into the current frame.
    pub closed spec fn spec_data_len(&self) -> nat {
        self.data_len as nat
    }

    /// The frame buffer.
    pub closed spec fn spec_buf(&self) -> Seq<u8> {
        self.buf@
    }

    /// The buffer holds `BUF` bytes and the pushed payload is within the
    /// data field's capacity.
    pub open spec fn wf(&self) -> bool {
        &&& self.spec_buf().len() == BUF
        &&& self.spec_data_len() <= self.spec_config().max_data_field_len
    }

    /// Creates a new Proximity-1 frame writer.
    pub fn new(config: Prox1FrameWriterConfig) -> (w: Self)
        ensures
            w.wf(),
            w.spec_config() == config,
            w.spec_fsn() == 0,
            w.spec_data_len() == 0,
    {
        Prox1FrameWriter { config, fsn: 0, data_len: 0, buf: vec![0u8; BUF] }
    }

    /// Bytes of data field still free in the current frame.
    fn remaining(&self) -> (n: usize)
        requires
            self.wf(),
        ensures
            n == self.config.max_data_field_len - self.data_len,
    {
        self.config.max_data_field_len - self.data_len
    }
}

impl<const BUF: usize> FrameWriter for Prox1FrameWriter<BUF> {
    type Error = BuildError;

    /// Well formed, and the largest frame fits in the buffer.
    open spec fn ready(&self) -> bool {
        &&& self.wf()
        &&& 5 + self.spec_config().max_data_field_len <= BUF
    }

    /// No payload has been pushed into the current frame.
    open spec fn spec_is_empty(&self) -> bool {
        self.spec_data_len() == 0
    }

    open spec fn spec_push_result(&self, data: Seq<u8>) -> Result<(), PushError> {
        spec_push_outcome(data.len(), self.spec_config().max_data_field_len as nat, self.spec_data_len())
    }

    open spec fn spec_finish_ok(&self) -> bool {
        spec_build_result(BUF as nat, self.spec_config().scid, self.spec_config().port_id, self.spec_data_len()) is Ok
    }

    open spec fn spec_finished_len(&self) -> nat {
        5 + self.spec_data_len()
    }

    /// The pushed payload under a header with the configured fields, the
    /// frame length and the current frame sequence number.
    open spec fn spec_finished_frame(&self) -> Seq<u8> {
        let c = self.spec_config();
        let n = self.spec_data_len();
        let b0 = self.spec_buf();
        (be_bytes(spec_word0(c.qos, c.pdu_type, c.dfc_id, c.scid) as nat, 2) + be_bytes(
            spec_word1(c.pcid, c.port_id, c.src_dest, 5 + n) as nat,
            2,
        ) + seq![self.spec_fsn()] + b0.subrange(5, b0.len() as int)).subrange(0, (5 + n) as int)
    }

    fn is_empty(&self) -> (b: bool)
        ensures
            b == (self.spec_data_len() == 0),
    {
        self.data_len == 0
    }

    fn finish_ok(&self) -> (b: bool) {
        self.config.scid <= 0x3FF && self.config.port_id <= 7 && self.data_len <= MAX_DATA_FIELD_LEN
            && BUF >= 5 + self.data_len
    }

    fn finished_len(&self) -> (n: usize) {
        5 + self.data_len
    }

    /// Appends `data` to the data field: `TooLarge` beyond the data
    /// field's capacity, `Full` beyond what is left of it.
    fn push(&mut self, data: &[u8]) -> (r: Result<(), PushError>)
        ensures
            ({
                let c = old(self).spec_config();
                let used = old(self).spec_data_len();
                &&& data@.len() > c.max_data_field_len ==> r == Err::<(), PushError>(PushError::TooLarge)
                &&& data@.len() <= c.max_data_field_len && data@.len() > c.max_data_field_len - used
                    ==> r == Err::<(), PushError>(PushError::Full)
                &&& r is Err ==> final(self).spec_buf() == old(self).spec_buf() && final(self).spec_data_len() == used
                &&& r is Ok ==> final(self).spec_buf() == splice(old(self).spec_buf(), (5 + used) as int, data@)
                    && final(self).spec_data_len() == used + data@.len()
                &&& data@.len() <= c.max_data_field_len - used ==> r is Ok
                &&& final(self).spec_config() == c
                &&& final(self).spec_fsn() == old(self).spec_fsn()
            }),
    {
        if data.len() > self.config.max_data_field_len {
            return Err(PushError::TooLarge);
        }
        if data.len() > self.remaining() {
            return Err(PushError::Full);
        }
        let off = Proximity1TransferFrame::HEADER_SIZE + self.data_len;
        copy_in(self.buf.as_mut_slice(), off, data);
        self.data_len = self.data_len + data.len();
        Ok(())
    }

    /// Stamps the header (with the current Frame Sequence Number, which
    /// then moves on by one, wrapping) over the pushed payload and returns
    /// the frame: 5 + payload bytes.
    fn finish(&mut self) -> (r: Result<&[u8], BuildError>)
        ensures
            ({
                let c = old(self).spec_config();
                let n = old(self).spec_data_len();
                let fsn = old(self).spec_fsn();
                let b0 = old(self).spec_buf();
                let built = spec_build_result(BUF as nat, c.scid, c.port_id, n);
                &&& final(self).spec_fsn() == (if fsn == 255 {
                    0
                } else {
                    (fsn + 1) as u8
                })
                &&& final(self).spec_config() == c
                &&& built matches Err(e) ==> r == Err::<&[u8], BuildError>(e) && final(self).spec_buf()
                    == b0 && final(self).spec_data_len() == n
                &&& built is Ok ==> {
                    &&& final(self).spec_buf() == be_bytes(
                        spec_word0(c.qos, c.pdu_type, c.dfc_id, c.scid) as nat,
                        2,
                    ) + be_bytes(spec_word1(c.pcid, c.port_id, c.src_dest, 5 + n) as nat, 2) + seq![fsn]
                        + b0.subrange(5, b0.len() as int)
                    &&& final(self).spec_data_len() == 0
                    &&& r matches Ok(s) && s@ == final(self).spec_buf().subrange(0, (5 + n) as int)
                }
            }),
    {
        let total = Proximity1TransferFrame::HEADER_SIZE + self.data_len;
        let fsn = self.fsn;
        self.fsn = self.fsn.wrapping_add(1);
        let built = Proximity1TransferFrame::new(
            self.buf.as_mut_slice(),
            self.config.scid,
            self.config.qos,
            self.config.pdu_type,
            self.config.dfc_id,
            self.config.pcid,
            self.config.port_id,
            self.config.src_dest,
            fsn,
            self.data_len,
        );
        match built {
            Ok(_) => {},
            Err(e) => {
                return Err(e);
            },
        }
        proof {
            crate::utils::lemma_be_bytes_len(
                spec_word0(self.config.qos, self.config.pdu_type, self.config.dfc_id, self.config.scid)
                    as nat,
                2,
            );
            crate::utils::lemma_be_bytes_len(
                spec_word1(self.config.pcid, self.config.port_id, self.config.src_dest, total as nat)
                    as nat,
                2,
            );
        }
        self.data_len = 0;
        Ok(vstd::slice::slice_subrange(self.buf.as_slice(), 0, total))
    }
}

/// Extracts packets from a received Proximity-1 transfer frame.
///
/// Owns its frame buffer internally (sized by `BUF`). The
/// coding layer writes into
/// [`buffer_mut()`](FrameReader::buffer_mut),
/// [`feed()`](FrameReader::feed) validates the header, and
/// [`next()`](FrameReader::next) returns the data field once.
pub struct Prox1FrameReader<const BUF: usize> {
    buf: Vec<u8>,
    data_start: usize,
    data_end: usize,
    pending: bool,
}

impl<const BUF: usize> Prox1FrameReader<BUF> {
    /// The reception buffer.
    pub closed spec fn spec_buf(&self) -> Seq<u8> {
        self.buf@
    }

    /// The data field bounds found by the last successful `feed`.
    pub closed spec fn spec_data_bounds(&self) -> (nat, nat) {
        (self.data_start as nat, self.data_end as nat)
    }

    /// Whether `next` still has the data field to hand out.
    pub closed spec fn spec_pending(&self) -> bool {
        self.pending
    }

    /// Creates a new Proximity-1 frame reader.
    pub fn new() -> (r: Self)
        ensures
            r.ready(),
            r.spec_data_bounds() == (0nat, 0nat),
            !r.spec_pending(),
    {
        Prox1FrameReader { buf: vec![0u8; BUF], data_start: 0, data_end: 0, pending: false }
    }

    /// The data field of the last frame fed.
    pub fn data_field(&self) -> (d: &[u8])
        requires
            self.ready(),
        ensures
            d@ == self.spec_buf().subrange(
                self.spec_data_bounds().0 as int,
                self.spec_data_bounds().1 as int,
            ),
    {
        vstd::slice::slice_subrange(self.buf.as_slice(), self.data_start, self.data_end)
    }
}

impl<const BUF: usize> FrameReader for Prox1FrameReader<BUF> {
    type Error = ParseError;

    /// `len` is within the buffer, and its header does not announce a
    /// frame shorter than a header.
    open spec fn can_feed(&self, len: nat) -> bool {
        len <= BUF && !spec_short_announced(self.spec_buf().subrange(0, len as int))
    }

    fn can_feed_len(&self, len: usize) -> (b: bool) {
        if len > BUF {
            return false;
        }
        if len < 5 {
            return true;
        }
        let bytes = vstd::slice::slice_subrange(self.buf.as_slice(), 0, len);
        let h = Proximity1Header::from_bytes(bytes);
        !(h.frame_len() <= len && h.version() == PROXIMITY1_VERSION && h.frame_len() < 5)
    }

    /// The buffer holds `BUF` bytes and the data bounds lie within it.
    closed spec fn ready(&self) -> bool {
        &&& self.buf@.len() == BUF
        &&& self.data_start <= self.data_end <= BUF
    }

    open spec fn spec_feed_ok(&self, len: nat) -> bool {
        {
            let h = spec_header_from(self.spec_buf().subrange(0, len as int));
            len >= 5 && h.spec_frame_len() <= len && h.spec_version() == PROXIMITY1_VERSION
        }
    }

    /// The data field of the new frame: from byte 5 to the announced
    /// frame length.
    open spec fn spec_fed_next(&self, len: nat) -> Option<Seq<u8>> {
        Some(
            self.spec_buf().subrange(
                5,
                spec_header_from(self.spec_buf().subrange(0, len as int)).spec_frame_len() as int,
            ),
        )
    }

    /// The data field of the frame fed last, while not handed out yet.
    open spec fn spec_next(&self) -> Option<Seq<u8>> {
        if self.spec_pending() {
            Some(self.spec_buf().subrange(self.spec_data_bounds().0 as int, self.spec_data_bounds().1 as int))
        } else {
            None
        }
    }

    /// The reception buffer.
    open spec fn spec_buffer(&self) -> Seq<u8> {
        self.spec_buf()
    }

    fn buffer_len(&self) -> (n: usize) {
        self.buf.len()
    }

    fn buffer_mut(&mut self) -> (b: &mut [u8])
        ensures
            b@ == old(self).spec_buf(),
            final(self).spec_buf() == final(b)@,
            final(self).spec_data_bounds() == old(self).spec_data_bounds(),
            final(self).spec_pending() == old(self).spec_pending(),
    {
        self.buf.as_mut_slice()
    }

    /// Parses the first `len` bytes as a frame and records where its data
    /// field lies: from byte 5 to the announced frame length.
    fn feed(&mut self, len: usize) -> (r: Result<(), ParseError>)
        ensures
            ({
                let b = old(self).spec_buf().subrange(0, len as int);
                let h = spec_header_from(b);
                let ok = len >= 5 && h.spec_frame_len() <= len && h.spec_version() == PROXIMITY1_VERSION;
                &&& len < 5 ==> r == Err::<(), ParseError>(ParseError::TooShortForHeader { actual: len })
                &&& len >= 5 && h.spec_frame_len() > len ==> r == Err::<(), ParseError>(
                    ParseError::IncompleteFrame { header_len: h.spec_frame_len() as usize, buffer_len: len },
                )
                &&& len >= 5 && h.spec_frame_len() <= len && h.spec_version() != PROXIMITY1_VERSION
                    ==> r == Err::<(), ParseError>(ParseError::InvalidVersion(h.spec_version()))
                &&& !ok ==> final(self).spec_data_bounds() == old(self).spec_data_bounds()
                    && final(self).spec_pending() == old(self).spec_pending()
                &&& ok ==> r is Ok && final(self).spec_pending() && final(self).spec_data_bounds() == (
                    5nat,
                    h.spec_frame_len(),
                )
                &&& final(self).spec_buf() == old(self).spec_buf()
            }),
    {
        let bytes = vstd::slice::slice_subrange(self.buf.as_slice(), 0, len);
        let parsed = match Proximity1TransferFrame::parse(bytes) {
            Ok(f) => f,
            Err(e) => {
                return Err(e);
            },
        };
        let data = parsed.data_field();
        self.data_start = Proximity1TransferFrame::HEADER_SIZE;
        self.data_end = self.data_start + data.len();
        self.pending = true;
        Ok(())
    }

    /// The data field of the frame fed last, once.
    fn next(&mut self) -> (r: Option<&[u8]>)
        ensures
            old(self).spec_pending() ==> (r matches Some(d) && d@ == old(self).spec_buf().subrange(
                old(self).spec_data_bounds().0 as int,
                old(self).spec_data_bounds().1 as int,
            )),
            !old(self).spec_pending() ==> r is None,
            !final(self).spec_pending(),
            final(self).spec_buf() == old(self).spec_buf(),
            final(self).spec_data_bounds() == old(self).spec_data_bounds(),
    {
        if !self.pending {
            return None;
        }
        self.pending = false;
        Some(vstd::slice::slice_subrange(self.buf.as_slice(), self.data_start, self.data_end))
    }
}

/// The value on the wire of every `DfcId`, as the protocol's table fixes it.
pub proof fn lemma_dfc_id_values()
    ensures
        DfcId::Packets.spec_code() == 0,
        DfcId::Segments.spec_code() == 1,
        DfcId::Reserved.spec_code() == 2,
        DfcId::UserDefined.spec_code() == 3,
{
}

/// The value on the wire of every `SequenceFlag`, as the protocol's table fixes it.
pub proof fn lemma_sequence_flag_values()
    ensures
        SequenceFlag::First.spec_code() == 0b01,
        SequenceFlag::Continuation.spec_code() == 0b00,
        SequenceFlag::Last.spec_code() == 0b10,
        SequenceFlag::Unsegmented.spec_code() == 0b11,
{
}

} // verus!
