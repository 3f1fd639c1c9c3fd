//! SDLS Extended Procedures PDU format (CCSDS 355.1-B-1).
//!
//! Extended Procedures are administrative commands carried in
//! TC frames on a dedicated MAP/VCID. Each PDU uses a TLV header
//! (8-bit tag + 16-bit length) that identifies the service group
//! and procedure.
use vstd::prelude::*;

use super::Error;

verus! {

/// Service groups (2 bits) defined by SDLS-EP (Section 5.3.2.2.3).
#[derive(Debug, Copy, Clone, Eq, PartialEq, Structural)]
pub enum ServiceGroup {
    /// Key Management (OTAR, activation, verification, etc.).
    KeyManagement,
    /// SA Management: Initiator → Recipient direction.
    SaManagementIr,
    /// SA Management: Recipient → Initiator direction.
    SaManagementRi,
    /// Security Monitoring & Control.
    MonitoringControl,
}

impl ServiceGroup {
    /// The 2-bit code of the group.
    pub open spec fn spec_code(self) -> u8 {
        match self {
            ServiceGroup::KeyManagement => 0b00,
            ServiceGroup::SaManagementIr => 0b01,
            ServiceGroup::SaManagementRi => 0b10,
            ServiceGroup::MonitoringControl => 0b11,
        }
    }

    /// The 2-bit code of the group.
    pub fn code(&self) -> (c: u8)
        ensures
            c == self.spec_code(),
    {
        match self {
            ServiceGroup::KeyManagement => 0b00,
            ServiceGroup::SaManagementIr => 0b01,
            ServiceGroup::SaManagementRi => 0b10,
            ServiceGroup::MonitoringControl => 0b11,
        }
    }

    /// The group with code `value`; codes above 3 are `InvalidProcedure`.
    pub fn try_from(value: u8) -> (r: Result<Self, Error>)
        ensures
            value <= 3 ==> (r matches Ok(g) && g.spec_code() == value),
            value > 3 ==> r == Err::<Self, Error>(Error::InvalidProcedure),
    {
        match value {
            0b00 => Ok(ServiceGroup::KeyManagement),
            0b01 => Ok(ServiceGroup::SaManagementIr),
            0b10 => Ok(ServiceGroup::SaManagementRi),
            0b11 => Ok(ServiceGroup::MonitoringControl),
            _ => Err(Error::InvalidProcedure),
        }
    }
}

/// Key Management procedures (Table 5-1, Service Group 00).
#[derive(Debug, Copy, Clone, Eq, PartialEq, Structural)]
pub enum KeyProcedure {
    /// Deliver encrypted session keys via master key.
    Otar,
    /// Transition key from PREACTIVE to ACTIVE.
    Activate,
    /// Deactivate a key.
    Deactivate,
    /// Challenge-response key verification.
    Verify,
    /// Cryptographically destroy a key.
    Destroy,
    /// Query available keys.
    Inventory,
}

impl KeyProcedure {
    /// The 4-bit procedure identifier.
    pub open spec fn spec_code(self) -> u8 {
        match self {
            KeyProcedure::Otar => 0b0001,
            KeyProcedure::Activate => 0b0010,
            KeyProcedure::Deactivate => 0b0011,
            KeyProcedure::Verify => 0b0100,
            KeyProcedure::Destroy => 0b0110,
            KeyProcedure::Inventory => 0b0111,
        }
    }

    /// The 4-bit procedure identifier.
    pub fn code(&self) -> (c: u8)
        ensures
            c == self.spec_code(),
    {
        match self {
            KeyProcedure::Otar => 0b0001,
            KeyProcedure::Activate => 0b0010,
            KeyProcedure::Deactivate => 0b0011,
            KeyProcedure::Verify => 0b0100,
            KeyProcedure::Destroy => 0b0110,
            KeyProcedure::Inventory => 0b0111,
        }
    }

    /// The procedure with identifier `value`, or `InvalidProcedure`.
    pub fn try_from(value: u8) -> (r: Result<Self, Error>)
        ensures
            (exists|p: KeyProcedure| p.spec_code() == value) ==> (r matches Ok(p) && p.spec_code()
                == value),
            !(exists|p: KeyProcedure| p.spec_code() == value) ==> r == Err::<Self, Error>(
                Error::InvalidProcedure,
            ),
    {
        let r = match value {
            0b0001 => Ok(KeyProcedure::Otar),
            0b0010 => Ok(KeyProcedure::Activate),
            0b0011 => Ok(KeyProcedure::Deactivate),
            0b0100 => Ok(KeyProcedure::Verify),
            0b0110 => Ok(KeyProcedure::Destroy),
            0b0111 => Ok(KeyProcedure::Inventory),
            _ => Err(Error::InvalidProcedure),
        };
        proof {
            if let Ok(p) = r {
                assert(p.spec_code() == value);
            }
            if r is Err {
                assert forall|p: KeyProcedure| p.spec_code() != value by {
                    match p {
                        KeyProcedure::Otar => {},
                        KeyProcedure::Activate => {},
                        KeyProcedure::Deactivate => {},
                        KeyProcedure::Verify => {},
                        KeyProcedure::Destroy => {},
                        KeyProcedure::Inventory => {},
                    }
                }
            }
        }
        r
    }
}

/// SA Management procedures (Table 5-1, Service Group 01 or 10).
#[derive(Debug, Copy, Clone, Eq, PartialEq, Structural)]
pub enum SaProcedure {
    /// Create a new Security Association.
    Create,
    /// Delete an existing SA.
    Delete,
    /// Assign keys to an SA (rekey).
    Rekey,
    /// Activate an SA for operational use.
    Start,
    /// Deactivate an SA.
    Stop,
    /// Mark an SA for retirement.
    Expire,
    /// Set the Anti-Replay Sequence Number.
    SetArsn,
    /// Set the Anti-Replay Sequence Number Window.
    SetArsnWindow,
    /// Read the current ARSN.
    ReadArsn,
    /// Read SA status.
    Status,
}

impl SaProcedure {
    /// The 4-bit procedure identifier.
    pub open spec fn spec_code(self) -> u8 {
        match self {
            SaProcedure::Create => 0b0001,
            SaProcedure::Delete => 0b0100,
            SaProcedure::Rekey => 0b0110,
            SaProcedure::Start => 0b1011,
            SaProcedure::Stop => 0b1110,
            SaProcedure::Expire => 0b1001,
            SaProcedure::SetArsn => 0b1010,
            SaProcedure::SetArsnWindow => 0b0101,
            SaProcedure::ReadArsn => 0b0000,
            SaProcedure::Status => 0b1111,
        }
    }

    /// The 4-bit procedure identifier.
    pub fn code(&self) -> (c: u8)
        ensures
            c == self.spec_code(),
    {
        match self {
            SaProcedure::Create => 0b0001,
            SaProcedure::Delete => 0b0100,
            SaProcedure::Rekey => 0b0110,
            SaProcedure::Start => 0b1011,
            SaProcedure::Stop => 0b1110,
            SaProcedure::Expire => 0b1001,
            SaProcedure::SetArsn => 0b1010,
            SaProcedure::SetArsnWindow => 0b0101,
            SaProcedure::ReadArsn => 0b0000,
            SaProcedure::Status => 0b1111,
        }
    }

    /// The procedure with identifier `value`, or `InvalidProcedure`.
    pub fn try_from(value: u8) -> (r: Result<Self, Error>)
        ensures
            (exists|p: SaProcedure| p.spec_code() == value) ==> (r matches Ok(p) && p.spec_code()
                == value),
            !(exists|p: SaProcedure| p.spec_code() == value) ==> r == Err::<Self, Error>(
                Error::InvalidProcedure,
            ),
    {
        let r = match value {
            0b0001 => Ok(SaProcedure::Create),
            0b0100 => Ok(SaProcedure::Delete),
            0b0110 => Ok(SaProcedure::Rekey),
            0b1011 => Ok(SaProcedure::Start),
            0b1110 => Ok(SaProcedure::Stop),
            0b1001 => Ok(SaProcedure::Expire),
            0b1010 => Ok(SaProcedure::SetArsn),
            0b0101 => Ok(SaProcedure::SetArsnWindow),
            0b0000 => Ok(SaProcedure::ReadArsn),
            0b1111 => Ok(SaProcedure::Status),
            _ => Err(Error::InvalidProcedure),
        };
        proof {
            if let Ok(p) = r {
                assert(p.spec_code() == value);
            }
            if r is Err {
                assert forall|p: SaProcedure| p.spec_code() != value by {
                    match p {
                        SaProcedure::Create => {},
                        SaProcedure::Delete => {},
                        SaProcedure::Rekey => {},
                        SaProcedure::Start => {},
                        SaProcedure::Stop => {},
                        SaProcedure::Expire => {},
                        SaProcedure::SetArsn => {},
                        SaProcedure::SetArsnWindow => {},
                        SaProcedure::ReadArsn => {},
                        SaProcedure::Status => {},
                    }
                }
            }
        }
        r
    }
}

/// Monitoring & Control procedures (Table 5-1, Service Group 11).
#[derive(Debug, Copy, Clone, Eq, PartialEq, Structural)]
pub enum McProcedure {
    /// Ping the security function.
    Ping,
    /// Query log status.
    LogStatus,
    /// Dump the security log.
    DumpLog,
    /// Erase the security log.
    EraseLog,
    /// Trigger a self-test.
    SelfTest,
    /// Reset the alarm flag in the FSR.
    ResetAlarmFlag,
}

impl McProcedure {
    /// The 4-bit procedure identifier.
    pub open spec fn spec_code(self) -> u8 {
        match self {
            McProcedure::Ping => 0b0001,
            McProcedure::LogStatus => 0b0010,
            McProcedure::DumpLog => 0b0011,
            McProcedure::EraseLog => 0b0100,
            McProcedure::SelfTest => 0b0101,
            McProcedure::ResetAlarmFlag => 0b0111,
        }
    }

    /// The 4-bit procedure identifier.
    pub fn code(&self) -> (c: u8)
        ensures
            c == self.spec_code(),
    {
        match self {
            McProcedure::Ping => 0b0001,
            McProcedure::LogStatus => 0b0010,
            McProcedure::DumpLog => 0b0011,
            McProcedure::EraseLog => 0b0100,
            McProcedure::SelfTest => 0b0101,
            McProcedure::ResetAlarmFlag => 0b0111,
        }
    }

    /// The procedure with identifier `value`, or `InvalidProcedure`.
    pub fn try_from(value: u8) -> (r: Result<Self, Error>)
        ensures
            (exists|p: McProcedure| p.spec_code() == value) ==> (r matches Ok(p) && p.spec_code()
                == value),
            !(exists|p: McProcedure| p.spec_code() == value) ==> r == Err::<Self, Error>(
                Error::InvalidProcedure,
            ),
    {
        let r = match value {
            0b0001 => Ok(McProcedure::Ping),
            0b0010 => Ok(McProcedure::LogStatus),
            0b0011 => Ok(McProcedure::DumpLog),
            0b0100 => Ok(McProcedure::EraseLog),
            0b0101 => Ok(McProcedure::SelfTest),
            0b0111 => Ok(McProcedure::ResetAlarmFlag),
            _ => Err(Error::InvalidProcedure),
        };
        proof {
            if let Ok(p) = r {
                assert(p.spec_code() == value);
            }
            if r is Err {
                assert forall|p: McProcedure| p.spec_code() != value by {
                    match p {
                        McProcedure::Ping => {},
                        McProcedure::LogStatus => {},
                        McProcedure::DumpLog => {},
                        McProcedure::EraseLog => {},
                        McProcedure::SelfTest => {},
                        McProcedure::ResetAlarmFlag => {},
                    }
                }
            }
        }
        r
    }
}

/// PDU type: command (Initiator → Recipient) or reply.
#[derive(Debug, Copy, Clone, Eq, PartialEq, Structural)]
pub enum PduType {
    /// Command from Initiator to Recipient.
    Command,
    /// Reply from Recipient to Initiator.
    Reply,
}

/// PDU header size: 1-byte tag + 2-byte length = 3 bytes.
pub const EP_HEADER_SIZE: usize = 3;

/// Parsed SDLS-EP PDU header.
///
/// Wire format (3 bytes, per Figure 5-2):
///   byte 0 (Tag): type(1) | user_flag(1) | service_group(2) | procedure_id(4)
///   byte 1-2: data field length in bits (16-bit BE, octet-aligned)
#[derive(Debug, Copy, Clone)]
pub struct EpHeader {
    /// Command or reply.
    pub pdu_type: PduType,
    /// User-defined extension flag.
    pub user_flag: bool,
    /// Service group (2 bits).
    pub service_group: u8,
    /// Procedure identifier within the service group (4 bits).
    pub procedure_id: u8,
}

/// The tag byte of a header: type in bit 7, user flag in bit 6, the low
/// 2 bits of the service group in bits 5-4 and the low 4 bits of the
/// procedure identifier in bits 3-0.
pub open spec fn spec_ep_tag(h: EpHeader) -> u8 {
    (if h.pdu_type == PduType::Reply {
        0x80u8
    } else {
        0u8
    }) | (if h.user_flag {
        0x40u8
    } else {
        0u8
    }) | (((h.service_group & 3u8) << 4u8) as u8) | (h.procedure_id & 0x0Fu8)
}

/// The header that a tag byte describes.
pub open spec fn spec_ep_from_tag(tag: u8) -> EpHeader {
    EpHeader {
        pdu_type: if tag & 0x80u8 == 0 {
            PduType::Command
        } else {
            PduType::Reply
        },
        user_flag: tag & 0x40u8 != 0,
        service_group: (tag >> 4u8) & 3u8,
        procedure_id: tag & 0x0Fu8,
    }
}

impl EpHeader {
    /// Parse an EP header from a byte buffer.
    ///
    /// Returns the header and the data field length in bytes.
    pub fn parse(bytes: &[u8]) -> (r: Result<(Self, u16), Error>)
        ensures
            bytes@.len() < 3 ==> r == Err::<(Self, u16), Error>(Error::FrameTooShort),
            bytes@.len() >= 3 ==> r == Ok::<(Self, u16), Error>(
                (spec_ep_from_tag(bytes@[0]), ((bytes@[1] * 256 + bytes@[2]) / 8) as u16),
            ),
    {
        if bytes.len() < EP_HEADER_SIZE {
            return Err(Error::FrameTooShort);
        }
        let tag = bytes[0];
        let pdu_type = if tag & 0x80 == 0 {
            PduType::Command
        } else {
            PduType::Reply
        };
        let user_flag = tag & 0x40 != 0;
        let service_group = (tag >> 4) & 3;
        let procedure_id = tag & 0x0F;
        let length_bits = bytes[1] as u16 * 256 + bytes[2] as u16;
        let length_bytes = length_bits / 8;
        Ok((EpHeader { pdu_type, user_flag, service_group, procedure_id }, length_bytes))
    }

    /// Encode the EP header into a buffer.
    ///
    /// `data_len_bytes` is the data field length in bytes; it is
    /// encoded as bits in the wire format.
    pub fn encode(&self, data_len_bytes: u16, out: &mut [u8]) -> (r: Result<usize, Error>)
        requires
            data_len_bytes * 8 <= u16::MAX,
        ensures
            old(out)@.len() < 3 ==> r == Err::<usize, Error>(
                Error::BufferTooSmall { required: 3, available: old(out)@.len() as usize },
            ) && final(out)@ == old(out)@,
            old(out)@.len() >= 3 ==> r == Ok::<usize, Error>(3) && final(out)@ == seq![
                spec_ep_tag(*self),
                ((data_len_bytes * 8) / 256) as u8,
                ((data_len_bytes * 8) % 256) as u8,
            ] + old(out)@.subrange(3, old(out)@.len() as int),
    {
        if out.len() < EP_HEADER_SIZE {
            return Err(Error::BufferTooSmall { required: EP_HEADER_SIZE, available: out.len() });
        }
        let type_bit: u8 = match self.pdu_type {
            PduType::Command => 0,
            PduType::Reply => 0x80,
        };
        let flag_bit: u8 = if self.user_flag {
            0x40
        } else {
            0
        };
        let tag: u8 = type_bit | flag_bit | ((self.service_group & 3) << 4) | (self.procedure_id
            & 0x0F);
        out[0] = tag;
        let length_bits: u16 = data_len_bytes * 8;
        out[1] = (length_bits / 256) as u8;
        out[2] = (length_bits % 256) as u8;
        assert(final(out)@ =~= seq![
            spec_ep_tag(*self),
            ((data_len_bytes * 8) / 256) as u8,
            ((data_len_bytes * 8) % 256) as u8,
        ] + old(out)@.subrange(3, old(out)@.len() as int));
        Ok(EP_HEADER_SIZE)
    }
}

/// Reading back an encoded header gives the header (its service group
/// and procedure identifier cut to their field widths) and the data
/// field length.
pub proof fn lemma_ep_header_roundtrip(h: EpHeader, data_len_bytes: u16)
    requires
        data_len_bytes * 8 <= u16::MAX,
    ensures
        spec_ep_from_tag(spec_ep_tag(h)) == (EpHeader {
            service_group: h.service_group & 3u8,
            procedure_id: h.procedure_id & 0x0Fu8,
            ..h
        }),
        ((((data_len_bytes * 8) / 256) as u8) * 256 + (((data_len_bytes * 8) % 256) as u8)) / 8
            == data_len_bytes,
        (spec_ep_tag(h) & 0x80u8 != 0) == (h.pdu_type == PduType::Reply),
        (spec_ep_tag(h) & 0x40u8 != 0) == h.user_flag,
        (spec_ep_tag(h) >> 4u8) & 3u8 == h.service_group & 3u8,
        spec_ep_tag(h) & 0x0Fu8 == h.procedure_id & 0x0Fu8,
{
    let t = if h.pdu_type == PduType::Reply {
        0x80u8
    } else {
        0u8
    };
    let f = if h.user_flag {
        0x40u8
    } else {
        0u8
    };
    let sg = h.service_group;
    let pid = h.procedure_id;
    assert(t == 0 || t == 0x80u8);
    assert(f == 0 || f == 0x40u8);
    let tag = t | f | (((sg & 3u8) << 4u8) as u8) | (pid & 0x0Fu8);
    assert(tag & 0x80u8 == t) by (bit_vector)
        requires
            t == 0 || t == 0x80u8,
            f == 0 || f == 0x40u8,
            tag == t | f | (((sg & 3u8) << 4u8) as u8) | (pid & 0x0Fu8),
    ;
    assert(tag & 0x40u8 == f) by (bit_vector)
        requires
            t == 0 || t == 0x80u8,
            f == 0 || f == 0x40u8,
            tag == t | f | (((sg & 3u8) << 4u8) as u8) | (pid & 0x0Fu8),
    ;
    assert((tag >> 4u8) & 3u8 == sg & 3u8) by (bit_vector)
        requires
            t == 0 || t == 0x80u8,
            f == 0 || f == 0x40u8,
            tag == t | f | (((sg & 3u8) << 4u8) as u8) | (pid & 0x0Fu8),
    ;
    assert(tag & 0x0Fu8 == pid & 0x0Fu8) by (bit_vector)
        requires
            t == 0 || t == 0x80u8,
            f == 0 || f == 0x40u8,
            tag == t | f | (((sg & 3u8) << 4u8) as u8) | (pid & 0x0Fu8),
    ;
}

/// Frame Security Report (FSR) — 32-bit OCF carried in TM/AOS/USLP
/// frames to report security status (Section 4.2.2).
#[derive(Debug, Copy, Clone)]
pub struct FrameSecurityReport {
    /// Last SPI used by the receiving security function.
    pub last_spi: u16,
    /// 8 LSBs of the ARSN from the last received frame.
    pub arsn_lsb: u8,
    /// Alarm flag: at least one frame was rejected since last reset.
    pub alarm: bool,
    /// Bad Sequence Number flag for the last received frame.
    pub bad_sn: bool,
    /// Bad MAC flag for the last received frame.
    pub bad_mac: bool,
    /// Bad SA flag for the last received frame.
    pub bad_sa: bool,
}

/// The first FSR byte: control word type 1 in bit 7, version `100` in
/// bits 6-4, then the alarm, bad-SN, bad-MAC and bad-SA flags.
pub open spec fn spec_fsr_byte0(f: FrameSecurityReport) -> u8 {
    0xC0u8 | (if f.alarm {
        8u8
    } else {
        0u8
    }) | (if f.bad_sn {
        4u8
    } else {
        0u8
    }) | (if f.bad_mac {
        2u8
    } else {
        0u8
    }) | (if f.bad_sa {
        1u8
    } else {
        0u8
    })
}

/// The report that four FSR bytes describe.
pub open spec fn spec_fsr_parse(b: Seq<u8>) -> FrameSecurityReport {
    FrameSecurityReport {
        alarm: b[0] & 8u8 != 0,
        bad_sn: b[0] & 4u8 != 0,
        bad_mac: b[0] & 2u8 != 0,
        bad_sa: b[0] & 1u8 != 0,
        last_spi: (b[1] * 256 + b[2]) as u16,
        arsn_lsb: b[3],
    }
}

impl FrameSecurityReport {
    /// FSR version number (3 bits, value `100` = version 1).
    pub const VERSION: u8 = 0b100;

    /// Encode the FSR into a 4-byte buffer.
    pub fn encode(&self, out: &mut [u8; 4])
        ensures
            final(out)@ == seq![
                spec_fsr_byte0(*self),
                (self.last_spi / 256) as u8,
                (self.last_spi % 256) as u8,
                self.arsn_lsb,
            ],
    {
        let byte0: u8 = 0xC0 | (if self.alarm {
            8u8
        } else {
            0u8
        }) | (if self.bad_sn {
            4u8
        } else {
            0u8
        }) | (if self.bad_mac {
            2u8
        } else {
            0u8
        }) | (if self.bad_sa {
            1u8
        } else {
            0u8
        });
        out[0] = byte0;
        out[1] = (self.last_spi / 256) as u8;
        out[2] = (self.last_spi % 256) as u8;
        out[3] = self.arsn_lsb;
        assert(final(out)@ =~= seq![
            spec_fsr_byte0(*self),
            (self.last_spi / 256) as u8,
            (self.last_spi % 256) as u8,
            self.arsn_lsb,
        ]);
    }

    /// Parse an FSR from a 4-byte buffer.
    pub fn parse(bytes: &[u8; 4]) -> (f: Self)
        ensures
            f == spec_fsr_parse(bytes@),
    {
        FrameSecurityReport {
            alarm: bytes[0] & 8 != 0,
            bad_sn: bytes[0] & 4 != 0,
            bad_mac: bytes[0] & 2 != 0,
            bad_sa: bytes[0] & 1 != 0,
            last_spi: bytes[1] as u16 * 256 + bytes[2] as u16,
            arsn_lsb: bytes[3],
        }
    }
}

/// Reading back an encoded Frame Security Report gives the report, and
/// its first bit marks it as a type-1 control word.
pub proof fn lemma_fsr_roundtrip(f: FrameSecurityReport)
    ensures
        spec_fsr_parse(
            seq![
                spec_fsr_byte0(f),
                (f.last_spi / 256) as u8,
                (f.last_spi % 256) as u8,
                f.arsn_lsb,
            ],
        ) == f,
        spec_fsr_byte0(f) & 0x80u8 == 0x80u8,
{
    let a = f.alarm;
    let s = f.bad_sn;
    let m = f.bad_mac;
    let q = f.bad_sa;
    let b = spec_fsr_byte0(f);
    assert((b & 8u8 != 0) == a && (b & 4u8 != 0) == s && (b & 2u8 != 0) == m && (b & 1u8 != 0) == q
        && b & 0x80u8 == 0x80u8) by (bit_vector)
        requires
            b == 0xC0u8 | (if a { 8u8 } else { 0u8 }) | (if s { 4u8 } else { 0u8 }) | (if m {
                2u8
            } else {
                0u8
            }) | (if q { 1u8 } else { 0u8 }),
    ;
}

/// The value on the wire of every `ServiceGroup`, as the protocol's table fixes it.
pub proof fn lemma_service_group_values()
    ensures
        ServiceGroup::KeyManagement.spec_code() == 0b00,
        ServiceGroup::SaManagementIr.spec_code() == 0b01,
        ServiceGroup::SaManagementRi.spec_code() == 0b10,
        ServiceGroup::MonitoringControl.spec_code() == 0b11,
{
}

/// The value on the wire of every `KeyProcedure`, as the protocol's table fixes it.
pub proof fn lemma_key_procedure_values()
    ensures
        KeyProcedure::Otar.spec_code() == 0b0001,
        KeyProcedure::Activate.spec_code() == 0b0010,
        KeyProcedure::Deactivate.spec_code() == 0b0011,
        KeyProcedure::Verify.spec_code() == 0b0100,
        KeyProcedure::Destroy.spec_code() == 0b0110,
        KeyProcedure::Inventory.spec_code() == 0b0111,
{
}

/// The value on the wire of every `SaProcedure`, as the protocol's table fixes it.
pub proof fn lemma_sa_procedure_values()
    ensures
        SaProcedure::Create.spec_code() == 0b0001,
        SaProcedure::Delete.spec_code() == 0b0100,
        SaProcedure::Rekey.spec_code() == 0b0110,
        SaProcedure::Start.spec_code() == 0b1011,
        SaProcedure::Stop.spec_code() == 0b1110,
        SaProcedure::Expire.spec_code() == 0b1001,
        SaProcedure::SetArsn.spec_code() == 0b1010,
        SaProcedure::SetArsnWindow.spec_code() == 0b0101,
        SaProcedure::ReadArsn.spec_code() == 0b0000,
        SaProcedure::Status.spec_code() == 0b1111,
{
}

/// The value on the wire of every `McProcedure`, as the protocol's table fixes it.
pub proof fn lemma_mc_procedure_values()
    ensures
        McProcedure::Ping.spec_code() == 0b0001,
        McProcedure::LogStatus.spec_code() == 0b0010,
        McProcedure::DumpLog.spec_code() == 0b0011,
        McProcedure::EraseLog.spec_code() == 0b0100,
        McProcedure::SelfTest.spec_code() == 0b0101,
        McProcedure::ResetAlarmFlag.spec_code() == 0b0111,
{
}

/// Where each field of a Frame Security Report sits in its four bytes:
/// byte 0 is `1100` (the FSR flag and version 1) over the Alarm, Bad SN,
/// Bad MAC and Bad SA flags in bits 3-0; bytes 1-2 the last SPI,
/// big-endian; byte 3 the low byte of the ARSN.
pub proof fn lemma_fsr_layout(f: FrameSecurityReport)
    ensures
        spec_fsr_byte0(f) >> 4u8 == 0b1100u8,
        (spec_fsr_byte0(f) & 8u8 != 0) == f.alarm,
        (spec_fsr_byte0(f) & 4u8 != 0) == f.bad_sn,
        (spec_fsr_byte0(f) & 2u8 != 0) == f.bad_mac,
        (spec_fsr_byte0(f) & 1u8 != 0) == f.bad_sa,
{
    lemma_fsr_roundtrip(f);
    let b = spec_fsr_byte0(f);
    let a: u8 = if f.alarm { 8 } else { 0 };
    let s: u8 = if f.bad_sn { 4 } else { 0 };
    let m: u8 = if f.bad_mac { 2 } else { 0 };
    let x: u8 = if f.bad_sa { 1 } else { 0 };
    assert(b == 0xC0u8 | a | s | m | x);
    assert((0xC0u8 | a | s | m | x) >> 4u8 == 0b1100u8) by (bit_vector)
        requires
            a == 0 || a == 8,
            s == 0 || s == 4,
            m == 0 || m == 2,
            x == 0 || x == 1,
    ;
}

} // verus!
