//! Communications Link Control Word (CLCW), the 32-bit report that
//! FARM-1 returns to FOP-1 in the Operational Control Field.
//!
//! ```text
//! bit 0      Control Word Type (0)
//! bits 1-2   CLCW Version Number (00)
//! bits 3-5   Status Field
//! bits 6-7   COP in Effect
//! bits 8-13  Virtual Channel Identifier
//! bits 14-15 Spare
//! bit 16     No RF Available
//! bit 17     No Bit Lock
//! bit 18     Lockout
//! bit 19     Wait
//! bit 20     Retransmit
//! bits 21-22 FARM-B Counter
//! bit 23     Spare
//! bits 24-31 Report Value N(R)
//! ```
use vstd::prelude::*;

use crate::ids::Vcid;

verus! {

/// A CLCW, held field by field.
#[derive(Debug, Copy, Clone, PartialEq, Eq, Structural)]
pub struct Clcw {
    /// 3-bit status field.
    pub status: u8,
    /// 2-bit COP-in-effect field (1 = COP-1).
    pub cop_in_effect: u8,
    /// 6-bit virtual channel identifier.
    pub vcid: u8,
    /// No RF available flag.
    pub no_rf: bool,
    /// No bit lock flag.
    pub no_bit_lock: bool,
    /// Lockout flag.
    pub lockout: bool,
    /// Wait flag.
    pub wait: bool,
    /// Retransmit flag.
    pub retransmit: bool,
    /// 2-bit FARM-B counter.
    pub farm_b_counter: u8,
    /// Report value N(R): the next expected frame sequence number.
    pub report_value: u8,
}

impl Clcw {
    /// Every field within its bit width.
    pub open spec fn wf(self) -> bool {
        &&& self.status < 8
        &&& self.cop_in_effect < 4
        &&& self.vcid < 64
        &&& self.farm_b_counter < 4
    }

    /// The all-zero CLCW.
    pub open spec fn zero() -> Clcw {
        Clcw {
            status: 0,
            cop_in_effect: 0,
            vcid: 0,
            no_rf: false,
            no_bit_lock: false,
            lockout: false,
            wait: false,
            retransmit: false,
            farm_b_counter: 0,
            report_value: 0,
        }
    }

    /// Creates a CLCW with every field zero.
    pub fn new() -> (c: Self)
        ensures
            c == Clcw::zero(),
    {
        Clcw {
            status: 0,
            cop_in_effect: 0,
            vcid: 0,
            no_rf: false,
            no_bit_lock: false,
            lockout: false,
            wait: false,
            retransmit: false,
            farm_b_counter: 0,
            report_value: 0,
        }
    }

    /// Sets the COP-in-effect field (low 2 bits of `v`).
    pub fn set_cop_in_effect(&mut self, v: u8)
        ensures
            *final(self) == (Clcw { cop_in_effect: v % 4, ..*old(self) }),
    {
        self.cop_in_effect = v % 4;
    }

    /// Sets the virtual channel identifier (low 6 bits).
    pub fn set_vcid(&mut self, vcid: Vcid)
        ensures
            *final(self) == (Clcw { vcid: (vcid.0 % 64) as u8, ..*old(self) }),
    {
        self.vcid = (vcid.0 % 64) as u8;
    }

    /// Sets the lockout flag.
    pub fn set_lockout(&mut self, v: bool)
        ensures
            *final(self) == (Clcw { lockout: v, ..*old(self) }),
    {
        self.lockout = v;
    }

    /// Sets the wait flag.
    pub fn set_wait(&mut self, v: bool)
        ensures
            *final(self) == (Clcw { wait: v, ..*old(self) }),
    {
        self.wait = v;
    }

    /// Sets the retransmit flag.
    pub fn set_retransmit(&mut self, v: bool)
        ensures
            *final(self) == (Clcw { retransmit: v, ..*old(self) }),
    {
        self.retransmit = v;
    }

    /// Sets the FARM-B counter (low 2 bits).
    pub fn set_farm_b_counter(&mut self, v: u8)
        ensures
            *final(self) == (Clcw { farm_b_counter: v % 4, ..*old(self) }),
    {
        self.farm_b_counter = v % 4;
    }

    /// Sets the report value N(R).
    pub fn set_report_value(&mut self, v: u8)
        ensures
            *final(self) == (Clcw { report_value: v, ..*old(self) }),
    {
        self.report_value = v;
    }

    /// Returns the report value N(R).
    pub fn report_value(&self) -> (v: u8)
        ensures
            v == self.report_value,
    {
        self.report_value
    }

    /// Returns the lockout flag.
    pub fn lockout(&self) -> (v: bool)
        ensures
            v == self.lockout,
    {
        self.lockout
    }

    /// Returns the wait flag.
    pub fn wait(&self) -> (v: bool)
        ensures
            v == self.wait,
    {
        self.wait
    }

    /// Returns the retransmit flag.
    pub fn retransmit(&self) -> (v: bool)
        ensures
            v == self.retransmit,
    {
        self.retransmit
    }

    /// Returns the FARM-B counter.
    pub fn farm_b_counter(&self) -> (v: u8)
        ensures
            v == self.farm_b_counter,
    {
        self.farm_b_counter
    }

    /// Returns the virtual channel identifier.
    pub fn vcid(&self) -> (v: u8)
        ensures
            v == self.vcid,
    {
        self.vcid
    }

    /// Returns the COP-in-effect field.
    pub fn cop_in_effect(&self) -> (v: u8)
        ensures
            v == self.cop_in_effect,
    {
        self.cop_in_effect
    }

    /// The 4-byte wire image of a CLCW.
    pub open spec fn spec_bytes(self) -> Seq<u8> {
        seq![
            ((self.status % 8) * 4 + self.cop_in_effect % 4) as u8,
            ((self.vcid % 64) * 4) as u8,
            ((if self.no_rf { 128int } else { 0 }) + (if self.no_bit_lock { 64int } else { 0 })
                + (if self.lockout { 32int } else { 0 }) + (if self.wait { 16int } else { 0 })
                + (if self.retransmit { 8int } else { 0 }) + (self.farm_b_counter % 4) * 2) as u8,
            self.report_value,
        ]
    }

    /// The CLCW that a 4-byte wire image denotes.
    pub open spec fn spec_from_bytes(b: Seq<u8>) -> Clcw {
        Clcw {
            status: (b[0] / 4 % 8) as u8,
            cop_in_effect: (b[0] % 4) as u8,
            vcid: (b[1] / 4 % 64) as u8,
            no_rf: b[2] / 128 % 2 == 1,
            no_bit_lock: b[2] / 64 % 2 == 1,
            lockout: b[2] / 32 % 2 == 1,
            wait: b[2] / 16 % 2 == 1,
            retransmit: b[2] / 8 % 2 == 1,
            farm_b_counter: (b[2] / 2 % 4) as u8,
            report_value: b[3],
        }
    }

    /// Encodes the CLCW as 4 big-endian bytes.
    pub fn to_bytes(&self) -> (b: [u8; 4])
        ensures
            b@ == self.spec_bytes(),
    {
        let b0 = ((self.status % 8) * 4 + self.cop_in_effect % 4) as u8;
        let b1 = ((self.vcid % 64) * 4) as u8;
        let b2 = ((if self.no_rf { 128u8 } else { 0 }) + (if self.no_bit_lock { 64u8 } else { 0 })
            + (if self.lockout { 32u8 } else { 0 }) + (if self.wait { 16u8 } else { 0 })
            + (if self.retransmit { 8u8 } else { 0 }) + (self.farm_b_counter % 4) * 2) as u8;
        let b = [b0, b1, b2, self.report_value];
        assert(b@ =~= self.spec_bytes());
        b
    }

    /// Decodes a CLCW from 4 big-endian bytes.
    pub fn from_bytes(b: &[u8; 4]) -> (c: Self)
        ensures
            c == Clcw::spec_from_bytes(b@),
            c.wf(),
    {
        Clcw {
            status: b[0] / 4 % 8,
            cop_in_effect: b[0] % 4,
            vcid: b[1] / 4 % 64,
            no_rf: b[2] / 128 % 2 == 1,
            no_bit_lock: b[2] / 64 % 2 == 1,
            lockout: b[2] / 32 % 2 == 1,
            wait: b[2] / 16 % 2 == 1,
            retransmit: b[2] / 8 % 2 == 1,
            farm_b_counter: b[2] / 2 % 4,
            report_value: b[3],
        }
    }
}

/// Decoding the wire image of a well-formed CLCW gives the CLCW back.
pub proof fn lemma_clcw_bytes_roundtrip(c: Clcw)
    requires
        c.wf(),
    ensures
        Clcw::spec_from_bytes(c.spec_bytes()) == c,
{
    let b = c.spec_bytes();
    let st = c.status;
    let cop = c.cop_in_effect;
    let v = c.vcid;
    let fb = c.farm_b_counter;
    assert(((st % 8) * 4 + cop % 4) as u8 / 4 % 8 == st && ((st % 8) * 4 + cop % 4) as u8 % 4
        == cop) by (bit_vector)
        requires
            st < 8,
            cop < 4,
    ;
    assert(((v % 64) * 4) as u8 / 4 % 64 == v) by (bit_vector)
        requires
            v < 64,
    ;
    let f1: u8 = if c.no_rf { 1 } else { 0 };
    let f2: u8 = if c.no_bit_lock { 1 } else { 0 };
    let f3: u8 = if c.lockout { 1 } else { 0 };
    let f4: u8 = if c.wait { 1 } else { 0 };
    let f5: u8 = if c.retransmit { 1 } else { 0 };
    let x = (f1 * 128 + f2 * 64 + f3 * 32 + f4 * 16 + f5 * 8 + (fb % 4) * 2) as u8;
    assert(b[2] == x);
    assert(x / 128 % 2 == f1 && x / 64 % 2 == f2 && x / 32 % 2 == f3 && x / 16 % 2 == f4 && x
        / 8 % 2 == f5 && x / 2 % 4 == fb) by (bit_vector)
        requires
            f1 < 2,
            f2 < 2,
            f3 < 2,
            f4 < 2,
            f5 < 2,
            fb < 4,
            x == (f1 * 128 + f2 * 64 + f3 * 32 + f4 * 16 + f5 * 8 + (fb % 4) * 2) as u8,
    ;
}

/// Where each field of a well-formed CLCW sits in its wire image: byte 0
/// carries the control word type `0`, the version `00`, the status in bits
/// 4-2 and the COP in effect in bits 1-0; byte 1 the VCID in bits 7-2;
/// byte 2 the No RF Available, No Bit Lock, Lockout, Wait and Retransmit
/// flags in bits 7-3 and the FARM-B counter in bits 2-1; byte 3 the report
/// value.
pub proof fn lemma_clcw_wire_layout(c: Clcw)
    requires
        c.wf(),
    ensures
        ({
            let b = c.spec_bytes();
            &&& b.len() == 4
            &&& b[0] / 32 == 0
            &&& b[0] / 4 % 8 == c.status
            &&& b[0] % 4 == c.cop_in_effect
            &&& b[1] / 4 == c.vcid
            &&& b[1] % 4 == 0
            &&& (b[2] / 128 % 2 == 1) == c.no_rf
            &&& (b[2] / 64 % 2 == 1) == c.no_bit_lock
            &&& (b[2] / 32 % 2 == 1) == c.lockout
            &&& (b[2] / 16 % 2 == 1) == c.wait
            &&& (b[2] / 8 % 2 == 1) == c.retransmit
            &&& b[2] / 2 % 4 == c.farm_b_counter
            &&& b[2] % 2 == 0
            &&& b[3] == c.report_value
        }),
{
    lemma_clcw_bytes_roundtrip(c);
    let b = c.spec_bytes();
    let f1: int = if c.no_rf { 128 } else { 0 };
    let f2: int = if c.no_bit_lock { 64 } else { 0 };
    let f3: int = if c.lockout { 32 } else { 0 };
    let f4: int = if c.wait { 16 } else { 0 };
    let f5: int = if c.retransmit { 8 } else { 0 };
    assert(b[2] == (f1 + f2 + f3 + f4 + f5 + (c.farm_b_counter % 4) * 2) as u8);
    assert((f1 + f2 + f3 + f4 + f5 + (c.farm_b_counter % 4) * 2) % 2 == 0);
}

} // verus!
