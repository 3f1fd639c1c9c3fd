//! CCSDS Unsegmented Code (CUC) Time Format (CCSDS 301.0-B-4, §3.2)
//!
//! CUC encodes time as a binary count of whole seconds (coarse) and
//! fractional seconds (fine) since a reference epoch. The number of
//! coarse and fine bytes is configurable (1-4 each), making it
//! flexible for different precision requirements.
//!
//! # P-Field (Preamble)
//!
//! The P-field is a 1-byte or 2-byte preamble that describes the
//! time code format. When the P-field is implicit (agreed upon by
//! sender and receiver), it may be omitted from the encoded bytes.
//!
//! ```text
//! Byte 1:
//!   [7]     Extension flag (0 = 1-byte P-field, 1 = 2-byte)
//!   [6:4]   Time code ID: 001 = CUC with agency-defined epoch
//!                          010 = CUC with CCSDS epoch (TAI)
//!   [3:2]   Number of coarse time octets - 1 (0-3 → 1-4 bytes)
//!   [1:0]   Number of fine time octets (0-3 bytes)
//! ```
//!
//! The fine time is a left-aligned binary fraction of a second: the
//! field holds the high `fine_len` bytes of the 32-bit `fine` value.
//!
//! # CCSDS Epoch
//!
//! The standard CCSDS epoch is **1958-01-01T00:00:00 TAI**.
use vstd::prelude::*;

use crate::utils::{be_bytes, be_value, pow256, read_be, write_be};

verus! {

/// Maximum number of coarse (whole-second) bytes.
pub const MAX_COARSE_BYTES: u8 = 4;

/// Maximum number of fine (fractional-second) bytes.
pub const MAX_FINE_BYTES: u8 = 3;

/// The CCSDS epoch: 1958-01-01T00:00:00 TAI.
/// Offset from the Unix epoch (1970-01-01) in seconds.
/// Unix epoch = CCSDS epoch + 378_691_200 seconds.
pub const CCSDS_EPOCH_UNIX_OFFSET: i64 = -378_691_200;

/// Bitmask for the 3-bit time code ID field [6:4].
pub const TIME_CODE_ID_MASK: u8 = 0b_0111_0000;

/// Bitmask for the 2-bit coarse length code field [3:2].
pub const COARSE_LEN_MASK: u8 = 0b_0000_1100;

/// Bitmask for the 2-bit fine length code field [1:0].
pub const FINE_LEN_MASK: u8 = 0b_0000_0011;

/// Time code IDs for the P-field.
#[derive(Debug, Copy, Clone, Eq, PartialEq, Structural)]
pub enum TimeCodeId {
    /// CUC with agency-defined epoch (ID = 0b001).
    AgencyEpoch,
    /// CUC with CCSDS epoch (1958-01-01 TAI) (ID = 0b010).
    CcsdsEpoch,
}

impl TimeCodeId {
    /// The 3-bit identifier.
    pub open spec fn spec_code(self) -> u8 {
        match self {
            TimeCodeId::AgencyEpoch => 0b001,
            TimeCodeId::CcsdsEpoch => 0b010,
        }
    }

    /// The 3-bit identifier.
    pub fn code(self) -> (c: u8)
        ensures
            c == self.spec_code(),
    {
        match self {
            TimeCodeId::AgencyEpoch => 0b001,
            TimeCodeId::CcsdsEpoch => 0b010,
        }
    }
}

/// Configuration for a CUC time code.
#[derive(Debug, Copy, Clone, Eq, PartialEq, Structural)]
pub struct CucConfig {
    /// Time code identifier.
    pub time_code_id: TimeCodeId,
    /// Number of coarse (whole-second) bytes (1-4).
    pub coarse_len: u8,
    /// Number of fine (fractional-second) bytes (0-3).
    pub fine_len: u8,
}

/// Errors for CUC time operations.
#[derive(Debug, Copy, Clone, Eq, PartialEq, Structural)]
pub enum Error {
    /// The P-field contains an unrecognized time code ID.
    InvalidTimeCodeId(u8),
    /// The buffer is too short for the expected encoding.
    BufferTooShort {
        /// Minimum bytes needed.
        required: usize,
        /// Actual bytes available.
        provided: usize,
    },
}

/// The P-field byte: the time code ID in bits 6-4, `coarse_len - 1` in
/// bits 3-2 and `fine_len` in bits 1-0 (each cut to its field);
/// extension flag 0.
pub open spec fn spec_p_field(c: CucConfig) -> u8 {
    ((c.time_code_id.spec_code() << 4u8) & 0x70u8) | ((((c.coarse_len - 1) as u8) << 2u8) & 0x0Cu8)
        | (c.fine_len & 3u8)
}

/// What a P-field byte describes: an unknown time code ID, or the
/// configuration with 1-4 coarse and 0-3 fine bytes.
pub open spec fn spec_from_p_field(pf: u8) -> Result<CucConfig, Error> {
    let id = (pf >> 4u8) & 7u8;
    if id != 1 && id != 2 {
        Err(Error::InvalidTimeCodeId(id))
    } else {
        Ok(
            CucConfig {
                time_code_id: if id == 1 {
                    TimeCodeId::AgencyEpoch
                } else {
                    TimeCodeId::CcsdsEpoch
                },
                coarse_len: (((pf >> 2u8) & 3u8) + 1) as u8,
                fine_len: pf & 3u8,
            },
        )
    }
}

impl CucConfig {
    /// 1 to 4 coarse bytes and at most 3 fine bytes.
    pub open spec fn valid(&self) -> bool {
        1 <= self.coarse_len <= MAX_COARSE_BYTES && self.fine_len <= MAX_FINE_BYTES
    }

    /// T-field size in bytes.
    pub open spec fn spec_t_field_len(&self) -> nat {
        (self.coarse_len + self.fine_len) as nat
    }

    /// Creates a new CUC configuration.
    ///
    /// `coarse_len` must be 1 to 4 and `fine_len` at most 3.
    pub fn new(time_code_id: TimeCodeId, coarse_len: u8, fine_len: u8) -> (c: Self)
        requires
            1 <= coarse_len <= MAX_COARSE_BYTES,
            fine_len <= MAX_FINE_BYTES,
        ensures
            c == (CucConfig { time_code_id, coarse_len, fine_len }),
    {
        CucConfig { time_code_id, coarse_len, fine_len }
    }

    /// Standard 4+2 configuration: 4 coarse bytes (seconds since
    /// CCSDS epoch) + 2 fine bytes (~15 µs resolution).
    #[allow(non_snake_case)]
    pub fn CCSDS_4_2() -> (c: Self)
        ensures
            c == (CucConfig { time_code_id: TimeCodeId::CcsdsEpoch, coarse_len: 4, fine_len: 2 }),
    {
        Self::new(TimeCodeId::CcsdsEpoch, 4, 2)
    }

    /// Standard 4+0 configuration: 4 coarse bytes, no fractional.
    #[allow(non_snake_case)]
    pub fn CCSDS_4_0() -> (c: Self)
        ensures
            c == (CucConfig { time_code_id: TimeCodeId::CcsdsEpoch, coarse_len: 4, fine_len: 0 }),
    {
        Self::new(TimeCodeId::CcsdsEpoch, 4, 0)
    }

    /// Returns the P-field byte for this configuration.
    ///
    /// This encodes the time code ID, coarse length, and fine
    /// length into a single byte. The extension flag is 0.
    pub fn p_field(&self) -> (pf: u8)
        requires
            self.coarse_len >= 1,
        ensures
            pf == spec_p_field(*self),
    {
        let id = self.time_code_id.code();
        let coarse_code = self.coarse_len - 1;
        ((id << 4) & 0x70) | ((coarse_code << 2) & 0x0C) | (self.fine_len & 3)
    }

    /// Parses a P-field byte into a CUC configuration.
    pub fn from_p_field(pf: u8) -> (r: Result<Self, Error>)
        ensures
            r == spec_from_p_field(pf),
            r matches Ok(c) ==> c.valid(),
    {
        let id_bits = (pf >> 4) & 7;
        let coarse_code = (pf >> 2) & 3;
        let fine_code = pf & 3;
        let time_code_id = match id_bits {
            0b001 => TimeCodeId::AgencyEpoch,
            0b010 => TimeCodeId::CcsdsEpoch,
            _ => {
                return Err(Error::InvalidTimeCodeId(id_bits));
            },
        };
        assert(coarse_code <= 3 && fine_code <= 3) by (bit_vector)
            requires
                coarse_code == (pf >> 2u8) & 3u8,
                fine_code == pf & 3u8,
        ;
        Ok(CucConfig { time_code_id, coarse_len: coarse_code + 1, fine_len: fine_code })
    }

    /// Total T-field size in bytes (coarse + fine).
    pub fn t_field_len(&self) -> (n: usize)
        ensures
            n == self.spec_t_field_len(),
    {
        self.coarse_len as usize + self.fine_len as usize
    }

    /// Total encoded size including the P-field (1 + T-field).
    pub fn encoded_len(&self) -> (n: usize)
        ensures
            n == 1 + self.spec_t_field_len(),
    {
        1 + self.t_field_len()
    }
}

/// Reading back the P-field of a valid configuration gives it back.
pub proof fn lemma_p_field_roundtrip(c: CucConfig)
    requires
        c.valid(),
    ensures
        spec_from_p_field(spec_p_field(c)) == Ok::<CucConfig, Error>(c),
        (spec_p_field(c) >> 4u8) & 7u8 == c.time_code_id.spec_code(),
        (spec_p_field(c) >> 2u8) & 3u8 == c.coarse_len - 1,
        spec_p_field(c) & 3u8 == c.fine_len,
{
    let id = c.time_code_id.spec_code();
    let cc = (c.coarse_len - 1) as u8;
    let f = c.fine_len;
    let pf = spec_p_field(c);
    assert((pf >> 4u8) & 7u8 == id && (((pf >> 2u8) & 3u8) + 1) as u8 == cc + 1 && pf & 3u8 == f)
        by (bit_vector)
        requires
            pf == ((id << 4u8) & 0x70u8) | ((cc << 2u8) & 0x0Cu8) | (f & 3u8),
            id == 1 || id == 2,
            cc <= 3,
            f <= 3,
    ;
    assert((pf >> 2u8) & 3u8 <= 3u8) by (bit_vector);
    assert(cc == c.coarse_len - 1);
}

/// A CUC timestamp value.
#[derive(Debug, Copy, Clone, Eq, PartialEq, Structural)]
pub struct CucTime {
    /// Configuration describing the encoding format.
    pub config: CucConfig,
    /// Coarse time: whole seconds since epoch.
    pub coarse: u32,
    /// Fine time: fractional seconds (interpretation depends on
    /// `config.fine_len`).
    pub fine: u32,
}

/// The unit of the fine field's lowest byte within `fine`: `256^(4 - fine_len)`.
pub open spec fn fine_unit(fine_len: nat) -> nat {
    pow256((4 - fine_len) as nat)
}

/// The T-field of a timestamp: the low `coarse_len` bytes of the coarse
/// time, then the high `fine_len` bytes of the fine time, big-endian.
pub open spec fn spec_t_field(t: CucTime) -> Seq<u8> {
    be_bytes(t.coarse as nat, t.config.coarse_len as nat) + be_bytes(
        t.fine as nat / fine_unit(t.config.fine_len as nat),
        t.config.fine_len as nat,
    )
}

/// The timestamp that the T-field bytes `b` hold under configuration `c`.
pub open spec fn spec_from_t_field(c: CucConfig, b: Seq<u8>) -> CucTime {
    let cl = c.coarse_len as int;
    let fl = c.fine_len as int;
    CucTime {
        config: c,
        coarse: be_value(b.subrange(0, cl)) as u32,
        fine: (be_value(b.subrange(cl, cl + fl)) * fine_unit(fl as nat)) as u32,
    }
}

/// What `decode` gives for the bytes `b`.
pub open spec fn spec_decode(b: Seq<u8>) -> Result<CucTime, Error> {
    if b.len() == 0 {
        Err(Error::BufferTooShort { required: 1, provided: 0 })
    } else {
        match spec_from_p_field(b[0]) {
            Err(e) => Err(e),
            Ok(c) => if b.len() < 1 + c.spec_t_field_len() {
                Err(
                    Error::BufferTooShort {
                        required: (1 + c.spec_t_field_len()) as usize,
                        provided: b.len() as usize,
                    },
                )
            } else {
                Ok(spec_from_t_field(c, b.subrange(1, b.len() as int)))
            },
        }
    }
}

/// The field lengths are at most 4 bytes.
pub open spec fn lengths_ok(c: CucConfig) -> bool {
    c.coarse_len <= 4 && c.fine_len <= 4
}

impl CucTime {
    /// Creates a new CUC timestamp from coarse and fine values.
    pub fn new(config: CucConfig, coarse: u32, fine: u32) -> (t: Self)
        ensures
            t == (CucTime { config, coarse, fine }),
    {
        CucTime { config, coarse, fine }
    }

    /// Encodes this timestamp into a byte buffer (P-field + T-field).
    ///
    /// Returns the number of bytes written.
    pub fn encode(&self, buf: &mut [u8]) -> (r: Result<usize, Error>)
        requires
            lengths_ok(self.config),
            self.config.coarse_len >= 1,
        ensures
            ({
                let total = 1 + self.config.spec_t_field_len();
                &&& old(buf)@.len() < total ==> r == Err::<usize, Error>(
                    Error::BufferTooShort { required: total as usize, provided: old(buf)@.len() as usize },
                ) && final(buf)@ == old(buf)@
                &&& old(buf)@.len() >= total ==> r == Ok::<usize, Error>(total as usize) && final(buf)@
                    == seq![spec_p_field(self.config)] + spec_t_field(*self) + old(buf)@.subrange(
                    total as int,
                    old(buf)@.len() as int,
                )
            }),
    {
        let total = self.config.encoded_len();
        if buf.len() < total {
            return Err(Error::BufferTooShort { required: total, provided: buf.len() });
        }
        buf[0] = self.config.p_field();
        let pos = self.write_t_field(buf, 1);
        proof {
            self.lemma_t_field_len();
        }
        assert(final(buf)@ =~= seq![spec_p_field(self.config)] + spec_t_field(*self) + old(buf)@.subrange(
            total as int,
            old(buf)@.len() as int,
        ));
        Ok(pos)
    }

    /// Encodes only the T-field (no P-field) into a buffer.
    ///
    /// Useful when the P-field is implicit.
    pub fn encode_t_field(&self, buf: &mut [u8]) -> (r: Result<usize, Error>)
        requires
            lengths_ok(self.config),
        ensures
            ({
                let t_len = self.config.spec_t_field_len();
                &&& old(buf)@.len() < t_len ==> r == Err::<usize, Error>(
                    Error::BufferTooShort { required: t_len as usize, provided: old(buf)@.len() as usize },
                ) && final(buf)@ == old(buf)@
                &&& old(buf)@.len() >= t_len ==> r == Ok::<usize, Error>(t_len as usize) && final(buf)@
                    == spec_t_field(*self) + old(buf)@.subrange(t_len as int, old(buf)@.len() as int)
            }),
    {
        let t_len = self.config.t_field_len();
        if buf.len() < t_len {
            return Err(Error::BufferTooShort { required: t_len, provided: buf.len() });
        }
        let pos = self.write_t_field(buf, 0);
        proof {
            self.lemma_t_field_len();
        }
        assert(final(buf)@ =~= spec_t_field(*self) + old(buf)@.subrange(
            t_len as int,
            old(buf)@.len() as int,
        ));
        Ok(pos)
    }

    proof fn lemma_t_field_len(&self)
        ensures
            spec_t_field(*self).len() == self.config.spec_t_field_len(),
    {
        crate::utils::lemma_be_bytes_len(self.coarse as nat, self.config.coarse_len as nat);
        crate::utils::lemma_be_bytes_len(
            self.fine as nat / fine_unit(self.config.fine_len as nat),
            self.config.fine_len as nat,
        );
    }

    /// Writes the T-field at `at`, leaving every other byte as it was;
    /// returns the position after it.
    fn write_t_field(&self, buf: &mut [u8], at: usize) -> (pos: usize)
        requires
            lengths_ok(self.config),
            at + self.config.spec_t_field_len() <= old(buf)@.len(),
        ensures
            pos == at + self.config.spec_t_field_len(),
            final(buf)@ == old(buf)@.subrange(0, at as int) + spec_t_field(*self) + old(buf)@.subrange(
                at + self.config.spec_t_field_len(),
                old(buf)@.len() as int,
            ),
    {
        let ghost b0 = buf@;
        let n = buf.len();
        let cl = self.config.coarse_len as usize;
        let fl = self.config.fine_len as usize;
        let unit: u64 = if fl == 0 {
            0x1_0000_0000
        } else if fl == 1 {
            0x100_0000
        } else if fl == 2 {
            0x1_0000
        } else if fl == 3 {
            0x100
        } else {
            1
        };
        proof {
            crate::utils::lemma_pow256_values();
            crate::utils::lemma_be_bytes_len(self.coarse as nat, cl as nat);
            crate::utils::lemma_be_bytes_len(self.fine as nat / fine_unit(fl as nat), fl as nat);
            assert(unit == fine_unit(fl as nat));
        }
        write_be(buf, at, cl, self.coarse as u64);
        write_be(buf, at + cl, fl, self.fine as u64 / unit);
        assert(buf@ =~= b0.subrange(0, at as int) + spec_t_field(*self) + b0.subrange(
            at + self.config.spec_t_field_len(),
            b0.len() as int,
        ));
        at + cl + fl
    }

    /// Decodes a CUC timestamp from bytes (P-field + T-field).
    pub fn decode(buf: &[u8]) -> (r: Result<Self, Error>)
        ensures
            r == spec_decode(buf@),
    {
        if buf.len() == 0 {
            return Err(Error::BufferTooShort { required: 1, provided: 0 });
        }
        let config = match CucConfig::from_p_field(buf[0]) {
            Ok(c) => c,
            Err(e) => {
                return Err(e);
            },
        };
        let total = config.encoded_len();
        if buf.len() < total {
            return Err(Error::BufferTooShort { required: total, provided: buf.len() });
        }
        let rest = vstd::slice::slice_subrange(buf, 1, buf.len());
        Self::decode_t_field(&config, rest)
    }

    /// Decodes a CUC timestamp from T-field bytes only.
    ///
    /// The caller provides the configuration (implicit P-field).
    pub fn decode_t_field(config: &CucConfig, buf: &[u8]) -> (r: Result<Self, Error>)
        requires
            lengths_ok(*config),
        ensures
            buf@.len() < config.spec_t_field_len() ==> r == Err::<Self, Error>(
                Error::BufferTooShort {
                    required: config.spec_t_field_len() as usize,
                    provided: buf@.len() as usize,
                },
            ),
            buf@.len() >= config.spec_t_field_len() ==> r == Ok::<Self, Error>(
                spec_from_t_field(*config, buf@),
            ),
    {
        let t_len = config.t_field_len();
        if buf.len() < t_len {
            return Err(Error::BufferTooShort { required: t_len, provided: buf.len() });
        }
        let cl = config.coarse_len as usize;
        let fl = config.fine_len as usize;
        let coarse = read_be(buf, 0, cl);
        let fine_field = read_be(buf, cl, fl);
        let unit: u64 = if fl == 0 {
            0x1_0000_0000
        } else if fl == 1 {
            0x100_0000
        } else if fl == 2 {
            0x1_0000
        } else if fl == 3 {
            0x100
        } else {
            1
        };
        proof {
            crate::utils::lemma_pow256_values();
            crate::utils::lemma_be_value_bound(buf@.subrange(0, cl as int));
            crate::utils::lemma_be_value_bound(buf@.subrange(cl as int, cl + fl));
            crate::utils::lemma_pow256_mono(cl as nat, 4);
            assert(unit == fine_unit(fl as nat));
            assert(fine_field * unit < 0x1_0000_0000) by (nonlinear_arith)
                requires
                    fine_field < pow256(fl as nat),
                    fl <= 4,
                    fl == 0 ==> unit == 0x1_0000_0000 && pow256(fl as nat) == 1,
                    fl == 1 ==> unit == 0x100_0000 && pow256(fl as nat) == 0x100,
                    fl == 2 ==> unit == 0x1_0000 && pow256(fl as nat) == 0x1_0000,
                    fl == 3 ==> unit == 0x100 && pow256(fl as nat) == 0x100_0000,
                    fl == 4 ==> unit == 1 && pow256(fl as nat) == 0x1_0000_0000,
            ;
        }
        let fine = fine_field * unit;
        Ok(CucTime { config: *config, coarse: coarse as u32, fine: fine as u32 })
    }
}

/// Decoding an encoded timestamp gives it back, when the coarse time fits
/// its bytes and the fine time has nothing below its field; whatever
/// follows the encoding does not matter.
pub proof fn lemma_encode_decode_roundtrip(t: CucTime, rest: Seq<u8>)
    requires
        t.config.valid(),
        t.coarse < pow256(t.config.coarse_len as nat),
        t.fine as nat % fine_unit(t.config.fine_len as nat) == 0,
    ensures
        spec_decode(seq![spec_p_field(t.config)] + spec_t_field(t) + rest) == Ok::<CucTime, Error>(
            t,
        ),
{
    lemma_p_field_roundtrip(t.config);
    let cl = t.config.coarse_len as int;
    let fl = t.config.fine_len as int;
    let u = fine_unit(fl as nat);
    crate::utils::lemma_pow256_values();
    let q = t.fine as nat / u;
    assert(q < pow256(fl as nat) && q * u == t.fine) by (nonlinear_arith)
        requires
            t.fine < 0x1_0000_0000,
            t.fine as nat % u == 0,
            q == t.fine as nat / u,
            fl == 0 ==> u == 0x1_0000_0000 && pow256(fl as nat) == 1,
            fl == 1 ==> u == 0x100_0000 && pow256(fl as nat) == 0x100,
            fl == 2 ==> u == 0x1_0000 && pow256(fl as nat) == 0x1_0000,
            fl == 3 ==> u == 0x100 && pow256(fl as nat) == 0x100_0000,
            0 <= fl <= 3,
    ;
    crate::utils::lemma_be_roundtrip_fits(t.coarse as nat, cl as nat);
    crate::utils::lemma_be_roundtrip_fits(q, fl as nat);
    let b = seq![spec_p_field(t.config)] + spec_t_field(t) + rest;
    let tb = b.subrange(1, b.len() as int);
    assert(tb.subrange(0, cl) =~= be_bytes(t.coarse as nat, cl as nat));
    assert(tb.subrange(cl, cl + fl) =~= be_bytes(q, fl as nat));
}

/// The value on the wire of every `TimeCodeId`, as the protocol's table fixes it.
pub proof fn lemma_time_code_id_values()
    ensures
        TimeCodeId::AgencyEpoch.spec_code() == 0b001,
        TimeCodeId::CcsdsEpoch.spec_code() == 0b010,
{
}

/// A CUC T-field on the wire: the low `coarse_len` bytes of the coarse
/// time, then the high `fine_len` bytes of the fine time, each big-endian.
pub proof fn lemma_t_field_layout(t: CucTime)
    ensures
        ({
            let tf = spec_t_field(t);
            let cl = t.config.coarse_len as int;
            &&& tf.len() == cl + t.config.fine_len
            &&& tf.subrange(0, cl) == be_bytes(t.coarse as nat, cl as nat)
            &&& tf.subrange(cl, tf.len() as int) == be_bytes(
                t.fine as nat / pow256((4 - t.config.fine_len) as nat),
                t.config.fine_len as nat,
            )
        }),
{
    let tf = spec_t_field(t);
    let cl = t.config.coarse_len as nat;
    let fv = t.fine as nat / fine_unit(t.config.fine_len as nat);
    crate::utils::lemma_be_bytes_len(t.coarse as nat, cl);
    crate::utils::lemma_be_bytes_len(fv, t.config.fine_len as nat);
    assert(tf.subrange(0, cl as int) =~= be_bytes(t.coarse as nat, cl));
    assert(tf.subrange(cl as int, tf.len() as int) =~= be_bytes(fv, t.config.fine_len as nat));
}

} // verus!
