//! CCSDS Day Segmented (CDS) Time Format (CCSDS 301.0-B-4, §3.3)
//!
//! CDS encodes time as a day count since a reference epoch plus
//! milliseconds within the day, with optional sub-millisecond
//! resolution (microseconds or picoseconds).
//!
//! # P-Field
//!
//! ```text
//! Byte 1:
//!   [7]     Extension flag (0 = 1-byte P-field)
//!   [6:4]   Time code ID: 100 = CDS
//!   [3]     Epoch ID: 0 = CCSDS epoch, 1 = agency-defined
//!   [2]     Day segment length: 0 = 16-bit, 1 = 24-bit
//!   [1:0]   Sub-millisecond resolution:
//!           00 = none, 01 = µs (16-bit), 10 = ps (32-bit)
//! ```
//!
//! # T-Field
//!
//! ```text
//! ┌──────────┬────────────┬──────────────────┐
//! │ Day      │ ms of day  │ sub-ms (optional) │
//! │ 16/24 b  │ 32 bits    │ 16 or 32 bits     │
//! └──────────┴────────────┴──────────────────┘
//! ```
//!
//! # CCSDS Epoch
//!
//! Same as CUC: **1958-01-01T00:00:00 TAI**.
use vstd::prelude::*;

use crate::utils::{be_bytes, be_value, pow256, read_be, write_be};

verus! {

/// Milliseconds in one day.
pub const MS_PER_DAY: u32 = 86_400_000;

/// Time code ID for CDS in the P-field.
const TIME_CODE_ID: u8 = 0b100;

/// Bitmask for the 3-bit time code ID field [6:4].
pub const TIME_CODE_ID_MASK: u8 = 0b_0111_0000;

/// Bitmask for the 1-bit epoch ID field [3].
pub const EPOCH_ID_MASK: u8 = 0b_0000_1000;

/// Bitmask for the 1-bit day segment length field [2].
pub const DAY_SEG_MASK: u8 = 0b_0000_0100;

/// Bitmask for the 2-bit sub-millisecond resolution field [1:0].
pub const SUB_MILLIS_MASK: u8 = 0b_0000_0011;

/// Sub-millisecond resolution options.
#[derive(Debug, Copy, Clone, Eq, PartialEq, Structural)]
pub enum SubMillis {
    /// No sub-millisecond field.
    Absent,
    /// 16-bit microseconds within the millisecond (0..999).
    Microseconds,
    /// 32-bit picoseconds within the millisecond (0..999_999_999).
    Picoseconds,
}

impl SubMillis {
    /// Size of the sub-millisecond field in bytes.
    pub open spec fn spec_field_len(self) -> nat {
        match self {
            SubMillis::Absent => 0,
            SubMillis::Microseconds => 2,
            SubMillis::Picoseconds => 4,
        }
    }

    /// The 2-bit P-field code.
    pub open spec fn spec_code(self) -> u8 {
        match self {
            SubMillis::Absent => 0b00,
            SubMillis::Microseconds => 0b01,
            SubMillis::Picoseconds => 0b10,
        }
    }

    /// Size of the sub-millisecond field in bytes.
    pub fn field_len(self) -> (n: usize)
        ensures
            n == self.spec_field_len(),
    {
        match self {
            SubMillis::Absent => 0,
            SubMillis::Microseconds => 2,
            SubMillis::Picoseconds => 4,
        }
    }

    /// P-field code for this resolution.
    fn code(self) -> (c: u8)
        ensures
            c == self.spec_code(),
    {
        match self {
            SubMillis::Absent => 0b00,
            SubMillis::Microseconds => 0b01,
            SubMillis::Picoseconds => 0b10,
        }
    }

    /// Parses the sub-ms code from the P-field.
    fn from_code(code: u8) -> (r: Result<Self, CdsError>)
        ensures
            code <= 2 ==> (r matches Ok(s) && s.spec_code() == code),
            code > 2 ==> r == Err::<Self, CdsError>(CdsError::InvalidSubMillisCode(code)),
    {
        match code {
            0b00 => Ok(SubMillis::Absent),
            0b01 => Ok(SubMillis::Microseconds),
            0b10 => Ok(SubMillis::Picoseconds),
            _ => Err(CdsError::InvalidSubMillisCode(code)),
        }
    }
}

/// Epoch identifier.
#[derive(Debug, Copy, Clone, Eq, PartialEq, Structural)]
pub enum EpochId {
    /// CCSDS epoch: 1958-01-01T00:00:00 TAI.
    Ccsds,
    /// Agency-defined epoch.
    Agency,
}

/// CDS time code configuration.
#[derive(Debug, Copy, Clone, Eq, PartialEq, Structural)]
pub struct CdsConfig {
    /// Epoch identifier.
    pub epoch: EpochId,
    /// Day segment uses 24 bits (true) or 16 bits (false).
    pub day_24bit: bool,
    /// Sub-millisecond resolution.
    pub sub_millis: SubMillis,
}

/// The P-field byte: CDS code `100` in bits 6-4, the epoch bit, the
/// day-length bit and the sub-millisecond code; extension flag 0.
pub open spec fn spec_p_field(c: CdsConfig) -> u8 {
    0x40u8 | (if c.epoch == EpochId::Agency {
        8u8
    } else {
        0u8
    }) | (if c.day_24bit {
        4u8
    } else {
        0u8
    }) | c.sub_millis.spec_code()
}

/// What a P-field byte describes: not CDS when bits 6-4 are not `100`,
/// an invalid sub-millisecond code `11`, or the configuration.
pub open spec fn spec_from_p_field(pf: u8) -> Result<CdsConfig, CdsError> {
    let id = (pf >> 4u8) & 7u8;
    let sub = pf & 3u8;
    if id != 0b100u8 {
        Err(CdsError::NotCds(id))
    } else if sub == 3 {
        Err(CdsError::InvalidSubMillisCode(sub))
    } else {
        Ok(
            CdsConfig {
                epoch: if pf & 8u8 == 0 {
                    EpochId::Ccsds
                } else {
                    EpochId::Agency
                },
                day_24bit: pf & 4u8 != 0,
                sub_millis: if sub == 0 {
                    SubMillis::Absent
                } else if sub == 1 {
                    SubMillis::Microseconds
                } else {
                    SubMillis::Picoseconds
                },
            },
        )
    }
}

impl CdsConfig {
    /// Day segment size in bytes.
    pub open spec fn spec_day_len(&self) -> nat {
        if self.day_24bit {
            3
        } else {
            2
        }
    }

    /// T-field size in bytes.
    pub open spec fn spec_t_field_len(&self) -> nat {
        self.spec_day_len() + 4 + self.sub_millis.spec_field_len()
    }

    /// Standard 16-bit day, no sub-ms, CCSDS epoch.
    #[allow(non_snake_case)]
    pub fn CCSDS_16() -> (c: Self)
        ensures
            c == (CdsConfig { epoch: EpochId::Ccsds, day_24bit: false, sub_millis: SubMillis::Absent }),
    {
        CdsConfig { epoch: EpochId::Ccsds, day_24bit: false, sub_millis: SubMillis::Absent }
    }

    /// 16-bit day with microsecond resolution, CCSDS epoch.
    #[allow(non_snake_case)]
    pub fn CCSDS_16_US() -> (c: Self)
        ensures
            c == (CdsConfig {
                epoch: EpochId::Ccsds,
                day_24bit: false,
                sub_millis: SubMillis::Microseconds,
            }),
    {
        CdsConfig { epoch: EpochId::Ccsds, day_24bit: false, sub_millis: SubMillis::Microseconds }
    }

    /// Day segment size in bytes.
    pub fn day_len(&self) -> (n: usize)
        ensures
            n == self.spec_day_len(),
    {
        if self.day_24bit {
            3
        } else {
            2
        }
    }

    /// Total T-field size in bytes.
    pub fn t_field_len(&self) -> (n: usize)
        ensures
            n == self.spec_t_field_len(),
    {
        self.day_len() + 4 + self.sub_millis.field_len()
    }

    /// Total encoded size (P-field + T-field).
    pub fn encoded_len(&self) -> (n: usize)
        ensures
            n == 1 + self.spec_t_field_len(),
    {
        1 + self.t_field_len()
    }

    /// Encodes the P-field byte.
    pub fn p_field(&self) -> (pf: u8)
        ensures
            pf == spec_p_field(*self),
    {
        let epoch_bit: u8 = match self.epoch {
            EpochId::Ccsds => 0,
            EpochId::Agency => 8,
        };
        let day_bit: u8 = if self.day_24bit {
            4
        } else {
            0
        };
        0x40 | epoch_bit | day_bit | self.sub_millis.code()
    }

    /// Parses a P-field byte into a CDS configuration.
    pub fn from_p_field(pf: u8) -> (r: Result<Self, CdsError>)
        ensures
            r == spec_from_p_field(pf),
    {
        let id = (pf >> 4) & 7;
        if id != TIME_CODE_ID {
            return Err(CdsError::NotCds(id));
        }
        let epoch = if pf & 8 == 0 {
            EpochId::Ccsds
        } else {
            EpochId::Agency
        };
        assert(pf & 3u8 <= 3) by (bit_vector);
        let sub_millis = match SubMillis::from_code(pf & 3) {
            Ok(s) => s,
            Err(e) => {
                return Err(e);
            },
        };
        assert(pf & 3u8 <= 3) by (bit_vector);
        Ok(CdsConfig { epoch, day_24bit: pf & 4 != 0, sub_millis })
    }
}

/// Reading back a P-field gives the configuration it was made from.
pub proof fn lemma_p_field_roundtrip(c: CdsConfig)
    ensures
        spec_from_p_field(spec_p_field(c)) == Ok::<CdsConfig, CdsError>(c),
        (spec_p_field(c) >> 4u8) & 7u8 == 0b100,
        (spec_p_field(c) & 8u8 != 0) == (c.epoch == EpochId::Agency),
        (spec_p_field(c) & 4u8 != 0) == c.day_24bit,
        spec_p_field(c) & 3u8 == c.sub_millis.spec_code(),
{
    let e: u8 = if c.epoch == EpochId::Agency {
        8
    } else {
        0
    };
    let d: u8 = if c.day_24bit {
        4
    } else {
        0
    };
    let s = c.sub_millis.spec_code();
    let pf = spec_p_field(c);
    assert(pf == 0x40u8 | e | d | s);
    assert((pf >> 4u8) & 7u8 == 4 && pf & 3u8 == s && (pf & 8u8 == 0 <==> e == 0) && (pf & 4u8
        != 0 <==> d == 4)) by (bit_vector)
        requires
            pf == 0x40u8 | e | d | s,
            e == 0 || e == 8,
            d == 0 || d == 4,
            s <= 2,
    ;
}

/// A CDS timestamp.
#[derive(Debug, Copy, Clone, Eq, PartialEq, Structural)]
pub struct CdsTime {
    /// Encoding configuration.
    pub config: CdsConfig,
    /// Day count since epoch.
    pub day: u32,
    /// Milliseconds within the day (0..86_399_999).
    pub ms_of_day: u32,
    /// Sub-millisecond value (µs 0..999 or ps 0..999_999_999).
    pub sub_ms: u32,
}

/// Errors from CDS time operations.
#[derive(Debug, Copy, Clone, Eq, PartialEq, Structural)]
pub enum CdsError {
    /// P-field time code ID is not CDS (100).
    NotCds(u8),
    /// Invalid sub-millisecond code in P-field.
    InvalidSubMillisCode(u8),
    /// Buffer too short.
    BufferTooShort {
        /// Minimum bytes needed.
        required: usize,
        /// Bytes available.
        provided: usize,
    },
    /// Milliseconds value exceeds 86_399_999.
    MsOutOfRange(u32),
}

/// The T-field of a timestamp: the low day-length bytes of the day, the
/// milliseconds of day, and the low field-length bytes of the
/// sub-millisecond value, each big-endian.
pub open spec fn spec_t_field(t: CdsTime) -> Seq<u8> {
    be_bytes(t.day as nat, t.config.spec_day_len()) + be_bytes(t.ms_of_day as nat, 4) + be_bytes(
        t.sub_ms as nat,
        t.config.sub_millis.spec_field_len(),
    )
}

/// The timestamp that the T-field bytes `b` hold under configuration `c`.
pub open spec fn spec_from_t_field(c: CdsConfig, b: Seq<u8>) -> CdsTime {
    let dl = c.spec_day_len() as int;
    let sl = c.sub_millis.spec_field_len() as int;
    CdsTime {
        config: c,
        day: be_value(b.subrange(0, dl)) as u32,
        ms_of_day: be_value(b.subrange(dl, dl + 4)) as u32,
        sub_ms: be_value(b.subrange(dl + 4, dl + 4 + sl)) as u32,
    }
}

/// What `decode` gives for the bytes `b`.
pub open spec fn spec_decode(b: Seq<u8>) -> Result<CdsTime, CdsError> {
    if b.len() == 0 {
        Err(CdsError::BufferTooShort { required: 1, provided: 0 })
    } else {
        match spec_from_p_field(b[0]) {
            Err(e) => Err(e),
            Ok(c) => if b.len() < 1 + c.spec_t_field_len() {
                Err(
                    CdsError::BufferTooShort {
                        required: (1 + c.spec_t_field_len()) as usize,
                        provided: b.len() as usize,
                    },
                )
            } else {
                Ok(spec_from_t_field(c, b.subrange(1, b.len() as int)))
            },
        }
    }
}

/// The day and the sub-millisecond value fit in their fields (with no
/// sub-millisecond field, the value is 0).
pub open spec fn fits_fields(t: CdsTime) -> bool {
    &&& t.day < pow256(t.config.spec_day_len())
    &&& t.sub_ms < pow256(t.config.sub_millis.spec_field_len())
}

impl CdsTime {
    /// Creates a new CDS timestamp.
    pub fn new(config: CdsConfig, day: u32, ms_of_day: u32, sub_ms: u32) -> (t: Self)
        ensures
            t == (CdsTime { config, day, ms_of_day, sub_ms }),
    {
        CdsTime { config, day, ms_of_day, sub_ms }
    }

    /// Encodes this timestamp (P-field + T-field).
    pub fn encode(&self, buf: &mut [u8]) -> (r: Result<usize, CdsError>)
        ensures
            ({
                let total = 1 + self.config.spec_t_field_len();
                &&& old(buf)@.len() < total ==> r == Err::<usize, CdsError>(
                    CdsError::BufferTooShort {
                        required: total as usize,
                        provided: old(buf)@.len() as usize,
                    },
                ) && final(buf)@ == old(buf)@
                &&& old(buf)@.len() >= total ==> r == Ok::<usize, CdsError>(total as usize) && final(buf)@ == seq![spec_p_field(self.config)] + spec_t_field(*self) + old(buf)@.subrange(
                    total as int,
                    old(buf)@.len() as int,
                )
            }),
    {
        let total = self.config.encoded_len();
        if buf.len() < total {
            return Err(CdsError::BufferTooShort { required: total, provided: buf.len() });
        }
        buf[0] = self.config.p_field();
        self.write_t_field(buf, 1);
        proof {
            self.lemma_t_field_len();
        }
        assert(final(buf)@ =~= seq![spec_p_field(self.config)] + spec_t_field(*self) + old(buf)@.subrange(total as int, old(buf)@.len() as int));
        Ok(total)
    }

    /// Encodes only the T-field (no P-field).
    pub fn encode_t_field(&self, buf: &mut [u8]) -> (r: Result<usize, CdsError>)
        ensures
            ({
                let t_len = self.config.spec_t_field_len();
                &&& old(buf)@.len() < t_len ==> r == Err::<usize, CdsError>(
                    CdsError::BufferTooShort {
                        required: t_len as usize,
                        provided: old(buf)@.len() as usize,
                    },
                ) && final(buf)@ == old(buf)@
                &&& old(buf)@.len() >= t_len ==> r == Ok::<usize, CdsError>(t_len as usize) && final(buf)@ == spec_t_field(*self) + old(buf)@.subrange(t_len as int, old(buf)@.len() as int)
            }),
    {
        let t_len = self.config.t_field_len();
        if buf.len() < t_len {
            return Err(CdsError::BufferTooShort { required: t_len, provided: buf.len() });
        }
        self.write_t_field(buf, 0);
        proof {
            self.lemma_t_field_len();
        }
        assert(final(buf)@ =~= spec_t_field(*self) + old(buf)@.subrange(
            t_len as int,
            old(buf)@.len() as int,
        ));
        Ok(t_len)
    }

    proof fn lemma_t_field_len(&self)
        ensures
            spec_t_field(*self).len() == self.config.spec_t_field_len(),
    {
        crate::utils::lemma_be_bytes_len(self.day as nat, self.config.spec_day_len());
        crate::utils::lemma_be_bytes_len(self.ms_of_day as nat, 4);
        crate::utils::lemma_be_bytes_len(
            self.sub_ms as nat,
            self.config.sub_millis.spec_field_len(),
        );
    }

    /// Writes the T-field at `at`, leaving every other byte as it was.
    fn write_t_field(&self, buf: &mut [u8], at: usize)
        requires
            at + self.config.spec_t_field_len() <= old(buf)@.len(),
        ensures
            final(buf)@ == old(buf)@.subrange(0, at as int) + spec_t_field(*self) + old(buf)@.subrange(at + self.config.spec_t_field_len(), old(buf)@.len() as int),
    {
        let ghost b0 = buf@;
        let n = buf.len();
        let dl = self.config.day_len();
        let sl = self.config.sub_millis.field_len();
        proof {
            crate::utils::lemma_be_bytes_len(self.day as nat, dl as nat);
            crate::utils::lemma_be_bytes_len(self.ms_of_day as nat, 4);
            crate::utils::lemma_be_bytes_len(self.sub_ms as nat, sl as nat);
        }
        write_be(buf, at, dl, self.day as u64);
        write_be(buf, at + dl, 4, self.ms_of_day as u64);
        write_be(buf, at + dl + 4, sl, self.sub_ms as u64);
        assert(buf@ =~= b0.subrange(0, at as int) + spec_t_field(*self) + b0.subrange(
            at + self.config.spec_t_field_len(),
            b0.len() as int,
        ));
    }

    /// Decodes a CDS timestamp from bytes (P-field + T-field).
    pub fn decode(buf: &[u8]) -> (r: Result<Self, CdsError>)
        ensures
            r == spec_decode(buf@),
    {
        if buf.len() == 0 {
            return Err(CdsError::BufferTooShort { required: 1, provided: 0 });
        }
        let config = match CdsConfig::from_p_field(buf[0]) {
            Ok(c) => c,
            Err(e) => {
                return Err(e);
            },
        };
        let total = config.encoded_len();
        if buf.len() < total {
            return Err(CdsError::BufferTooShort { required: total, provided: buf.len() });
        }
        let rest = vstd::slice::slice_subrange(buf, 1, buf.len());
        Self::decode_t_field(&config, rest)
    }

    /// Decodes from T-field bytes with an implicit configuration.
    pub fn decode_t_field(config: &CdsConfig, buf: &[u8]) -> (r: Result<Self, CdsError>)
        ensures
            buf@.len() < config.spec_t_field_len() ==> r == Err::<Self, CdsError>(
                CdsError::BufferTooShort {
                    required: config.spec_t_field_len() as usize,
                    provided: buf@.len() as usize,
                },
            ),
            buf@.len() >= config.spec_t_field_len() ==> r == Ok::<Self, CdsError>(
                spec_from_t_field(*config, buf@),
            ),
    {
        let t_len = config.t_field_len();
        if buf.len() < t_len {
            return Err(CdsError::BufferTooShort { required: t_len, provided: buf.len() });
        }
        let dl = config.day_len();
        let sl = config.sub_millis.field_len();
        let day = read_be(buf, 0, dl);
        let ms = read_be(buf, dl, 4);
        let sub = read_be(buf, dl + 4, sl);
        proof {
            crate::utils::lemma_pow256_values();
            crate::utils::lemma_be_value_bound(buf@.subrange(0, dl as int));
            crate::utils::lemma_be_value_bound(buf@.subrange(dl as int, dl + 4));
            crate::utils::lemma_be_value_bound(buf@.subrange(dl + 4, dl + 4 + sl));
            crate::utils::lemma_pow256_mono(dl as nat, 4);
            crate::utils::lemma_pow256_mono(sl as nat, 4);
        }
        Ok(CdsTime { config: *config, day: day as u32, ms_of_day: ms as u32, sub_ms: sub as u32 })
    }
}

/// Decoding an encoded timestamp gives it back, when its day and
/// sub-millisecond value fit their fields; whatever follows the encoding
/// in the buffer does not matter.
pub proof fn lemma_encode_decode_roundtrip(t: CdsTime, rest: Seq<u8>)
    requires
        fits_fields(t),
    ensures
        spec_decode(seq![spec_p_field(t.config)] + spec_t_field(t) + rest) == Ok::<
            CdsTime,
            CdsError,
        >(t),
{
    lemma_p_field_roundtrip(t.config);
    let dl = t.config.spec_day_len() as int;
    let sl = t.config.sub_millis.spec_field_len() as int;
    crate::utils::lemma_be_roundtrip_fits(t.day as nat, dl as nat);
    crate::utils::lemma_pow256_values();
    crate::utils::lemma_be_roundtrip_fits(t.ms_of_day as nat, 4);
    crate::utils::lemma_be_roundtrip_fits(t.sub_ms as nat, sl as nat);
    let b = seq![spec_p_field(t.config)] + spec_t_field(t) + rest;
    let tb = b.subrange(1, b.len() as int);
    assert(tb.subrange(0, dl) =~= be_bytes(t.day as nat, dl as nat));
    assert(tb.subrange(dl, dl + 4) =~= be_bytes(t.ms_of_day as nat, 4));
    assert(tb.subrange(dl + 4, dl + 4 + sl) =~= be_bytes(t.sub_ms as nat, sl as nat));
}

/// The value on the wire of every `SubMillis`, as the protocol's table fixes it.
pub proof fn lemma_sub_millis_values()
    ensures
        SubMillis::Absent.spec_code() == 0b00,
        SubMillis::Microseconds.spec_code() == 0b01,
        SubMillis::Picoseconds.spec_code() == 0b10,
{
}

/// A CDS T-field on the wire: the day segment (2 bytes, or 3 with the
/// 24-bit day), then the 4-byte milliseconds of day, then the
/// sub-millisecond segment (none, 2 bytes of microseconds or 4 bytes of
/// picoseconds), each big-endian.
pub proof fn lemma_t_field_layout(t: CdsTime)
    ensures
        ({
            let tf = spec_t_field(t);
            let dl: int = if t.config.day_24bit { 3 } else { 2 };
            let sl: int = match t.config.sub_millis {
                SubMillis::Absent => 0,
                SubMillis::Microseconds => 2,
                SubMillis::Picoseconds => 4,
            };
            &&& tf.len() == dl + 4 + sl
            &&& tf.subrange(0, dl) == be_bytes(t.day as nat, dl as nat)
            &&& tf.subrange(dl, dl + 4) == be_bytes(t.ms_of_day as nat, 4)
            &&& tf.subrange(dl + 4, tf.len() as int) == be_bytes(t.sub_ms as nat, sl as nat)
        }),
{
    let tf = spec_t_field(t);
    let dl = t.config.spec_day_len();
    let sl = t.config.sub_millis.spec_field_len();
    crate::utils::lemma_be_bytes_len(t.day as nat, dl);
    crate::utils::lemma_be_bytes_len(t.ms_of_day as nat, 4);
    crate::utils::lemma_be_bytes_len(t.sub_ms as nat, sl);
    assert(tf.subrange(0, dl as int) =~= be_bytes(t.day as nat, dl));
    assert(tf.subrange(dl as int, (dl + 4) as int) =~= be_bytes(t.ms_of_day as nat, 4));
    assert(tf.subrange((dl + 4) as int, tf.len() as int) =~= be_bytes(t.sub_ms as nat, sl));
}

} // verus!
