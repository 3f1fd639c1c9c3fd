//! Shared SLE types used across RAF, CLTU, and ISP1.
use vstd::prelude::*;

use crate::utils::{be_value, copy_in, copy_out, read_be};

verus! {

/// Errors from SLE encoding/decoding.
#[derive(Copy, Clone, Debug, PartialEq, Eq, Structural)]
pub enum SleError {
    /// Output buffer is too small.
    BufferTooSmall,
    /// Input data is truncated or malformed.
    Truncated,
    /// Invalid BER tag encountered.
    UnexpectedTag,
    /// Invalid enum discriminant.
    InvalidEnumValue,
    /// Integer value out of range.
    IntegerOverflow,
    /// String or identifier exceeds maximum length.
    TooLong,
    /// Missing required field in a PDU.
    MissingField,
}

impl SleError {
    /// The error's message.
    pub fn message(&self) -> (s: &'static str)
        ensures
            s@ == match self {
                SleError::BufferTooSmall => "buffer too small"@,
                SleError::Truncated => "truncated or malformed input"@,
                SleError::UnexpectedTag => "unexpected BER tag"@,
                SleError::InvalidEnumValue => "invalid enum value"@,
                SleError::IntegerOverflow => "integer out of range"@,
                SleError::TooLong => "value too long"@,
                SleError::MissingField => "missing required field"@,
            },
    {
        match self {
            SleError::BufferTooSmall => "buffer too small",
            SleError::Truncated => "truncated or malformed input",
            SleError::UnexpectedTag => "unexpected BER tag",
            SleError::InvalidEnumValue => "invalid enum value",
            SleError::IntegerOverflow => "integer out of range",
            SleError::TooLong => "value too long",
            SleError::MissingField => "missing required field",
        }
    }
}

/// CCSDS Day Segmented (CDS) time code.
///
/// 8 bytes: 2-byte day count (epoch 1958-01-01) + 4-byte ms of day
/// + 2-byte microseconds of millisecond.
#[derive(Copy, Clone, Debug, PartialEq, Eq)]
pub struct Time {
    /// Raw 8-byte CDS time field.
    pub cds: [u8; 8],
}

impl Time {
    /// Size of a CDS time code in bytes.
    pub const SIZE: usize = 8;

    /// Creates a Time from raw bytes.
    pub fn from_bytes(bytes: [u8; 8]) -> (t: Self)
        ensures
            t.cds@ == bytes@,
    {
        Time { cds: bytes }
    }

    /// Returns the day count since 1958-01-01.
    pub fn day(&self) -> (d: u16)
        ensures
            d == be_value(self.cds@.subrange(0, 2)),
    {
        proof {
            crate::utils::lemma_be_value_bound(self.cds@.subrange(0, 2));
            crate::utils::lemma_pow256_values();
        }
        read_be(&self.cds, 0, 2) as u16
    }

    /// Returns the millisecond of the day.
    pub fn ms_of_day(&self) -> (ms: u32)
        ensures
            ms == be_value(self.cds@.subrange(2, 6)),
    {
        proof {
            crate::utils::lemma_be_value_bound(self.cds@.subrange(2, 6));
            crate::utils::lemma_pow256_values();
        }
        read_be(&self.cds, 2, 4) as u32
    }

    /// Returns the sub-millisecond microseconds.
    pub fn microseconds(&self) -> (us: u16)
        ensures
            us == be_value(self.cds@.subrange(6, 8)),
    {
        proof {
            crate::utils::lemma_be_value_bound(self.cds@.subrange(6, 8));
            crate::utils::lemma_pow256_values();
        }
        read_be(&self.cds, 6, 2) as u16
    }

    /// Encodes the time into the provided buffer.
    /// Returns the number of bytes written (always 8).
    pub fn encode(&self, buf: &mut [u8]) -> (r: Result<usize, SleError>)
        ensures
            old(buf)@.len() < 8 ==> r == Err::<usize, SleError>(SleError::BufferTooSmall)
                && final(buf)@ == old(buf)@,
            old(buf)@.len() >= 8 ==> r == Ok::<usize, SleError>(8) && final(buf)@ == self.cds@
                + old(buf)@.subrange(8, old(buf)@.len() as int),
    {
        if buf.len() < Self::SIZE {
            return Err(SleError::BufferTooSmall);
        }
        copy_in(buf, 0, &self.cds);
        proof {
            assert(final(buf)@ =~= self.cds@ + old(buf)@.subrange(8, old(buf)@.len() as int));
        }
        Ok(Self::SIZE)
    }

    /// Decodes a Time from the provided buffer.
    /// Returns the Time and number of bytes consumed.
    pub fn decode(buf: &[u8]) -> (r: Result<(Self, usize), SleError>)
        ensures
            buf@.len() < 8 ==> r == Err::<(Self, usize), SleError>(SleError::BufferTooSmall),
            buf@.len() >= 8 ==> (r matches Ok((t, n)) && n == 8 && t.cds@ == buf@.subrange(0, 8)),
    {
        if buf.len() < Self::SIZE {
            return Err(SleError::BufferTooSmall);
        }
        let mut cds = [0u8; 8];
        let mut i: usize = 0;
        while i < 8
            invariant
                i <= 8,
                buf@.len() >= 8,
                forall|j: int| 0 <= j < i ==> cds@[j] == buf@[j],
            decreases 8 - i,
        {
            cds[i] = buf[i];
            i = i + 1;
        }
        let t = Time { cds };
        assert(t.cds@ =~= buf@.subrange(0, 8));
        Ok((t, Self::SIZE))
    }
}

/// SLE service types.
#[derive(Copy, Clone, Debug, PartialEq, Eq, Structural)]
pub enum ServiceType {
    /// Return All Frames — online (real-time) delivery.
    RafOnline,
    /// Return All Frames — offline (deferred) delivery.
    RafOffline,
    /// Forward CLTU service.
    FCltu,
}

/// The service type with code `v`, if there is one.
pub open spec fn spec_service_type(v: u8) -> Result<ServiceType, SleError> {
    if v == 0 {
        Ok(ServiceType::RafOnline)
    } else if v == 1 {
        Ok(ServiceType::RafOffline)
    } else if v == 2 {
        Ok(ServiceType::FCltu)
    } else {
        Err(SleError::InvalidEnumValue)
    }
}

impl ServiceType {
    /// The numeric code of the service type.
    pub open spec fn spec_code(self) -> u8 {
        match self {
            ServiceType::RafOnline => 0,
            ServiceType::RafOffline => 1,
            ServiceType::FCltu => 2,
        }
    }

    /// Returns the numeric code of the service type.
    pub fn code(self) -> (c: u8)
        ensures
            c == self.spec_code(),
    {
        match self {
            ServiceType::RafOnline => 0,
            ServiceType::RafOffline => 1,
            ServiceType::FCltu => 2,
        }
    }

    /// Converts from an integer value.
    pub fn from_u8(v: u8) -> (r: Result<Self, SleError>)
        ensures
            r == spec_service_type(v),
    {
        match v {
            0 => Ok(ServiceType::RafOnline),
            1 => Ok(ServiceType::RafOffline),
            2 => Ok(ServiceType::FCltu),
            _ => Err(SleError::InvalidEnumValue),
        }
    }
}

/// Result of a Bind operation.
#[derive(Copy, Clone, Debug, PartialEq, Eq, Structural)]
pub enum BindResult {
    /// Bind succeeded.
    Success,
    /// Responder denied access (bad credentials).
    AccessDenied,
    /// The requested service type is not available.
    ServiceTypeNotSupported,
    /// The requested protocol version is not supported.
    VersionNotSupported,
}

impl BindResult {
    /// The numeric code of the bind result.
    pub open spec fn spec_code(self) -> u8 {
        match self {
            BindResult::Success => 0,
            BindResult::AccessDenied => 1,
            BindResult::ServiceTypeNotSupported => 2,
            BindResult::VersionNotSupported => 3,
        }
    }

    /// Returns the numeric code of the bind result.
    pub fn code(self) -> (c: u8)
        ensures
            c == self.spec_code(),
    {
        match self {
            BindResult::Success => 0,
            BindResult::AccessDenied => 1,
            BindResult::ServiceTypeNotSupported => 2,
            BindResult::VersionNotSupported => 3,
        }
    }

    /// Converts from an integer value.
    pub fn from_u8(v: u8) -> (r: Result<Self, SleError>)
        ensures
            v <= 3 ==> (r matches Ok(b) && b.spec_code() == v),
            v > 3 ==> r == Err::<Self, SleError>(SleError::InvalidEnumValue),
    {
        match v {
            0 => Ok(BindResult::Success),
            1 => Ok(BindResult::AccessDenied),
            2 => Ok(BindResult::ServiceTypeNotSupported),
            3 => Ok(BindResult::VersionNotSupported),
            _ => Err(SleError::InvalidEnumValue),
        }
    }
}

/// Identifies a specific service instance on the provider.
///
/// In SLE, service instances are identified by an Object Identifier
/// (OID) path like `sagr=1.spack=1.rsl-fg=1.raf=onlt1`.
/// We store the raw bytes of the BER-encoded identifier.
#[derive(Clone, Debug, PartialEq, Eq)]
pub struct ServiceInstanceId {
    /// Raw BER-encoded service instance identifier.
    buf: Vec<u8>,
}

impl ServiceInstanceId {
    /// Maximum encoded length.
    pub const MAX_LEN: usize = 64;

    /// The identifier bytes.
    pub closed spec fn spec_bytes(&self) -> Seq<u8> {
        self.buf@
    }

    /// Creates a new ServiceInstanceId from raw bytes.
    pub fn from_bytes(data: &[u8]) -> (r: Result<Self, SleError>)
        ensures
            data@.len() > 64 ==> r == Err::<Self, SleError>(SleError::BufferTooSmall),
            data@.len() <= 64 ==> (r matches Ok(id) && id.spec_bytes() == data@),
    {
        if data.len() > Self::MAX_LEN {
            return Err(SleError::BufferTooSmall);
        }
        Ok(ServiceInstanceId { buf: copy_out(data, 0, data.len()) })
    }

    /// Returns the raw identifier bytes.
    pub fn as_bytes(&self) -> (b: &[u8])
        ensures
            b@ == self.spec_bytes(),
    {
        self.buf.as_slice()
    }

    /// Returns the length of the identifier.
    pub fn len(&self) -> (n: usize)
        ensures
            n == self.spec_bytes().len(),
    {
        self.buf.len()
    }

    /// Returns true if the identifier is empty.
    pub fn is_empty(&self) -> (b: bool)
        ensures
            b == (self.spec_bytes().len() == 0),
    {
        self.buf.len() == 0
    }
}

/// The value on the wire of every `ServiceType`, as the protocol's table fixes it; decoding gives that variant for exactly
/// those values and nothing for any other.
pub proof fn lemma_service_type_values()
    ensures
        ServiceType::RafOnline.spec_code() == 0,
        ServiceType::RafOffline.spec_code() == 1,
        ServiceType::FCltu.spec_code() == 2,
        spec_service_type(0) == Ok::<ServiceType, SleError>(ServiceType::RafOnline),
        spec_service_type(1) == Ok::<ServiceType, SleError>(ServiceType::RafOffline),
        spec_service_type(2) == Ok::<ServiceType, SleError>(ServiceType::FCltu),
        forall|v: u8| v != 0 && v != 1 && v != 2 ==> spec_service_type(v) == Err::<ServiceType, SleError>(SleError::InvalidEnumValue),
{
}

/// The value on the wire of every `BindResult`, as the protocol's table fixes it.
pub proof fn lemma_bind_result_values()
    ensures
        BindResult::Success.spec_code() == 0,
        BindResult::AccessDenied.spec_code() == 1,
        BindResult::ServiceTypeNotSupported.spec_code() == 2,
        BindResult::VersionNotSupported.spec_code() == 3,
{
}

} // verus!
