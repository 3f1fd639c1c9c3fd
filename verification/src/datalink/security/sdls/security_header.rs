//! SDLS Security Header and Trailer parsing (CCSDS 355.0-B-2 Section 4.1).
use vstd::prelude::*;

use super::{Error, SecurityAssociation};
use crate::utils::{be_value, read_be};

verus! {

/// The fields of a Security Header read with an SA's field lengths:
/// SPI, IV, Sequence Number and Pad Length bytes.
pub open spec fn spec_parse_fields(sa: SecurityAssociation, b: Seq<u8>) -> (u16, Seq<u8>, Seq<
    u8,
>, Seq<u8>) {
    let iv_end = 2 + sa.iv_len;
    let sn_end = iv_end + sa.sn_len;
    let pl_end = sn_end + sa.pl_len;
    (
        (b[0] * 256 + b[1]) as u16,
        b.subrange(2, iv_end as int),
        b.subrange(iv_end as int, sn_end as int),
        b.subrange(sn_end as int, pl_end as int),
    )
}

/// A parsed view over a Security Header in a byte buffer.
///
/// The Security Header consists of:
/// - SPI (16 bits, mandatory)
/// - Initialization Vector (0-32 bytes, optional)
/// - Sequence Number (0-8 bytes, optional)
/// - Pad Length (0-2 bytes, optional)
///
/// All field lengths are determined by the Security Association.
#[derive(Debug)]
pub struct SecurityHeader<'a> {
    spi: u16,
    iv: &'a [u8],
    sn: &'a [u8],
    pl: &'a [u8],
}

impl<'a> SecurityHeader<'a> {
    /// SPI, IV, Sequence Number and Pad Length bytes.
    pub closed spec fn spec_fields(&self) -> (u16, Seq<u8>, Seq<u8>, Seq<u8>) {
        (self.spi, self.iv@, self.sn@, self.pl@)
    }

    /// Parse a Security Header from the given bytes using the SA
    /// to determine field lengths.
    pub fn parse(sa: &SecurityAssociation, bytes: &'a [u8]) -> (r: Result<Self, Error>)
        ensures
            bytes@.len() < sa.spec_header_size() ==> r == Err::<Self, Error>(Error::FrameTooShort),
            bytes@.len() >= sa.spec_header_size() ==> (r matches Ok(h) && h.spec_fields()
                == spec_parse_fields(*sa, bytes@)),
    {
        let hdr_size = sa.header_size();
        if bytes.len() < hdr_size {
            return Err(Error::FrameTooShort);
        }
        let spi = bytes[0] as u16 * 256 + bytes[1] as u16;
        let mut pos: usize = 2;
        let iv_len = sa.iv_len as usize;
        let iv = vstd::slice::slice_subrange(bytes, pos, pos + iv_len);
        pos = pos + iv_len;
        let sn_len = sa.sn_len as usize;
        let sn = vstd::slice::slice_subrange(bytes, pos, pos + sn_len);
        pos = pos + sn_len;
        let pl_len = sa.pl_len as usize;
        let pl = vstd::slice::slice_subrange(bytes, pos, pos + pl_len);
        Ok(SecurityHeader { spi, iv, sn, pl })
    }

    /// Returns the Security Parameter Index.
    pub fn spi(&self) -> (v: u16)
        ensures
            v == self.spec_fields().0,
    {
        self.spi
    }

    /// Returns the Initialization Vector bytes.
    pub fn iv(&self) -> (v: &'a [u8])
        ensures
            v@ == self.spec_fields().1,
    {
        self.iv
    }

    /// Returns the Sequence Number bytes.
    pub fn sequence_number(&self) -> (v: &'a [u8])
        ensures
            v@ == self.spec_fields().2,
    {
        self.sn
    }

    /// Returns the Sequence Number as a u64 value (big-endian).
    pub fn sequence_number_value(&self) -> (v: u64)
        requires
            self.spec_fields().2.len() <= 8,
        ensures
            v == be_value(self.spec_fields().2),
    {
        let len = self.sn.len();
        proof {
            assert(self.sn@.subrange(0, len as int) =~= self.sn@);
        }
        read_be(self.sn, 0, len)
    }

    /// Returns the Pad Length value (big-endian).
    pub fn pad_length(&self) -> (v: u16)
        requires
            self.spec_fields().3.len() <= 2,
        ensures
            v == be_value(self.spec_fields().3),
    {
        let len = self.pl.len();
        proof {
            assert(self.pl@.subrange(0, len as int) =~= self.pl@);
            crate::utils::lemma_be_value_bound(self.pl@);
            crate::utils::lemma_pow256_mono(len as nat, 2);
            crate::utils::lemma_pow256_values();
        }
        read_be(self.pl, 0, len) as u16
    }
}

/// A parsed view over a Security Trailer in a byte buffer.
///
/// The Security Trailer consists of a single optional MAC field.
#[derive(Debug)]
pub struct SecurityTrailer<'a> {
    mac: &'a [u8],
}

impl<'a> SecurityTrailer<'a> {
    /// The MAC bytes.
    pub closed spec fn spec_mac(&self) -> Seq<u8> {
        self.mac@
    }

    /// Parse a Security Trailer from the given bytes: the first `mac_len`.
    pub fn parse(sa: &SecurityAssociation, bytes: &'a [u8]) -> (r: Result<Self, Error>)
        ensures
            bytes@.len() < sa.mac_len ==> r == Err::<Self, Error>(Error::FrameTooShort),
            bytes@.len() >= sa.mac_len ==> (r matches Ok(t) && t.spec_mac() == bytes@.subrange(
                0,
                sa.mac_len as int,
            )),
    {
        let mac_len = sa.mac_len as usize;
        if bytes.len() < mac_len {
            return Err(Error::FrameTooShort);
        }
        Ok(SecurityTrailer { mac: vstd::slice::slice_subrange(bytes, 0, mac_len) })
    }

    /// Returns the MAC bytes.
    pub fn mac(&self) -> (v: &'a [u8])
        ensures
            v@ == self.spec_mac(),
    {
        self.mac
    }
}

} // verus!
