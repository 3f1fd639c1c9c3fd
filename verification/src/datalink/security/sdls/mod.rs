//! Space Data Link Security (SDLS) Protocol (CCSDS 355.0-B-2).
//!
//! Provides authentication, encryption, and authenticated encryption
//! services for CCSDS data link frames (TM, TC, AOS, USLP).
//!
//! The protocol inserts a Security Header after the transfer frame
//! header and an optional Security Trailer before the frame trailer.
//! All field lengths are determined by the Security Association (SA),
//! which is identified by the Security Parameter Index (SPI) in the
//! Security Header.
use vstd::prelude::*;

use crate::containers::{mask_bytes, mask_get, mask_len};
use crate::utils::{be_bytes, be_value, bytes_eq, pow256, copy_in, copy_out, read_be, splice, write_be};

pub mod ep;
pub mod gcm;
pub mod key;
pub mod sa_mgmt;
pub mod security_header;

pub use gcm::AesGcmCrypto;

pub use security_header::SecurityHeader;
pub use security_header::SecurityTrailer;

verus! {

/// Maximum Security Header size in bytes (per CCSDS 355.0-B-2 4.1.1.1.4).
pub const MAX_SECURITY_HEADER_SIZE: usize = 64;

/// Maximum MAC size in bytes (per Table 6-1).
pub const MAX_MAC_SIZE: usize = 64;

/// Maximum IV size in bytes (per Table 6-1).
pub const MAX_IV_SIZE: usize = 32;

/// Maximum Sequence Number size in bytes (per Table 6-1).
pub const MAX_SN_SIZE: usize = 8;

/// Maximum Pad Length field size in bytes (per Table 6-1).
pub const MAX_PL_SIZE: usize = 2;

/// The cryptographic service type of a Security Association.
#[derive(Debug, Copy, Clone, Eq, PartialEq, Structural)]
pub enum ServiceType {
    /// Authentication only (MAC computed, data in cleartext).
    Authentication,
    /// Encryption only (data encrypted, no MAC).
    Encryption,
    /// Authenticated encryption (encrypt-then-MAC).
    AuthenticatedEncryption,
}

/// Configuration for a Security Association (SA).
///
/// An SA defines the security context for a virtual channel or MAP.
/// Both sender and receiver must share identical SA parameters.
#[derive(Debug, Clone)]
pub struct SecurityAssociation {
    /// Security Parameter Index (1-65534; 0 and 65535 reserved).
    pub spi: u16,
    /// The cryptographic service type.
    pub service_type: ServiceType,
    /// Length of the IV field in the Security Header (0-32 bytes).
    pub iv_len: u8,
    /// Length of the Sequence Number field (0-8 bytes).
    pub sn_len: u8,
    /// Length of the Pad Length field (0-2 bytes).
    pub pl_len: u8,
    /// Length of the MAC field in the Security Trailer (0-64 bytes).
    pub mac_len: u8,
    /// Current anti-replay sequence number (sender: next to send).
    pub sequence_number: u64,
    /// Sequence number window for the receiver.
    pub sequence_window: u64,
    /// Authentication bit mask (applied before MAC computation).
    pub auth_mask: heapless::Vec<u8, 2048>,
}

impl SecurityAssociation {
    /// The field lengths are within the limits of Table 6-1.
    pub open spec fn wf(&self) -> bool {
        &&& self.iv_len <= 32
        &&& self.sn_len <= 8
        &&& self.pl_len <= 2
        &&& self.mac_len <= 64
    }

    /// `2 + iv_len + sn_len + pl_len`.
    pub open spec fn spec_header_size(&self) -> nat {
        (2 + self.iv_len + self.sn_len + self.pl_len) as nat
    }

    /// Total size of the Security Header for this SA.
    pub fn header_size(&self) -> (n: usize)
        ensures
            n == self.spec_header_size(),
    {
        2 + self.iv_len as usize + self.sn_len as usize + self.pl_len as usize
    }

    /// Total size of the Security Trailer for this SA.
    pub fn trailer_size(&self) -> (n: usize)
        ensures
            n == self.mac_len,
    {
        self.mac_len as usize
    }

    /// Total overhead added by SDLS (header + trailer).
    pub fn overhead(&self) -> (n: usize)
        ensures
            n == self.spec_header_size() + self.mac_len,
    {
        self.header_size() + self.trailer_size()
    }

    /// The same association with another anti-replay sequence number.
    pub open spec fn with_sn(self, sn: u64) -> SecurityAssociation {
        SecurityAssociation { sequence_number: sn, ..self }
    }
}

/// Errors from SDLS processing.
#[derive(Debug, Copy, Clone, Eq, PartialEq, Structural)]
pub enum Error {
    /// The SPI value is reserved (0 or 65535).
    ReservedSpi(u16),
    /// No SA found for the given SPI.
    UnknownSpi(u16),
    /// The buffer is too small for the security fields.
    BufferTooSmall {
        /// Minimum bytes needed.
        required: usize,
        /// Actual bytes available.
        available: usize,
    },
    /// The frame is too short to contain a Security Header.
    FrameTooShort,
    /// MAC verification failed.
    MacVerificationFailed,
    /// Anti-replay sequence number check failed.
    SequenceNumberRejected {
        /// The received sequence number.
        received: u64,
        /// The expected sequence number.
        expected: u64,
    },
    /// Padding error during decryption.
    PaddingError,
    /// A crypto backend error occurred.
    CryptoError,
    /// Key material is empty or longer than the maximum.
    InvalidKeyLength,
    /// The key is not in the state the operation needs.
    InvalidKeyState,
    /// A key with this identifier is already loaded.
    DuplicateKeyId,
    /// The key ring is full.
    KeyRingFull,
    /// No key with this identifier.
    UnknownKeyId(u16),
    /// The SA is not in the state the operation needs.
    InvalidSaState,
    /// An SA with this SPI already exists.
    DuplicateSpi(u16),
    /// The SA table is full.
    SaTableFull,
    /// Unknown Extended Procedures service group or procedure.
    InvalidProcedure,
}

/// `n` zero bytes.
pub open spec fn zero_bytes(n: nat) -> Seq<u8> {
    Seq::new(n, |i: int| 0u8)
}

/// Trait for pluggable cryptographic backends.
///
/// Implementations provide the actual encryption, decryption, and
/// MAC computation. The SDLS framing layer is algorithm-agnostic;
/// concrete algorithms (AES-GCM, CMAC, etc.) are supplied here.
///
/// For AEAD ciphers (AES-GCM), `encrypt` and `decrypt` handle
/// both confidentiality and authentication via `aad` and `tag`.
/// For authentication-only mode (CMAC), use `compute_mac`.
///
/// Each operation is a function of its inputs: the `spec_*` function
/// of a backend gives the outcome of the matching call, and a
/// successful call keeps the lengths of the buffers it writes.
pub trait CryptoProvider {
    /// Outcome of `encrypt`: the ciphertext, the new contents of the tag
    /// buffer and the padding count, or the error.
    spec fn spec_encrypt(
        &self,
        sa: SecurityAssociation,
        iv: Seq<u8>,
        aad: Seq<u8>,
        data: Seq<u8>,
        tag: Seq<u8>,
    ) -> Result<(Seq<u8>, Seq<u8>, usize), Error>;

    /// Outcome of `decrypt`: the plaintext and the padding count, or the
    /// error.
    spec fn spec_decrypt(
        &self,
        sa: SecurityAssociation,
        iv: Seq<u8>,
        aad: Seq<u8>,
        data: Seq<u8>,
        tag: Seq<u8>,
    ) -> Result<(Seq<u8>, usize), Error>;

    /// Whether `decrypt` takes a tag of `len` bytes.
    spec fn spec_tag_len_ok(&self, len: nat) -> bool;

    /// Outcome of `compute_mac`: the MAC, or the error.
    spec fn spec_mac(&self, sa: SecurityAssociation, iv: Seq<u8>, payload: Seq<u8>) -> Result<
        Seq<u8>,
        Error,
    >;

    /// Encrypt data in place (AEAD). `aad` is additional
    /// authenticated data (frame headers). The authentication
    /// tag is written to `tag_out`. Returns padding byte count
    /// (0 for GCM/CTR).
    fn encrypt(
        &self,
        sa: &SecurityAssociation,
        iv: &[u8],
        aad: &[u8],
        data: &mut [u8],
        tag_out: &mut [u8],
    ) -> (r: Result<usize, Error>)
        ensures
            final(data)@.len() == old(data)@.len(),
            final(tag_out)@.len() == old(tag_out)@.len(),
            (match self.spec_encrypt(*sa, iv@, aad@, old(data)@, old(tag_out)@) {
                Ok((d, t, p)) => r == Ok::<usize, Error>(p) && final(data)@ == d
                    && final(tag_out)@ == t,
                Err(e) => r == Err::<usize, Error>(e),
            }),
            r matches Ok(p) ==> (self.spec_tag_len_ok(old(tag_out)@.len()) ==> self.spec_decrypt(
                *sa,
                iv@,
                aad@,
                final(data)@,
                final(tag_out)@,
            ) == Ok::<(Seq<u8>, usize), Error>((old(data)@, p))),
    ;

    /// Decrypt data in place (AEAD). Verifies the authentication
    /// tag against `aad` and ciphertext. Returns padding byte
    /// count.
    fn decrypt(
        &self,
        sa: &SecurityAssociation,
        iv: &[u8],
        aad: &[u8],
        data: &mut [u8],
        tag: &[u8],
    ) -> (r: Result<usize, Error>)
        ensures
            final(data)@.len() == old(data)@.len(),
            (match self.spec_decrypt(*sa, iv@, aad@, old(data)@, tag@) {
                Ok((d, p)) => r == Ok::<usize, Error>(p) && final(data)@ == d,
                Err(e) => r == Err::<usize, Error>(e),
            }),
    ;

    /// Compute a MAC for authentication-only mode. The `iv` is
    /// passed for algorithms that need it (e.g. GMAC).
    fn compute_mac(
        &self,
        sa: &SecurityAssociation,
        iv: &[u8],
        payload: &[u8],
        mac_out: &mut [u8],
    ) -> (r: Result<(), Error>)
        requires
            old(mac_out)@.len() == sa.mac_len,
        ensures
            final(mac_out)@.len() == old(mac_out)@.len(),
            (match self.spec_mac(*sa, iv@, payload@) {
                Ok(m) => r == Ok::<(), Error>(()) && final(mac_out)@ == m,
                Err(e) => r == Err::<(), Error>(e),
            }),
    ;
}

/// A no-op crypto provider for "clear mode" testing.
///
/// Per CCSDS 355.0-B-2, a clear-mode SA uses a no-op algorithm so
/// the Security Header and Trailer are present but no actual crypto
/// is performed. Useful for development and integration testing.
pub struct ClearModeCrypto;

impl CryptoProvider for ClearModeCrypto {
    /// Leaves the data and the tag buffer as they are.
    open spec fn spec_encrypt(
        &self,
        sa: SecurityAssociation,
        iv: Seq<u8>,
        aad: Seq<u8>,
        data: Seq<u8>,
        tag: Seq<u8>,
    ) -> Result<(Seq<u8>, Seq<u8>, usize), Error> {
        Ok((data, tag, 0))
    }

    /// Leaves the data as it is.
    open spec fn spec_decrypt(
        &self,
        sa: SecurityAssociation,
        iv: Seq<u8>,
        aad: Seq<u8>,
        data: Seq<u8>,
        tag: Seq<u8>,
    ) -> Result<(Seq<u8>, usize), Error> {
        Ok((data, 0))
    }

    /// Any tag length.
    open spec fn spec_tag_len_ok(&self, len: nat) -> bool {
        true
    }

    /// An all-zero MAC.
    open spec fn spec_mac(&self, sa: SecurityAssociation, iv: Seq<u8>, payload: Seq<u8>) -> Result<
        Seq<u8>,
        Error,
    > {
        Ok(zero_bytes(sa.mac_len as nat))
    }

    fn encrypt(
        &self,
        sa: &SecurityAssociation,
        iv: &[u8],
        aad: &[u8],
        data: &mut [u8],
        tag_out: &mut [u8],
    ) -> (r: Result<usize, Error>) {
        Ok(0)
    }

    fn decrypt(
        &self,
        sa: &SecurityAssociation,
        iv: &[u8],
        aad: &[u8],
        data: &mut [u8],
        tag: &[u8],
    ) -> (r: Result<usize, Error>) {
        Ok(0)
    }

    fn compute_mac(
        &self,
        sa: &SecurityAssociation,
        iv: &[u8],
        payload: &[u8],
        mac_out: &mut [u8],
    ) -> (r: Result<(), Error>) {
        let len = sa.mac_len as usize;
        let mut i: usize = 0;
        while i < len
            invariant
                i <= len,
                len == mac_out@.len(),
                forall|j: int| 0 <= j < i ==> mac_out@[j] == 0u8,
            decreases len - i,
        {
            mac_out[i] = 0;
            i = i + 1;
        }
        assert(mac_out@ =~= zero_bytes(sa.mac_len as nat));
        Ok(())
    }
}

/// SPI values 0 and 65535 are reserved.
pub open spec fn reserved_spi(spi: u16) -> bool {
    spi == 0 || spi == 0xFFFF
}

/// The Security Header bytes: SPI, the first `iv_len` bytes of `iv`,
/// the first `sn_len` bytes of `sn`, and the low `pl_len` bytes of the pad
/// length, each big-endian.
pub open spec fn spec_security_header(
    sa: SecurityAssociation,
    iv: Seq<u8>,
    sn: Seq<u8>,
    pad_len: u16,
) -> Seq<u8> {
    be_bytes(sa.spi as nat, 2) + iv.take(sa.iv_len as int) + sn.take(sa.sn_len as int) + be_bytes(
        pad_len as nat,
        sa.pl_len as nat,
    )
}

/// Writes the Security Header into `out[start..end]`.
fn put_security_header(
    sa: &SecurityAssociation,
    iv: &[u8],
    sn: &[u8],
    pad_len: u16,
    out: &mut [u8],
    start: usize,
    end: usize,
) -> (r: Result<usize, Error>)
    requires
        start <= end <= old(out)@.len(),
        end - start >= sa.spec_header_size() && !reserved_spi(sa.spi) ==> {
            &&& sa.pl_len <= 2
            &&& iv@.len() >= sa.iv_len
            &&& sn@.len() >= sa.sn_len
        },
    ensures
        final(out)@.len() == old(out)@.len(),
        end - start < sa.spec_header_size() ==> r == Err::<usize, Error>(
            Error::BufferTooSmall {
                required: sa.spec_header_size() as usize,
                available: (end - start) as usize,
            },
        ) && final(out)@ == old(out)@,
        end - start >= sa.spec_header_size() && reserved_spi(sa.spi) ==> r == Err::<usize, Error>(
            Error::ReservedSpi(sa.spi),
        ) && final(out)@ == old(out)@,
        end - start >= sa.spec_header_size() && !reserved_spi(sa.spi) ==> r == Ok::<usize, Error>(
            sa.spec_header_size() as usize,
        ) && final(out)@ == splice(
            old(out)@,
            start as int,
            spec_security_header(*sa, iv@, sn@, pad_len),
        ),
{
    let hdr_size = sa.header_size();
    if end - start < hdr_size {
        return Err(Error::BufferTooSmall { required: hdr_size, available: end - start });
    }
    if sa.spi == 0 || sa.spi == 0xFFFF {
        return Err(Error::ReservedSpi(sa.spi));
    }
    let ghost orig = out@;
    let mut pos = start;
    proof {
        crate::utils::lemma_be_bytes_len(sa.spi as nat, 2);
        crate::utils::lemma_be_bytes_len(pad_len as nat, sa.pl_len as nat);
    }
    write_be(out, pos, 2, sa.spi as u64);
    pos = pos + 2;
    let iv_len = sa.iv_len as usize;
    let ivs = vstd::slice::slice_subrange(iv, 0, iv_len);
    assert(out@.len() == orig.len());
    copy_in(out, pos, ivs);
    pos = pos + iv_len;
    let sn_len = sa.sn_len as usize;
    let sns = vstd::slice::slice_subrange(sn, 0, sn_len);
    copy_in(out, pos, sns);
    pos = pos + sn_len;
    let pl_len = sa.pl_len as usize;
    write_be(out, pos, pl_len, pad_len as u64);
    proof {
        assert(out@ =~= splice(orig, start as int, spec_security_header(*sa, iv@, sn@, pad_len)));
    }
    Ok(hdr_size)
}

/// Write a Security Header into the given buffer.
///
/// Returns the number of bytes written.
pub fn write_security_header(
    sa: &SecurityAssociation,
    iv: &[u8],
    sn: &[u8],
    pad_len: u16,
    out: &mut [u8],
) -> (r: Result<usize, Error>)
    requires
        old(out)@.len() >= sa.spec_header_size() && !reserved_spi(sa.spi) ==> {
            &&& sa.pl_len <= 2
            &&& iv@.len() >= sa.iv_len
            &&& sn@.len() >= sa.sn_len
        },
    ensures
        old(out)@.len() < sa.spec_header_size() ==> r == Err::<usize, Error>(
            Error::BufferTooSmall {
                required: sa.spec_header_size() as usize,
                available: old(out)@.len() as usize,
            },
        ),
        old(out)@.len() >= sa.spec_header_size() && reserved_spi(sa.spi) ==> r == Err::<
            usize,
            Error,
        >(Error::ReservedSpi(sa.spi)),
        r is Err ==> final(out)@ == old(out)@,
        old(out)@.len() >= sa.spec_header_size() && !reserved_spi(sa.spi) ==> r == Ok::<
            usize,
            Error,
        >(sa.spec_header_size() as usize) && final(out)@ == spec_security_header(
            *sa,
            iv@,
            sn@,
            pad_len,
        ) + old(out)@.subrange(sa.spec_header_size() as int, old(out)@.len() as int),
{
    let n = out.len();
    let r = put_security_header(sa, iv, sn, pad_len, out, 0, n);
    proof {
        crate::utils::lemma_be_bytes_len(sa.spi as nat, 2);
        crate::utils::lemma_be_bytes_len(pad_len as nat, sa.pl_len as nat);
        if r is Ok {
            assert(splice(old(out)@, 0, spec_security_header(*sa, iv@, sn@, pad_len)) =~= spec_security_header(*sa, iv@, sn@, pad_len) + old(out)@.subrange(sa.spec_header_size() as int, old(out)@.len() as int));
        }
    }
    r
}

/// A Security Header written for an SA reads back, with that SA's field
/// lengths, its SPI, the IV and sequence number it was given (cut to their
/// lengths), and the pad length cut to `pl_len` bytes.
pub proof fn lemma_security_header_roundtrip(
    sa: SecurityAssociation,
    iv: Seq<u8>,
    sn: Seq<u8>,
    pad_len: u16,
    rest: Seq<u8>,
)
    requires
        sa.pl_len <= 2,
        iv.len() >= sa.iv_len,
        sn.len() >= sa.sn_len,
    ensures
        ({
            let f = security_header::spec_parse_fields(
                sa,
                spec_security_header(sa, iv, sn, pad_len) + rest,
            );
            &&& f.0 == sa.spi
            &&& f.1 == iv.take(sa.iv_len as int)
            &&& f.2 == sn.take(sa.sn_len as int)
            &&& be_value(f.3) == pad_len as nat % crate::utils::pow256(sa.pl_len as nat)
        }),
{
    let h = spec_security_header(sa, iv, sn, pad_len);
    let b = h + rest;
    crate::utils::lemma_be_roundtrip(sa.spi as nat, 2);
    crate::utils::lemma_be_roundtrip(pad_len as nat, sa.pl_len as nat);
    crate::utils::lemma_pow256_values();
    let spi_b = be_bytes(sa.spi as nat, 2);
    crate::utils::lemma_be_bytes_index(sa.spi as nat, 2, 0);
    crate::utils::lemma_be_bytes_index(sa.spi as nat, 2, 1);
    let iv_end = 2 + sa.iv_len;
    let sn_end = iv_end + sa.sn_len;
    let pl_end = sn_end + sa.pl_len;
    assert(b.subrange(2, iv_end as int) =~= iv.take(sa.iv_len as int));
    assert(b.subrange(iv_end as int, sn_end as int) =~= sn.take(sa.sn_len as int));
    assert(b.subrange(sn_end as int, pl_end as int) =~= be_bytes(pad_len as nat, sa.pl_len as nat));
    assert(b[0] == spi_b[0] && b[1] == spi_b[1]);
    assert(sa.spi as nat / 256 % 256 * 256 + sa.spi as nat % 256 == sa.spi) by (nonlinear_arith)
        requires
            sa.spi < 0x10000,
    ;
}

/// Read the SPI from the first 2 bytes of a security header.
pub fn read_spi(header_bytes: &[u8]) -> (r: Result<u16, Error>)
    ensures
        header_bytes@.len() < 2 ==> r == Err::<u16, Error>(Error::FrameTooShort),
        header_bytes@.len() >= 2 ==> r == Ok::<u16, Error>(
            (header_bytes@[0] * 256 + header_bytes@[1]) as u16,
        ),
{
    if header_bytes.len() < 2 {
        return Err(Error::FrameTooShort);
    }
    Ok(header_bytes[0] as u16 * 256 + header_bytes[1] as u16)
}

/// Extract fields from a security header given the SA configuration.
pub fn parse_security_header<'a>(sa: &SecurityAssociation, header_bytes: &'a [u8]) -> (r: Result<
    SecurityHeader<'a>,
    Error,
>)
    ensures
        header_bytes@.len() < sa.spec_header_size() ==> r == Err::<SecurityHeader<'a>, Error>(
            Error::FrameTooShort,
        ),
        header_bytes@.len() >= sa.spec_header_size() ==> (r matches Ok(h) && h.spec_fields()
            == security_header::spec_parse_fields(*sa, header_bytes@)),
{
    SecurityHeader::parse(sa, header_bytes)
}

/// The anti-replay sequence number as the IV: zeros, then the low
/// `min(iv_len, 8)` bytes of the number, big-endian.
pub open spec fn spec_iv_from_sn(sa: SecurityAssociation) -> Seq<u8> {
    let c = if sa.iv_len < 8 {
        sa.iv_len as int
    } else {
        8
    };
    Seq::new((sa.iv_len - c) as nat, |i: int| 0u8) + be_bytes(sa.sequence_number as nat, 8).subrange(
        8 - c,
        8,
    )
}

/// The anti-replay sequence number field: its low `sn_len` bytes.
pub open spec fn spec_sn_field(sa: SecurityAssociation) -> Seq<u8> {
    be_bytes(sa.sequence_number as nat, 8).subrange(8 - sa.sn_len, 8)
}

/// `n` bytes of `frame` ANDed with the authentication mask.
pub open spec fn masked(frame: Seq<u8>, mask: Seq<u8>, n: int) -> Seq<u8> {
    Seq::new(n as nat, |i: int| frame[i] & mask[i])
}

/// The first `n` bytes of the frame, masked when the mask covers them.
pub open spec fn auth_input(sa: SecurityAssociation, frame: Seq<u8>, n: int) -> Seq<u8> {
    if mask_bytes(sa.auth_mask).len() >= n {
        masked(frame, mask_bytes(sa.auth_mask), n)
    } else {
        frame.subrange(0, n)
    }
}

/// Builds the IV and sequence-number fields from the SA's counter.
fn iv_and_sn(sa: &SecurityAssociation) -> (r: (Vec<u8>, Vec<u8>))
    requires
        sa.sn_len <= 8,
    ensures
        r.0@ == spec_iv_from_sn(*sa),
        r.1@ == spec_sn_field(*sa),
        r.0@.len() == sa.iv_len,
        r.1@.len() == sa.sn_len,
{
    let mut sn8 = [0u8; 8];
    write_be(&mut sn8, 0, 8, sa.sequence_number);
    proof {
        crate::utils::lemma_be_bytes_len(sa.sequence_number as nat, 8);
        assert(sn8@ =~= be_bytes(sa.sequence_number as nat, 8));
    }
    let iv_len = sa.iv_len as usize;
    let c: usize = if iv_len < 8 {
        iv_len
    } else {
        8
    };
    let mut iv: Vec<u8> = Vec::new();
    let mut i: usize = 0;
    while i < iv_len - c
        invariant
            i <= iv_len - c,
            iv@ =~= Seq::new(i as nat, |k: int| 0u8),
        decreases iv_len - c - i,
    {
        iv.push(0);
        i = i + 1;
    }
    let tail = copy_out(&sn8, 8 - c, c);
    let mut k: usize = 0;
    let ghost zeros = iv@;
    while k < c
        invariant
            k <= c <= 8,
            tail@.len() == c,
            iv@ =~= zeros + tail@.subrange(0, k as int),
        decreases c - k,
    {
        iv.push(tail[k]);
        k = k + 1;
    }
    let sn_len = sa.sn_len as usize;
    let sn = copy_out(&sn8, 8 - sn_len, sn_len);
    proof {
        assert(tail@.subrange(0, c as int) =~= tail@);
    }
    (iv, sn)
}

/// `frame[0..n]` ANDed with the mask when the mask covers it, else as is.
fn auth_payload(sa: &SecurityAssociation, frame: &[u8], n: usize) -> (p: Vec<u8>)
    requires
        n <= frame@.len(),
    ensures
        p@ == auth_input(*sa, frame@, n as int),
{
    if mask_len(&sa.auth_mask) >= n {
        let mut p: Vec<u8> = Vec::new();
        let mut i: usize = 0;
        while i < n
            invariant
                i <= n <= frame@.len(),
                n <= mask_bytes(sa.auth_mask).len(),
                p@ =~= masked(frame@, mask_bytes(sa.auth_mask), i as int),
            decreases n - i,
        {
            p.push(frame[i] & mask_get(&sa.auth_mask, i));
            i = i + 1;
        }
        p
    } else {
        copy_out(frame, 0, n)
    }
}

/// The anti-replay counter that follows `n`, wrapping at the top.
pub open spec fn next_sn(n: u64) -> u64 {
    if n == u64::MAX {
        0
    } else {
        (n + 1) as u64
    }
}

/// Frame offsets that the security operations accept: the SA's field
/// lengths within their limits, `header_end <= data_start <= data_end`,
/// a trailer end that fits in `usize`, and a masked AAD of at most 256
/// bytes.
pub open spec fn layout_ok(sa: SecurityAssociation, header_end: nat, data_start: nat, data_end: nat) -> bool {
    &&& sa.wf()
    &&& header_end <= data_start <= data_end
    &&& data_end + sa.mac_len <= usize::MAX
    &&& sa.service_type == ServiceType::AuthenticatedEncryption && mask_bytes(sa.auth_mask).len()
        >= data_start ==> data_start <= 256
}

/// What the data field offsets of a service need once the Security
/// Header is in place: room for the MAC buffer, the data field not
/// running backwards, and a masked AAD of at most 256 bytes.
pub open spec fn service_layout_ok(sa: SecurityAssociation, data_start: nat, data_end: nat) -> bool {
    match sa.service_type {
        ServiceType::Authentication => sa.mac_len <= 64,
        ServiceType::Encryption => data_start <= data_end,
        ServiceType::AuthenticatedEncryption => {
            &&& sa.mac_len <= 64
            &&& data_start <= data_end
            &&& mask_bytes(sa.auth_mask).len() >= data_start ==> data_start <= 256
        },
    }
}

/// The offsets and SA that `apply_security` works with on a frame of
/// `len` bytes: once the SPI is not reserved, the trailer end fits in
/// `usize`; once the frame also holds the trailer, the IV and sequence number
/// fit their buffers and the Security Header slot lies in the frame; once
/// the slot holds the header, the pad length fits in 2 bytes and the
/// service's own layout holds.
pub open spec fn apply_layout_ok(
    sa: SecurityAssociation,
    len: nat,
    header_end: nat,
    data_start: nat,
    data_end: nat,
) -> bool {
    &&& !reserved_spi(sa.spi) ==> data_end + sa.mac_len <= usize::MAX
    &&& !reserved_spi(sa.spi) && len >= data_end + sa.mac_len ==> {
        &&& sa.iv_len <= 32
        &&& sa.sn_len <= 8
        &&& header_end <= data_start <= len
        &&& data_start - header_end >= sa.spec_header_size() ==> {
            &&& sa.pl_len <= 2
            &&& service_layout_ok(sa, data_start, data_end)
        }
    }
}

/// The SPI in the two bytes at `at`.
pub open spec fn spi_at(f: Seq<u8>, at: int) -> u16 {
    (f[at] * 256 + f[at + 1]) as u16
}

/// The offsets and SA that `process_security` works with on a frame `f`:
/// the SPI slot starts in the frame; once it names the SA, the trailer end
/// fits in `usize`; once the frame also holds the trailer, the Security
/// Header slot lies in the frame; once the slot holds the header, the IV
/// and sequence number fit their buffers and the service's own layout
/// holds.
pub open spec fn process_layout_ok(
    sa: SecurityAssociation,
    f: Seq<u8>,
    header_end: nat,
    data_start: nat,
    data_end: nat,
) -> bool {
    let named = f.len() - header_end >= 2 && spi_at(f, header_end as int) == sa.spi;
    &&& header_end <= f.len()
    &&& named ==> data_end + sa.mac_len <= usize::MAX
    &&& named && f.len() >= data_end + sa.mac_len ==> {
        &&& header_end <= data_start <= f.len()
        &&& data_start - header_end >= sa.spec_header_size() ==> {
            &&& sa.iv_len <= 32
            &&& sa.sn_len <= 8
            &&& service_layout_ok(sa, data_start, data_end)
        }
    }
}

/// What `apply_security` does to a frame `f0` with SA `sa`: the result,
/// the SA afterwards and the frame afterwards.
///
/// The Security Header (IV and sequence number taken from the SA's
/// counter, pad length 0) goes at `he`; then the MAC of the frame up to
/// `de` goes at `de` (authentication), or the data field `ds..de` is
/// encrypted (encryption), or both with the frame up to `ds` as AAD and
/// the tag at `de` (authenticated encryption). On success the counter
/// moves on by one.
pub open spec fn spec_apply<C: CryptoProvider>(
    crypto: C,
    sa: SecurityAssociation,
    f0: Seq<u8>,
    he: int,
    ds: int,
    de: int,
) -> (Result<(), Error>, SecurityAssociation, Seq<u8>) {
    let hs = sa.spec_header_size() as int;
    let mac_len = sa.mac_len as int;
    let iv = spec_iv_from_sn(sa);
    let next = sa.with_sn(next_sn(sa.sequence_number));
    if reserved_spi(sa.spi) {
        (Err(Error::ReservedSpi(sa.spi)), sa, f0)
    } else if f0.len() < de + mac_len {
        (
            Err(Error::BufferTooSmall { required: (de + mac_len) as usize, available: f0.len() as usize }),
            sa,
            f0,
        )
    } else if ds - he < hs {
        (Err(Error::BufferTooSmall { required: hs as usize, available: (ds - he) as usize }), sa, f0)
    } else {
        let f1 = splice(f0, he, spec_security_header(sa, iv, spec_sn_field(sa), 0));
        match sa.service_type {
            ServiceType::Authentication => match crypto.spec_mac(sa, iv, auth_input(sa, f1, de)) {
                Ok(m) => (Ok(()), next, splice(f1, de, m)),
                Err(e) => (Err(e), sa, f1),
            },
            ServiceType::Encryption => match crypto.spec_encrypt(
                sa,
                iv,
                Seq::empty(),
                f1.subrange(ds, de),
                Seq::empty(),
            ) {
                Ok((ct, t, p)) => (Ok(()), next, splice(f1, ds, ct)),
                Err(e) => (Err(e), sa, f1),
            },
            ServiceType::AuthenticatedEncryption => match crypto.spec_encrypt(
                sa,
                iv,
                auth_input(sa, f1, ds),
                f1.subrange(ds, de),
                zero_bytes(mac_len as nat),
            ) {
                Ok((ct, tag, p)) => (Ok(()), next, splice(splice(f1, ds, ct), de, tag)),
                Err(e) => (Err(e), sa, f1),
            },
        }
    }
}

/// The data field that `apply_security` protects: the frame with the
/// Security Header written, from `ds` to `de`.
pub open spec fn spec_apply_plaintext(sa: SecurityAssociation, f0: Seq<u8>, he: int, ds: int, de: int) -> Seq<u8> {
    splice(f0, he, spec_security_header(sa, spec_iv_from_sn(sa), spec_sn_field(sa), 0)).subrange(ds, de)
}

/// The associated data that `apply_security` authenticates under
/// authenticated encryption: the frame with the Security Header written,
/// up to `ds`, masked when the mask covers it.
pub open spec fn spec_apply_aad(sa: SecurityAssociation, f0: Seq<u8>, he: int, ds: int) -> Seq<u8> {
    auth_input(
        sa,
        splice(f0, he, spec_security_header(sa, spec_iv_from_sn(sa), spec_sn_field(sa), 0)),
        ds,
    )
}

/// What `apply_security` learns from its crypto backend: the MAC it
/// computes has `mac_len` bytes; encryption keeps the data field's length
/// and fills the whole tag; and the backend's decryption gives back the
/// data field that its encryption protected, whenever it takes the tag
/// that the service produces (no tag for encryption alone, a `mac_len`
/// tag for authenticated encryption).
pub open spec fn spec_apply_undone<C: CryptoProvider>(
    crypto: C,
    sa: SecurityAssociation,
    f0: Seq<u8>,
    he: int,
    ds: int,
    de: int,
) -> bool {
    let iv = spec_iv_from_sn(sa);
    let pt = spec_apply_plaintext(sa, f0, he, ds, de);
    let f1 = splice(f0, he, spec_security_header(sa, iv, spec_sn_field(sa), 0));
    match sa.service_type {
        ServiceType::Authentication => match crypto.spec_mac(sa, iv, auth_input(sa, f1, de)) {
            Ok(m) => m.len() == sa.mac_len,
            Err(e) => true,
        },
        ServiceType::Encryption => match crypto.spec_encrypt(sa, iv, Seq::empty(), pt, Seq::empty()) {
            Ok((ct, t, p)) => {
                &&& ct.len() == pt.len()
                &&& crypto.spec_tag_len_ok(0) ==> crypto.spec_decrypt(
                    sa,
                    iv,
                    Seq::empty(),
                    ct,
                    Seq::empty(),
                ) == Ok::<(Seq<u8>, usize), Error>((pt, p))
            },
            Err(e) => true,
        },
        ServiceType::AuthenticatedEncryption => {
            let aad = spec_apply_aad(sa, f0, he, ds);
            match crypto.spec_encrypt(sa, iv, aad, pt, zero_bytes(sa.mac_len as nat)) {
                Ok((ct, t, p)) => {
                    &&& ct.len() == pt.len()
                    &&& t.len() == sa.mac_len
                    &&& crypto.spec_tag_len_ok(sa.mac_len as nat) ==> crypto.spec_decrypt(
                        sa,
                        iv,
                        aad,
                        ct,
                        t,
                    ) == Ok::<(Seq<u8>, usize), Error>((pt, p))
                },
                Err(e) => true,
            }
        },
    }
}

/// Apply security processing to a frame (sending side).
///
/// Given a frame buffer with the transfer frame header already
/// written, this function:
/// 1. Writes the Security Header after `header_end`
/// 2. Encrypts the data field if needed (AEAD for GCM)
/// 3. Computes and writes the MAC if needed
///
/// The caller must have left room for the security overhead.
pub fn apply_security<C: CryptoProvider>(
    sa: &mut SecurityAssociation,
    crypto: &C,
    frame: &mut [u8],
    header_end: usize,
    data_start: usize,
    data_end: usize,
) -> (r: Result<(), Error>)
    requires
        apply_layout_ok(*old(sa), old(frame)@.len(), header_end as nat, data_start as nat, data_end as nat),
    ensures
        ({
            let o = spec_apply(*crypto, *old(sa), old(frame)@, header_end as int, data_start as int, data_end as int);
            &&& r == o.0
            &&& *final(sa) == o.1
            &&& final(frame)@ == o.2
        }),
        final(frame)@.len() == old(frame)@.len(),
        r is Ok ==> spec_apply_undone(
            *crypto,
            *old(sa),
            old(frame)@,
            header_end as int,
            data_start as int,
            data_end as int,
        ),
{
    if sa.spi == 0 || sa.spi == 0xFFFF {
        return Err(Error::ReservedSpi(sa.spi));
    }
    let trailer_start = data_end;
    let mac_len = sa.mac_len as usize;
    let trailer_end = trailer_start + mac_len;
    if frame.len() < trailer_end {
        return Err(Error::BufferTooSmall { required: trailer_end, available: frame.len() });
    }
    let (iv, sn) = iv_and_sn(sa);
    match put_security_header(sa, iv.as_slice(), sn.as_slice(), 0, frame, header_end, data_start) {
        Ok(_) => {},
        Err(e) => {
            return Err(e);
        },
    }
    let ghost f1 = frame@;
    match sa.service_type {
        ServiceType::Authentication => {
            let payload = auth_payload(sa, frame, data_end);
            let mut mac_buf: Vec<u8> = zeros(mac_len);
            match crypto.compute_mac(sa, iv.as_slice(), payload.as_slice(), mac_buf.as_mut_slice()) {
                Ok(_) => {},
                Err(e) => {
                    return Err(e);
                },
            }
            proof {
                assert(spec_apply_undone(*crypto, *sa, old(frame)@, header_end as int, data_start as int, data_end as int));
            }
            copy_in(frame, trailer_start, mac_buf.as_slice());
        },
        ServiceType::Encryption => {
            let mut data = copy_out(frame, data_start, data_end - data_start);
            let mut no_tag: Vec<u8> = Vec::new();
            let empty: Vec<u8> = Vec::new();
            let ghost pt = data@;
            match crypto.encrypt(
                sa,
                iv.as_slice(),
                empty.as_slice(),
                data.as_mut_slice(),
                no_tag.as_mut_slice(),
            ) {
                Ok(_) => {},
                Err(e) => {
                    return Err(e);
                },
            }
            proof {
                assert(no_tag@ =~= Seq::<u8>::empty());
                assert(empty@ =~= Seq::<u8>::empty());
                assert(pt == spec_apply_plaintext(*sa, old(frame)@, header_end as int, data_start as int, data_end as int));
                assert(spec_apply_undone(*crypto, *sa, old(frame)@, header_end as int, data_start as int, data_end as int));
            }
            copy_in(frame, data_start, data.as_slice());
        },
        ServiceType::AuthenticatedEncryption => {
            let aad = auth_payload(sa, frame, data_start);
            let mut data = copy_out(frame, data_start, data_end - data_start);
            let mut mac_buf: Vec<u8> = zeros(mac_len);
            let ghost pt = data@;
            let ghost tag0 = mac_buf@;
            match crypto.encrypt(
                sa,
                iv.as_slice(),
                aad.as_slice(),
                data.as_mut_slice(),
                mac_buf.as_mut_slice(),
            ) {
                Ok(_) => {},
                Err(e) => {
                    return Err(e);
                },
            }
            proof {
                assert(tag0 =~= zero_bytes(sa.mac_len as nat));
                assert(pt == spec_apply_plaintext(*sa, old(frame)@, header_end as int, data_start as int, data_end as int));
                assert(aad@ == spec_apply_aad(*sa, old(frame)@, header_end as int, data_start as int));
                assert(spec_apply_undone(*crypto, *sa, old(frame)@, header_end as int, data_start as int, data_end as int));
            }
            copy_in(frame, data_start, data.as_slice());
            copy_in(frame, trailer_start, mac_buf.as_slice());
        },
    }
    sa.sequence_number = sa.sequence_number.wrapping_add(1);
    Ok(())
}

/// The anti-replay check as a result and the SA afterwards.
pub open spec fn sn_check(sa: SecurityAssociation, received: u64) -> (Result<(), Error>, SecurityAssociation) {
    if sn_acceptable(sa, received) {
        (Ok(()), sa.with_sn(next_sn(received)))
    } else {
        (Err(Error::SequenceNumberRejected { received, expected: sa.sequence_number }), sa)
    }
}

/// What `process_security` does to a received frame `f0` with SA `sa`:
/// the result, the SA afterwards and the frame afterwards.
///
/// The SPI at `he` must name the SA and the frame must hold the header
/// and the trailer; the IV and sequence number are read from the
/// Security Header. Authentication compares the MAC of the frame up to
/// `de` with the trailer; encryption decrypts `ds..de`; authenticated
/// encryption decrypts `ds..de` against the frame up to `ds` and the
/// trailer as tag. Authentication and authenticated encryption then run
/// the anti-replay check when the SA carries a sequence number.
pub open spec fn spec_process<C: CryptoProvider>(
    crypto: C,
    sa: SecurityAssociation,
    f0: Seq<u8>,
    he: int,
    ds: int,
    de: int,
) -> (Result<(), Error>, SecurityAssociation, Seq<u8>) {
    let mac_len = sa.mac_len as int;
    if f0.len() - he < 2 {
        (Err(Error::FrameTooShort), sa, f0)
    } else if spi_at(f0, he) != sa.spi {
        (Err(Error::UnknownSpi(spi_at(f0, he))), sa, f0)
    } else if f0.len() < de + mac_len || ds - he < sa.spec_header_size() {
        (Err(Error::FrameTooShort), sa, f0)
    } else {
        let fields = security_header::spec_parse_fields(sa, f0.subrange(he, ds));
        let iv = fields.1;
        let trailer = f0.subrange(de, de + mac_len);
        let checked = if sa.sn_len > 0 {
            sn_check(sa, be_value(fields.2) as u64)
        } else {
            (Ok(()), sa)
        };
        match sa.service_type {
            ServiceType::Authentication => match crypto.spec_mac(sa, iv, auth_input(sa, f0, de)) {
                Ok(m) => if trailer != m {
                    (Err(Error::MacVerificationFailed), sa, f0)
                } else {
                    (checked.0, checked.1, f0)
                },
                Err(e) => (Err(e), sa, f0),
            },
            ServiceType::Encryption => match crypto.spec_decrypt(
                sa,
                iv,
                Seq::empty(),
                f0.subrange(ds, de),
                Seq::empty(),
            ) {
                Ok((pt, p)) => (Ok(()), sa, splice(f0, ds, pt)),
                Err(e) => (Err(e), sa, f0),
            },
            ServiceType::AuthenticatedEncryption => match crypto.spec_decrypt(
                sa,
                iv,
                auth_input(sa, f0, ds),
                f0.subrange(ds, de),
                trailer,
            ) {
                Ok((pt, p)) => (checked.0, checked.1, splice(f0, ds, pt)),
                Err(e) => (Err(e), sa, f0),
            },
        }
    }
}

/// Process security on a received frame (receiving side).
///
/// Verifies authentication, checks anti-replay, and decrypts.
/// For AEAD (AES-GCM), tag verification and decryption are
/// combined in a single `decrypt` call.
pub fn process_security<C: CryptoProvider>(
    sa: &mut SecurityAssociation,
    crypto: &C,
    frame: &mut [u8],
    header_end: usize,
    data_start: usize,
    data_end: usize,
) -> (r: Result<(), Error>)
    requires
        process_layout_ok(*old(sa), old(frame)@, header_end as nat, data_start as nat, data_end as nat),
    ensures
        ({
            let o = spec_process(*crypto, *old(sa), old(frame)@, header_end as int, data_start as int, data_end as int);
            &&& r == o.0
            &&& *final(sa) == o.1
            &&& final(frame)@ == o.2
        }),
        final(frame)@.len() == old(frame)@.len(),
{
    let n = frame.len();
    let spi = match read_spi(vstd::slice::slice_subrange(&*frame, header_end, n)) {
        Ok(s) => s,
        Err(e) => {
            return Err(e);
        },
    };
    if spi != sa.spi {
        return Err(Error::UnknownSpi(spi));
    }
    let trailer_start = data_end;
    let mac_len = sa.mac_len as usize;
    let trailer_end = trailer_start + mac_len;
    if frame.len() < trailer_end {
        return Err(Error::FrameTooShort);
    }
    let hdr = vstd::slice::slice_subrange(&*frame, header_end, data_start);
    let (received_sn, iv) = match SecurityHeader::parse(sa, hdr) {
        Ok(h) => (h.sequence_number_value(), vstd::slice::slice_to_vec(h.iv())),
        Err(e) => {
            return Err(e);
        },
    };
    let sn_len = sa.sn_len as usize;
    proof {
        let fields = security_header::spec_parse_fields(*sa, frame@.subrange(header_end as int, data_start as int));
        crate::utils::lemma_be_value_bound(fields.2);
        crate::utils::lemma_pow256_mono(fields.2.len(), 8);
        crate::utils::lemma_pow256_values();
        assert(received_sn == be_value(fields.2) as u64);
    }
    match sa.service_type {
        ServiceType::Authentication => {
            let payload = auth_payload(sa, frame, data_end);
            let mut mac_buf: Vec<u8> = zeros(mac_len);
            match crypto.compute_mac(sa, iv.as_slice(), payload.as_slice(), mac_buf.as_mut_slice()) {
                Ok(_) => {},
                Err(e) => {
                    return Err(e);
                },
            }
            if !bytes_eq(frame, trailer_start, mac_buf.as_slice()) {
                return Err(Error::MacVerificationFailed);
            }
            if sn_len > 0 {
                return check_sequence_number(sa, received_sn);
            }
        },
        ServiceType::Encryption => {
            let mut data = copy_out(frame, data_start, data_end - data_start);
            let empty: Vec<u8> = Vec::new();
            match crypto.decrypt(sa, iv.as_slice(), empty.as_slice(), data.as_mut_slice(), empty.as_slice()) {
                Ok(_) => {},
                Err(e) => {
                    return Err(e);
                },
            }
            copy_in(frame, data_start, data.as_slice());
        },
        ServiceType::AuthenticatedEncryption => {
            let tag = copy_out(frame, trailer_start, mac_len);
            let aad = auth_payload(sa, frame, data_start);
            let mut data = copy_out(frame, data_start, data_end - data_start);
            match crypto.decrypt(sa, iv.as_slice(), aad.as_slice(), data.as_mut_slice(), tag.as_slice()) {
                Ok(_) => {},
                Err(e) => {
                    return Err(e);
                },
            }
            copy_in(frame, data_start, data.as_slice());
            if sn_len > 0 {
                return check_sequence_number(sa, received_sn);
            }
        },
    }
    Ok(())
}

/// The SA's counter fits in its Sequence Number field and, with a
/// window, the window does not reach past the top of the counter.
pub open spec fn counter_fits(sa: SecurityAssociation) -> bool {
    &&& sa.sn_len > 0 ==> sa.sequence_number < pow256(sa.sn_len as nat)
    &&& sa.sequence_window > 0 ==> sa.sequence_number + sa.sequence_window <= u64::MAX
}

/// In clear mode, a frame that `apply_security` protected is accepted by
/// `process_security` at a receiver that holds the same SA: the frame
/// comes through as it was sent, its data field is the one the sender
/// had, and a receiver that checks sequence numbers moves its counter on
/// as the sender did.
#[verifier::spinoff_prover]
#[verifier::rlimit(40)]
pub proof fn lemma_clear_mode_roundtrip(
    sa: SecurityAssociation,
    f0: Seq<u8>,
    he: nat,
    ds: nat,
    de: nat,
)
    requires
        layout_ok(sa, he, ds, de),
        !reserved_spi(sa.spi),
        f0.len() >= de + sa.mac_len,
        ds - he >= sa.spec_header_size(),
        counter_fits(sa),
    ensures
        ({
            let a = spec_apply(ClearModeCrypto, sa, f0, he as int, ds as int, de as int);
            let p = spec_process(ClearModeCrypto, sa, a.2, he as int, ds as int, de as int);
            &&& a.0 is Ok
            &&& p.0 is Ok
            &&& p.2 == a.2
            &&& a.2.subrange(ds as int, de as int) == f0.subrange(ds as int, de as int)
            &&& p.1 == (if sa.sn_len > 0 && sa.service_type != ServiceType::Encryption {
                a.1
            } else {
                sa
            })
        }),
{
    let iv = spec_iv_from_sn(sa);
    let snf = spec_sn_field(sa);
    let hdr = spec_security_header(sa, iv, snf, 0);
    let mac_len = sa.mac_len as int;
    crate::utils::lemma_be_bytes_len(sa.spi as nat, 2);
    crate::utils::lemma_be_bytes_len(0, sa.pl_len as nat);
    crate::utils::lemma_be_bytes_len(sa.sequence_number as nat, 8);
    crate::utils::lemma_be_bytes_low(sa.sequence_number as nat, 8, sa.sn_len as nat);
    assert(iv.len() == sa.iv_len);
    assert(iv.take(sa.iv_len as int) =~= iv);
    assert(snf.take(sa.sn_len as int) =~= snf);
    assert(hdr.len() == sa.spec_header_size());
    let f1 = splice(f0, he as int, hdr);
    assert(f1.len() == f0.len());
    let f2 = if sa.service_type == ServiceType::Encryption {
        f1
    } else {
        splice(f1, de as int, zero_bytes(mac_len as nat))
    };
    assert(splice(f1, ds as int, f1.subrange(ds as int, de as int)) =~= f1);
    let a = spec_apply(ClearModeCrypto, sa, f0, he as int, ds as int, de as int);
    assert(a.2 =~= f2);
    assert(f2.len() == f0.len());
    assert(f2.subrange(he as int, (he + sa.spec_header_size()) as int) =~= hdr);
    assert(f2.subrange(ds as int, de as int) =~= f0.subrange(ds as int, de as int));
    let b = f2.subrange(he as int, ds as int);
    let fields = security_header::spec_parse_fields(sa, b);
    assert(b.subrange(0, 2) =~= be_bytes(sa.spi as nat, 2));
    crate::utils::lemma_pow256_values();
    crate::utils::lemma_be_roundtrip_fits(sa.spi as nat, 2);
    assert(be_value(be_bytes(sa.spi as nat, 2)) == be_bytes(sa.spi as nat, 2)[0] * 256 + be_bytes(
        sa.spi as nat,
        2,
    )[1]) by {
        let s = be_bytes(sa.spi as nat, 2);
        assert(s.drop_last().drop_last() =~= Seq::<u8>::empty());
        assert(be_value(s.drop_last()) == s[0]);
    }
    assert(f2[he as int] == b[0] && f2[he + 1int] == b[1]);
    assert(fields.1 =~= iv);
    assert(fields.2 =~= snf);
    crate::utils::lemma_be_roundtrip(sa.sequence_number as nat, sa.sn_len as nat);
    if sa.sn_len > 0 {
        vstd::arithmetic::div_mod::lemma_small_mod(
            sa.sequence_number as nat,
            pow256(sa.sn_len as nat),
        );
        assert(be_value(fields.2) == sa.sequence_number);
    }
    assert(splice(f2, ds as int, f2.subrange(ds as int, de as int)) =~= f2);
    if sa.service_type != ServiceType::Encryption {
        assert(f2.subrange(de as int, de + mac_len) =~= zero_bytes(mac_len as nat));
    }
}

/// A frame that holds, before `ds`, what `apply_security` wrote there
/// (the Security Header at `he` over the original frame) names the SA at
/// `he`, and its Security Header reads back the IV and, when the SA
/// carries one, the sequence number that the sender used.
proof fn lemma_applied_header(sa: SecurityAssociation, f0: Seq<u8>, f2: Seq<u8>, he: nat, ds: nat)
    requires
        sa.wf(),
        !reserved_spi(sa.spi),
        he + sa.spec_header_size() <= ds <= f0.len(),
        f2.len() == f0.len(),
        f2.subrange(0, ds as int) == splice(
            f0,
            he as int,
            spec_security_header(sa, spec_iv_from_sn(sa), spec_sn_field(sa), 0),
        ).subrange(0, ds as int),
        sa.sn_len > 0 ==> sa.sequence_number < pow256(sa.sn_len as nat),
    ensures
        f2.len() - he >= 2,
        spi_at(f2, he as int) == sa.spi,
        security_header::spec_parse_fields(sa, f2.subrange(he as int, ds as int)).1 == spec_iv_from_sn(sa),
        sa.sn_len > 0 ==> be_value(security_header::spec_parse_fields(sa, f2.subrange(he as int, ds as int)).2)
            == sa.sequence_number,
        be_value(security_header::spec_parse_fields(sa, f2.subrange(he as int, ds as int)).2) < pow256(8),
{
    let iv = spec_iv_from_sn(sa);
    let snf = spec_sn_field(sa);
    let hdr = spec_security_header(sa, iv, snf, 0);
    crate::utils::lemma_be_bytes_len(sa.spi as nat, 2);
    crate::utils::lemma_be_bytes_len(0, sa.pl_len as nat);
    crate::utils::lemma_be_bytes_len(sa.sequence_number as nat, 8);
    crate::utils::lemma_be_bytes_low(sa.sequence_number as nat, 8, sa.sn_len as nat);
    assert(iv.len() == sa.iv_len);
    assert(iv.take(sa.iv_len as int) =~= iv);
    assert(snf.take(sa.sn_len as int) =~= snf);
    assert(hdr.len() == sa.spec_header_size());
    let f1 = splice(f0, he as int, hdr);
    assert(f2.subrange(he as int, (he + sa.spec_header_size()) as int) =~= hdr) by {
        assert forall|i: int| he <= i < he + sa.spec_header_size() implies f2[i] == hdr[i - he] by {
            assert(f2.subrange(0, ds as int)[i] == f1.subrange(0, ds as int)[i]);
        }
    }
    let b = f2.subrange(he as int, ds as int);
    let fields = security_header::spec_parse_fields(sa, b);
    assert(b.subrange(0, 2) =~= be_bytes(sa.spi as nat, 2));
    crate::utils::lemma_pow256_values();
    crate::utils::lemma_be_roundtrip_fits(sa.spi as nat, 2);
    assert(be_value(be_bytes(sa.spi as nat, 2)) == be_bytes(sa.spi as nat, 2)[0] * 256 + be_bytes(
        sa.spi as nat,
        2,
    )[1]) by {
        let s = be_bytes(sa.spi as nat, 2);
        assert(s.drop_last().drop_last() =~= Seq::<u8>::empty());
        assert(be_value(s.drop_last()) == s[0]);
    }
    assert(f2[he as int] == b[0] && f2[he + 1int] == b[1]);
    assert(fields.1 =~= iv);
    assert(fields.2 =~= snf);
    crate::utils::lemma_be_roundtrip(sa.sequence_number as nat, sa.sn_len as nat);
    crate::utils::lemma_be_value_bound(fields.2);
    crate::utils::lemma_pow256_mono(fields.2.len(), 8);
    if sa.sn_len > 0 {
        vstd::arithmetic::div_mod::lemma_small_mod(sa.sequence_number as nat, pow256(sa.sn_len as nat));
    }
}

/// With any crypto backend, a frame that `apply_security` protected is
/// accepted by `process_security` at a receiver that holds the same SA,
/// provided the backend's decryption undoes its encryption on that frame
/// (which `apply_security` guarantees once it succeeds) and takes the tag
/// that the service produces: the data field comes back as the sender
/// had it, and a receiver that checks sequence numbers moves its counter
/// on as the sender did.
#[verifier::spinoff_prover]
#[verifier::rlimit(60)]
pub proof fn lemma_apply_process_roundtrip<C: CryptoProvider>(
    crypto: C,
    sa: SecurityAssociation,
    f0: Seq<u8>,
    he: nat,
    ds: nat,
    de: nat,
)
    requires
        layout_ok(sa, he, ds, de),
        !reserved_spi(sa.spi),
        f0.len() >= de + sa.mac_len,
        ds - he >= sa.spec_header_size(),
        counter_fits(sa),
        spec_apply(crypto, sa, f0, he as int, ds as int, de as int).0 is Ok,
        spec_apply_undone(crypto, sa, f0, he as int, ds as int, de as int),
        sa.service_type == ServiceType::Encryption ==> crypto.spec_tag_len_ok(0),
        sa.service_type == ServiceType::AuthenticatedEncryption ==> crypto.spec_tag_len_ok(
            sa.mac_len as nat,
        ),
    ensures
        ({
            let a = spec_apply(crypto, sa, f0, he as int, ds as int, de as int);
            let p = spec_process(crypto, sa, a.2, he as int, ds as int, de as int);
            &&& p.0 is Ok
            &&& p.2.subrange(ds as int, de as int) == f0.subrange(ds as int, de as int)
            &&& p.1 == (if sa.sn_len > 0 && sa.service_type != ServiceType::Encryption {
                a.1
            } else {
                sa
            })
        }),
{
    let iv = spec_iv_from_sn(sa);
    let hdr = spec_security_header(sa, iv, spec_sn_field(sa), 0);
    let mac_len = sa.mac_len as int;
    let (hei, dsi, dei) = (he as int, ds as int, de as int);
    crate::utils::lemma_be_bytes_len(sa.spi as nat, 2);
    crate::utils::lemma_be_bytes_len(0, sa.pl_len as nat);
    crate::utils::lemma_be_bytes_len(sa.sequence_number as nat, 8);
    assert(iv.len() == sa.iv_len);
    assert(hdr.len() == sa.spec_header_size());
    let f1 = splice(f0, hei, hdr);
    assert(f1.len() == f0.len());
    let pt = f1.subrange(dsi, dei);
    assert(pt =~= f0.subrange(dsi, dei));
    assert(pt == spec_apply_plaintext(sa, f0, hei, dsi, dei));
    let a = spec_apply(crypto, sa, f0, hei, dsi, dei);
    let f2 = a.2;
    let next = sa.with_sn(next_sn(sa.sequence_number));
    match sa.service_type {
        ServiceType::Authentication => {
            let m = crypto.spec_mac(sa, iv, auth_input(sa, f1, dei))->Ok_0;
            assert(f2 == splice(f1, dei, m));
            assert(f2.subrange(0, dsi) =~= f1.subrange(0, dsi));
            lemma_applied_header(sa, f0, f2, he, ds);
            assert(auth_input(sa, f2, dei) =~= auth_input(sa, f1, dei));
            assert(f2.subrange(dei, dei + mac_len) =~= m);
            assert(f2.subrange(dsi, dei) =~= f0.subrange(dsi, dei));
        },
        ServiceType::Encryption => {
            let r = crypto.spec_encrypt(sa, iv, Seq::empty(), pt, Seq::empty());
            let ct = r->Ok_0.0;
            assert(f2 == splice(f1, dsi, ct));
            assert(f2.subrange(0, dsi) =~= f1.subrange(0, dsi));
            lemma_applied_header(sa, f0, f2, he, ds);
            assert(f2.subrange(dsi, dei) =~= ct);
            let p = spec_process(crypto, sa, f2, hei, dsi, dei);
            assert(p.2 == splice(f2, dsi, pt));
            assert(p.2.subrange(dsi, dei) =~= pt);
        },
        ServiceType::AuthenticatedEncryption => {
            let aad = spec_apply_aad(sa, f0, hei, dsi);
            let r = crypto.spec_encrypt(sa, iv, aad, pt, zero_bytes(mac_len as nat));
            let ct = r->Ok_0.0;
            let t = r->Ok_0.1;
            assert(f2 == splice(splice(f1, dsi, ct), dei, t));
            assert(f2.subrange(0, dsi) =~= f1.subrange(0, dsi));
            lemma_applied_header(sa, f0, f2, he, ds);
            assert(auth_input(sa, f2, dsi) =~= auth_input(sa, f1, dsi));
            assert(f2.subrange(dsi, dei) =~= ct);
            assert(f2.subrange(dei, dei + mac_len) =~= t);
            let p = spec_process(crypto, sa, f2, hei, dsi, dei);
            assert(p.2 == splice(f2, dsi, pt));
            assert(p.2.subrange(dsi, dei) =~= pt);
        },
    }
}

/// `n` zero bytes.
fn zeros(n: usize) -> (v: Vec<u8>)
    ensures
        v@ == Seq::new(n as nat, |i: int| 0u8),
{
    let mut v: Vec<u8> = Vec::new();
    let mut i: usize = 0;
    while i < n
        invariant
            i <= n,
            v@ =~= Seq::new(i as nat, |k: int| 0u8),
        decreases n - i,
    {
        v.push(0);
        i = i + 1;
    }
    v
}

/// The anti-replay check: `received` must not be below the expected
/// number, nor (with a nonzero window) more than the window beyond it.
pub open spec fn sn_acceptable(sa: SecurityAssociation, received: u64) -> bool {
    let expected = sa.sequence_number;
    received >= expected && !(sa.sequence_window > 0 && received > ((expected + sa.sequence_window)
        % 0x1_0000_0000_0000_0000) as u64)
}

/// Anti-replay check; on success the SA expects `received + 1` next.
pub fn check_sequence_number(sa: &mut SecurityAssociation, received: u64) -> (r: Result<(), Error>)
    ensures
        r == sn_check(*old(sa), received).0,
        *final(sa) == sn_check(*old(sa), received).1,
{
    let expected = sa.sequence_number;
    if received < expected {
        return Err(Error::SequenceNumberRejected { received, expected });
    }
    let window = sa.sequence_window;
    if window > 0 && received > expected.wrapping_add(window) {
        return Err(Error::SequenceNumberRejected { received, expected });
    }
    sa.sequence_number = received.wrapping_add(1);
    Ok(())
}

/// The layout of a Security Header: the SPI in the first two bytes,
/// big-endian, then the first `iv_len` bytes of the IV, then the first
/// `sn_len` bytes of the sequence number, then the pad length in the last
/// `pl_len` bytes, big-endian; `header_size` bytes in all.
pub proof fn lemma_security_header_layout(sa: SecurityAssociation, iv: Seq<u8>, sn: Seq<u8>, pad_len: u16)
    requires
        iv.len() >= sa.iv_len,
        sn.len() >= sa.sn_len,
    ensures
        ({
            let h = spec_security_header(sa, iv, sn, pad_len);
            let a = 2 + sa.iv_len;
            let b = a + sa.sn_len;
            &&& h.len() == sa.spec_header_size()
            &&& h[0] == sa.spi / 256
            &&& h[1] == sa.spi % 256
            &&& h.subrange(2, a as int) == iv.take(sa.iv_len as int)
            &&& h.subrange(a as int, b as int) == sn.take(sa.sn_len as int)
            &&& h.subrange(b as int, h.len() as int) == be_bytes(pad_len as nat, sa.pl_len as nat)
        }),
{
    let h = spec_security_header(sa, iv, sn, pad_len);
    crate::utils::lemma_be_bytes_len(sa.spi as nat, 2);
    crate::utils::lemma_be_bytes_len(pad_len as nat, sa.pl_len as nat);
    crate::utils::lemma_be_bytes_index(sa.spi as nat, 2, 0);
    crate::utils::lemma_be_bytes_index(sa.spi as nat, 2, 1);
    crate::utils::lemma_pow256_values();
    let a = 2 + sa.iv_len;
    let b = a + sa.sn_len;
    assert(h.subrange(2, a as int) =~= iv.take(sa.iv_len as int));
    assert(h.subrange(a as int, b as int) =~= sn.take(sa.sn_len as int));
    assert(h.subrange(b as int, h.len() as int) =~= be_bytes(pad_len as nat, sa.pl_len as nat));
}

/// What applying each service does to a frame, and to the SA. Applying
/// fails, leaving the SA as it was, on a reserved SPI or a frame too short
/// for the header before the data field or for the MAC after it. On
/// success the sequence counter moves on by one (wrapping at the top),
/// the Security Header stands right after `he`, and nothing before `he`
/// changes; authentication alone leaves the data field `ds..de` as it was
/// and puts the MAC after it, while encryption alone leaves everything
/// from `de` on as it was (no MAC). (The lengths of the MAC and of the
/// ciphertext are those that `apply_security` learns from its backend.)
pub proof fn lemma_apply_services<C: CryptoProvider>(
    crypto: C,
    sa: SecurityAssociation,
    f0: Seq<u8>,
    he: int,
    ds: int,
    de: int,
)
    requires
        0 <= he <= ds <= de,
        sa.pl_len <= 2,
        sa.iv_len <= 32,
        sa.sn_len <= 8,
        spec_apply_undone(crypto, sa, f0, he, ds, de),
    ensures
        ({
            let o = spec_apply(crypto, sa, f0, he, ds, de);
            let hs = sa.spec_header_size() as int;
            let hdr = spec_security_header(sa, spec_iv_from_sn(sa), spec_sn_field(sa), 0);
            &&& (reserved_spi(sa.spi) || f0.len() < de + sa.mac_len || ds - he < hs) ==> o.0 is Err
                && o.1 == sa && o.2 == f0
            &&& o.0 is Err ==> o.1 == sa
            &&& o.0 is Ok ==> {
                &&& !reserved_spi(sa.spi) && f0.len() >= de + sa.mac_len && ds - he >= hs
                &&& o.1 == sa.with_sn(next_sn(sa.sequence_number))
                &&& o.2.subrange(0, he) == f0.subrange(0, he)
                &&& o.2.subrange(he, he + hs) == hdr
                &&& sa.service_type == ServiceType::Authentication ==> {
                    &&& o.2.subrange(ds, de) == f0.subrange(ds, de)
                    &&& o.2.len() == f0.len()
                    &&& o.2.subrange(de, de + sa.mac_len) == crypto.spec_mac(
                        sa,
                        spec_iv_from_sn(sa),
                        auth_input(sa, splice(f0, he, hdr), de),
                    )->Ok_0
                }
                &&& sa.service_type == ServiceType::Encryption ==> o.2.subrange(de, o.2.len() as int)
                    == f0.subrange(de, f0.len() as int)
            }
        }),
{
    let o = spec_apply(crypto, sa, f0, he, ds, de);
    let hs = sa.spec_header_size() as int;
    let iv = spec_iv_from_sn(sa);
    let hdr = spec_security_header(sa, iv, spec_sn_field(sa), 0);
    if !reserved_spi(sa.spi) && f0.len() >= de + sa.mac_len && ds - he >= hs {
        crate::utils::lemma_be_bytes_len(sa.sequence_number as nat, 8);
        lemma_security_header_layout(sa, iv, spec_sn_field(sa), 0);
        let f1 = splice(f0, he, hdr);
        assert(f1.len() == f0.len());
        assert(f1.subrange(0, he) =~= f0.subrange(0, he));
        assert(f1.subrange(he, he + hs) =~= hdr);
        assert(f1.subrange(ds, f1.len() as int) =~= f0.subrange(ds, f0.len() as int));
        if o.0 is Ok {
            match sa.service_type {
                ServiceType::Authentication => {
                    let m = crypto.spec_mac(sa, iv, auth_input(sa, f1, de))->Ok_0;
                    assert(o.2 == splice(f1, de, m));
                    assert(o.2.subrange(0, he) =~= f0.subrange(0, he));
                    assert(o.2.subrange(he, he + hs) =~= hdr);
                    assert(o.2.subrange(ds, de) =~= f0.subrange(ds, de));
                    assert(o.2.subrange(de, de + sa.mac_len) =~= m);
                },
                ServiceType::Encryption => {
                    let ct = crypto.spec_encrypt(sa, iv, Seq::empty(), f1.subrange(ds, de), Seq::empty())->Ok_0.0;
                    assert(o.2 == splice(f1, ds, ct));
                    assert(o.2.subrange(0, he) =~= f0.subrange(0, he));
                    assert(o.2.subrange(he, he + hs) =~= hdr);
                    assert(o.2.subrange(de, o.2.len() as int) =~= f0.subrange(de, f0.len() as int));
                },
                ServiceType::AuthenticatedEncryption => {
                    let r = crypto.spec_encrypt(sa, iv, auth_input(sa, f1, ds), f1.subrange(ds, de), zero_bytes(sa.mac_len as nat))->Ok_0;
                    assert(o.2 == splice(splice(f1, ds, r.0), de, r.1));
                    assert(o.2.subrange(0, he) =~= f0.subrange(0, he));
                    assert(o.2.subrange(he, he + hs) =~= hdr);
                },
            }
        }
    }
}

/// The anti-replay check: a sequence number below the expected one is
/// rejected and leaves the SA as it was; so is one more than the window
/// beyond it, when the SA has a nonzero window. One from the expected
/// number up to the window (any, with a zero window; the window's end
/// wraps modulo 2^64 as the check computes it) is accepted and the
/// SA then expects the next number. A number once accepted is rejected
/// when it comes again.
pub proof fn lemma_anti_replay(sa: SecurityAssociation, received: u64)
    ensures
        received < sa.sequence_number ==> sn_check(sa, received).0 is Err && sn_check(sa, received).1
            == sa,
        sa.sequence_window > 0 && sa.sequence_number + sa.sequence_window <= u64::MAX && received
            > sa.sequence_number + sa.sequence_window ==> sn_check(sa, received).0 is Err && sn_check(
            sa,
            received,
        ).1 == sa,
        sa.sequence_number <= received && (sa.sequence_window == 0 || (received <= sa.sequence_number
            + sa.sequence_window && sa.sequence_number + sa.sequence_window <= u64::MAX)) ==> sn_check(sa, received).0 is Ok && sn_check(sa, received).1
            == sa.with_sn(next_sn(received)),
        sn_check(sa, received).0 is Ok && received < u64::MAX ==> sn_check(
            sn_check(sa, received).1,
            received,
        ).0 is Err,
{
    let e = sa.sequence_number;
    let w = sa.sequence_window;
    if e + w <= u64::MAX {
        assert((e + w) % 0x1_0000_0000_0000_0000 == e + w);
    } else {
        assert((e + w) % 0x1_0000_0000_0000_0000 == e + w - 0x1_0000_0000_0000_0000);
    }
}

} // verus!
