//! Frame-level encryption and authentication for the datalink layer.
//!
//! Provides the [`SecurityProcessor`] trait, [`SdlsProcessor`] for
//! CCSDS 355.0-B-2 frame-level crypto, and [`NoSecurity`] as a
//! passthrough.
use core::convert::Infallible;

use vstd::prelude::*;

use sdls::{CryptoProvider, SecurityAssociation};

/// Space Data Link Security (CCSDS 355.0-B-2).
pub mod sdls;

verus! {

/// Applies or removes security (encryption/authentication) on frames.
///
/// A processor accepts frames of some lengths (`accepts`); on those it
/// works in place, keeps the frame's length, and on success reports the
/// whole frame length. `spec_applied` and `spec_processed` say what frame
/// each operation leaves, and whether it succeeds.
pub trait SecurityProcessor {
    /// Error type for security operations.
    type Error;

    /// Whether the processor can work on a frame of `frame_len` bytes.
    spec fn accepts(&self, frame_len: nat) -> bool;

    /// The frame that applying security to `frame` leaves; `None` when
    /// applying fails.
    spec fn spec_applied(&self, frame: Seq<u8>) -> Option<Seq<u8>>;

    /// The frame that removing security from `frame` leaves; `None` when
    /// removing fails.
    spec fn spec_processed(&self, frame: Seq<u8>) -> Option<Seq<u8>>;

    /// Whether the processor can work on a frame of `frame_len` bytes.
    fn accepts_len(&self, frame_len: usize) -> (b: bool)
        ensures
            b == self.accepts(frame_len as nat),
    ;

    /// Applies security (encrypt/authenticate) to a frame in-place.
    fn apply(&mut self, frame: &mut [u8]) -> (r: Result<usize, Self::Error>)
        requires
            old(self).accepts(old(frame)@.len()),
        ensures
            final(frame)@.len() == old(frame)@.len(),
            r matches Ok(n) ==> n == old(frame)@.len(),
            r is Ok <==> old(self).spec_applied(old(frame)@) is Some,
            r is Ok ==> old(self).spec_applied(old(frame)@) == Some(final(frame)@),
    ;

    /// Removes security (decrypt/verify) from a frame in-place.
    fn process(&mut self, frame: &mut [u8]) -> (r: Result<usize, Self::Error>)
        requires
            old(self).accepts(old(frame)@.len()),
        ensures
            final(frame)@.len() == old(frame)@.len(),
            r matches Ok(n) ==> n == old(frame)@.len(),
            r is Ok <==> old(self).spec_processed(old(frame)@) is Some,
            r is Ok ==> old(self).spec_processed(old(frame)@) == Some(final(frame)@),
    ;
}

/// SDLS-based security processor (CCSDS 355.0-B-2).
///
/// Wraps a [`SecurityAssociation`] and [`CryptoProvider`] to
/// implement in-place frame encryption and authentication.
///
/// The `header_end` offset tells the processor where the transfer
/// frame header ends (5 for TC, 6 for TM). The security header
/// is inserted at that offset, followed by the encrypted data
/// field and optional MAC trailer.
pub struct SdlsProcessor<C> {
    sa: SecurityAssociation,
    crypto: C,
    header_end: usize,
}

impl<C: CryptoProvider> SdlsProcessor<C> {
    /// The security association.
    pub closed spec fn spec_sa(&self) -> SecurityAssociation {
        self.sa
    }

    /// The crypto backend.
    pub closed spec fn spec_crypto(&self) -> C {
        self.crypto
    }

    /// Where the transfer frame header ends.
    pub closed spec fn spec_header_end(&self) -> nat {
        self.header_end as nat
    }

    /// Where the data field starts in a frame: after the Security Header.
    pub open spec fn data_start(&self) -> nat {
        self.spec_header_end() + self.spec_sa().spec_header_size()
    }

    /// Where the data field ends in a frame of `len` bytes: before the
    /// Security Trailer.
    pub open spec fn data_end(&self, len: nat) -> int {
        len - self.spec_sa().mac_len
    }

    /// Creates a new SDLS processor.
    ///
    /// `header_end` is the byte offset where the transfer frame
    /// header ends (5 for TC, 6 for TM).
    pub fn new(sa: SecurityAssociation, crypto: C, header_end: usize) -> (p: Self)
        ensures
            p.spec_sa() == sa,
            p.spec_crypto() == crypto,
            p.spec_header_end() == header_end,
    {
        SdlsProcessor { sa, crypto, header_end }
    }

    /// Returns a reference to the security association.
    pub fn sa(&self) -> (sa: &SecurityAssociation)
        ensures
            *sa == self.spec_sa(),
    {
        &self.sa
    }

    /// Returns a mutable reference to the security association.
    pub fn sa_mut(&mut self) -> (sa: &mut SecurityAssociation)
        ensures
            *sa == old(self).spec_sa(),
            final(self).spec_sa() == *final(sa),
            final(self).spec_crypto() == old(self).spec_crypto(),
            final(self).spec_header_end() == old(self).spec_header_end(),
    {
        &mut self.sa
    }
}

impl<C: CryptoProvider> SecurityProcessor for SdlsProcessor<C> {
    type Error = sdls::Error;

    /// The frame holds the transfer frame header, the Security Header and
    /// the Security Trailer, with the SA's field lengths in their limits
    /// (and a masked AAD of at most 256 bytes).
    open spec fn accepts(&self, frame_len: nat) -> bool {
        &&& self.data_start() <= self.data_end(frame_len)
        &&& sdls::layout_ok(
            self.spec_sa(),
            self.spec_header_end(),
            self.data_start(),
            self.data_end(frame_len) as nat,
        )
    }

    fn accepts_len(&self, frame_len: usize) -> (b: bool) {
        let sa = &self.sa;
        if !(sa.iv_len <= 32 && sa.sn_len <= 8 && sa.pl_len <= 2 && sa.mac_len <= 64) {
            return false;
        }
        let mac = sa.mac_len as usize;
        if mac > frame_len {
            return false;
        }
        let de = frame_len - mac;
        let hs = sa.header_size();
        if self.header_end > de || de - self.header_end < hs {
            return false;
        }
        let ds = self.header_end + hs;
        match sa.service_type {
            sdls::ServiceType::AuthenticatedEncryption => !(crate::containers::mask_len(&sa.auth_mask)
                >= ds && ds > 256),
            _ => true,
        }
    }

    /// The frame that `apply_security` leaves, when it succeeds.
    open spec fn spec_applied(&self, frame: Seq<u8>) -> Option<Seq<u8>> {
        let o = sdls::spec_apply(
            self.spec_crypto(),
            self.spec_sa(),
            frame,
            self.spec_header_end() as int,
            self.data_start() as int,
            self.data_end(frame.len()),
        );
        if o.0 is Ok {
            Some(o.2)
        } else {
            None
        }
    }

    /// The frame that `process_security` leaves, when it succeeds.
    open spec fn spec_processed(&self, frame: Seq<u8>) -> Option<Seq<u8>> {
        let o = sdls::spec_process(
            self.spec_crypto(),
            self.spec_sa(),
            frame,
            self.spec_header_end() as int,
            self.data_start() as int,
            self.data_end(frame.len()),
        );
        if o.0 is Ok {
            Some(o.2)
        } else {
            None
        }
    }

    /// Exactly `apply_security` with the data field between the Security
    /// Header and the Security Trailer.
    fn apply(&mut self, frame: &mut [u8]) -> (r: Result<usize, sdls::Error>)
        ensures
            ({
                let o = sdls::spec_apply(
                    old(self).spec_crypto(),
                    old(self).spec_sa(),
                    old(frame)@,
                    old(self).spec_header_end() as int,
                    old(self).data_start() as int,
                    old(self).data_end(old(frame)@.len()),
                );
                &&& (r is Ok <==> o.0 is Ok)
                &&& (o.0 matches Err(e) ==> r == Err::<usize, sdls::Error>(e))
                &&& final(self).spec_sa() == o.1
                &&& final(frame)@ == o.2
                &&& final(self).spec_crypto() == old(self).spec_crypto()
                &&& final(self).spec_header_end() == old(self).spec_header_end()
            }),
    {
        let data_start = self.header_end + self.sa.header_size();
        let data_end = frame.len() - self.sa.trailer_size();
        match sdls::apply_security(&mut self.sa, &self.crypto, frame, self.header_end, data_start, data_end) {
            Ok(()) => Ok(frame.len()),
            Err(e) => Err(e),
        }
    }

    /// Exactly `process_security` with the data field between the
    /// Security Header and the Security Trailer.
    fn process(&mut self, frame: &mut [u8]) -> (r: Result<usize, sdls::Error>)
        ensures
            ({
                let o = sdls::spec_process(
                    old(self).spec_crypto(),
                    old(self).spec_sa(),
                    old(frame)@,
                    old(self).spec_header_end() as int,
                    old(self).data_start() as int,
                    old(self).data_end(old(frame)@.len()),
                );
                &&& (r is Ok <==> o.0 is Ok)
                &&& (o.0 matches Err(e) ==> r == Err::<usize, sdls::Error>(e))
                &&& final(self).spec_sa() == o.1
                &&& final(frame)@ == o.2
                &&& final(self).spec_crypto() == old(self).spec_crypto()
                &&& final(self).spec_header_end() == old(self).spec_header_end()
            }),
    {
        let data_start = self.header_end + self.sa.header_size();
        let data_end = frame.len() - self.sa.trailer_size();
        match sdls::process_security(&mut self.sa, &self.crypto, frame, self.header_end, data_start, data_end) {
            Ok(()) => Ok(frame.len()),
            Err(e) => Err(e),
        }
    }
}

/// No-op security processor (passthrough).
///
/// Leaves frames untouched. Use when SDLS is not configured.
pub struct NoSecurity;

impl SecurityProcessor for NoSecurity {
    type Error = Infallible;

    /// Every frame.
    open spec fn accepts(&self, frame_len: nat) -> bool {
        true
    }

    fn accepts_len(&self, frame_len: usize) -> (b: bool) {
        true
    }

    /// The frame itself.
    open spec fn spec_applied(&self, frame: Seq<u8>) -> Option<Seq<u8>> {
        Some(frame)
    }

    /// The frame itself.
    open spec fn spec_processed(&self, frame: Seq<u8>) -> Option<Seq<u8>> {
        Some(frame)
    }

    /// Leaves the frame as it is.
    fn apply(&mut self, frame: &mut [u8]) -> (r: Result<usize, Infallible>)
        ensures
            final(frame)@ == old(frame)@,
            r == Ok::<usize, Infallible>(old(frame)@.len() as usize),
    {
        Ok(frame.len())
    }

    /// Leaves the frame as it is.
    fn process(&mut self, frame: &mut [u8]) -> (r: Result<usize, Infallible>)
        ensures
            final(frame)@ == old(frame)@,
            r == Ok::<usize, Infallible>(old(frame)@.len() as usize),
    {
        Ok(frame.len())
    }
}

} // verus!
