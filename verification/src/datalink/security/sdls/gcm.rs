//! AES-GCM authenticated encryption provider (CCSDS 355.0-B-2 Table 6-1).
//!
//! The cipher itself is the `aes-gcm` crate. Its results are named here
//! as functions of key, nonce, associated data and buffer; the wrappers
//! state what the crate's source shows: sealing fails only when a length
//! is over the AES-GCM limit, opening fails (and leaves the buffer as it
//! was) when the tag does not match, and opening what sealing produced
//! gives back the plaintext.
use aes_gcm::aead::generic_array::GenericArray;
use aes_gcm::aead::{AeadInPlace, KeyInit};
use aes_gcm::{Aes128Gcm, Aes256Gcm};
use vstd::prelude::*;

use super::{CryptoProvider, Error, SecurityAssociation};

verus! {

/// AES-128-GCM sealing: the ciphertext and the 16-byte tag, or nothing.
pub uninterp spec fn aes128_gcm_seal(key: Seq<u8>, nonce: Seq<u8>, aad: Seq<u8>, plaintext: Seq<u8>) -> Option<(Seq<u8>, Seq<u8>)>;

/// AES-128-GCM opening: the plaintext, or nothing when the tag fails.
pub uninterp spec fn aes128_gcm_open(key: Seq<u8>, nonce: Seq<u8>, aad: Seq<u8>, ciphertext: Seq<u8>, tag: Seq<u8>) -> Option<Seq<u8>>;

/// AES-256-GCM sealing: the ciphertext and the 16-byte tag, or nothing.
pub uninterp spec fn aes256_gcm_seal(key: Seq<u8>, nonce: Seq<u8>, aad: Seq<u8>, plaintext: Seq<u8>) -> Option<(Seq<u8>, Seq<u8>)>;

/// AES-256-GCM opening: the plaintext, or nothing when the tag fails.
pub uninterp spec fn aes256_gcm_open(key: Seq<u8>, nonce: Seq<u8>, aad: Seq<u8>, ciphertext: Seq<u8>, tag: Seq<u8>) -> Option<Seq<u8>>;

/// The AES-GCM length limits: at most `2^36` bytes of plaintext and of
/// associated data.
pub open spec fn gcm_lengths_ok(aad_len: nat, data_len: nat) -> bool {
    aad_len <= 0x10_0000_0000 && data_len <= 0x10_0000_0000
}

/// `Aes128Gcm::encrypt_in_place_detached` under `key`: on success the
/// buffer holds the ciphertext and the tag is returned. It fails only
/// when a length is over the limit, and the named opening of its output
/// gives back the plaintext.
#[verifier::external_body]
fn aes128_seal_in_place(key: &[u8], nonce: &[u8], aad: &[u8], data: &mut [u8]) -> (r: Option<Vec<u8>>)
    requires
        key@.len() == 16,
        nonce@.len() == 12,
    ensures
        final(data)@.len() == old(data)@.len(),
        r is Some <==> gcm_lengths_ok(aad@.len(), old(data)@.len()),
        r is None ==> aes128_gcm_seal(key@, nonce@, aad@, old(data)@) is None,
        r matches Some(t) ==> aes128_gcm_seal(key@, nonce@, aad@, old(data)@) == Some((final(data)@, t@))
            && t@.len() == 16 && aes128_gcm_open(key@, nonce@, aad@, final(data)@, t@) == Some(
            old(data)@,
        ),
{
    let cipher = Aes128Gcm::new(GenericArray::from_slice(key));
    match cipher.encrypt_in_place_detached(GenericArray::from_slice(nonce), aad, data) {
        Ok(tag) => Some(tag.to_vec()),
        Err(_) => None,
    }
}

/// `Aes128Gcm::decrypt_in_place_detached` under `key`: on success the
/// buffer holds the plaintext; on failure it is left as it was.
#[verifier::external_body]
fn aes128_open_in_place(key: &[u8], nonce: &[u8], aad: &[u8], data: &mut [u8], tag: &[u8]) -> (ok: bool)
    requires
        key@.len() == 16,
        nonce@.len() == 12,
        tag@.len() == 16,
    ensures
        final(data)@.len() == old(data)@.len(),
        ok ==> aes128_gcm_open(key@, nonce@, aad@, old(data)@, tag@) == Some(final(data)@),
        !ok ==> aes128_gcm_open(key@, nonce@, aad@, old(data)@, tag@) is None && final(data)@ == old(data)@,
{
    let cipher = Aes128Gcm::new(GenericArray::from_slice(key));
    cipher.decrypt_in_place_detached(
        GenericArray::from_slice(nonce),
        aad,
        data,
        GenericArray::from_slice(tag),
    ).is_ok()
}

/// `Aes256Gcm::encrypt_in_place_detached` under `key`: on success the
/// buffer holds the ciphertext and the tag is returned. It fails only
/// when a length is over the limit, and the named opening of its output
/// gives back the plaintext.
#[verifier::external_body]
fn aes256_seal_in_place(key: &[u8], nonce: &[u8], aad: &[u8], data: &mut [u8]) -> (r: Option<Vec<u8>>)
    requires
        key@.len() == 32,
        nonce@.len() == 12,
    ensures
        final(data)@.len() == old(data)@.len(),
        r is Some <==> gcm_lengths_ok(aad@.len(), old(data)@.len()),
        r is None ==> aes256_gcm_seal(key@, nonce@, aad@, old(data)@) is None,
        r matches Some(t) ==> aes256_gcm_seal(key@, nonce@, aad@, old(data)@) == Some((final(data)@, t@))
            && t@.len() == 16 && aes256_gcm_open(key@, nonce@, aad@, final(data)@, t@) == Some(
            old(data)@,
        ),
{
    let cipher = Aes256Gcm::new(GenericArray::from_slice(key));
    match cipher.encrypt_in_place_detached(GenericArray::from_slice(nonce), aad, data) {
        Ok(tag) => Some(tag.to_vec()),
        Err(_) => None,
    }
}

/// `Aes256Gcm::decrypt_in_place_detached` under `key`: on success the
/// buffer holds the plaintext; on failure it is left as it was.
#[verifier::external_body]
fn aes256_open_in_place(key: &[u8], nonce: &[u8], aad: &[u8], data: &mut [u8], tag: &[u8]) -> (ok: bool)
    requires
        key@.len() == 32,
        nonce@.len() == 12,
        tag@.len() == 16,
    ensures
        final(data)@.len() == old(data)@.len(),
        ok ==> aes256_gcm_open(key@, nonce@, aad@, old(data)@, tag@) == Some(final(data)@),
        !ok ==> aes256_gcm_open(key@, nonce@, aad@, old(data)@, tag@) is None && final(data)@ == old(data)@,
{
    let cipher = Aes256Gcm::new(GenericArray::from_slice(key));
    cipher.decrypt_in_place_detached(
        GenericArray::from_slice(nonce),
        aad,
        data,
        GenericArray::from_slice(tag),
    ).is_ok()
}

/// AES-GCM authenticated encryption provider.
///
/// Supports 128-bit and 256-bit keys with 12-byte nonces
/// per CCSDS 355.0-B-2 Table 6-1. The GCM tag (16 bytes) is
/// used as the MAC in the SDLS Security Trailer.
pub struct AesGcmCrypto {
    key: Vec<u8>,
}

impl AesGcmCrypto {
    #[verifier::type_invariant]
    spec fn key_sized(&self) -> bool {
        self.key@.len() == 16 || self.key@.len() == 32
    }

    /// The key bytes (16 for AES-128, 32 for AES-256).
    pub closed spec fn key_bytes(&self) -> Seq<u8> {
        self.key@
    }

    /// Create a provider with a 128-bit key.
    pub fn new_128(key: &[u8; 16]) -> (c: Self)
        ensures
            c.key_bytes() == key@,
    {
        AesGcmCrypto { key: vstd::slice::slice_to_vec(key.as_slice()) }
    }

    /// Create a provider with a 256-bit key.
    pub fn new_256(key: &[u8; 32]) -> (c: Self)
        ensures
            c.key_bytes() == key@,
    {
        AesGcmCrypto { key: vstd::slice::slice_to_vec(key.as_slice()) }
    }

    /// Sealing under this provider's key.
    pub open spec fn seal(&self, nonce: Seq<u8>, aad: Seq<u8>, plaintext: Seq<u8>) -> Option<(Seq<u8>, Seq<u8>)> {
        if self.key_bytes().len() == 16 {
            aes128_gcm_seal(self.key_bytes(), nonce, aad, plaintext)
        } else {
            aes256_gcm_seal(self.key_bytes(), nonce, aad, plaintext)
        }
    }

    /// Opening under this provider's key.
    pub open spec fn open(&self, nonce: Seq<u8>, aad: Seq<u8>, ciphertext: Seq<u8>, tag: Seq<u8>) -> Option<Seq<u8>> {
        if self.key_bytes().len() == 16 {
            aes128_gcm_open(self.key_bytes(), nonce, aad, ciphertext, tag)
        } else {
            aes256_gcm_open(self.key_bytes(), nonce, aad, ciphertext, tag)
        }
    }
}

impl CryptoProvider for AesGcmCrypto {
    /// A 12-byte IV is required; the first `min(16, tag.len())` bytes of
    /// the tag buffer receive the GCM tag.
    open spec fn spec_encrypt(
        &self,
        sa: SecurityAssociation,
        iv: Seq<u8>,
        aad: Seq<u8>,
        data: Seq<u8>,
        tag: Seq<u8>,
    ) -> Result<(Seq<u8>, Seq<u8>, usize), Error> {
        if iv.len() != 12 {
            Err(Error::CryptoError)
        } else {
            match self.seal(iv, aad, data) {
                Some((ct, t)) => {
                    let n = if tag.len() < 16 {
                        tag.len() as int
                    } else {
                        16
                    };
                    Ok((ct, t.subrange(0, n) + tag.subrange(n, tag.len() as int), 0))
                },
                None => Err(Error::CryptoError),
            }
        }
    }

    /// A 12-byte IV and a 16-byte tag are required; a tag that does not
    /// match is `MacVerificationFailed`.
    open spec fn spec_decrypt(
        &self,
        sa: SecurityAssociation,
        iv: Seq<u8>,
        aad: Seq<u8>,
        data: Seq<u8>,
        tag: Seq<u8>,
    ) -> Result<(Seq<u8>, usize), Error> {
        if iv.len() != 12 || tag.len() != 16 {
            Err(Error::CryptoError)
        } else {
            match self.open(iv, aad, data, tag) {
                Some(pt) => Ok((pt, 0)),
                None => Err(Error::MacVerificationFailed),
            }
        }
    }

    /// The 16-byte GCM tag.
    open spec fn spec_tag_len_ok(&self, len: nat) -> bool {
        len == 16
    }

    /// AES-GCM offers no MAC-only mode.
    open spec fn spec_mac(&self, sa: SecurityAssociation, iv: Seq<u8>, payload: Seq<u8>) -> Result<
        Seq<u8>,
        Error,
    > {
        Err(Error::CryptoError)
    }

    fn encrypt(
        &self,
        sa: &SecurityAssociation,
        iv: &[u8],
        aad: &[u8],
        data: &mut [u8],
        tag_out: &mut [u8],
    ) -> (r: Result<usize, Error>) {
        proof {
            use_type_invariant(self);
        }
        if iv.len() != 12 {
            return Err(Error::CryptoError);
        }
        let sealed = if self.key.len() == 16 {
            aes128_seal_in_place(self.key.as_slice(), iv, aad, data)
        } else {
            aes256_seal_in_place(self.key.as_slice(), iv, aad, data)
        };
        let tag = match sealed {
            Some(t) => t,
            None => {
                return Err(Error::CryptoError);
            },
        };
        let len = if tag_out.len() < 16 {
            tag_out.len()
        } else {
            16
        };
        let ghost old_tag = tag_out@;
        let mut i: usize = 0;
        while i < len
            invariant
                i <= len <= 16,
                tag@.len() == 16,
                len <= tag_out@.len(),
                tag_out@.len() == old_tag.len(),
                forall|j: int| 0 <= j < i ==> tag_out@[j] == tag@[j],
                forall|j: int| i <= j < old_tag.len() ==> tag_out@[j] == old_tag[j],
            decreases len - i,
        {
            tag_out[i] = tag[i];
            i = i + 1;
        }
        assert(tag_out@ =~= tag@.subrange(0, len as int) + old_tag.subrange(
            len as int,
            old_tag.len() as int,
        ));
        proof {
            if old_tag.len() == 16 {
                assert(tag_out@ =~= tag@);
            }
        }
        Ok(0)
    }

    fn decrypt(
        &self,
        sa: &SecurityAssociation,
        iv: &[u8],
        aad: &[u8],
        data: &mut [u8],
        tag: &[u8],
    ) -> (r: Result<usize, Error>) {
        proof {
            use_type_invariant(self);
        }
        if iv.len() != 12 || tag.len() != 16 {
            return Err(Error::CryptoError);
        }
        let ok = if self.key.len() == 16 {
            aes128_open_in_place(self.key.as_slice(), iv, aad, data, tag)
        } else {
            aes256_open_in_place(self.key.as_slice(), iv, aad, data, tag)
        };
        if ok {
            Ok(0)
        } else {
            Err(Error::MacVerificationFailed)
        }
    }

    fn compute_mac(
        &self,
        sa: &SecurityAssociation,
        iv: &[u8],
        payload: &[u8],
        mac_out: &mut [u8],
    ) -> (r: Result<(), Error>) {
        Err(Error::CryptoError)
    }
}

} // verus!
