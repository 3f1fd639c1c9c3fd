//! Key management for SDLS Extended Procedures (CCSDS 355.1-B-1).
//!
//! Keys follow a state machine:
//!   PREACTIVE → ACTIVE → DEACTIVATED → DESTROYED
//!
//! Master keys decrypt session keys delivered via OTAR.
//! Session keys are used for frame encryption/authentication.
use vstd::prelude::*;

use super::{zero_bytes, CryptoProvider, Error, SecurityAssociation};
use crate::containers::{key_list, keys_get, keys_get_mut, keys_len, keys_new, keys_push};
use crate::utils::{copy_in, copy_out};

verus! {

/// Maximum key length in bytes (AES-256).
pub const MAX_KEY_LEN: usize = 32;

/// Maximum number of keys in a key ring.
pub const MAX_KEYS: usize = 128;

/// Key state in the lifecycle.
#[derive(Debug, Copy, Clone, Eq, PartialEq, Structural)]
pub enum KeyState {
    /// Loaded but not yet activated.
    Preactive,
    /// Available for cryptographic operations.
    Active,
    /// Disabled, no longer usable for new operations.
    Deactivated,
    /// Cryptographically wiped.
    Destroyed,
}

/// A managed cryptographic key.
#[derive(Clone)]
pub struct ManagedKey {
    /// Key identifier.
    pub key_id: u16,
    /// Current lifecycle state.
    pub state: KeyState,
    /// Key material (AES-128 = 16 bytes, AES-256 = 32 bytes).
    pub material: [u8; MAX_KEY_LEN],
    /// Actual key length in bytes.
    pub key_len: u8,
}

/// Key material is 1 to 32 bytes long.
pub open spec fn valid_key_len(n: nat) -> bool {
    1 <= n <= MAX_KEY_LEN
}

/// A freshly loaded key: identifier `id`, PREACTIVE, holding the bytes of
/// `m` followed by zeros.
pub open spec fn fresh_key(k: ManagedKey, id: u16, m: Seq<u8>) -> bool {
    &&& k.key_id == id
    &&& k.state == KeyState::Preactive
    &&& k.key_len == m.len()
    &&& k.material@ == m + zero_bytes((MAX_KEY_LEN - m.len()) as nat)
}

/// The key with its state changed.
pub open spec fn with_state(k: ManagedKey, st: KeyState) -> ManagedKey {
    ManagedKey { state: st, ..k }
}

impl ManagedKey {
    /// Creates a new key in PREACTIVE state.
    pub fn new(key_id: u16, material: &[u8]) -> (r: Result<Self, Error>)
        ensures
            !valid_key_len(material@.len()) ==> r == Err::<Self, Error>(Error::InvalidKeyLength),
            valid_key_len(material@.len()) ==> (r matches Ok(k) && fresh_key(k, key_id, material@)),
    {
        if material.len() == 0 || material.len() > MAX_KEY_LEN {
            return Err(Error::InvalidKeyLength);
        }
        let mut buf = [0u8; 32];
        let n = material.len();
        let mut i: usize = 0;
        while i < n
            invariant
                i <= n <= 32,
                n == material@.len(),
                buf@.len() == 32,
                forall|j: int| 0 <= j < i ==> buf@[j] == material@[j],
                forall|j: int| i <= j < 32 ==> buf@[j] == 0u8,
            decreases n - i,
        {
            buf[i] = material[i];
            i = i + 1;
        }
        assert(buf@ =~= material@ + zero_bytes((MAX_KEY_LEN - n) as nat));
        Ok(ManagedKey { key_id, state: KeyState::Preactive, material: buf, key_len: n as u8 })
    }

    /// Transition from PREACTIVE to ACTIVE.
    pub fn activate(&mut self) -> (r: Result<(), Error>)
        ensures
            old(self).state == KeyState::Preactive ==> r == Ok::<(), Error>(()) && *final(self)
                == with_state(*old(self), KeyState::Active),
            old(self).state != KeyState::Preactive ==> r == Err::<(), Error>(Error::InvalidKeyState)
                && *final(self) == *old(self),
    {
        if self.state == KeyState::Preactive {
            self.state = KeyState::Active;
            Ok(())
        } else {
            Err(Error::InvalidKeyState)
        }
    }

    /// Transition from ACTIVE to DEACTIVATED.
    pub fn deactivate(&mut self) -> (r: Result<(), Error>)
        ensures
            old(self).state == KeyState::Active ==> r == Ok::<(), Error>(()) && *final(self)
                == with_state(*old(self), KeyState::Deactivated),
            old(self).state != KeyState::Active ==> r == Err::<(), Error>(Error::InvalidKeyState)
                && *final(self) == *old(self),
    {
        if self.state == KeyState::Active {
            self.state = KeyState::Deactivated;
            Ok(())
        } else {
            Err(Error::InvalidKeyState)
        }
    }

    /// Cryptographically destroy the key material.
    pub fn destroy(&mut self)
        ensures
            final(self).key_id == old(self).key_id,
            final(self).state == KeyState::Destroyed,
            final(self).key_len == 0,
            final(self).material@ == zero_bytes(MAX_KEY_LEN as nat),
    {
        self.material = [0u8; 32];
        self.key_len = 0;
        self.state = KeyState::Destroyed;
        assert(self.material@ =~= zero_bytes(MAX_KEY_LEN as nat));
    }

    /// Returns the key material slice.
    pub fn material(&self) -> (m: &[u8])
        requires
            self.key_len <= MAX_KEY_LEN,
        ensures
            m@ == self.material@.subrange(0, self.key_len as int),
    {
        vstd::slice::slice_subrange(self.material.as_slice(), 0, self.key_len as usize)
    }
}

/// No two keys share an identifier.
pub open spec fn ids_distinct(s: Seq<ManagedKey>) -> bool {
    forall|i: int, j: int| 0 <= i < j < s.len() ==> s[i].key_id != s[j].key_id
}

/// Some key has identifier `id`.
pub open spec fn has_key(s: Seq<ManagedKey>, id: u16) -> bool {
    exists|i: int| 0 <= i < s.len() && s[i].key_id == id
}

/// `i` is the first position holding identifier `id`.
pub open spec fn first_key_at(s: Seq<ManagedKey>, id: u16, i: int) -> bool {
    &&& 0 <= i < s.len()
    &&& s[i].key_id == id
    &&& forall|j: int| 0 <= j < i ==> s[j].key_id != id
}

/// The first position holding identifier `id` (where there is one).
pub open spec fn key_index(s: Seq<ManagedKey>, id: u16) -> int {
    choose|i: int| first_key_at(s, id, i)
}

/// Loading `id` with material `m` succeeds: the identifier is new, the
/// length valid, and the ring below capacity.
pub open spec fn load_ok(s: Seq<ManagedKey>, id: u16, m: Seq<u8>) -> bool {
    !has_key(s, id) && valid_key_len(m.len()) && s.len() < MAX_KEYS
}

/// Why loading `id` with material `m` fails.
pub open spec fn load_error(s: Seq<ManagedKey>, id: u16, m: Seq<u8>) -> Error {
    if has_key(s, id) {
        Error::DuplicateKeyId
    } else if !valid_key_len(m.len()) {
        Error::InvalidKeyLength
    } else {
        Error::KeyRingFull
    }
}

/// The (identifier, material) entries of a decrypted OTAR block: each a
/// 16-bit identifier and a 16-bit length, then that many bytes; the
/// list ends where fewer than 4 bytes remain or an entry runs past the
/// end.
pub open spec fn otar_entries(b: Seq<u8>) -> Seq<(u16, Seq<u8>)>
    decreases b.len(),
{
    if b.len() < 4 {
        Seq::empty()
    } else {
        let id = (b[0] * 256 + b[1]) as u16;
        let n = b[2] * 256 + b[3];
        if 4 + n > b.len() {
            Seq::empty()
        } else {
            seq![(id, b.subrange(4, 4 + n))] + otar_entries(b.subrange(4 + n, b.len() as int))
        }
    }
}

/// Entry `i` of `es` was loaded successfully into the ring at position
/// `base + i`.
pub open spec fn loaded_at(s1: Seq<ManagedKey>, base: nat, es: Seq<(u16, Seq<u8>)>, i: int) -> bool {
    load_ok(s1.subrange(0, base + i), es[i].0, es[i].1) && fresh_key(s1[base + i], es[i].0, es[i].1)
}

/// The ring `s1` and result `r` are what loading the entries `es` one by
/// one into `s0` gives, stopping at the first failure.
pub open spec fn otar_loaded(
    s0: Seq<ManagedKey>,
    es: Seq<(u16, Seq<u8>)>,
    s1: Seq<ManagedKey>,
    r: Result<usize, Error>,
) -> bool {
    let n = s1.len() - s0.len();
    &&& s0.len() <= s1.len()
    &&& s1.subrange(0, s0.len() as int) == s0
    &&& n <= es.len()
    &&& forall|i: int| 0 <= i < n ==> #[trigger] loaded_at(s1, s0.len(), es, i)
    &&& n == es.len() ==> r == Ok::<usize, Error>(n as usize)
    &&& n < es.len() ==> !load_ok(s1, es[n].0, es[n].1) && r == Err::<usize, Error>(
        load_error(s1, es[n].0, es[n].1),
    )
}

/// A key ring holding master and session keys.
pub struct KeyRing {
    keys: heapless::Vec<ManagedKey, MAX_KEYS>,
}

impl View for KeyRing {
    type V = Seq<ManagedKey>;

    closed spec fn view(&self) -> Seq<ManagedKey> {
        key_list(self.keys)
    }
}

/// The first position holding an identifier is unique.
proof fn lemma_first_key_unique(s: Seq<ManagedKey>, id: u16, i: int)
    requires
        first_key_at(s, id, i),
    ensures
        key_index(s, id) == i,
        has_key(s, id),
{
    let k = key_index(s, id);
    assert(first_key_at(s, id, k));
    if k < i {
        assert(s[k].key_id != id);
    } else if i < k {
        assert(s[i].key_id != id);
    }
}

impl KeyRing {
    /// Creates an empty key ring.
    pub fn new() -> (r: Self)
        ensures
            r@ == Seq::<ManagedKey>::empty(),
    {
        KeyRing { keys: keys_new() }
    }

    /// The first position holding `key_id`.
    fn position(&self, key_id: u16) -> (r: Option<usize>)
        ensures
            r matches Some(i) ==> first_key_at(self@, key_id, i as int) && key_index(self@, key_id)
                == i && has_key(self@, key_id),
            r is None ==> !has_key(self@, key_id),
    {
        let n = keys_len(&self.keys);
        let mut i: usize = 0;
        while i < n
            invariant
                i <= n,
                n == self@.len(),
                forall|j: int| 0 <= j < i ==> self@[j].key_id != key_id,
            decreases n - i,
        {
            if keys_get(&self.keys, i).key_id == key_id {
                proof {
                    lemma_first_key_unique(self@, key_id, i as int);
                }
                return Some(i);
            }
            i = i + 1;
        }
        None
    }

    /// Loads a key into the ring in PREACTIVE state.
    pub fn load(&mut self, key_id: u16, material: &[u8]) -> (r: Result<(), Error>)
        ensures
            !load_ok(old(self)@, key_id, material@) ==> r == Err::<(), Error>(
                load_error(old(self)@, key_id, material@),
            ) && final(self)@ == old(self)@,
            load_ok(old(self)@, key_id, material@) ==> r == Ok::<(), Error>(()) && final(self)@.len() == old(self)@.len() + 1 && final(self)@.drop_last() == old(self)@ && fresh_key(
                final(self)@.last(),
                key_id,
                material@,
            ),
            ids_distinct(old(self)@) ==> ids_distinct(final(self)@),
    {
        if self.position(key_id).is_some() {
            return Err(Error::DuplicateKeyId);
        }
        let key = match ManagedKey::new(key_id, material) {
            Ok(k) => k,
            Err(e) => {
                return Err(e);
            },
        };
        match keys_push(&mut self.keys, key) {
            Ok(()) => {
                assert(self@.drop_last() =~= old(self)@);
                Ok(())
            },
            Err(_) => Err(Error::KeyRingFull),
        }
    }

    /// Finds a key by ID.
    pub fn find(&self, key_id: u16) -> (r: Option<&ManagedKey>)
        ensures
            has_key(self@, key_id) ==> first_key_at(self@, key_id, key_index(self@, key_id)),
            has_key(self@, key_id) ==> (r matches Some(k) && *k == self@[key_index(self@, key_id)]),
            !has_key(self@, key_id) ==> r is None,
    {
        match self.position(key_id) {
            Some(i) => Some(keys_get(&self.keys, i)),
            None => None,
        }
    }

    /// Finds a key by ID (mutable).
    pub fn find_mut(&mut self, key_id: u16) -> (r: Option<&mut ManagedKey>)
        ensures
            has_key(old(self)@, key_id) ==> first_key_at(old(self)@, key_id, key_index(old(self)@, key_id)),
            has_key(old(self)@, key_id) ==> (r matches Some(k) && *k == old(self)@[key_index(
                old(self)@,
                key_id,
            )] && final(self)@ == old(self)@.update(key_index(old(self)@, key_id), *final(k))),
            !has_key(old(self)@, key_id) ==> r is None && final(self)@ == old(self)@,
    {
        match self.position(key_id) {
            Some(i) => Some(keys_get_mut(&mut self.keys, i)),
            None => None,
        }
    }

    /// Activates a key by ID.
    pub fn activate(&mut self, key_id: u16) -> (r: Result<(), Error>)
        ensures
            ({
                let s = old(self)@;
                let i = key_index(s, key_id);
                &&& !has_key(s, key_id) ==> r == Err::<(), Error>(Error::UnknownKeyId(key_id))
                    && final(self)@ == s
                &&& has_key(s, key_id) && s[i].state == KeyState::Preactive ==> r == Ok::<
                    (),
                    Error,
                >(()) && final(self)@ == s.update(i, with_state(s[i], KeyState::Active))
                &&& has_key(s, key_id) && s[i].state != KeyState::Preactive ==> r == Err::<
                    (),
                    Error,
                >(Error::InvalidKeyState) && final(self)@ == s
            }),
    {
        let ghost s = self@;
        let r = match self.find_mut(key_id) {
            Some(k) => k.activate(),
            None => Err(Error::UnknownKeyId(key_id)),
        };
        proof {
            if has_key(s, key_id) {
                let i = key_index(s, key_id);
                assert(s.update(i, s[i]) =~= s);
            }
        }
        r
    }

    /// Deactivates a key by ID.
    pub fn deactivate(&mut self, key_id: u16) -> (r: Result<(), Error>)
        ensures
            ({
                let s = old(self)@;
                let i = key_index(s, key_id);
                &&& !has_key(s, key_id) ==> r == Err::<(), Error>(Error::UnknownKeyId(key_id))
                    && final(self)@ == s
                &&& has_key(s, key_id) && s[i].state == KeyState::Active ==> r == Ok::<(), Error>(
                    (),
                ) && final(self)@ == s.update(i, with_state(s[i], KeyState::Deactivated))
                &&& has_key(s, key_id) && s[i].state != KeyState::Active ==> r == Err::<
                    (),
                    Error,
                >(Error::InvalidKeyState) && final(self)@ == s
            }),
    {
        let ghost s = self@;
        let r = match self.find_mut(key_id) {
            Some(k) => k.deactivate(),
            None => Err(Error::UnknownKeyId(key_id)),
        };
        proof {
            if has_key(s, key_id) {
                let i = key_index(s, key_id);
                assert(s.update(i, s[i]) =~= s);
            }
        }
        r
    }

    /// Destroys a key by ID.
    pub fn destroy(&mut self, key_id: u16) -> (r: Result<(), Error>)
        ensures
            ({
                let s = old(self)@;
                let i = key_index(s, key_id);
                &&& !has_key(s, key_id) ==> r == Err::<(), Error>(Error::UnknownKeyId(key_id))
                    && final(self)@ == s
                &&& has_key(s, key_id) ==> {
                    &&& r == Ok::<(), Error>(())
                    &&& final(self)@.len() == s.len()
                    &&& forall|j: int| 0 <= j < s.len() && j != i ==> final(self)@[j] == s[j]
                    &&& final(self)@[i].key_id == key_id
                    &&& final(self)@[i].state == KeyState::Destroyed
                    &&& final(self)@[i].key_len == 0
                    &&& final(self)@[i].material@ == zero_bytes(MAX_KEY_LEN as nat)
                }
            }),
    {
        match self.find_mut(key_id) {
            Some(k) => {
                k.destroy();
                Ok(())
            },
            None => Err(Error::UnknownKeyId(key_id)),
        }
    }

    /// Processes an OTAR delivery: decrypts session keys using a
    /// master key and loads them into the ring.
    ///
    /// `master_key_id` — the key used to decrypt the encrypted key block.
    /// `iv` — initialization vector for decryption.
    /// `encrypted_block` — encrypted payload containing (key_id, key_material) pairs.
    /// `crypto` — cryptographic backend for decryption.
    /// `sa` — security association for the master key context.
    pub fn otar<C: CryptoProvider>(
        &mut self,
        master_key_id: u16,
        iv: &[u8],
        encrypted_block: &mut [u8],
        tag: &[u8],
        crypto: &C,
        sa: &SecurityAssociation,
    ) -> (r: Result<usize, Error>)
        ensures
            ({
                let s = old(self)@;
                let m = s[key_index(s, master_key_id)];
                &&& !has_key(s, master_key_id) ==> r == Err::<usize, Error>(
                    Error::UnknownKeyId(master_key_id),
                ) && final(self)@ == s && final(encrypted_block)@ == old(encrypted_block)@
                &&& has_key(s, master_key_id) && m.state != KeyState::Active ==> r == Err::<
                    usize,
                    Error,
                >(Error::InvalidKeyState) && final(self)@ == s && final(encrypted_block)@ == old(encrypted_block)@
                &&& has_key(s, master_key_id) && m.state == KeyState::Active ==> match crypto.spec_decrypt(
                    *sa,
                    iv@,
                    Seq::empty(),
                    old(encrypted_block)@,
                    tag@,
                ) {
                    Ok((pt, p)) => final(encrypted_block)@ == pt && otar_loaded(
                        s,
                        otar_entries(pt),
                        final(self)@,
                        r,
                    ),
                    Err(e) => r == Err::<usize, Error>(e) && final(self)@ == s,
                }
            }),
    {
        match self.position(master_key_id) {
            Some(i) => {
                if keys_get(&self.keys, i).state != KeyState::Active {
                    return Err(Error::InvalidKeyState);
                }
            },
            None => {
                return Err(Error::UnknownKeyId(master_key_id));
            },
        }
        let empty: Vec<u8> = Vec::new();
        match crypto.decrypt(sa, iv, empty.as_slice(), encrypted_block, tag) {
            Ok(_) => {},
            Err(e) => {
                return Err(e);
            },
        }
        let ghost s0 = old(self)@;
        let ghost pt = encrypted_block@;
        let ghost es = otar_entries(pt);
        let n = encrypted_block.len();
        let mut pos: usize = 0;
        let mut count: usize = 0;
        proof {
            assert(pt.subrange(0, n as int) =~= pt);
            assert(es.subrange(0, es.len() as int) =~= es);
            assert(self@.subrange(0, s0.len() as int) =~= s0);
        }
        while n - pos >= 4
            invariant_except_break
                s0 == old(self)@,
                es == otar_entries(pt),
                has_key(s0, master_key_id),
                s0[key_index(s0, master_key_id)].state == KeyState::Active,
                crypto.spec_decrypt(*sa, iv@, Seq::empty(), old(encrypted_block)@, tag@) matches Ok(
                    (d, p),
                ) && d == pt,
                pos <= n,
                n == pt.len(),
                encrypted_block@ == pt,
                count <= pos,
                self@.len() == s0.len() + count,
                self@.subrange(0, s0.len() as int) == s0,
                count <= es.len(),
                es.subrange(count as int, es.len() as int) == otar_entries(pt.subrange(pos as int, n as int)),
                forall|i: int| 0 <= i < count ==> #[trigger] loaded_at(self@, s0.len(), es, i),
            ensures
                encrypted_block@ == pt,
                self@.len() == s0.len() + count,
                self@.subrange(0, s0.len() as int) == s0,
                count == es.len(),
                forall|i: int| 0 <= i < count ==> #[trigger] loaded_at(self@, s0.len(), es, i),
            decreases n - pos,
        {
            let ghost b = pt.subrange(pos as int, n as int);
            let key_id = encrypted_block[pos] as u16 * 256 + encrypted_block[pos + 1] as u16;
            let key_len = encrypted_block[pos + 2] as usize * 256 + encrypted_block[pos + 3] as usize;
            pos = pos + 4;
            if key_len > n - pos {
                proof {
                    assert(otar_entries(b) =~= Seq::<(u16, Seq<u8>)>::empty());
                    assert(es.subrange(count as int, es.len() as int).len() == 0);
                }
                break;
            }
            let material = vstd::slice::slice_subrange(&*encrypted_block, pos, pos + key_len);
            proof {
                assert(b.subrange(4, 4 + key_len) =~= material@);
                assert(b.subrange(4 + key_len, b.len() as int) =~= pt.subrange(
                    (pos + key_len) as int,
                    n as int,
                ));
                assert(es[count as int] == (key_id, material@)) by {
                    assert(es.subrange(count as int, es.len() as int)[0] == es[count as int]);
                }
            }
            let ghost before = self@;
            match self.load(key_id, material) {
                Ok(()) => {},
                Err(e) => {
                    proof {
                        assert(self@.len() - s0.len() == count);
                        assert(otar_loaded(s0, es, self@, Err::<usize, Error>(e)));
                    }
                    return Err(e);
                },
            }
            proof {
                assert(self@.subrange(0, s0.len() as int) =~= s0) by {
                    assert(self@.drop_last() == before);
                    assert(self@.subrange(0, s0.len() as int) =~= before.subrange(0, s0.len() as int));
                }
                assert forall|i: int| 0 <= i < count + 1 implies #[trigger] loaded_at(
                    self@,
                    s0.len(),
                    es,
                    i,
                ) by {
                    if i < count {
                        assert(loaded_at(before, s0.len(), es, i));
                        assert(self@.subrange(0, s0.len() + i) =~= before.subrange(0, s0.len() + i));
                        assert(self@[s0.len() + i] == before[s0.len() + i]);
                    } else {
                        assert(self@.subrange(0, s0.len() + i) =~= before);
                    }
                }
                assert(es.subrange(count + 1, es.len() as int) =~= es.subrange(
                    count as int,
                    es.len() as int,
                ).subrange(1, es.len() - count));
            }
            pos = pos + key_len;
            count = count + 1;
        }
        proof {
            assert(otar_loaded(s0, es, self@, Ok::<usize, Error>(count)));
        }
        Ok(count)
    }

    /// The identifier and state of every key, in load order.
    pub fn inventory(&self) -> (v: Vec<(u16, KeyState)>)
        ensures
            v@.len() == self@.len(),
            forall|i: int| 0 <= i < v@.len() ==> v@[i] == (self@[i].key_id, self@[i].state),
    {
        let n = keys_len(&self.keys);
        let mut v: Vec<(u16, KeyState)> = Vec::new();
        let mut i: usize = 0;
        while i < n
            invariant
                i <= n,
                n == self@.len(),
                v@.len() == i,
                forall|j: int| 0 <= j < i ==> v@[j] == (self@[j].key_id, self@[j].state),
            decreases n - i,
        {
            let k = keys_get(&self.keys, i);
            v.push((k.key_id, k.state));
            i = i + 1;
        }
        v
    }

    /// Verifies a key via challenge-response.
    ///
    /// Encrypts `challenge` with the specified key and returns
    /// the encrypted result in `response_out`.
    pub fn verify<C: CryptoProvider>(
        &self,
        key_id: u16,
        iv: &[u8],
        challenge: &[u8],
        response_out: &mut [u8],
        tag_out: &mut [u8],
        crypto: &C,
        sa: &SecurityAssociation,
    ) -> (r: Result<(), Error>)
        ensures
            ({
                let s = self@;
                let k = s[key_index(s, key_id)];
                let len = if challenge@.len() < old(response_out)@.len() {
                    challenge@.len() as int
                } else {
                    old(response_out)@.len() as int
                };
                let rest = old(response_out)@.subrange(len, old(response_out)@.len() as int);
                &&& !has_key(s, key_id) ==> r == Err::<(), Error>(Error::UnknownKeyId(key_id))
                    && final(response_out)@ == old(response_out)@ && final(tag_out)@ == old(tag_out)@
                &&& has_key(s, key_id) && k.state != KeyState::Active ==> r == Err::<(), Error>(
                    Error::InvalidKeyState,
                ) && final(response_out)@ == old(response_out)@ && final(tag_out)@ == old(tag_out)@
                &&& has_key(s, key_id) && k.state == KeyState::Active ==> match crypto.spec_encrypt(
                    *sa,
                    iv@,
                    Seq::empty(),
                    challenge@.subrange(0, len),
                    old(tag_out)@,
                ) {
                    Ok((ct, t, p)) => r == Ok::<(), Error>(()) && final(response_out)@ == ct + rest
                        && final(tag_out)@ == t,
                    Err(e) => r == Err::<(), Error>(e) && final(response_out)@ == challenge@.subrange(
                        0,
                        len,
                    ) + rest,
                }
            }),
    {
        match self.position(key_id) {
            Some(i) => {
                if keys_get(&self.keys, i).state != KeyState::Active {
                    return Err(Error::InvalidKeyState);
                }
            },
            None => {
                return Err(Error::UnknownKeyId(key_id));
            },
        }
        let len = if challenge.len() < response_out.len() {
            challenge.len()
        } else {
            response_out.len()
        };
        let prefix = vstd::slice::slice_subrange(challenge, 0, len);
        let ghost rest = response_out@.subrange(len as int, response_out@.len() as int);
        copy_in(response_out, 0, prefix);
        assert(response_out@ =~= prefix@ + rest);
        let mut data = copy_out(response_out, 0, len);
        assert(data@ =~= prefix@);
        let empty: Vec<u8> = Vec::new();
        match crypto.encrypt(sa, iv, empty.as_slice(), data.as_mut_slice(), tag_out) {
            Ok(_) => {},
            Err(e) => {
                return Err(e);
            },
        }
        copy_in(response_out, 0, data.as_slice());
        assert(response_out@ =~= data@ + rest);
        Ok(())
    }
}

} // verus!
