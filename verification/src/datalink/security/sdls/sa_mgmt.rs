//! Security Association lifecycle management (CCSDS 355.1-B-1).
//!
//! SA state machine:
//!   UNKEYED → (rekey) → KEYED → (start) → OPERATIONAL
//!   OPERATIONAL → (stop) → KEYED
//!   KEYED → (expire) → UNKEYED
//!   Any → (delete) → removed
use vstd::prelude::*;

use super::{reserved_spi, Error, SecurityAssociation, ServiceType};
use crate::containers::{
    mask_bytes, mask_new, sa_list, sas_get, sas_get_mut, sas_len, sas_new, sas_push,
    sas_swap_remove,
};

verus! {

/// SA lifecycle state.
#[derive(Debug, Copy, Clone, Eq, PartialEq, Structural)]
pub enum SaState {
    /// Created but no keys assigned.
    Unkeyed,
    /// Keys assigned, ready to start.
    Keyed,
    /// Active in frame security processing.
    Operational,
}

/// A managed Security Association with lifecycle state.
pub struct ManagedSa {
    /// The underlying SA parameters.
    pub sa: SecurityAssociation,
    /// Current lifecycle state.
    pub state: SaState,
    /// Assigned encryption key ID (if keyed).
    pub key_id: Option<u16>,
}

/// Maximum number of managed SAs.
pub const MAX_SAS: usize = 64;

/// A newly created SA: the given SPI and service, no security fields, a
/// zero counter and window, no mask, UNKEYED and without a key.
pub open spec fn fresh_sa(m: ManagedSa, spi: u16, service_type: ServiceType) -> bool {
    &&& m.sa.spi == spi
    &&& m.sa.service_type == service_type
    &&& m.sa.iv_len == 0 && m.sa.sn_len == 0 && m.sa.pl_len == 0 && m.sa.mac_len == 0
    &&& m.sa.sequence_number == 0 && m.sa.sequence_window == 0
    &&& mask_bytes(m.sa.auth_mask) == Seq::<u8>::empty()
    &&& m.state == SaState::Unkeyed
    &&& m.key_id == None::<u16>
}

/// Rekey: UNKEYED → KEYED with the key; otherwise `InvalidSaState`.
pub open spec fn spec_rekey(m: ManagedSa, key_id: u16) -> (Result<(), Error>, ManagedSa) {
    if m.state == SaState::Unkeyed {
        (Ok(()), ManagedSa { key_id: Some(key_id), state: SaState::Keyed, ..m })
    } else {
        (Err(Error::InvalidSaState), m)
    }
}

/// Start: KEYED → OPERATIONAL; otherwise `InvalidSaState`.
pub open spec fn spec_start(m: ManagedSa) -> (Result<(), Error>, ManagedSa) {
    if m.state == SaState::Keyed {
        (Ok(()), ManagedSa { state: SaState::Operational, ..m })
    } else {
        (Err(Error::InvalidSaState), m)
    }
}

/// Stop: OPERATIONAL → KEYED; otherwise `InvalidSaState`.
pub open spec fn spec_stop(m: ManagedSa) -> (Result<(), Error>, ManagedSa) {
    if m.state == SaState::Operational {
        (Ok(()), ManagedSa { state: SaState::Keyed, ..m })
    } else {
        (Err(Error::InvalidSaState), m)
    }
}

/// Expire: KEYED → UNKEYED, dropping the key; otherwise `InvalidSaState`.
pub open spec fn spec_expire(m: ManagedSa) -> (Result<(), Error>, ManagedSa) {
    if m.state == SaState::Keyed {
        (Ok(()), ManagedSa { key_id: None, state: SaState::Unkeyed, ..m })
    } else {
        (Err(Error::InvalidSaState), m)
    }
}

/// The SA with another anti-replay sequence number.
pub open spec fn spec_set_arsn(m: ManagedSa, arsn: u64) -> ManagedSa {
    ManagedSa { sa: m.sa.with_sn(arsn), ..m }
}

impl ManagedSa {
    /// Creates a new SA in UNKEYED state.
    pub fn new(spi: u16, service_type: ServiceType) -> (r: Result<Self, Error>)
        ensures
            reserved_spi(spi) ==> r == Err::<Self, Error>(Error::ReservedSpi(spi)),
            !reserved_spi(spi) ==> (r matches Ok(m) && fresh_sa(m, spi, service_type)),
    {
        if spi == 0 || spi == 0xFFFF {
            return Err(Error::ReservedSpi(spi));
        }
        Ok(
            ManagedSa {
                sa: SecurityAssociation {
                    spi,
                    service_type,
                    iv_len: 0,
                    sn_len: 0,
                    pl_len: 0,
                    mac_len: 0,
                    sequence_number: 0,
                    sequence_window: 0,
                    auth_mask: mask_new(),
                },
                state: SaState::Unkeyed,
                key_id: None,
            },
        )
    }

    /// Assign a key to this SA (UNKEYED → KEYED).
    ///
    /// Per Section 3.3.3.3.4: SA must be in the Unkeyed state.
    pub fn rekey(&mut self, key_id: u16) -> (r: Result<(), Error>)
        ensures
            r == spec_rekey(*old(self), key_id).0,
            *final(self) == spec_rekey(*old(self), key_id).1,
    {
        if self.state == SaState::Unkeyed {
            self.key_id = Some(key_id);
            self.state = SaState::Keyed;
            Ok(())
        } else {
            Err(Error::InvalidSaState)
        }
    }

    /// Activate the SA for operations (KEYED → OPERATIONAL).
    pub fn start(&mut self) -> (r: Result<(), Error>)
        ensures
            r == spec_start(*old(self)).0,
            *final(self) == spec_start(*old(self)).1,
    {
        if self.state == SaState::Keyed {
            self.state = SaState::Operational;
            Ok(())
        } else {
            Err(Error::InvalidSaState)
        }
    }

    /// Deactivate the SA (OPERATIONAL → KEYED).
    pub fn stop(&mut self) -> (r: Result<(), Error>)
        ensures
            r == spec_stop(*old(self)).0,
            *final(self) == spec_stop(*old(self)).1,
    {
        if self.state == SaState::Operational {
            self.state = SaState::Keyed;
            Ok(())
        } else {
            Err(Error::InvalidSaState)
        }
    }

    /// Expire the SA, removing its key association (KEYED → UNKEYED).
    ///
    /// Per Section 3.3.3.4.2: SA must be in the Keyed state.
    pub fn expire(&mut self) -> (r: Result<(), Error>)
        ensures
            r == spec_expire(*old(self)).0,
            *final(self) == spec_expire(*old(self)).1,
    {
        if self.state == SaState::Keyed {
            self.key_id = None;
            self.state = SaState::Unkeyed;
            Ok(())
        } else {
            Err(Error::InvalidSaState)
        }
    }

    /// Set the Anti-Replay Sequence Number.
    pub fn set_arsn(&mut self, arsn: u64)
        ensures
            *final(self) == spec_set_arsn(*old(self), arsn),
    {
        self.sa.sequence_number = arsn;
    }

    /// Read the current ARSN.
    pub fn read_arsn(&self) -> (n: u64)
        ensures
            n == self.sa.sequence_number,
    {
        self.sa.sequence_number
    }
}

/// Some SA has the SPI.
pub open spec fn has_sa(s: Seq<ManagedSa>, spi: u16) -> bool {
    exists|i: int| 0 <= i < s.len() && s[i].sa.spi == spi
}

/// `i` is the first position holding the SPI.
pub open spec fn first_sa_at(s: Seq<ManagedSa>, spi: u16, i: int) -> bool {
    &&& 0 <= i < s.len()
    &&& s[i].sa.spi == spi
    &&& forall|j: int| 0 <= j < i ==> s[j].sa.spi != spi
}

/// The first position holding the SPI (where there is one).
pub open spec fn sa_index(s: Seq<ManagedSa>, spi: u16) -> int {
    choose|i: int| first_sa_at(s, spi, i)
}

/// No two SAs share an SPI.
pub open spec fn spis_distinct(s: Seq<ManagedSa>) -> bool {
    forall|i: int, j: int| 0 <= i < j < s.len() ==> s[i].sa.spi != s[j].sa.spi
}

proof fn lemma_first_sa_unique(s: Seq<ManagedSa>, spi: u16, i: int)
    requires
        first_sa_at(s, spi, i),
    ensures
        sa_index(s, spi) == i,
        has_sa(s, spi),
{
    let k = sa_index(s, spi);
    assert(first_sa_at(s, spi, k));
    if k < i {
        assert(s[k].sa.spi != spi);
    } else if i < k {
        assert(s[i].sa.spi != spi);
    }
}

/// A table of managed Security Associations.
pub struct SaTable {
    entries: heapless::Vec<ManagedSa, MAX_SAS>,
}

impl View for SaTable {
    type V = Seq<ManagedSa>;

    closed spec fn view(&self) -> Seq<ManagedSa> {
        sa_list(self.entries)
    }
}

impl SaTable {
    /// Creates an empty SA table.
    pub fn new() -> (t: Self)
        ensures
            t@ == Seq::<ManagedSa>::empty(),
    {
        SaTable { entries: sas_new() }
    }

    /// The first position holding `spi`.
    fn position(&self, spi: u16) -> (r: Option<usize>)
        ensures
            r matches Some(i) ==> first_sa_at(self@, spi, i as int) && sa_index(self@, spi) == i
                && has_sa(self@, spi),
            r is None ==> !has_sa(self@, spi),
    {
        let n = sas_len(&self.entries);
        let mut i: usize = 0;
        while i < n
            invariant
                i <= n,
                n == self@.len(),
                forall|j: int| 0 <= j < i ==> self@[j].sa.spi != spi,
            decreases n - i,
        {
            if sas_get(&self.entries, i).sa.spi == spi {
                proof {
                    lemma_first_sa_unique(self@, spi, i as int);
                }
                return Some(i);
            }
            i = i + 1;
        }
        None
    }

    /// Creates a new SA and adds it to the table.
    pub fn create(&mut self, spi: u16, service_type: ServiceType) -> (r: Result<(), Error>)
        ensures
            has_sa(old(self)@, spi) ==> r == Err::<(), Error>(Error::DuplicateSpi(spi)) && final(self)@ == old(self)@,
            !has_sa(old(self)@, spi) && reserved_spi(spi) ==> r == Err::<(), Error>(
                Error::ReservedSpi(spi),
            ) && final(self)@ == old(self)@,
            !has_sa(old(self)@, spi) && !reserved_spi(spi) && old(self)@.len() >= MAX_SAS ==> r
                == Err::<(), Error>(Error::SaTableFull) && final(self)@ == old(self)@,
            !has_sa(old(self)@, spi) && !reserved_spi(spi) && old(self)@.len() < MAX_SAS ==> r
                == Ok::<(), Error>(()) && final(self)@.len() == old(self)@.len() + 1 && final(self)@.drop_last() == old(self)@ && fresh_sa(final(self)@.last(), spi, service_type),
            spis_distinct(old(self)@) ==> spis_distinct(final(self)@),
    {
        if self.position(spi).is_some() {
            return Err(Error::DuplicateSpi(spi));
        }
        let sa = match ManagedSa::new(spi, service_type) {
            Ok(sa) => sa,
            Err(e) => {
                return Err(e);
            },
        };
        match sas_push(&mut self.entries, sa) {
            Ok(()) => {
                assert(self@.drop_last() =~= old(self)@);
                Ok(())
            },
            Err(_) => Err(Error::SaTableFull),
        }
    }

    /// Deletes an SA from the table.
    ///
    /// Per Section 3.3.3.6.2: SA must be in the Unkeyed state.
    pub fn delete(&mut self, spi: u16) -> (r: Result<(), Error>)
        ensures
            ({
                let s = old(self)@;
                let i = sa_index(s, spi);
                &&& !has_sa(s, spi) ==> r == Err::<(), Error>(Error::UnknownSpi(spi)) && final(self)@ == s
                &&& has_sa(s, spi) && s[i].state != SaState::Unkeyed ==> r == Err::<(), Error>(
                    Error::InvalidSaState,
                ) && final(self)@ == s
                &&& has_sa(s, spi) && s[i].state == SaState::Unkeyed ==> r == Ok::<(), Error>(())
                    && final(self)@ == s.update(i, s.last()).drop_last()
            }),
    {
        let pos = match self.position(spi) {
            Some(p) => p,
            None => {
                return Err(Error::UnknownSpi(spi));
            },
        };
        if sas_get(&self.entries, pos).state != SaState::Unkeyed {
            return Err(Error::InvalidSaState);
        }
        sas_swap_remove(&mut self.entries, pos);
        Ok(())
    }

    /// Finds an SA by SPI.
    pub fn find(&self, spi: u16) -> (r: Option<&ManagedSa>)
        ensures
            has_sa(self@, spi) ==> first_sa_at(self@, spi, sa_index(self@, spi)),
            has_sa(self@, spi) ==> (r matches Some(m) && *m == self@[sa_index(self@, spi)]),
            !has_sa(self@, spi) ==> r is None,
    {
        match self.position(spi) {
            Some(i) => Some(sas_get(&self.entries, i)),
            None => None,
        }
    }

    /// Finds an SA by SPI (mutable).
    pub fn find_mut(&mut self, spi: u16) -> (r: Option<&mut ManagedSa>)
        ensures
            has_sa(old(self)@, spi) ==> first_sa_at(old(self)@, spi, sa_index(old(self)@, spi)),
            has_sa(old(self)@, spi) ==> (r matches Some(m) && *m == old(self)@[sa_index(
                old(self)@,
                spi,
            )] && final(self)@ == old(self)@.update(sa_index(old(self)@, spi), *final(m))),
            !has_sa(old(self)@, spi) ==> r is None && final(self)@ == old(self)@,
    {
        match self.position(spi) {
            Some(i) => Some(sas_get_mut(&mut self.entries, i)),
            None => None,
        }
    }

    /// Rekeys an SA.
    pub fn rekey(&mut self, spi: u16, key_id: u16) -> (r: Result<(), Error>)
        ensures
            ({
                let s = old(self)@;
                let i = sa_index(s, spi);
                &&& !has_sa(s, spi) ==> r == Err::<(), Error>(Error::UnknownSpi(spi)) && final(self)@ == s
                &&& has_sa(s, spi) ==> r == spec_rekey(s[i], key_id).0 && final(self)@ == s.update(
                    i,
                    spec_rekey(s[i], key_id).1,
                )
            }),
    {
        match self.find_mut(spi) {
            Some(m) => m.rekey(key_id),
            None => Err(Error::UnknownSpi(spi)),
        }
    }

    /// Starts an SA.
    pub fn start(&mut self, spi: u16) -> (r: Result<(), Error>)
        ensures
            ({
                let s = old(self)@;
                let i = sa_index(s, spi);
                &&& !has_sa(s, spi) ==> r == Err::<(), Error>(Error::UnknownSpi(spi)) && final(self)@ == s
                &&& has_sa(s, spi) ==> r == spec_start(s[i]).0 && final(self)@ == s.update(
                    i,
                    spec_start(s[i]).1,
                )
            }),
    {
        match self.find_mut(spi) {
            Some(m) => m.start(),
            None => Err(Error::UnknownSpi(spi)),
        }
    }

    /// Stops an SA.
    pub fn stop(&mut self, spi: u16) -> (r: Result<(), Error>)
        ensures
            ({
                let s = old(self)@;
                let i = sa_index(s, spi);
                &&& !has_sa(s, spi) ==> r == Err::<(), Error>(Error::UnknownSpi(spi)) && final(self)@ == s
                &&& has_sa(s, spi) ==> r == spec_stop(s[i]).0 && final(self)@ == s.update(
                    i,
                    spec_stop(s[i]).1,
                )
            }),
    {
        match self.find_mut(spi) {
            Some(m) => m.stop(),
            None => Err(Error::UnknownSpi(spi)),
        }
    }

    /// Expires an SA.
    pub fn expire(&mut self, spi: u16) -> (r: Result<(), Error>)
        ensures
            ({
                let s = old(self)@;
                let i = sa_index(s, spi);
                &&& !has_sa(s, spi) ==> r == Err::<(), Error>(Error::UnknownSpi(spi)) && final(self)@ == s
                &&& has_sa(s, spi) ==> r == spec_expire(s[i]).0 && final(self)@ == s.update(
                    i,
                    spec_expire(s[i]).1,
                )
            }),
    {
        match self.find_mut(spi) {
            Some(m) => m.expire(),
            None => Err(Error::UnknownSpi(spi)),
        }
    }

    /// Sets the ARSN for an SA.
    pub fn set_arsn(&mut self, spi: u16, arsn: u64) -> (r: Result<(), Error>)
        ensures
            ({
                let s = old(self)@;
                let i = sa_index(s, spi);
                &&& !has_sa(s, spi) ==> r == Err::<(), Error>(Error::UnknownSpi(spi)) && final(self)@ == s
                &&& has_sa(s, spi) ==> r == Ok::<(), Error>(()) && final(self)@ == s.update(
                    i,
                    spec_set_arsn(s[i], arsn),
                )
            }),
    {
        match self.find_mut(spi) {
            Some(m) => {
                m.set_arsn(arsn);
                Ok(())
            },
            None => Err(Error::UnknownSpi(spi)),
        }
    }

    /// Reads the ARSN for an SA.
    pub fn read_arsn(&self, spi: u16) -> (r: Result<u64, Error>)
        ensures
            !has_sa(self@, spi) ==> r == Err::<u64, Error>(Error::UnknownSpi(spi)),
            has_sa(self@, spi) ==> r == Ok::<u64, Error>(
                self@[sa_index(self@, spi)].sa.sequence_number,
            ),
    {
        match self.find(spi) {
            Some(m) => Ok(m.read_arsn()),
            None => Err(Error::UnknownSpi(spi)),
        }
    }

    /// All SAs with their states, in table order.
    pub fn iter(&self) -> (v: Vec<&ManagedSa>)
        ensures
            v@.len() == self@.len(),
            forall|i: int| 0 <= i < v@.len() ==> *v@[i] == self@[i],
    {
        let n = sas_len(&self.entries);
        let mut v: Vec<&ManagedSa> = Vec::new();
        let mut i: usize = 0;
        while i < n
            invariant
                i <= n,
                n == self@.len(),
                v@.len() == i,
                forall|j: int| 0 <= j < i ==> *v@[j] == self@[j],
            decreases n - i,
        {
            v.push(sas_get(&self.entries, i));
            i = i + 1;
        }
        v
    }
}

/// The SA lifecycle: only an UNKEYED SA can be rekeyed, and it is then
/// KEYED with that key; only a KEYED SA can be started (it is then
/// OPERATIONAL) or expired (it is then UNKEYED without a key); only an
/// OPERATIONAL SA can be stopped, and stopping undoes starting. Every
/// refused transition reports `InvalidSaState` and changes nothing, and
/// none of them touches the SA's parameters.
pub proof fn lemma_sa_lifecycle(m: ManagedSa, key_id: u16)
    ensures
        (spec_rekey(m, key_id).0 is Ok) == (m.state == SaState::Unkeyed),
        (spec_start(m).0 is Ok) == (m.state == SaState::Keyed),
        (spec_expire(m).0 is Ok) == (m.state == SaState::Keyed),
        (spec_stop(m).0 is Ok) == (m.state == SaState::Operational),
        spec_rekey(m, key_id).0 is Ok ==> spec_rekey(m, key_id).1.state == SaState::Keyed
            && spec_rekey(m, key_id).1.key_id == Some(key_id),
        spec_start(m).0 is Ok ==> spec_start(m).1.state == SaState::Operational
            && spec_start(m).1.key_id == m.key_id,
        spec_expire(m).0 is Ok ==> spec_expire(m).1.state == SaState::Unkeyed
            && spec_expire(m).1.key_id == None::<u16>,
        spec_start(m).0 is Ok ==> spec_stop(spec_start(m).1) == (Ok::<(), Error>(()), m),
        spec_rekey(m, key_id).0 is Err ==> spec_rekey(m, key_id) == (Err::<(), Error>(Error::InvalidSaState), m),
        spec_start(m).0 is Err ==> spec_start(m) == (Err::<(), Error>(Error::InvalidSaState), m),
        spec_stop(m).0 is Err ==> spec_stop(m) == (Err::<(), Error>(Error::InvalidSaState), m),
        spec_expire(m).0 is Err ==> spec_expire(m) == (Err::<(), Error>(Error::InvalidSaState), m),
        spec_rekey(m, key_id).1.sa == m.sa && spec_start(m).1.sa == m.sa && spec_stop(m).1.sa == m.sa
            && spec_expire(m).1.sa == m.sa,
{
}

} // verus!
