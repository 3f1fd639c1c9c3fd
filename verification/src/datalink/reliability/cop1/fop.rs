//! FOP-1 (Frame Operation Procedure) sender state machine.
//!
//! CCSDS 232.1-B-2 Section 5. Handles sending of TC transfer frames
//! with go-back-N ARQ using CLCW feedback from FARM-1.
//!
//! Six states:
//! - S1: Active, no pending init
//! - S2: Active, retransmitting
//! - S3: Active, initializing without BC frame
//! - S4: Active, initializing with BC frame
//! - S5: Active, initializing with unlock
//! - S6: Initial (inactive)
use vstd::prelude::*;
use vstd::relations::{sorted_by, total_ordering};

use super::clcw::Clcw;
use crate::containers::{
    fop_action_list, fop_actions_clear, fop_actions_get, fop_actions_len, fop_actions_new,
    fop_actions_push,
};

verus! {

/// Maximum actions per event.
pub const MAX_ACTIONS: usize = 16;

/// FOP-1 states per CCSDS 232.1-B-2 Table 5-1.
#[derive(Debug, Copy, Clone, Eq, PartialEq, Structural)]
pub enum FopState {
    /// S1: active, transmitting AD frames normally.
    Active,
    /// S2: active, retransmitting (go-back-N triggered).
    Retransmitting,
    /// S3: initializing without BC frame.
    InitNoBC,
    /// S4: initializing with BC frame (Set V(R)).
    InitWithSetVr,
    /// S5: initializing with BC frame (Unlock).
    InitWithUnlock,
    /// S6: initial/inactive state.
    Initial,
}

/// Events that drive the FOP-1 state machine.
#[derive(Debug, Clone)]
pub enum FopEvent<'a> {
    /// Higher procedures request transfer of an AD FDU.
    SendAd {
        /// Data to send in a Type-AD frame.
        fdu: &'a [u8],
    },
    /// Higher procedures request transfer of a BD FDU.
    SendBd {
        /// Data to send in a Type-BD frame.
        fdu: &'a [u8],
    },
    /// A CLCW was received (from the return link).
    ClcwReceived {
        /// The received CLCW.
        clcw: Clcw,
    },
    /// The retransmission timer T1 expired.
    TimerExpired,
    /// Management directive: Initiate AD Service (no CLCW).
    InitAdNoClcw,
    /// Management directive: Initiate AD Service with CLCW.
    InitAdWithClcw,
    /// Management directive: Initiate AD with Set V(R).
    InitAdSetVr {
        /// The V(R) value to set at the receiver.
        vr: u8,
    },
    /// Management directive: Initiate AD with Unlock.
    InitAdUnlock,
    /// Management directive: Terminate AD Service.
    Terminate,
    /// Management directive: Resume AD Service.
    Resume,
}

/// Actions that FOP-1 requests the driver to perform.
#[derive(Debug, Copy, Clone, Eq, PartialEq, Structural)]
pub enum FopAction {
    /// Transmit a Type-AD frame with the given sequence number.
    /// The driver should call [`FopMachine::get_fdu`] to get the data.
    TransmitAd {
        /// Frame Sequence Number N(S) to assign.
        seq: u8,
    },
    /// Transmit a Type-BD frame.
    TransmitBd,
    /// Transmit a Type-BC Unlock frame.
    TransmitBcUnlock,
    /// Transmit a Type-BC Set V(R) frame.
    TransmitBcSetVr {
        /// The V(R) value to set.
        vr: u8,
    },
    /// Start (or restart) timer T1 with the configured initial value.
    StartTimer,
    /// Stop timer T1.
    StopTimer,
    /// AD service has been accepted (init complete).
    Accept,
    /// The FDU was rejected (queue full, wrong state, etc).
    Reject,
    /// An alert condition: link has failed.
    Alert,
    /// AD service was successfully terminated.
    Terminated,
    /// An AD frame was acknowledged by the receiver.
    Acknowledged {
        /// Sequence number acknowledged.
        seq: u8,
    },
}

/// The first [`MAX_ACTIONS`] actions of `s`: a full action list drops
/// every further action.
pub open spec fn cap(s: Seq<FopAction>) -> Seq<FopAction> {
    if s.len() <= MAX_ACTIONS {
        s
    } else {
        s.take(MAX_ACTIONS as int)
    }
}

pub proof fn lemma_cap_append(a: Seq<FopAction>, b: Seq<FopAction>)
    ensures
        cap(cap(a) + b) == cap(a + b),
{
    if a.len() > MAX_ACTIONS {
        assert(cap(cap(a) + b) =~= cap(a + b));
    }
}

pub proof fn lemma_cap_push(a: Seq<FopAction>, x: FopAction)
    requires
        a.len() <= MAX_ACTIONS,
    ensures
        cap(a + seq![x]) == if a.len() < MAX_ACTIONS {
            a.push(x)
        } else {
            a
        },
{
    assert(a + seq![x] =~= a.push(x));
    if a.len() == MAX_ACTIONS {
        assert(a.push(x).take(MAX_ACTIONS as int) =~= a);
    }
}

/// Collection of actions emitted by FOP-1.
#[derive(Debug)]
pub struct FopActions {
    inner: heapless::Vec<FopAction, 16>,
}

impl View for FopActions {
    type V = Seq<FopAction>;

    closed spec fn view(&self) -> Seq<FopAction> {
        fop_action_list(self.inner)
    }
}

impl FopActions {
    /// Create a new empty actions collection.
    pub fn new() -> (a: Self)
        ensures
            a@ == Seq::<FopAction>::empty(),
    {
        FopActions { inner: fop_actions_new() }
    }

    fn push(&mut self, action: FopAction)
        requires
            old(self)@.len() <= MAX_ACTIONS,
        ensures
            final(self)@ == cap(old(self)@ + seq![action]),
            final(self)@.len() <= MAX_ACTIONS,
    {
        proof {
            lemma_cap_push(self@, action);
        }
        let _ = fop_actions_push(&mut self.inner, action);
    }

    fn clear(&mut self)
        ensures
            final(self)@ == Seq::<FopAction>::empty(),
    {
        fop_actions_clear(&mut self.inner);
    }

    /// Returns the action at `index`.
    pub fn get(&self, index: usize) -> (a: FopAction)
        requires
            index < self@.len(),
        ensures
            a == self@[index as int],
    {
        fop_actions_get(&self.inner, index)
    }

    /// Returns `true` when some action equals `a`.
    pub fn contains(&self, a: FopAction) -> (b: bool)
        ensures
            b == self@.contains(a),
    {
        let n = fop_actions_len(&self.inner);
        let mut i: usize = 0;
        while i < n
            invariant
                i <= n,
                n == self@.len(),
                forall|j: int| 0 <= j < i ==> self@[j] != a,
            decreases n - i,
        {
            if fop_actions_get(&self.inner, i) == a {
                return true;
            }
            i = i + 1;
        }
        false
    }

    /// Check if empty.
    pub fn is_empty(&self) -> (b: bool)
        ensures
            b == (self@.len() == 0),
    {
        fop_actions_len(&self.inner) == 0
    }

    /// Number of actions.
    pub fn len(&self) -> (n: usize)
        ensures
            n == self@.len(),
            n <= MAX_ACTIONS,
    {
        fop_actions_len(&self.inner)
    }
}

/// Configuration for FOP-1.
#[derive(Debug, Clone)]
pub struct FopConfig {
    /// FOP Sliding Window Width (K), 1..=255.
    pub window_width: u8,
    /// Maximum transmission attempts before alerting.
    pub transmission_limit: u8,
    /// Timeout type: 0 = timer off after each new ACK,
    /// 1 = timer always running.
    pub timeout_type: u8,
}

/// An FDU slot in the sent queue.
#[derive(Debug, Copy, Clone, Eq, PartialEq, Structural)]
pub struct FduSlot {
    /// Whether this slot is occupied.
    pub occupied: bool,
    /// Frame Sequence Number assigned.
    pub seq: u8,
    /// Start offset in the data buffer.
    pub offset: usize,
    /// Length of the FDU data.
    pub len: usize,
    /// Number of times this frame has been transmitted.
    pub transmission_count: u8,
}

/// The abstract state of FOP-1.
pub struct FopModel {
    pub state: FopState,
    pub vs: u8,
    pub nnr: u8,
    pub slots: Seq<FduSlot>,
    pub data: Seq<u8>,
    pub write_pos: usize,
    pub bc_count: u8,
    pub set_vr: u8,
    pub pending_bd: Option<(usize, usize)>,
    pub transmission_limit: u8,
}

/// `(a - b) mod 256`: how far `a` lies after `b` in sequence-number space.
pub open spec fn seq_dist(a: u8, b: u8) -> u8 {
    ((a as int - b as int + 256) % 256) as u8
}

/// Orders sequence numbers by their distance after `nnr`.
pub open spec fn dist_leq(nnr: u8) -> spec_fn(u8, u8) -> bool {
    |a: u8, b: u8| seq_dist(a, nnr) <= seq_dist(b, nnr)
}

/// The sequence numbers of the occupied slots, in slot order.
pub open spec fn occupied_seqs(s: Seq<FduSlot>) -> Seq<u8>
    decreases s.len(),
{
    if s.len() == 0 {
        Seq::empty()
    } else {
        occupied_seqs(s.drop_last()) + if s.last().occupied {
            seq![s.last().seq]
        } else {
            Seq::empty()
        }
    }
}

/// The index of the first free slot at or after `i` (`s.len()` if none).
pub open spec fn first_free(s: Seq<FduSlot>, i: int) -> int
    decreases s.len() - i,
{
    if i >= s.len() || i < 0 {
        s.len() as int
    } else if !s[i].occupied {
        i
    } else {
        first_free(s, i + 1)
    }
}

/// The index of the first occupied slot at or after `i` holding `seq`
/// (`s.len()` if none).
pub open spec fn first_with(s: Seq<FduSlot>, seq: u8, i: int) -> int
    decreases s.len() - i,
{
    if i >= s.len() || i < 0 {
        s.len() as int
    } else if s[i].occupied && s[i].seq == seq {
        i
    } else {
        first_with(s, seq, i + 1)
    }
}

/// One more transmission of the first frame holding `seq`.
pub open spec fn bump_first(s: Seq<FduSlot>, seq: u8) -> Seq<FduSlot> {
    let k = first_with(s, seq, 0);
    if k < s.len() {
        s.update(
            k,
            FduSlot { transmission_count: ((s[k].transmission_count + 1) % 256) as u8, ..s[k] },
        )
    } else {
        s
    }
}

/// One more transmission for each sequence number in `seqs`, in order.
pub open spec fn bump_all(s: Seq<FduSlot>, seqs: Seq<u8>) -> Seq<FduSlot>
    decreases seqs.len(),
{
    if seqs.len() == 0 {
        s
    } else {
        bump_all(bump_first(s, seqs[0]), seqs.drop_first())
    }
}

/// The go-back-N retransmission order: the outstanding sequence numbers
/// sorted by their distance after N(R).
pub open spec fn retransmit_order(s: Seq<FduSlot>, nnr: u8) -> Seq<u8> {
    choose|r: Seq<u8>|
        sorted_by(r, dist_leq(nnr)) && r.to_multiset() == occupied_seqs(s).to_multiset()
}

/// `TransmitAd` for each sequence number.
pub open spec fn transmit_ads(r: Seq<u8>) -> Seq<FopAction> {
    r.map_values(|q: u8| FopAction::TransmitAd { seq: q })
}

/// `TransmitAd` for each sequence number, then `StartTimer` if any.
pub open spec fn retransmit_actions(r: Seq<u8>) -> Seq<FopAction> {
    transmit_ads(r) + if r.len() > 0 {
        seq![FopAction::StartTimer]
    } else {
        Seq::empty()
    }
}

/// A frame is acknowledged by N(R) when it lies 1..127 before N(R).
pub open spec fn acked(slot: FduSlot, nr: u8) -> bool {
    slot.occupied && 0 < seq_dist(nr, slot.seq) < 128
}

/// The sent queue after N(R) acknowledges frames.
pub open spec fn remove_acked(s: Seq<FduSlot>, nr: u8) -> Seq<FduSlot> {
    Seq::new(
        s.len(),
        |i: int|
            if acked(s[i], nr) {
                FduSlot { occupied: false, ..s[i] }
            } else {
                s[i]
            },
    )
}

/// `Acknowledged` for each frame N(R) acknowledges, in slot order.
pub open spec fn ack_actions(s: Seq<FduSlot>, nr: u8) -> Seq<FopAction>
    decreases s.len(),
{
    if s.len() == 0 {
        Seq::empty()
    } else {
        ack_actions(s.drop_last(), nr) + if acked(s.last(), nr) {
            seq![FopAction::Acknowledged { seq: s.last().seq }]
        } else {
            Seq::empty()
        }
    }
}

/// The queue emptied and the buffer rewound.
pub open spec fn purge(m: FopModel) -> FopModel {
    FopModel {
        slots: Seq::new(m.slots.len(), |i: int| FduSlot { occupied: false, ..m.slots[i] }),
        write_pos: 0,
        ..m
    }
}

/// Alert: queue purged, back to Initial.
pub open spec fn alert(m: FopModel) -> (FopModel, Seq<FopAction>) {
    (
        FopModel { state: FopState::Initial, ..purge(m) },
        seq![FopAction::StopTimer, FopAction::Alert],
    )
}

/// Go-back-N: every outstanding frame once more, in order.
pub open spec fn retransmit(m: FopModel) -> (FopModel, Seq<FopAction>) {
    let r = retransmit_order(m.slots, m.nnr);
    (FopModel { slots: bump_all(m.slots, r), ..m }, retransmit_actions(r))
}

/// `data` with `fdu` stored at `off`.
pub open spec fn store(data: Seq<u8>, off: int, fdu: Seq<u8>) -> Seq<u8> {
    data.subrange(0, off) + fdu + data.subrange(off + fdu.len(), data.len() as int)
}

pub open spec fn is_active(st: FopState) -> bool {
    st == FopState::Active || st == FopState::Retransmitting
}

/// FOP-1 after a request to send an AD FDU.
pub open spec fn send_ad(m: FopModel, fdu: Seq<u8>) -> (FopModel, Seq<FopAction>) {
    let idx = first_free(m.slots, 0);
    if !is_active(m.state) || idx >= m.slots.len() || m.write_pos + fdu.len() > m.data.len() {
        (m, seq![FopAction::Reject])
    } else {
        let transmit = m.state == FopState::Active;
        let slot = FduSlot {
            occupied: true,
            seq: m.vs,
            offset: m.write_pos,
            len: fdu.len() as usize,
            transmission_count: if transmit {
                1
            } else {
                0
            },
        };
        (
            FopModel {
                slots: m.slots.update(idx, slot),
                data: store(m.data, m.write_pos as int, fdu),
                write_pos: (m.write_pos + fdu.len()) as usize,
                vs: ((m.vs + 1) % 256) as u8,
                ..m
            },
            if transmit {
                seq![FopAction::TransmitAd { seq: m.vs }, FopAction::StartTimer]
            } else {
                Seq::empty()
            },
        )
    }
}

/// FOP-1 after a request to send a BD FDU.
pub open spec fn send_bd(m: FopModel, fdu: Seq<u8>) -> (FopModel, Seq<FopAction>) {
    if m.write_pos + fdu.len() > m.data.len() {
        (m, seq![FopAction::Reject])
    } else {
        (
            FopModel {
                data: store(m.data, m.write_pos as int, fdu),
                write_pos: (m.write_pos + fdu.len()) as usize,
                pending_bd: Some((m.write_pos, fdu.len() as usize)),
                ..m
            },
            seq![FopAction::TransmitBd],
        )
    }
}

/// FOP-1 after a CLCW arrives.
pub open spec fn on_clcw(m: FopModel, c: Clcw) -> (FopModel, Seq<FopAction>) {
    let nr = c.report_value;
    match m.state {
        FopState::Active | FopState::Retransmitting => {
            if c.lockout {
                alert(m)
            } else {
                let acks = ack_actions(m.slots, nr);
                let m1 = FopModel { slots: remove_acked(m.slots, nr), nnr: nr, ..m };
                let none_left = occupied_seqs(m1.slots).len() == 0;
                if m.state == FopState::Active {
                    if c.retransmit {
                        let (m2, r) = retransmit(m1);
                        (FopModel { state: FopState::Retransmitting, ..m2 }, acks + r)
                    } else if none_left {
                        (m1, acks + seq![FopAction::StopTimer])
                    } else {
                        (m1, acks)
                    }
                } else if !c.retransmit {
                    (
                        FopModel { state: FopState::Active, ..m1 },
                        acks + if none_left {
                            seq![FopAction::StopTimer]
                        } else {
                            Seq::empty()
                        },
                    )
                } else {
                    (m1, acks)
                }
            }
        },
        FopState::InitWithSetVr => {
            if nr == m.set_vr && !c.lockout && !c.retransmit {
                (
                    FopModel { state: FopState::Active, vs: m.set_vr, nnr: nr, ..purge(m) },
                    seq![FopAction::StopTimer, FopAction::Accept],
                )
            } else {
                (m, Seq::empty())
            }
        },
        FopState::InitWithUnlock => {
            if !c.lockout && !c.retransmit {
                (
                    FopModel { state: FopState::Active, vs: nr, nnr: nr, ..purge(m) },
                    seq![FopAction::StopTimer, FopAction::Accept],
                )
            } else {
                (m, Seq::empty())
            }
        },
        _ => (m, Seq::empty()),
    }
}

/// Some outstanding frame has reached the transmission limit.
pub open spec fn limit_reached(m: FopModel) -> bool {
    exists|i: int|
        0 <= i < m.slots.len() && m.slots[i].occupied && #[trigger] m.slots[i].transmission_count
            >= m.transmission_limit
}

/// FOP-1 after timer T1 expires.
pub open spec fn on_timer(m: FopModel) -> (FopModel, Seq<FopAction>) {
    match m.state {
        FopState::Active | FopState::Retransmitting => {
            if limit_reached(m) {
                alert(m)
            } else {
                let (m2, r) = retransmit(m);
                (FopModel { state: FopState::Retransmitting, ..m2 }, r)
            }
        },
        FopState::InitWithSetVr | FopState::InitWithUnlock => {
            let m1 = FopModel { bc_count: (m.bc_count + 1) as u8, ..m };
            if m1.bc_count >= m.transmission_limit {
                alert(m1)
            } else if m.state == FopState::InitWithSetVr {
                (m1, seq![FopAction::TransmitBcSetVr { vr: m.set_vr }, FopAction::StartTimer])
            } else {
                (m1, seq![FopAction::TransmitBcUnlock, FopAction::StartTimer])
            }
        },
        _ => (m, Seq::empty()),
    }
}

/// The FOP-1 state and the actions (before the list capacity applies)
/// after an event, per CCSDS 232.1-B-2 Table 5-1.
pub open spec fn fop_next(m: FopModel, e: FopEvent) -> (FopModel, Seq<FopAction>) {
    let initial = m.state == FopState::Initial;
    let reject = (m, seq![FopAction::Reject]);
    match e {
        FopEvent::SendAd { fdu } => send_ad(m, fdu@),
        FopEvent::SendBd { fdu } => send_bd(m, fdu@),
        FopEvent::ClcwReceived { clcw } => on_clcw(m, clcw),
        FopEvent::TimerExpired => on_timer(m),
        FopEvent::InitAdNoClcw => if initial {
            (FopModel { state: FopState::Active, ..purge(m) }, seq![FopAction::Accept])
        } else {
            reject
        },
        FopEvent::InitAdWithClcw => if initial {
            (FopModel { state: FopState::InitNoBC, ..purge(m) }, seq![FopAction::StartTimer])
        } else {
            reject
        },
        FopEvent::InitAdSetVr { vr } => if initial {
            (
                FopModel { state: FopState::InitWithSetVr, set_vr: vr, bc_count: 1, ..purge(m) },
                seq![FopAction::TransmitBcSetVr { vr }, FopAction::StartTimer],
            )
        } else {
            reject
        },
        FopEvent::InitAdUnlock => if initial {
            (
                FopModel { state: FopState::InitWithUnlock, bc_count: 1, ..purge(m) },
                seq![FopAction::TransmitBcUnlock, FopAction::StartTimer],
            )
        } else {
            reject
        },
        FopEvent::Terminate => (
            FopModel { state: FopState::Initial, ..purge(m) },
            seq![FopAction::StopTimer, FopAction::Terminated],
        ),
        FopEvent::Resume => if initial {
            (FopModel { state: FopState::Active, ..m }, seq![FopAction::Accept])
        } else {
            reject
        },
    }
}

/// The sent queue has `win` slots over a `buf`-byte FDU buffer, every
/// stored FDU lies inside the buffer, the queue is empty outside the two
/// active states, and the BC transmission count can still be incremented
/// during initialisation.
pub open spec fn fop_wf(m: FopModel, win: nat, buf: nat) -> bool {
    &&& m.slots.len() == win
    &&& m.data.len() == buf
    &&& m.write_pos <= buf
    &&& forall|i: int|
        0 <= i < m.slots.len() && #[trigger] m.slots[i].occupied ==> m.slots[i].offset
            + m.slots[i].len <= buf
    &&& m.pending_bd matches Some((o, l)) ==> o + l <= buf
    &&& !is_active(m.state) ==> occupied_seqs(m.slots).len() == 0
    &&& (m.state == FopState::InitWithSetVr || m.state == FopState::InitWithUnlock)
        ==> m.bc_count < 255
}

/// FOP-1 state machine.
///
/// Implements the sender side of COP-1 go-back-N ARQ.
/// Completely synchronous — no I/O, no async.
///
/// # Type Parameters
///
/// * `WIN` — Maximum sent queue depth (sliding window).
/// * `BUF` — Total FDU buffer size in bytes.
pub struct FopMachine<const WIN: usize, const BUF: usize> {
    state: FopState,
    config: FopConfig,
    vs: u8,
    nnr: u8,
    sent_queue: Vec<FduSlot>,
    data: Vec<u8>,
    write_pos: usize,
    bc_transmission_count: u8,
    set_vr_value: u8,
    pending_bd: Option<(usize, usize)>,
}

impl<const WIN: usize, const BUF: usize> View for FopMachine<WIN, BUF> {
    type V = FopModel;

    closed spec fn view(&self) -> FopModel {
        FopModel {
            state: self.state,
            vs: self.vs,
            nnr: self.nnr,
            slots: self.sent_queue@,
            data: self.data@,
            write_pos: self.write_pos,
            bc_count: self.bc_transmission_count,
            set_vr: self.set_vr_value,
            pending_bd: self.pending_bd,
            transmission_limit: self.config.transmission_limit,
        }
    }
}

impl<const WIN: usize, const BUF: usize> FopMachine<WIN, BUF> {
    /// The machine's internal invariant.
    pub open spec fn wf(&self) -> bool {
        fop_wf(self@, WIN as nat, BUF as nat)
    }

    /// The configuration the machine was created with.
    pub closed spec fn spec_config(&self) -> FopConfig {
        self.config
    }

    /// Create a new FOP-1 state machine in the Initial (S6) state.
    pub fn new(config: FopConfig) -> (f: Self)
        ensures
            f.wf(),
            f.spec_config() == config,
            f@.state == FopState::Initial,
            f@.vs == 0,
            f@.nnr == 0,
            f@.write_pos == 0,
            f@.pending_bd is None,
            f@.transmission_limit == config.transmission_limit,
            occupied_seqs(f@.slots).len() == 0,
    {
        let mut sent_queue: Vec<FduSlot> = Vec::new();
        let mut i: usize = 0;
        while i < WIN
            invariant
                i <= WIN,
                sent_queue@.len() == i,
                forall|j: int| 0 <= j < i ==> !(#[trigger] sent_queue@[j]).occupied,
            decreases WIN - i,
        {
            sent_queue.push(
                FduSlot { occupied: false, seq: 0, offset: 0, len: 0, transmission_count: 0 },
            );
            i = i + 1;
        }
        let mut data: Vec<u8> = Vec::new();
        let mut k: usize = 0;
        while k < BUF
            invariant
                k <= BUF,
                data@.len() == k,
            decreases BUF - k,
        {
            data.push(0);
            k = k + 1;
        }
        proof {
            lemma_no_occupied(sent_queue@);
        }
        FopMachine {
            state: FopState::Initial,
            config,
            vs: 0,
            nnr: 0,
            sent_queue,
            data,
            write_pos: 0,
            bc_transmission_count: 0,
            set_vr_value: 0,
            pending_bd: None,
        }
    }

    /// Current FOP-1 state.
    pub fn state(&self) -> (s: FopState)
        ensures
            s == self@.state,
    {
        self.state
    }

    /// Current V(S).
    pub fn vs(&self) -> (v: u8)
        ensures
            v == self@.vs,
    {
        self.vs
    }

    /// Get FDU payload for a given sequence number: the data of the first
    /// outstanding frame that carries it.
    pub fn get_fdu(&self, seq: u8) -> (r: Option<&[u8]>)
        requires
            self.wf(),
        ensures
            ({
                let k = first_with(self@.slots, seq, 0);
                match r {
                    Some(d) => k < self@.slots.len() && d@ == self@.data.subrange(
                        self@.slots[k].offset as int,
                        self@.slots[k].offset + self@.slots[k].len,
                    ),
                    None => k >= self@.slots.len(),
                }
            }),
    {
        let k = self.find_slot_with(seq);
        proof {
            lemma_first_with(self@.slots, seq, 0);
        }
        if k < self.sent_queue.len() {
            let off = self.sent_queue[k].offset;
            let len = self.sent_queue[k].len;
            Some(vstd::slice::slice_subrange(self.data.as_slice(), off, off + len))
        } else {
            None
        }
    }

    /// Get the pending BD FDU payload (if any).
    pub fn get_bd_fdu(&self) -> (r: Option<&[u8]>)
        requires
            self.wf(),
        ensures
            match self@.pending_bd {
                Some((o, l)) => r matches Some(d) && d@ == self@.data.subrange(o as int, o + l),
                None => r is None,
            },
    {
        match self.pending_bd {
            Some((off, len)) => Some(
                vstd::slice::slice_subrange(self.data.as_slice(), off, off + len),
            ),
            None => None,
        }
    }

    /// Number of frames in the sent queue.
    pub fn sent_count(&self) -> (n: usize)
        ensures
            n == occupied_seqs(self@.slots).len(),
    {
        let mut n: usize = 0;
        let mut i: usize = 0;
        while i < self.sent_queue.len()
            invariant
                i <= self.sent_queue@.len(),
                n == occupied_seqs(self.sent_queue@.subrange(0, i as int)).len(),
                n <= i,
            decreases self.sent_queue@.len() - i,
        {
            proof {
                assert(self.sent_queue@.subrange(0, i + 1).drop_last() =~= self.sent_queue@.subrange(
                    0,
                    i as int,
                ));
            }
            if self.sent_queue[i].occupied {
                n = n + 1;
            }
            i = i + 1;
        }
        proof {
            assert(self.sent_queue@.subrange(0, i as int) =~= self.sent_queue@);
        }
        n
    }

    /// Process an event: the machine moves as Table 5-1 prescribes and
    /// `actions` is replaced by the actions of the event (at most
    /// [`MAX_ACTIONS`]; further ones are dropped).
    pub fn handle(&mut self, event: FopEvent<'_>, actions: &mut FopActions)
        requires
            old(self).wf(),
        ensures
            final(self).wf(),
            final(self)@ == fop_next(old(self)@, event).0,
            final(actions)@ == cap(fop_next(old(self)@, event).1),
    {
        actions.clear();
        proof {
            assert(Seq::<FopAction>::empty() + fop_next(self@, event).1 =~= fop_next(
                self@,
                event,
            ).1);
        }
        match event {
            FopEvent::SendAd { fdu } => {
                self.handle_send_ad(fdu, actions);
            },
            FopEvent::SendBd { fdu } => {
                self.handle_send_bd(fdu, actions);
            },
            FopEvent::ClcwReceived { clcw } => {
                self.handle_clcw(clcw, actions);
            },
            FopEvent::TimerExpired => {
                self.handle_timer_expired(actions);
            },
            FopEvent::InitAdNoClcw => {
                if self.state == FopState::Initial {
                    self.purge_sent_queue();
                    self.state = FopState::Active;
                    actions.push(FopAction::Accept);
                } else {
                    actions.push(FopAction::Reject);
                }
            },
            FopEvent::InitAdWithClcw => {
                if self.state == FopState::Initial {
                    self.purge_sent_queue();
                    self.state = FopState::InitNoBC;
                    actions.push(FopAction::StartTimer);
                } else {
                    actions.push(FopAction::Reject);
                }
            },
            FopEvent::InitAdSetVr { vr } => {
                self.handle_init_set_vr(vr, actions);
            },
            FopEvent::InitAdUnlock => {
                if self.state == FopState::Initial {
                    self.bc_transmission_count = 1;
                    self.purge_sent_queue();
                    self.state = FopState::InitWithUnlock;
                    actions.push(FopAction::TransmitBcUnlock);
                    actions.push(FopAction::StartTimer);
                    proof {
                        assert(seq![FopAction::TransmitBcUnlock] + seq![FopAction::StartTimer]
                            =~= seq![FopAction::TransmitBcUnlock, FopAction::StartTimer]);
                    }
                } else {
                    actions.push(FopAction::Reject);
                }
            },
            FopEvent::Terminate => {
                actions.push(FopAction::StopTimer);
                self.purge_sent_queue();
                self.state = FopState::Initial;
                actions.push(FopAction::Terminated);
                proof {
                    assert(seq![FopAction::StopTimer] + seq![FopAction::Terminated] =~= seq![
                        FopAction::StopTimer,
                        FopAction::Terminated,
                    ]);
                }
            },
            FopEvent::Resume => {
                if self.state == FopState::Initial {
                    self.state = FopState::Active;
                    actions.push(FopAction::Accept);
                } else {
                    actions.push(FopAction::Reject);
                }
            },
        }
    }

    /// Initiate AD service by sending BC Set V(R).
    fn handle_init_set_vr(&mut self, vr: u8, actions: &mut FopActions)
        requires
            old(self).wf(),
            old(actions)@.len() == 0,
        ensures
            final(self).wf(),
            final(self)@ == fop_next(old(self)@, FopEvent::InitAdSetVr { vr }).0,
            final(actions)@ == cap(fop_next(old(self)@, FopEvent::InitAdSetVr { vr }).1),
    {
        if self.state == FopState::Initial {
            self.set_vr_value = vr;
            self.bc_transmission_count = 1;
            self.purge_sent_queue();
            self.state = FopState::InitWithSetVr;
            actions.push(FopAction::TransmitBcSetVr { vr });
            actions.push(FopAction::StartTimer);
            proof {
                assert(seq![FopAction::TransmitBcSetVr { vr }] + seq![FopAction::StartTimer] =~= seq![
                    FopAction::TransmitBcSetVr { vr },
                    FopAction::StartTimer,
                ]);
            }
        } else {
            actions.push(FopAction::Reject);
        }
    }

    /// Handle SendAd: queue an AD frame for transmission.
    fn handle_send_ad(&mut self, fdu: &[u8], actions: &mut FopActions)
        requires
            old(self).wf(),
            old(actions)@.len() == 0,
        ensures
            final(self).wf(),
            final(self)@ == send_ad(old(self)@, fdu@).0,
            final(actions)@ == cap(send_ad(old(self)@, fdu@).1),
    {
        match self.state {
            FopState::Active | FopState::Retransmitting => {
                proof {
                    lemma_first_free(self@.slots, 0);
                }
                let slot_idx = match self.find_empty_slot() {
                    Some(i) => i,
                    None => {
                        actions.push(FopAction::Reject);
                        return ;
                    },
                };
                let offset = match self.buffer_fdu(fdu) {
                    Some(o) => o,
                    None => {
                        actions.push(FopAction::Reject);
                        return ;
                    },
                };
                let seq = self.vs;
                let transmit = self.state == FopState::Active;
                let slot = FduSlot {
                    occupied: true,
                    seq,
                    offset,
                    len: fdu.len(),
                    transmission_count: if transmit {
                        1
                    } else {
                        0
                    },
                };
                let ghost before = self.sent_queue@;
                self.sent_queue.set(slot_idx, slot);
                proof {
                    lemma_occupied_update(before, slot_idx as int, slot);
                }
                self.vs = self.vs.wrapping_add(1);
                if transmit {
                    actions.push(FopAction::TransmitAd { seq });
                    actions.push(FopAction::StartTimer);
                    proof {
                        assert(seq![FopAction::TransmitAd { seq }] + seq![FopAction::StartTimer]
                            =~= seq![FopAction::TransmitAd { seq }, FopAction::StartTimer]);
                    }
                }
            },
            _ => {
                actions.push(FopAction::Reject);
            },
        }
    }

    /// Handle SendBd: transmit a BD frame (bypass, no sequencing).
    fn handle_send_bd(&mut self, fdu: &[u8], actions: &mut FopActions)
        requires
            old(self).wf(),
            old(actions)@.len() == 0,
        ensures
            final(self).wf(),
            final(self)@ == send_bd(old(self)@, fdu@).0,
            final(actions)@ == cap(send_bd(old(self)@, fdu@).1),
    {
        let offset = match self.buffer_fdu(fdu) {
            Some(o) => o,
            None => {
                actions.push(FopAction::Reject);
                return ;
            },
        };
        self.pending_bd = Some((offset, fdu.len()));
        actions.push(FopAction::TransmitBd);
    }

    /// Handle a CLCW received from the return link.
    fn handle_clcw(&mut self, clcw: Clcw, actions: &mut FopActions)
        requires
            old(self).wf(),
            old(actions)@.len() == 0,
        ensures
            final(self).wf(),
            final(self)@ == on_clcw(old(self)@, clcw).0,
            final(actions)@ == cap(on_clcw(old(self)@, clcw).1),
    {
        let nr = clcw.report_value();
        match self.state {
            FopState::Active => {
                if clcw.lockout() {
                    self.alert(actions);
                    return ;
                }
                let ghost m0 = self@;
                self.remove_acknowledged(nr, actions);
                self.nnr = nr;
                if clcw.retransmit() {
                    self.initiate_retransmission(actions);
                    self.state = FopState::Retransmitting;
                    proof {
                        lemma_cap_append(ack_actions(m0.slots, nr), retransmit(
                            FopModel { slots: remove_acked(m0.slots, nr), nnr: nr, ..m0 },
                        ).1);
                    }
                } else if self.sent_count() == 0 {
                    proof {
                        lemma_cap_append(ack_actions(m0.slots, nr), seq![FopAction::StopTimer]);
                    }
                    actions.push(FopAction::StopTimer);
                }
            },
            FopState::Retransmitting => {
                if clcw.lockout() {
                    self.alert(actions);
                    return ;
                }
                let ghost m0 = self@;
                self.remove_acknowledged(nr, actions);
                self.nnr = nr;
                if !clcw.retransmit() {
                    self.state = FopState::Active;
                    if self.sent_count() == 0 {
                        proof {
                            lemma_cap_append(
                                ack_actions(m0.slots, nr),
                                seq![FopAction::StopTimer],
                            );
                        }
                        actions.push(FopAction::StopTimer);
                    } else {
                        proof {
                            assert(ack_actions(m0.slots, nr) + Seq::<FopAction>::empty()
                                =~= ack_actions(m0.slots, nr));
                        }
                    }
                }
            },
            FopState::InitWithSetVr => {
                if nr == self.set_vr_value && !clcw.lockout() && !clcw.retransmit() {
                    self.vs = self.set_vr_value;
                    self.nnr = nr;
                    self.purge_sent_queue();
                    self.state = FopState::Active;
                    actions.push(FopAction::StopTimer);
                    actions.push(FopAction::Accept);
                    proof {
                        assert(seq![FopAction::StopTimer] + seq![FopAction::Accept] =~= seq![
                            FopAction::StopTimer,
                            FopAction::Accept,
                        ]);
                    }
                }
            },
            FopState::InitWithUnlock => {
                if !clcw.lockout() && !clcw.retransmit() {
                    self.nnr = nr;
                    self.vs = nr;
                    self.purge_sent_queue();
                    self.state = FopState::Active;
                    actions.push(FopAction::StopTimer);
                    actions.push(FopAction::Accept);
                    proof {
                        assert(seq![FopAction::StopTimer] + seq![FopAction::Accept] =~= seq![
                            FopAction::StopTimer,
                            FopAction::Accept,
                        ]);
                    }
                }
            },
            FopState::InitNoBC | FopState::Initial => {},
        }
    }

    /// Handle T1 timer expiration.
    fn handle_timer_expired(&mut self, actions: &mut FopActions)
        requires
            old(self).wf(),
            old(actions)@.len() == 0,
        ensures
            final(self).wf(),
            final(self)@ == on_timer(old(self)@).0,
            final(actions)@ == cap(on_timer(old(self)@).1),
    {
        match self.state {
            FopState::Active | FopState::Retransmitting => {
                let limit_exceeded = self.any_at_limit();
                if limit_exceeded {
                    self.alert(actions);
                } else {
                    self.initiate_retransmission(actions);
                    self.state = FopState::Retransmitting;
                    proof {
                        assert(Seq::<FopAction>::empty() + retransmit(old(self)@).1 =~= retransmit(
                            old(self)@,
                        ).1);
                    }
                }
            },
            FopState::InitWithSetVr => {
                self.bc_transmission_count = self.bc_transmission_count + 1;
                if self.bc_transmission_count >= self.config.transmission_limit {
                    self.alert(actions);
                } else {
                    actions.push(FopAction::TransmitBcSetVr { vr: self.set_vr_value });
                    actions.push(FopAction::StartTimer);
                    proof {
                        assert(seq![FopAction::TransmitBcSetVr { vr: self.set_vr_value }]
                            + seq![FopAction::StartTimer] =~= seq![
                            FopAction::TransmitBcSetVr { vr: self.set_vr_value },
                            FopAction::StartTimer,
                        ]);
                    }
                }
            },
            FopState::InitWithUnlock => {
                self.bc_transmission_count = self.bc_transmission_count + 1;
                if self.bc_transmission_count >= self.config.transmission_limit {
                    self.alert(actions);
                } else {
                    actions.push(FopAction::TransmitBcUnlock);
                    actions.push(FopAction::StartTimer);
                    proof {
                        assert(seq![FopAction::TransmitBcUnlock] + seq![FopAction::StartTimer]
                            =~= seq![FopAction::TransmitBcUnlock, FopAction::StartTimer]);
                    }
                }
            },
            FopState::InitNoBC | FopState::Initial => {},
        }
    }

    /// Whether some outstanding frame has reached the transmission limit.
    fn any_at_limit(&self) -> (b: bool)
        ensures
            b == limit_reached(self@),
    {
        let mut i: usize = 0;
        while i < self.sent_queue.len()
            invariant
                i <= self.sent_queue@.len(),
                forall|j: int|
                    0 <= j < i ==> !(self.sent_queue@[j].occupied && #[trigger] self.sent_queue@[
                        j
                    ].transmission_count >= self.config.transmission_limit),
            decreases self.sent_queue@.len() - i,
        {
            if self.sent_queue[i].occupied && self.sent_queue[i].transmission_count
                >= self.config.transmission_limit {
                proof {
                    assert(self@.slots[i as int].occupied && self@.slots[i as int].transmission_count
                        >= self@.transmission_limit);
                }
                return true;
            }
            i = i + 1;
        }
        false
    }

    /// Remove all frames acknowledged by N(R).
    fn remove_acknowledged(&mut self, nr: u8, actions: &mut FopActions)
        requires
            old(self).wf(),
            old(actions)@.len() == 0,
            is_active(old(self)@.state),
        ensures
            final(self).wf(),
            final(self)@ == (FopModel { slots: remove_acked(old(self)@.slots, nr), ..old(self)@ }),
            final(actions)@ == cap(ack_actions(old(self)@.slots, nr)),
    {
        let ghost orig = self.sent_queue@;
        let mut i: usize = 0;
        proof {
            assert(orig.subrange(0, 0) =~= Seq::<FduSlot>::empty());
        }
        while i < self.sent_queue.len()
            invariant
                i <= self.sent_queue@.len(),
                self.sent_queue@.len() == orig.len(),
                orig == old(self)@.slots,
                self@ == (FopModel { slots: self.sent_queue@, ..old(self)@ }),
                forall|j: int|
                    0 <= j < i ==> #[trigger] self.sent_queue@[j] == remove_acked(orig, nr)[j],
                forall|j: int| i <= j < orig.len() ==> #[trigger] self.sent_queue@[j] == orig[j],
                actions@ == cap(ack_actions(orig.subrange(0, i as int), nr)),
                actions@.len() <= MAX_ACTIONS,
            decreases orig.len() - i,
        {
            let slot = self.sent_queue[i];
            proof {
                assert(orig.subrange(0, i + 1).drop_last() =~= orig.subrange(0, i as int));
                assert(orig.subrange(0, i + 1).last() == orig[i as int]);
            }
            if slot.occupied {
                let dist = nr.wrapping_sub(slot.seq);
                if dist > 0 && dist < 128 {
                    self.sent_queue.set(i, FduSlot { occupied: false, ..slot });
                    proof {
                        lemma_cap_append(
                            ack_actions(orig.subrange(0, i as int), nr),
                            seq![FopAction::Acknowledged { seq: slot.seq }],
                        );
                    }
                    actions.push(FopAction::Acknowledged { seq: slot.seq });
                } else {
                    proof {
                        assert(ack_actions(orig.subrange(0, i as int), nr) + Seq::<FopAction>::empty()
                            =~= ack_actions(orig.subrange(0, i as int), nr));
                    }
                }
            } else {
                proof {
                    assert(ack_actions(orig.subrange(0, i as int), nr) + Seq::<FopAction>::empty()
                        =~= ack_actions(orig.subrange(0, i as int), nr));
                }
            }
            i = i + 1;
        }
        proof {
            assert(orig.subrange(0, i as int) =~= orig);
            assert(self.sent_queue@ =~= remove_acked(orig, nr));
            lemma_remove_acked_fewer(orig, nr);
        }
    }

    /// Go-back-N: retransmit all unacknowledged frames in order.
    fn initiate_retransmission(&mut self, actions: &mut FopActions)
        requires
            old(self).wf(),
            old(actions)@.len() <= MAX_ACTIONS,
        ensures
            final(self).wf(),
            final(self)@ == retransmit(old(self)@).0,
            final(actions)@ == cap(old(actions)@ + retransmit(old(self)@).1),
    {
        let ghost m0 = self@;
        // Collect the outstanding sequence numbers in slot order.
        let mut seqs: Vec<u8> = Vec::new();
        let mut i: usize = 0;
        while i < self.sent_queue.len()
            invariant
                i <= self.sent_queue@.len(),
                self@ == m0,
                seqs@ == occupied_seqs(self.sent_queue@.subrange(0, i as int)),
            decreases self.sent_queue@.len() - i,
        {
            proof {
                assert(self.sent_queue@.subrange(0, i + 1).drop_last() =~= self.sent_queue@.subrange(
                    0,
                    i as int,
                ));
            }
            if self.sent_queue[i].occupied {
                seqs.push(self.sent_queue[i].seq);
            }
            i = i + 1;
        }
        proof {
            assert(self.sent_queue@.subrange(0, i as int) =~= self.sent_queue@);
        }
        // Sort by distance from NN(R) (insertion sort; WIN is small).
        let nnr = self.nnr;
        sort_by_distance(&mut seqs, nnr);
        proof {
            lemma_retransmit_order_is(m0.slots, nnr, seqs@);
        }
        let ghost order = seqs@;
        let ghost base = actions@;
        let mut k: usize = 0;
        proof {
            assert(transmit_ads(order.subrange(0, 0)) =~= Seq::<FopAction>::empty());
            assert(base + Seq::<FopAction>::empty() =~= base);
        }
        while k < seqs.len()
            invariant
                k <= seqs@.len(),
                seqs@ == order,
                order == retransmit_order(m0.slots, m0.nnr),
                self@ == (FopModel { slots: bump_all(m0.slots, order.subrange(0, k as int)), ..m0 }),
                self.wf(),
                fop_wf(m0, WIN as nat, BUF as nat),
                actions@ == cap(base + transmit_ads(order.subrange(0, k as int))),
                actions@.len() <= MAX_ACTIONS,
            decreases seqs@.len() - k,
        {
            let seq = seqs[k];
            let ghost before = self.sent_queue@;
            let j = self.find_slot_with(seq);
            proof {
                lemma_first_with(self@.slots, seq, 0);
            }
            if j < self.sent_queue.len() {
                let mut slot = self.sent_queue[j];
                slot.transmission_count = slot.transmission_count.wrapping_add(1);
                self.sent_queue.set(j, slot);
                proof {
                    lemma_occupied_bump(before, j as int, slot);
                }
            }
            proof {
                assert(self.sent_queue@ =~= bump_first(before, seq));
                lemma_bump_all_snoc(m0.slots, order.subrange(0, k as int), seq);
                assert(order.subrange(0, k + 1) =~= order.subrange(0, k as int).push(seq));
                assert(transmit_ads(order.subrange(0, k + 1)) =~= transmit_ads(
                    order.subrange(0, k as int),
                ) + seq![FopAction::TransmitAd { seq }]);
                lemma_cap_append(
                    base + transmit_ads(order.subrange(0, k as int)),
                    seq![FopAction::TransmitAd { seq }],
                );
                assert(base + transmit_ads(order.subrange(0, k as int)) + seq![
                    FopAction::TransmitAd { seq },
                ] =~= base + transmit_ads(order.subrange(0, k + 1)));
            }
            actions.push(FopAction::TransmitAd { seq });
            k = k + 1;
        }
        proof {
            assert(order.subrange(0, k as int) =~= order);
        }
        if seqs.len() > 0 {
            proof {
                lemma_cap_append(base + transmit_ads(order), seq![FopAction::StartTimer]);
                assert(base + transmit_ads(order) + seq![FopAction::StartTimer] =~= base
                    + retransmit_actions(order));
            }
            actions.push(FopAction::StartTimer);
        } else {
            proof {
                assert(base + transmit_ads(order) =~= base + retransmit_actions(order));
            }
        }
    }

    /// Enter alert state: stop timer, purge queue, go to Initial.
    fn alert(&mut self, actions: &mut FopActions)
        requires
            fop_wf(FopModel { state: FopState::Active, ..old(self)@ }, WIN as nat, BUF as nat),
            old(actions)@.len() == 0,
        ensures
            final(self).wf(),
            final(self)@ == alert(old(self)@).0,
            final(actions)@ == alert(old(self)@).1,
    {
        actions.push(FopAction::StopTimer);
        self.purge_sent_queue();
        self.state = FopState::Initial;
        actions.push(FopAction::Alert);
        proof {
            assert(seq![FopAction::StopTimer] + seq![FopAction::Alert] =~= seq![
                FopAction::StopTimer,
                FopAction::Alert,
            ]);
        }
    }

    /// Clear the sent queue and reset write position.
    pub fn purge_sent_queue(&mut self)
        requires
            fop_wf(FopModel { state: FopState::Active, ..old(self)@ }, WIN as nat, BUF as nat),
        ensures
            final(self)@ == purge(old(self)@),
            fop_wf(
                FopModel { state: FopState::Initial, ..final(self)@ },
                WIN as nat,
                BUF as nat,
            ),
            final(self)@.data.len() == BUF,
            final(self)@.slots.len() == WIN,
            occupied_seqs(final(self)@.slots).len() == 0,
    {
        let ghost orig = self.sent_queue@;
        let mut i: usize = 0;
        while i < self.sent_queue.len()
            invariant
                i <= self.sent_queue@.len(),
                self.sent_queue@.len() == orig.len(),
                orig == old(self)@.slots,
                self@ == (FopModel { slots: self.sent_queue@, ..old(self)@ }),
                forall|j: int|
                    0 <= j < i ==> #[trigger] self.sent_queue@[j] == (FduSlot {
                        occupied: false,
                        ..orig[j]
                    }),
                forall|j: int| i <= j < orig.len() ==> #[trigger] self.sent_queue@[j] == orig[j],
            decreases orig.len() - i,
        {
            let slot = self.sent_queue[i];
            self.sent_queue.set(i, FduSlot { occupied: false, ..slot });
            i = i + 1;
        }
        self.write_pos = 0;
        proof {
            assert(self.sent_queue@ =~= purge(old(self)@).slots);
            lemma_no_occupied(self.sent_queue@);
        }
    }

    /// Find an empty slot in the sent queue: the first one.
    pub fn find_empty_slot(&self) -> (r: Option<usize>)
        ensures
            match r {
                Some(i) => i == first_free(self@.slots, 0) && i < self@.slots.len(),
                None => first_free(self@.slots, 0) >= self@.slots.len(),
            },
    {
        let mut i: usize = 0;
        while i < self.sent_queue.len()
            invariant
                i <= self.sent_queue@.len(),
                first_free(self@.slots, 0) == first_free(self@.slots, i as int),
            decreases self.sent_queue@.len() - i,
        {
            if !self.sent_queue[i].occupied {
                proof {
                    lemma_first_free(self@.slots, 0);
                }
                return Some(i);
            }
            i = i + 1;
        }
        proof {
            lemma_first_free(self@.slots, 0);
        }
        None
    }

    /// The index of the first outstanding frame carrying `seq`.
    fn find_slot_with(&self, seq: u8) -> (k: usize)
        ensures
            k == first_with(self@.slots, seq, 0),
    {
        let mut i: usize = 0;
        while i < self.sent_queue.len()
            invariant
                i <= self.sent_queue@.len(),
                first_with(self@.slots, seq, 0) == first_with(self@.slots, seq, i as int),
            decreases self.sent_queue@.len() - i,
        {
            if self.sent_queue[i].occupied && self.sent_queue[i].seq == seq {
                return i;
            }
            i = i + 1;
        }
        proof {
            lemma_first_with(self@.slots, seq, 0);
        }
        i
    }

    /// Buffer an FDU, returning the offset into the data buffer.
    pub fn buffer_fdu(&mut self, fdu: &[u8]) -> (r: Option<usize>)
        requires
            old(self).wf(),
        ensures
            final(self).wf(),
            old(self)@.write_pos + fdu@.len() > BUF ==> r is None && final(self)@ == old(self)@,
            old(self)@.write_pos + fdu@.len() <= BUF ==> r == Some(old(self)@.write_pos)
                && final(self)@ == (FopModel {
                data: store(old(self)@.data, old(self)@.write_pos as int, fdu@),
                write_pos: (old(self)@.write_pos + fdu@.len()) as usize,
                ..old(self)@
            }),
    {
        if fdu.len() > BUF - self.write_pos {
            return None;
        }
        let offset = self.write_pos;
        let ghost orig = self.data@;
        let mut i: usize = 0;
        while i < fdu.len()
            invariant
                i <= fdu@.len(),
                offset + fdu@.len() <= BUF,
                self.data@.len() == BUF,
                self.data@.len() == orig.len(),
                self@ == (FopModel { data: self.data@, ..old(self)@ }),
                forall|j: int|
                    0 <= j < orig.len() && !(offset <= j < offset + i) ==> #[trigger] self.data@[j]
                        == orig[j],
                forall|j: int| offset <= j < offset + i ==> #[trigger] self.data@[j] == fdu@[j - offset],
            decreases fdu@.len() - i,
        {
            self.data.set(offset + i, fdu[i]);
            i = i + 1;
        }
        self.write_pos = offset + fdu.len();
        proof {
            assert(self.data@ =~= store(orig, offset as int, fdu@));
        }
        Some(offset)
    }
}

/// Sorts `v` by distance after `nnr` (stable insertion sort, by
/// adjacent exchanges).
fn sort_by_distance(v: &mut Vec<u8>, nnr: u8)
    ensures
        sorted_by(final(v)@, dist_leq(nnr)),
        final(v)@.to_multiset() == old(v)@.to_multiset(),
{
    let ghost orig = v@;
    if v.len() == 0 {
        assert(sorted_by(v@, dist_leq(nnr)));
        return ;
    }
    let mut i: usize = 1;
    while i < v.len()
        invariant
            1 <= i <= v@.len(),
            v@.len() == orig.len(),
            v@.to_multiset() == orig.to_multiset(),
            forall|a: int, b: int|
                0 <= a < b < i ==> seq_dist(#[trigger] v@[a], nnr) <= seq_dist(#[trigger] v@[b], nnr),
        decreases v@.len() - i,
    {
        let mut j: usize = i;
        while j > 0 && v[j - 1].wrapping_sub(nnr) > v[j].wrapping_sub(nnr)
            invariant
                0 <= j <= i < v@.len(),
                v@.len() == orig.len(),
                v@.to_multiset() == orig.to_multiset(),
                forall|a: int, b: int|
                    0 <= a < b <= i && a != j && b != j ==> seq_dist(#[trigger] v@[a], nnr)
                        <= seq_dist(#[trigger] v@[b], nnr),
                forall|b: int|
                    j < b <= i ==> seq_dist(v@[j as int], nnr) < seq_dist(#[trigger] v@[b], nnr),
            decreases j,
        {
            let a = v[j - 1];
            let b = v[j];
            let ghost before = v@;
            v.set(j - 1, b);
            v.set(j, a);
            proof {
                assert(v@ =~= before.update(j - 1, before[j as int]).update(
                    j as int,
                    before[j - 1],
                ));
                lemma_swap_adjacent_multiset(before, j as int);
            }
            j = j - 1;
        }
        proof {
            assert forall|a: int, b: int| 0 <= a < b < i + 1 implies seq_dist(#[trigger] v@[a], nnr)
                <= seq_dist(#[trigger] v@[b], nnr) by {
                if b == j && a < j - 1 {
                    assert(seq_dist(v@[a], nnr) <= seq_dist(v@[j - 1], nnr));
                }
            }
        }
        i = i + 1;
    }
    assert(sorted_by(v@, dist_leq(nnr)));
}

/// `dist_leq(nnr)` totally orders sequence numbers.
pub proof fn lemma_dist_leq_total(nnr: u8)
    ensures
        total_ordering(dist_leq(nnr)),
{
}

/// The sorted outstanding sequence numbers are the retransmission order.
proof fn lemma_retransmit_order_is(s: Seq<FduSlot>, nnr: u8, r: Seq<u8>)
    requires
        sorted_by(r, dist_leq(nnr)),
        r.to_multiset() == occupied_seqs(s).to_multiset(),
    ensures
        r == retransmit_order(s, nnr),
{
    let c = retransmit_order(s, nnr);
    assert(sorted_by(c, dist_leq(nnr)) && c.to_multiset() == occupied_seqs(s).to_multiset());
    lemma_dist_leq_total(nnr);
    vstd::seq_lib::lemma_sorted_unique(r, c, dist_leq(nnr));
}

proof fn lemma_no_occupied(s: Seq<FduSlot>)
    requires
        forall|j: int| 0 <= j < s.len() ==> !(#[trigger] s[j]).occupied,
    ensures
        occupied_seqs(s).len() == 0,
    decreases s.len(),
{
    if s.len() > 0 {
        lemma_no_occupied(s.drop_last());
    }
}

proof fn lemma_occupied_len_bound(s: Seq<FduSlot>)
    ensures
        occupied_seqs(s).len() <= s.len(),
    decreases s.len(),
{
    if s.len() > 0 {
        lemma_occupied_len_bound(s.drop_last());
    }
}

/// Changing one slot changes the occupied sequence numbers only at that slot.
proof fn lemma_occupied_update(s: Seq<FduSlot>, k: int, x: FduSlot)
    requires
        0 <= k < s.len(),
        !s[k].occupied,
    ensures
        occupied_seqs(s.update(k, x)).len() == occupied_seqs(s).len() + if x.occupied {
            1int
        } else {
            0
        },
    decreases s.len(),
{
    if k < s.len() - 1 {
        assert(s.update(k, x).drop_last() =~= s.drop_last().update(k, x));
        lemma_occupied_update(s.drop_last(), k, x);
    } else {
        assert(s.update(k, x).drop_last() =~= s.drop_last());
    }
}

/// Changing the count of an occupied slot keeps the occupied sequence numbers.
proof fn lemma_occupied_bump(s: Seq<FduSlot>, k: int, x: FduSlot)
    requires
        0 <= k < s.len(),
        x.occupied == s[k].occupied,
        x.seq == s[k].seq,
    ensures
        occupied_seqs(s.update(k, x)) == occupied_seqs(s),
    decreases s.len(),
{
    if k < s.len() - 1 {
        assert(s.update(k, x).drop_last() =~= s.drop_last().update(k, x));
        lemma_occupied_bump(s.drop_last(), k, x);
    } else {
        assert(s.update(k, x).drop_last() =~= s.drop_last());
    }
}

proof fn lemma_remove_acked_fewer(s: Seq<FduSlot>, nr: u8)
    ensures
        occupied_seqs(remove_acked(s, nr)).len() <= occupied_seqs(s).len(),
    decreases s.len(),
{
    if s.len() > 0 {
        assert(remove_acked(s, nr).drop_last() =~= remove_acked(s.drop_last(), nr));
        lemma_remove_acked_fewer(s.drop_last(), nr);
    }
}

proof fn lemma_bump_all_snoc(s: Seq<FduSlot>, seqs: Seq<u8>, q: u8)
    ensures
        bump_all(s, seqs.push(q)) == bump_first(bump_all(s, seqs), q),
    decreases seqs.len(),
{
    if seqs.len() == 0 {
        assert(seqs.push(q).drop_first() =~= Seq::<u8>::empty());
        assert(seqs.push(q)[0] == q);
        assert(bump_all(bump_first(s, q), Seq::<u8>::empty()) == bump_first(s, q));
        assert(bump_all(s, seqs) == s);
    } else {
        assert(seqs.push(q).drop_first() =~= seqs.drop_first().push(q));
        assert(seqs.push(q)[0] == seqs[0]);
        lemma_bump_all_snoc(bump_first(s, seqs[0]), seqs.drop_first(), q);
    }
}

// ── Laws ──

/// Terminate always leads to Initial with an empty sent queue and the
/// actions StopTimer, Terminated, whatever the state.
pub proof fn lemma_fop_terminate(m: FopModel)
    ensures
        ({
            let (n, a) = fop_next(m, FopEvent::Terminate);
            &&& n.state == FopState::Initial
            &&& a == seq![FopAction::StopTimer, FopAction::Terminated]
            &&& forall|i: int| 0 <= i < n.slots.len() ==> !(#[trigger] n.slots[i]).occupied
        }),
{
}

/// Outside the two active states FOP-1 rejects every AD FDU and leaves
/// its state unchanged.
pub proof fn lemma_fop_rejects_ad_when_inactive(m: FopModel, fdu: &[u8])
    requires
        !is_active(m.state),
    ensures
        fop_next(m, FopEvent::SendAd { fdu }) == (m, seq![FopAction::Reject]),
{
}

/// An accepted AD FDU is stored under sequence number V(S), and V(S)
/// then advances by one modulo 256.
pub proof fn lemma_fop_send_ad_numbers(m: FopModel, fdu: &[u8])
    ensures
        ({
            let (n, a) = fop_next(m, FopEvent::SendAd { fdu });
            a != seq![FopAction::Reject] ==> {
                &&& n.vs == ((m.vs + 1) % 256) as u8
                &&& n.slots[first_free(m.slots, 0)].seq == m.vs
                &&& n.slots[first_free(m.slots, 0)].occupied
            }
        }),
{
    lemma_first_free(m.slots, 0);
}

/// An AD FDU accepted while no queued frame carries V(S) is what
/// `get_fdu(V(S))` then hands back: the first queued frame numbered V(S)
/// is the new one, and the buffer holds its data.
pub proof fn lemma_fop_send_ad_then_get(m: FopModel, fdu: &[u8])
    requires
        first_with(m.slots, m.vs, 0) >= m.slots.len(),
    ensures
        ({
            let (n, a) = fop_next(m, FopEvent::SendAd { fdu });
            let k = first_with(n.slots, m.vs, 0);
            a != seq![FopAction::Reject] ==> {
                &&& k < n.slots.len()
                &&& n.data.subrange(n.slots[k].offset as int, n.slots[k].offset + n.slots[k].len) == fdu@
            }
        }),
{
    let (n, a) = fop_next(m, FopEvent::SendAd { fdu });
    if a != seq![FopAction::Reject] {
        let idx = first_free(m.slots, 0);
        lemma_first_free(m.slots, 0);
        lemma_first_with(m.slots, m.vs, 0);
        lemma_first_with_update(m.slots, m.vs, 0, idx, n.slots[idx]);
        assert(n.slots == m.slots.update(idx, n.slots[idx]));
        let off = m.write_pos as int;
        assert(first_with(n.slots, m.vs, 0) == idx);
        assert(n.slots[idx].offset == m.write_pos);
        assert(fdu@.len() == fdu.len());
        assert(n.slots[idx].len == fdu@.len());
        assert(n.data == store(m.data, off, fdu@));
        assert(n.data.subrange(off, off + fdu@.len()) =~= fdu@);
    }
}

/// Slot `k` of `n` holds the same frame as slot `k` of `m` (number, place
/// and length in the buffer), and the buffer still holds its data.
pub open spec fn frame_kept(m: FopModel, n: FopModel, k: int) -> bool {
    let a = m.slots[k];
    let b = n.slots[k];
    &&& b.seq == a.seq
    &&& b.offset == a.offset
    &&& b.len == a.len
    &&& n.data.subrange(a.offset as int, a.offset + a.len) == m.data.subrange(
        a.offset as int,
        a.offset + a.len,
    )
    &&& a.offset + a.len <= n.write_pos
}

/// A queued frame whose data lies below the write position stays as it
/// is through any FOP-1 event that leaves it queued: no event moves,
/// renumbers or overwrites a frame that is neither acknowledged nor
/// purged, and new FDUs go after it.
pub proof fn lemma_fop_frame_survives(m: FopModel, e: FopEvent, k: int)
    requires
        0 <= k < m.slots.len(),
        m.slots[k].occupied,
        m.slots[k].offset + m.slots[k].len <= m.write_pos <= m.data.len() <= usize::MAX,
    ensures
        fop_next(m, e).0.slots.len() == m.slots.len(),
        fop_next(m, e).0.data.len() == m.data.len(),
        fop_next(m, e).0.write_pos <= fop_next(m, e).0.data.len(),
        fop_next(m, e).0.slots[k].occupied ==> frame_kept(m, fop_next(m, e).0, k),
{
    let n = fop_next(m, e).0;
    let o = m.slots[k].offset as int;
    let l = m.slots[k].len as int;
    match e {
        FopEvent::SendAd { fdu } => {
            let idx = first_free(m.slots, 0);
            lemma_first_free(m.slots, 0);
            assert(fdu@.len() == fdu.len());
            if is_active(m.state) && idx < m.slots.len() && m.write_pos + fdu@.len() <= m.data.len() {
                assert(idx != k);
                assert(n.slots[k] == m.slots[k]);
                assert(n.data == store(m.data, m.write_pos as int, fdu@));
                assert(n.data.subrange(o, o + l) =~= m.data.subrange(o, o + l));
            }
        },
        FopEvent::SendBd { fdu } => {
            if m.write_pos + fdu@.len() <= m.data.len() {
                assert(n.data == store(m.data, m.write_pos as int, fdu@));
                assert(n.data.subrange(o, o + l) =~= m.data.subrange(o, o + l));
            }
        },
        FopEvent::ClcwReceived { clcw } => {
            let m1 = FopModel { slots: remove_acked(m.slots, clcw.report_value), nnr: clcw.report_value, ..m };
            lemma_bump_all_keeps(m1.slots, retransmit_order(m1.slots, m1.nnr), k);
        },
        FopEvent::TimerExpired => {
            lemma_bump_all_keeps(m.slots, retransmit_order(m.slots, m.nnr), k);
        },
        _ => {},
    }
}

/// An AD FDU accepted by FOP-1 stays queued under its sequence number
/// with its data intact through any run of later events that leaves it
/// queued (not acknowledged, not purged): `get_fdu` of its number then
/// hands back the FDU, as long as no other queued frame before it carries
/// the same number.
pub proof fn lemma_fop_fdu_kept(m0: FopModel, fdu: &[u8], ms: Seq<FopModel>, es: Seq<FopEvent>)
    requires
        m0.write_pos <= m0.data.len() <= usize::MAX,
        first_with(m0.slots, m0.vs, 0) >= m0.slots.len(),
        fop_next(m0, FopEvent::SendAd { fdu }).1 != seq![FopAction::Reject],
        ms.len() == es.len() + 1,
        ms[0] == fop_next(m0, FopEvent::SendAd { fdu }).0,
        forall|i: int| 0 <= i < es.len() ==> #[trigger] ms[i + 1] == fop_next(ms[i], es[i]).0,
        forall|i: int| 0 <= i < ms.len() ==> (#[trigger] ms[i]).slots[first_free(m0.slots, 0)].occupied,
    ensures
        ({
            let k = first_free(m0.slots, 0);
            let last = ms.last();
            &&& 0 <= k < last.slots.len()
            &&& last.slots[k].seq == m0.vs
            &&& last.data.subrange(last.slots[k].offset as int, last.slots[k].offset + last.slots[k].len)
                == fdu@
            &&& first_with(last.slots, m0.vs, 0) == k
                ==> last.data.subrange(
                last.slots[first_with(last.slots, m0.vs, 0)].offset as int,
                last.slots[first_with(last.slots, m0.vs, 0)].offset + last.slots[first_with(
                    last.slots,
                    m0.vs,
                    0,
                )].len,
            ) == fdu@
        }),
    decreases es.len(),
{
    let k = first_free(m0.slots, 0);
    lemma_first_free(m0.slots, 0);
    lemma_fop_send_ad_then_get(m0, fdu);
    lemma_first_with(m0.slots, m0.vs, 0);
    assert(fdu@.len() == fdu.len());
    if es.len() > 0 {
        let pm = ms.drop_last();
        let pe = es.drop_last();
        assert forall|i: int| 0 <= i < pe.len() implies #[trigger] pm[i + 1] == fop_next(pm[i], pe[i]).0 by {
            assert(pm[i + 1] == ms[i + 1]);
            assert(pm[i] == ms[i]);
            assert(pe[i] == es[i]);
        }
        assert forall|i: int| 0 <= i < pm.len() implies (#[trigger] pm[i]).slots[k].occupied by {
            assert(pm[i] == ms[i]);
        }
        lemma_fop_fdu_kept(m0, fdu, pm, pe);
        let j = es.len() - 1;
        let a = ms[j];
        assert(pm.last() == a);
        assert(ms[j + 1] == fop_next(a, es[j]).0);
        lemma_fop_fdu_kept_bounds(m0, fdu, ms, es, j);
        lemma_fop_frame_survives(a, es[j], k);
        assert(ms[j + 1].slots[k].occupied);
    }
}

/// Along such a run, the new frame lies below the write position and the
/// buffer keeps its size.
proof fn lemma_fop_fdu_kept_bounds(m0: FopModel, fdu: &[u8], ms: Seq<FopModel>, es: Seq<FopEvent>, j: int)
    requires
        m0.write_pos <= m0.data.len() <= usize::MAX,
        fop_next(m0, FopEvent::SendAd { fdu }).1 != seq![FopAction::Reject],
        ms.len() == es.len() + 1,
        ms[0] == fop_next(m0, FopEvent::SendAd { fdu }).0,
        forall|i: int| 0 <= i < es.len() ==> #[trigger] ms[i + 1] == fop_next(ms[i], es[i]).0,
        forall|i: int| 0 <= i < ms.len() ==> (#[trigger] ms[i]).slots[first_free(m0.slots, 0)].occupied,
        0 <= j < ms.len(),
    ensures
        ({
            let k = first_free(m0.slots, 0);
            &&& 0 <= k < ms[j].slots.len()
            &&& ms[j].slots[k].offset + ms[j].slots[k].len <= ms[j].write_pos <= ms[j].data.len()
            &&& ms[j].data.len() == m0.data.len()
        }),
    decreases j,
{
    let k = first_free(m0.slots, 0);
    lemma_first_free(m0.slots, 0);
    assert(fdu@.len() == fdu.len());
    if j > 0 {
        lemma_fop_fdu_kept_bounds(m0, fdu, ms, es, j - 1);
        let i = j - 1;
        let a = ms[i];
        assert(ms[i + 1] == fop_next(a, es[i]).0);
        lemma_fop_frame_survives(a, es[i], k);
        assert(ms[j].slots[k].occupied);
    }
}

/// Extra transmissions change no slot's occupancy, number, place or
/// length.
proof fn lemma_bump_all_keeps(s: Seq<FduSlot>, seqs: Seq<u8>, k: int)
    requires
        0 <= k < s.len(),
    ensures
        bump_all(s, seqs).len() == s.len(),
        bump_all(s, seqs)[k].occupied == s[k].occupied,
        bump_all(s, seqs)[k].seq == s[k].seq,
        bump_all(s, seqs)[k].offset == s[k].offset,
        bump_all(s, seqs)[k].len == s[k].len,
    decreases seqs.len(),
{
    if seqs.len() > 0 {
        let b = bump_first(s, seqs[0]);
        lemma_first_with(s, seqs[0], 0);
        assert(b.len() == s.len());
        assert(b[k].occupied == s[k].occupied && b[k].seq == s[k].seq && b[k].offset == s[k].offset
            && b[k].len == s[k].len);
        lemma_bump_all_keeps(b, seqs.drop_first(), k);
    }
}

/// Setting slot `idx` to a frame numbered `seq`, when no frame at or after
/// `i` carried that number, makes `idx` the first one from `i` on.
proof fn lemma_first_with_update(s: Seq<FduSlot>, seq: u8, i: int, idx: int, slot: FduSlot)
    requires
        0 <= i <= idx < s.len(),
        first_with(s, seq, i) >= s.len(),
        slot.occupied,
        slot.seq == seq,
    ensures
        first_with(s.update(idx, slot), seq, i) == idx,
    decreases idx - i,
{
    if i < idx {
        assert(s.update(idx, slot)[i] == s[i]);
        lemma_first_with_update(s, seq, i + 1, idx, slot);
    }
}

/// After a CLCW without lockout in an active state, no frame that its
/// N(R) acknowledges is still outstanding.
pub proof fn lemma_fop_clcw_clears_acknowledged(m: FopModel, c: Clcw)
    requires
        is_active(m.state),
        !c.lockout,
    ensures
        ({
            let n = on_clcw(m, c).0;
            forall|i: int|
                0 <= i < n.slots.len() ==> !acked(#[trigger] n.slots[i], c.report_value)
        }),
{
    let nr = c.report_value;
    let m1 = FopModel { slots: remove_acked(m.slots, nr), nnr: nr, ..m };
    if m.state == FopState::Active && c.retransmit {
        let r = retransmit_order(m1.slots, m1.nnr);
        lemma_bump_all_keeps_flags(m1.slots, r);
    }
}

proof fn lemma_bump_all_keeps_flags(s: Seq<FduSlot>, seqs: Seq<u8>)
    ensures
        bump_all(s, seqs).len() == s.len(),
        forall|i: int|
            0 <= i < s.len() ==> (#[trigger] bump_all(s, seqs)[i]).occupied == s[i].occupied
                && bump_all(s, seqs)[i].seq == s[i].seq && bump_all(s, seqs)[i].offset
                == s[i].offset && bump_all(s, seqs)[i].len == s[i].len,
    decreases seqs.len(),
{
    if seqs.len() > 0 {
        let t = bump_first(s, seqs[0]);
        lemma_first_with(s, seqs[0], 0);
        lemma_bump_all_keeps_flags(t, seqs.drop_first());
        assert forall|i: int| 0 <= i < s.len() implies #[trigger] t[i].occupied == s[i].occupied
            && t[i].seq == s[i].seq && t[i].offset == s[i].offset && t[i].len == s[i].len by {}
        assert forall|i: int| 0 <= i < s.len() implies (#[trigger] bump_all(s, seqs)[i]).occupied
            == s[i].occupied && bump_all(s, seqs)[i].seq == s[i].seq && bump_all(s, seqs)[i].offset
            == s[i].offset && bump_all(s, seqs)[i].len == s[i].len by {
            assert(bump_all(s, seqs)[i] == bump_all(t, seqs.drop_first())[i]);
        }
    }
}

/// Swapping two neighbours keeps the multiset of a sequence.
proof fn lemma_swap_adjacent_multiset(s: Seq<u8>, j: int)
    requires
        0 < j < s.len(),
    ensures
        s.update(j - 1, s[j]).update(j, s[j - 1]).to_multiset() == s.to_multiset(),
{
    broadcast use vstd::multiset::group_multiset_axioms;

    let a = s.subrange(0, j - 1);
    let b = s.subrange(j + 1, s.len() as int);
    let x = seq![s[j - 1]];
    let y = seq![s[j]];
    let t = s.update(j - 1, s[j]).update(j, s[j - 1]);
    assert(s =~= a + x + y + b);
    assert(t =~= a + y + x + b);
    vstd::seq_lib::lemma_multiset_commutative(a + x + y, b);
    vstd::seq_lib::lemma_multiset_commutative(a + x, y);
    vstd::seq_lib::lemma_multiset_commutative(a, x);
    vstd::seq_lib::lemma_multiset_commutative(a + y + x, b);
    vstd::seq_lib::lemma_multiset_commutative(a + y, x);
    vstd::seq_lib::lemma_multiset_commutative(a, y);
    assert(t.to_multiset() =~= s.to_multiset());
}

/// `first_with` finds an occupied slot holding the number, at or after `i`.
pub proof fn lemma_first_with(s: Seq<FduSlot>, seq: u8, i: int)
    requires
        0 <= i,
    ensures
        i <= first_with(s, seq, i) <= s.len() || s.len() < i,
        first_with(s, seq, i) < s.len() ==> s[first_with(s, seq, i)].occupied && s[first_with(
            s,
            seq,
            i,
        )].seq == seq,
    decreases s.len() - i,
{
    if i < s.len() && !(s[i].occupied && s[i].seq == seq) {
        lemma_first_with(s, seq, i + 1);
    }
}

/// `first_free` finds a free slot at or after `i`.
pub proof fn lemma_first_free(s: Seq<FduSlot>, i: int)
    requires
        0 <= i,
    ensures
        i <= first_free(s, i) <= s.len() || s.len() < i,
        first_free(s, i) < s.len() ==> !s[first_free(s, i)].occupied,
    decreases s.len() - i,
{
    if i < s.len() && s[i].occupied {
        lemma_first_free(s, i + 1);
    }
}

/// A CLCW in an active state: with the lockout flag FOP-1 alerts (StopTimer,
/// Alert), purges the queue and returns to Initial; otherwise N(R) becomes
/// the CLCW's report value, the acknowledgements come first, and the
/// retransmit flag decides the state: set, FOP-1 is (or stays)
/// Retransmitting; clear, it is (or returns to) Active, with StopTimer when
/// nothing is left outstanding. V(S) never changes.
pub proof fn lemma_fop_clcw_active(m: FopModel, c: Clcw)
    requires
        is_active(m.state),
    ensures
        ({
            let (n, a) = on_clcw(m, c);
            let nr = c.report_value;
            &&& n.vs == m.vs
            &&& c.lockout ==> {
                &&& n.state == FopState::Initial
                &&& a == seq![FopAction::StopTimer, FopAction::Alert]
                &&& forall|i: int| 0 <= i < n.slots.len() ==> !(#[trigger] n.slots[i]).occupied
            }
            &&& !c.lockout ==> {
                &&& n.nnr == nr
                &&& a.subrange(0, ack_actions(m.slots, nr).len() as int) == ack_actions(m.slots, nr)
                &&& n.state == (if c.retransmit {
                    FopState::Retransmitting
                } else {
                    FopState::Active
                })
                &&& !c.retransmit ==> (a == ack_actions(m.slots, nr) + if occupied_seqs(
                    remove_acked(m.slots, nr),
                ).len() == 0 {
                    seq![FopAction::StopTimer]
                } else {
                    Seq::<FopAction>::empty()
                })
            }
        }),
{
    let nr = c.report_value;
    let (n, a) = on_clcw(m, c);
    if !c.lockout {
        let acks = ack_actions(m.slots, nr);
        if m.state == FopState::Active && c.retransmit {
            let m1 = FopModel { slots: remove_acked(m.slots, nr), nnr: nr, ..m };
            let (m2, r) = retransmit(m1);
            assert(a == acks + r);
            assert(a.subrange(0, acks.len() as int) =~= acks);
        } else {
            assert(a.subrange(0, acks.len() as int) =~= acks);
        }
    }
}

/// A CLCW during initialisation: with Set V(R) pending, a CLCW reporting
/// N(R) equal to the value set, without lockout or retransmit, completes
/// it: FOP-1 is Active with V(S) = N(R) = that value, an empty queue and
/// the actions StopTimer, Accept; with Unlock pending, any CLCW without
/// lockout or retransmit does the same with V(S) = N(R) = its report
/// value. Any other CLCW during initialisation, and every CLCW in Initial
/// or while initialising without a BC frame, changes nothing.
pub proof fn lemma_fop_clcw_initialising(m: FopModel, c: Clcw)
    requires
        !is_active(m.state),
    ensures
        ({
            let (n, a) = on_clcw(m, c);
            let nr = c.report_value;
            let done = !c.lockout && !c.retransmit && (m.state == FopState::InitWithUnlock
                || (m.state == FopState::InitWithSetVr && nr == m.set_vr));
            &&& done ==> {
                &&& n.state == FopState::Active
                &&& n.vs == nr && n.nnr == nr
                &&& a == seq![FopAction::StopTimer, FopAction::Accept]
                &&& forall|i: int| 0 <= i < n.slots.len() ==> !(#[trigger] n.slots[i]).occupied
            }
            &&& !done ==> n == m && a.len() == 0
        }),
{
}

/// Timer T1 expiring: in an active state FOP-1 alerts (StopTimer, Alert,
/// back to Initial) once an outstanding frame has been sent the
/// transmission limit number of times, and otherwise retransmits every
/// outstanding frame and is Retransmitting; while a BC frame is pending it
/// counts one more transmission, alerts when the count reaches the limit
/// and otherwise sends the BC frame again and restarts the timer; in
/// Initial or while initialising without a BC frame nothing happens.
pub proof fn lemma_fop_timer(m: FopModel)
    ensures
        ({
            let (n, a) = on_timer(m);
            let alerted = n.state == FopState::Initial && a == seq![FopAction::StopTimer, FopAction::Alert];
            &&& is_active(m.state) ==> if limit_reached(m) {
                alerted
            } else {
                n.state == FopState::Retransmitting && n.vs == m.vs && n.nnr == m.nnr
                    && a == retransmit_actions(retransmit_order(m.slots, m.nnr))
            }
            &&& (m.state == FopState::InitWithSetVr || m.state == FopState::InitWithUnlock) ==> {
                &&& n.bc_count == (m.bc_count + 1) as u8
                &&& if (m.bc_count + 1) as u8 >= m.transmission_limit {
                    alerted
                } else {
                    &&& n.state == m.state
                    &&& a == seq![
                        if m.state == FopState::InitWithSetVr {
                            FopAction::TransmitBcSetVr { vr: m.set_vr }
                        } else {
                            FopAction::TransmitBcUnlock
                        },
                        FopAction::StartTimer,
                    ]
                }
            }
            &&& (m.state == FopState::Initial || m.state == FopState::InitNoBC) ==> n == m && a.len()
                == 0
        }),
{
}

/// The directives that start the AD service are accepted only in
/// Initial, each purging the queue: Initiate without CLCW makes FOP-1
/// Active at once (Accept); with CLCW it waits in InitNoBC with the timer
/// started; with Set V(R) or Unlock it sends that BC frame (count 1),
/// starts the timer and waits for the CLCW; Resume makes it Active
/// (Accept) and keeps the queue. Outside Initial each is rejected and
/// nothing changes.
pub proof fn lemma_fop_directives(m: FopModel, vr: u8)
    ensures
        ({
            let init = m.state == FopState::Initial;
            let rej = (m, seq![FopAction::Reject]);
            &&& fop_next(m, FopEvent::InitAdNoClcw) == if init {
                (FopModel { state: FopState::Active, ..purge(m) }, seq![FopAction::Accept])
            } else {
                rej
            }
            &&& fop_next(m, FopEvent::InitAdWithClcw) == if init {
                (FopModel { state: FopState::InitNoBC, ..purge(m) }, seq![FopAction::StartTimer])
            } else {
                rej
            }
            &&& fop_next(m, FopEvent::InitAdSetVr { vr }) == if init {
                (
                    FopModel { state: FopState::InitWithSetVr, set_vr: vr, bc_count: 1, ..purge(m) },
                    seq![FopAction::TransmitBcSetVr { vr }, FopAction::StartTimer],
                )
            } else {
                rej
            }
            &&& fop_next(m, FopEvent::InitAdUnlock) == if init {
                (
                    FopModel { state: FopState::InitWithUnlock, bc_count: 1, ..purge(m) },
                    seq![FopAction::TransmitBcUnlock, FopAction::StartTimer],
                )
            } else {
                rej
            }
            &&& fop_next(m, FopEvent::Resume) == if init {
                (FopModel { state: FopState::Active, ..m }, seq![FopAction::Accept])
            } else {
                rej
            }
            &&& forall|i: int| 0 <= i < purge(m).slots.len() ==> !(#[trigger] purge(m).slots[i]).occupied
        }),
{
}

} // verus!
