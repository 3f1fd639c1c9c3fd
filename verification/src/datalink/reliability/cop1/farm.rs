//! FARM-1 (Frame Acceptance and Reporting Mechanism).
//!
//! CCSDS 232.1-B-2 Section 6. Receiver-side state machine for COP-1.
//! Processes incoming TC transfer frames and generates CLCW reports.
//!
//! Three states: Open (S1), Wait (S2), Lockout (S3).
use vstd::prelude::*;

use super::clcw::Clcw;
use crate::containers::{
    farm_action_list, farm_actions_as_slice, farm_actions_clear, farm_actions_len, farm_actions_new,
    farm_actions_push,
};
use crate::ids::Vcid;

verus! {

/// Maximum actions per event.
pub const MAX_ACTIONS: usize = 4;

/// FARM-1 states per CCSDS 232.1-B-2 Table 6-1.
#[derive(Debug, Copy, Clone, Eq, PartialEq, Structural)]
pub enum FarmState {
    /// S1: normal operation, accepting in-sequence AD frames.
    Open,
    /// S2: no buffer space, Wait flag is set.
    Wait,
    /// S3: lockout due to out-of-window frame.
    Lockout,
}

/// BC control commands carried in Type-BC frames.
#[derive(Debug, Copy, Clone, Eq, PartialEq, Structural)]
pub enum ControlCommand {
    /// Reset FARM-1 to Open state, clear all flags.
    Unlock,
    /// Set V(R) to the specified value.
    SetVr(u8),
}

/// Events that drive the FARM-1 state machine.
#[derive(Debug, Clone)]
pub enum FarmEvent<'a> {
    /// A valid Type-AD transfer frame arrived.
    AdFrame {
        /// Frame Sequence Number N(S).
        seq: u8,
        /// Whether a buffer is available for this frame.
        buffer_available: bool,
        /// Frame Data Unit payload.
        fdu: &'a [u8],
    },
    /// A valid Type-BD transfer frame arrived.
    BdFrame {
        /// Frame Data Unit payload.
        fdu: &'a [u8],
    },
    /// A valid Type-BC transfer frame with a control command.
    BcFrame {
        /// The control command.
        command: ControlCommand,
    },
    /// An invalid frame arrived (failed validation).
    InvalidFrame,
    /// Buffer space became available (flow control release).
    BufferRelease,
    /// Time to generate a CLCW report.
    ClcwReport,
}

/// Actions that FARM-1 requests the driver to perform.
#[derive(Debug, Clone)]
pub enum FarmAction<'a> {
    /// Accept an FDU and deliver it to higher procedures.
    Accept {
        /// The FDU payload to deliver.
        fdu: &'a [u8],
    },
    /// Discard the received frame (no delivery).
    Discard,
    /// A CLCW report is ready; read it from [`FarmMachine::clcw`].
    ClcwReady,
}

/// Collection of actions emitted by FARM-1 (at most [`MAX_ACTIONS`]).
#[derive(Debug)]
pub struct FarmActions<'a> {
    inner: heapless::Vec<FarmAction<'a>, MAX_ACTIONS>,
}

impl<'a> View for FarmActions<'a> {
    type V = Seq<FarmAction<'a>>;

    closed spec fn view(&self) -> Seq<FarmAction<'a>> {
        farm_action_list(self.inner)
    }
}

impl<'a> FarmActions<'a> {
    /// Create a new empty actions collection.
    pub fn new() -> (a: Self)
        ensures
            a@ == Seq::<FarmAction<'a>>::empty(),
    {
        FarmActions { inner: farm_actions_new() }
    }

    /// Appends an action; an action beyond [`MAX_ACTIONS`] is dropped.
    fn push(&mut self, action: FarmAction<'a>)
        ensures
            final(self)@ == if old(self)@.len() < MAX_ACTIONS {
                old(self)@.push(action)
            } else {
                old(self)@
            },
    {
        let _ = farm_actions_push(&mut self.inner, action);
    }

    fn clear(&mut self)
        ensures
            final(self)@ == Seq::<FarmAction<'a>>::empty(),
    {
        farm_actions_clear(&mut self.inner);
    }

    /// Returns the action at `index`.
    pub fn get(&self, index: usize) -> (a: &FarmAction<'a>)
        requires
            index < self@.len(),
        ensures
            *a == self@[index as int],
    {
        let s = farm_actions_as_slice(&self.inner);
        &s[index]
    }

    /// Returns the actions as a slice, in the order they were emitted.
    pub fn as_slice(&self) -> (s: &[FarmAction<'a>])
        ensures
            s@ == self@,
    {
        farm_actions_as_slice(&self.inner)
    }

    /// Check if empty.
    pub fn is_empty(&self) -> (b: bool)
        ensures
            b == (self@.len() == 0),
    {
        farm_actions_len(&self.inner) == 0
    }

    /// Number of actions.
    pub fn len(&self) -> (n: usize)
        ensures
            n == self@.len(),
    {
        farm_actions_len(&self.inner)
    }
}

/// Configuration for FARM-1.
#[derive(Debug, Clone)]
pub struct FarmConfig {
    /// Virtual Channel Identifier for CLCW reports.
    pub vcid: Vcid,
    /// FARM Sliding Window Width (W). Even, 2..=254.
    pub window_width: u8,
}

/// Which zone of the FARM sliding window a sequence number falls in.
#[derive(Debug, Copy, Clone, Eq, PartialEq, Structural)]
pub enum SeqZone {
    /// N(S) == V(R): the expected next frame.
    Expected,
    /// N(S) > V(R) and within positive window (gap detected).
    PositiveWindow,
    /// N(S) < V(R) and within negative window (retransmit).
    NegativeWindow,
    /// Outside the sliding window entirely.
    Lockout,
}

/// The abstract state of FARM-1.
pub struct FarmModel {
    pub state: FarmState,
    pub vr: u8,
    pub lockout_flag: bool,
    pub wait_flag: bool,
    pub retransmit_flag: bool,
    pub farm_b_counter: u8,
    pub pw: u8,
    pub nw: u8,
    pub vcid: Vcid,
}

/// `(a - b) mod 256`.
pub open spec fn mod256_sub(a: u8, b: u8) -> u8 {
    ((a as int - b as int + 256) % 256) as u8
}

/// The sliding-window zone of `seq` relative to V(R) = `vr`
/// (positive window `0 < N(S) - V(R) < pw`, negative window
/// `0 < V(R) - N(S) <= nw`, all modulo 256).
pub open spec fn spec_zone(vr: u8, pw: u8, nw: u8, seq: u8) -> SeqZone {
    if seq == vr {
        SeqZone::Expected
    } else if 0 < mod256_sub(seq, vr) < pw {
        SeqZone::PositiveWindow
    } else if 0 < mod256_sub(vr, seq) <= nw {
        SeqZone::NegativeWindow
    } else {
        SeqZone::Lockout
    }
}

/// The FARM-B counter after one more BD or BC frame.
pub open spec fn next_b(c: u8) -> u8 {
    ((c + 1) % 4) as u8
}

/// The actions that a FARM-1 event produces.
pub open spec fn farm_actions<'a>(m: FarmModel, e: FarmEvent<'a>) -> Seq<FarmAction<'a>> {
    match e {
        FarmEvent::AdFrame { seq, buffer_available, fdu } => {
            if m.state == FarmState::Open && seq == m.vr && buffer_available {
                seq![FarmAction::Accept { fdu }]
            } else {
                seq![FarmAction::Discard]
            }
        },
        FarmEvent::BdFrame { fdu } => seq![FarmAction::Accept { fdu }],
        FarmEvent::BcFrame { .. } => Seq::empty(),
        FarmEvent::InvalidFrame => seq![FarmAction::Discard],
        FarmEvent::BufferRelease => Seq::empty(),
        FarmEvent::ClcwReport => seq![FarmAction::ClcwReady],
    }
}

/// The FARM-1 state after an event (CCSDS 232.1-B-2 Table 6-1).
pub open spec fn farm_next(m: FarmModel, e: FarmEvent) -> FarmModel {
    match e {
        FarmEvent::AdFrame { seq, buffer_available, .. } => {
            let zone = spec_zone(m.vr, m.pw, m.nw, seq);
            match m.state {
                FarmState::Open => match zone {
                    SeqZone::Expected => if buffer_available {
                        FarmModel { vr: ((m.vr + 1) % 256) as u8, retransmit_flag: false, ..m }
                    } else {
                        FarmModel {
                            retransmit_flag: true,
                            wait_flag: true,
                            state: FarmState::Wait,
                            ..m
                        }
                    },
                    SeqZone::PositiveWindow => FarmModel { retransmit_flag: true, ..m },
                    SeqZone::NegativeWindow => m,
                    SeqZone::Lockout => FarmModel {
                        lockout_flag: true,
                        state: FarmState::Lockout,
                        ..m
                    },
                },
                FarmState::Wait => match zone {
                    SeqZone::Lockout => FarmModel {
                        lockout_flag: true,
                        state: FarmState::Lockout,
                        ..m
                    },
                    _ => m,
                },
                FarmState::Lockout => m,
            }
        },
        FarmEvent::BdFrame { .. } => FarmModel { farm_b_counter: next_b(m.farm_b_counter), ..m },
        FarmEvent::BcFrame { command } => {
            let m1 = FarmModel {
                farm_b_counter: next_b(m.farm_b_counter),
                retransmit_flag: false,
                ..m
            };
            match command {
                ControlCommand::Unlock => match m.state {
                    FarmState::Open => m1,
                    FarmState::Wait => FarmModel { wait_flag: false, state: FarmState::Open, ..m1 },
                    FarmState::Lockout => FarmModel {
                        wait_flag: false,
                        lockout_flag: false,
                        state: FarmState::Open,
                        ..m1
                    },
                },
                ControlCommand::SetVr(new_vr) => match m.state {
                    FarmState::Open => FarmModel { vr: new_vr, ..m1 },
                    FarmState::Wait => FarmModel {
                        vr: new_vr,
                        wait_flag: false,
                        state: FarmState::Open,
                        ..m1
                    },
                    FarmState::Lockout => m1,
                },
            }
        },
        FarmEvent::InvalidFrame => m,
        FarmEvent::BufferRelease => match m.state {
            FarmState::Open => m,
            FarmState::Wait => FarmModel { wait_flag: false, state: FarmState::Open, ..m },
            FarmState::Lockout => FarmModel { wait_flag: false, ..m },
        },
        FarmEvent::ClcwReport => m,
    }
}

/// The flags agree with the state: Lockout exactly when the lockout flag
/// is set, Wait only with the wait flag set, Open with both clear, and a
/// 2-bit FARM-B counter.
pub open spec fn farm_inv(m: FarmModel) -> bool {
    &&& (m.state == FarmState::Lockout) == m.lockout_flag
    &&& m.state == FarmState::Wait ==> m.wait_flag
    &&& m.state == FarmState::Open ==> !m.wait_flag
    &&& m.farm_b_counter < 4
}

/// The CLCW that FARM-1 reports in state `m`.
pub open spec fn spec_farm_clcw(m: FarmModel) -> Clcw {
    Clcw {
        cop_in_effect: 1,
        vcid: (m.vcid.0 % 64) as u8,
        lockout: m.lockout_flag,
        wait: m.wait_flag,
        retransmit: m.retransmit_flag,
        farm_b_counter: m.farm_b_counter % 4,
        report_value: m.vr,
        ..Clcw::zero()
    }
}

/// FARM-1 state machine.
///
/// Completely synchronous — no I/O, no async.
/// Generates CLCW reports from its internal state.
pub struct FarmMachine {
    state: FarmState,
    vr: u8,
    lockout_flag: bool,
    wait_flag: bool,
    retransmit_flag: bool,
    farm_b_counter: u8,
    pw: u8,
    nw: u8,
    vcid: Vcid,
}

impl View for FarmMachine {
    type V = FarmModel;

    closed spec fn view(&self) -> FarmModel {
        FarmModel {
            state: self.state,
            vr: self.vr,
            lockout_flag: self.lockout_flag,
            wait_flag: self.wait_flag,
            retransmit_flag: self.retransmit_flag,
            farm_b_counter: self.farm_b_counter,
            pw: self.pw,
            nw: self.nw,
            vcid: self.vcid,
        }
    }
}

impl FarmMachine {
    /// The flags always agree with the state.
    #[verifier::type_invariant]
    closed spec fn flags_agree(&self) -> bool {
        farm_inv(self@)
    }

    /// The machine with the given state, V(R) and flags, and its windows
    /// and VCID.
    fn with(
        &self,
        state: FarmState,
        vr: u8,
        lockout_flag: bool,
        wait_flag: bool,
        retransmit_flag: bool,
        farm_b_counter: u8,
    ) -> (m: Self)
        requires
            farm_inv(FarmModel { state, vr, lockout_flag, wait_flag, retransmit_flag, farm_b_counter, ..self@ }),
        ensures
            m@ == (FarmModel { state, vr, lockout_flag, wait_flag, retransmit_flag, farm_b_counter, ..self@ }),
    {
        FarmMachine {
            state,
            vr,
            lockout_flag,
            wait_flag,
            retransmit_flag,
            farm_b_counter,
            pw: self.pw,
            nw: self.nw,
            vcid: self.vcid,
        }
    }

    /// Create a new FARM-1 state machine: Open, V(R) = 0, all flags
    /// clear, and both half-windows `W / 2`.
    pub fn new(config: FarmConfig) -> (f: Self)
        ensures
            f@ == (FarmModel {
                state: FarmState::Open,
                vr: 0,
                lockout_flag: false,
                wait_flag: false,
                retransmit_flag: false,
                farm_b_counter: 0,
                pw: config.window_width / 2,
                nw: config.window_width / 2,
                vcid: config.vcid,
            }),
            farm_inv(f@),
    {
        let pw = config.window_width / 2;
        let nw = config.window_width / 2;
        FarmMachine {
            state: FarmState::Open,
            vr: 0,
            lockout_flag: false,
            wait_flag: false,
            retransmit_flag: false,
            farm_b_counter: 0,
            pw,
            nw,
            vcid: config.vcid,
        }
    }

    /// Current FARM-1 state.
    pub fn state(&self) -> (s: FarmState)
        ensures
            s == self@.state,
    {
        self.state
    }

    /// Current V(R) (next expected sequence number).
    pub fn vr(&self) -> (v: u8)
        ensures
            v == self@.vr,
    {
        self.vr
    }

    /// Generate the current CLCW from internal state.
    pub fn clcw(&self) -> (c: Clcw)
        ensures
            c == spec_farm_clcw(self@),
            farm_inv(self@),
            c.lockout == (self@.state == FarmState::Lockout),
            self@.state == FarmState::Wait ==> c.wait,
            c.wait ==> self@.state != FarmState::Open,
            c.report_value == self@.vr,
            c.farm_b_counter <= 3,
    {
        proof {
            use_type_invariant(self);
        }
        let mut clcw = Clcw::new();
        clcw.set_cop_in_effect(1);
        clcw.set_vcid(self.vcid);
        clcw.set_lockout(self.lockout_flag);
        clcw.set_wait(self.wait_flag);
        clcw.set_retransmit(self.retransmit_flag);
        clcw.set_farm_b_counter(self.farm_b_counter);
        clcw.set_report_value(self.vr);
        clcw
    }

    /// Process an event: the state moves as Table 6-1 prescribes and
    /// `actions` is replaced by the actions that the event produces.
    pub fn handle<'a>(&mut self, event: FarmEvent<'a>, actions: &mut FarmActions<'a>)
        ensures
            final(self)@ == farm_next(old(self)@, event),
            final(actions)@ == farm_actions(old(self)@, event),
            final(actions)@.len() <= 1,
            farm_inv(final(self)@),
    {
        proof {
            use_type_invariant(&*self);
            lemma_farm_inv_preserved(self@, event);
        }
        actions.clear();
        match event {
            FarmEvent::AdFrame { seq, buffer_available, fdu } => {
                self.handle_ad_frame(seq, buffer_available, fdu, actions);
            },
            FarmEvent::BdFrame { fdu } => {
                self.handle_bd_frame(fdu, actions);
            },
            FarmEvent::BcFrame { command } => {
                self.handle_bc_frame(command, actions);
            },
            FarmEvent::InvalidFrame => {
                actions.push(FarmAction::Discard);
            },
            FarmEvent::BufferRelease => {
                self.handle_buffer_release(actions);
            },
            FarmEvent::ClcwReport => {
                actions.push(FarmAction::ClcwReady);
            },
        }
    }

    /// Handle a Type-AD frame (Table 6-1 events E1-E5).
    fn handle_ad_frame<'a>(
        &mut self,
        seq: u8,
        buffer_available: bool,
        fdu: &'a [u8],
        actions: &mut FarmActions<'a>,
    )
        requires
            old(actions)@.len() == 0,
        ensures
            final(self)@ == farm_next(
                old(self)@,
                FarmEvent::AdFrame { seq, buffer_available, fdu },
            ),
            final(actions)@ == farm_actions(
                old(self)@,
                FarmEvent::AdFrame { seq, buffer_available, fdu },
            ),
    {
        proof {
            use_type_invariant(&*self);
        }
        let zone = self.classify_seq(seq);
        let mut state = self.state;
        let mut vr = self.vr;
        let mut lockout = self.lockout_flag;
        let mut wait = self.wait_flag;
        let mut retransmit = self.retransmit_flag;
        match self.state {
            FarmState::Open => match zone {
                SeqZone::Expected => {
                    if buffer_available {
                        vr = vr.wrapping_add(1);
                        retransmit = false;
                        actions.push(FarmAction::Accept { fdu });
                    } else {
                        retransmit = true;
                        wait = true;
                        state = FarmState::Wait;
                        actions.push(FarmAction::Discard);
                    }
                },
                SeqZone::PositiveWindow => {
                    retransmit = true;
                    actions.push(FarmAction::Discard);
                },
                SeqZone::NegativeWindow => {
                    actions.push(FarmAction::Discard);
                },
                SeqZone::Lockout => {
                    lockout = true;
                    state = FarmState::Lockout;
                    actions.push(FarmAction::Discard);
                },
            },
            FarmState::Wait => match zone {
                SeqZone::Lockout => {
                    lockout = true;
                    state = FarmState::Lockout;
                    actions.push(FarmAction::Discard);
                },
                _ => {
                    actions.push(FarmAction::Discard);
                },
            },
            FarmState::Lockout => {
                actions.push(FarmAction::Discard);
            },
        }
        *self = self.with(state, vr, lockout, wait, retransmit, self.farm_b_counter);
    }

    /// Handle a Type-BD frame (Table 6-1 event E6).
    fn handle_bd_frame<'a>(&mut self, fdu: &'a [u8], actions: &mut FarmActions<'a>)
        requires
            old(actions)@.len() == 0,
        ensures
            final(self)@ == farm_next(old(self)@, FarmEvent::BdFrame { fdu }),
            final(actions)@ == farm_actions(old(self)@, FarmEvent::BdFrame { fdu }),
    {
        proof {
            use_type_invariant(&*self);
        }
        let counter = ((self.farm_b_counter as u16 + 1) % 4) as u8;
        *self = self.with(self.state, self.vr, self.lockout_flag, self.wait_flag, self.retransmit_flag, counter);
        actions.push(FarmAction::Accept { fdu });
    }

    /// Handle a Type-BC frame (Table 6-1 events E7, E8).
    fn handle_bc_frame(&mut self, command: ControlCommand, actions: &mut FarmActions<'_>)
        ensures
            final(self)@ == farm_next(old(self)@, FarmEvent::BcFrame { command }),
            final(actions)@ == old(actions)@,
    {
        proof {
            use_type_invariant(&*self);
        }
        let counter = ((self.farm_b_counter as u16 + 1) % 4) as u8;
        let mut state = self.state;
        let mut vr = self.vr;
        let mut lockout = self.lockout_flag;
        let mut wait = self.wait_flag;
        match command {
            ControlCommand::Unlock => match self.state {
                FarmState::Open => {},
                FarmState::Wait => {
                    wait = false;
                    state = FarmState::Open;
                },
                FarmState::Lockout => {
                    wait = false;
                    lockout = false;
                    state = FarmState::Open;
                },
            },
            ControlCommand::SetVr(new_vr) => match self.state {
                FarmState::Open => {
                    vr = new_vr;
                },
                FarmState::Wait => {
                    vr = new_vr;
                    wait = false;
                    state = FarmState::Open;
                },
                FarmState::Lockout => {},
            },
        }
        *self = self.with(state, vr, lockout, wait, false, counter);
    }

    /// Handle buffer release signal (Table 6-1 event E10).
    fn handle_buffer_release(&mut self, actions: &mut FarmActions<'_>)
        ensures
            final(self)@ == farm_next(old(self)@, FarmEvent::BufferRelease),
            final(actions)@ == old(actions)@,
    {
        proof {
            use_type_invariant(&*self);
        }
        match self.state {
            FarmState::Open => {},
            FarmState::Wait => {
                *self = self.with(
                    FarmState::Open,
                    self.vr,
                    self.lockout_flag,
                    false,
                    self.retransmit_flag,
                    self.farm_b_counter,
                );
            },
            FarmState::Lockout => {
                *self = self.with(
                    self.state,
                    self.vr,
                    self.lockout_flag,
                    false,
                    self.retransmit_flag,
                    self.farm_b_counter,
                );
            },
        }
    }

    /// Classify a frame sequence number into a sliding window zone.
    ///
    /// All arithmetic is modulo 256, as COP-1 defines it.
    pub fn classify_seq(&self, seq: u8) -> (z: SeqZone)
        ensures
            z == spec_zone(self@.vr, self@.pw, self@.nw, seq),
    {
        if seq == self.vr {
            return SeqZone::Expected;
        }
        let pos_dist = seq.wrapping_sub(self.vr);
        let neg_dist = self.vr.wrapping_sub(seq);
        if pos_dist > 0 && pos_dist < self.pw {
            SeqZone::PositiveWindow
        } else if neg_dist > 0 && neg_dist <= self.nw {
            SeqZone::NegativeWindow
        } else {
            SeqZone::Lockout
        }
    }
}

/// Every FARM-1 event keeps the flags consistent with the state.
pub proof fn lemma_farm_inv_preserved(m: FarmModel, e: FarmEvent)
    requires
        farm_inv(m),
    ensures
        farm_inv(farm_next(m, e)),
{
}

/// In Lockout no Type-AD frame is accepted, and only an Unlock
/// directive leaves the Lockout state.
pub proof fn lemma_farm_lockout_is_sticky(m: FarmModel, e: FarmEvent)
    requires
        m.state == FarmState::Lockout,
    ensures
        e is AdFrame ==> farm_actions(m, e) == seq![FarmAction::Discard],
        farm_next(m, e).state != FarmState::Lockout ==> (e matches FarmEvent::BcFrame {
            command: ControlCommand::Unlock,
        }),
{
}

/// A Type-AD frame is delivered exactly when FARM-1 is Open, the frame
/// carries N(S) = V(R) and a buffer is free; V(R) then advances by one
/// (modulo 256). Otherwise V(R) is unchanged.
pub proof fn lemma_farm_accepts_in_sequence(m: FarmModel, seq: u8, buffer_available: bool, fdu: &[u8])
    ensures
        ({
            let e = FarmEvent::AdFrame { seq, buffer_available, fdu };
            let accepted = m.state == FarmState::Open && seq == m.vr && buffer_available;
            &&& (farm_actions(m, e) == seq![FarmAction::Accept { fdu }]) == accepted
            &&& farm_next(m, e).vr == if accepted {
                ((m.vr + 1) % 256) as u8
            } else {
                m.vr
            }
        }),
{
    let e = FarmEvent::AdFrame { seq, buffer_available, fdu };
    if !(m.state == FarmState::Open && seq == m.vr && buffer_available) {
        assert(farm_actions(m, e)[0] == FarmAction::<'_>::Discard);
    }
}

/// Type-BD frames are delivered in every state.
pub proof fn lemma_farm_bd_always_accepted(m: FarmModel, fdu: &[u8])
    ensures
        farm_actions(m, FarmEvent::BdFrame { fdu }) == seq![FarmAction::Accept { fdu }],
        farm_next(m, FarmEvent::BdFrame { fdu }).state == m.state,
{
}

/// An Unlock directive always returns FARM-1 to Open with the lockout,
/// wait and retransmit flags clear.
pub proof fn lemma_farm_unlock_opens(m: FarmModel)
    requires
        farm_inv(m),
    ensures
        ({
            let n = farm_next(m, FarmEvent::BcFrame { command: ControlCommand::Unlock });
            n.state == FarmState::Open && !n.lockout_flag && !n.wait_flag && !n.retransmit_flag
                && n.vr == m.vr
        }),
{
}

/// A Set V(R) directive outside Lockout sets V(R) to the directive's value
/// and leaves FARM-1 Open with the wait and retransmit flags clear; in
/// Lockout it is not executed: V(R) and the state stay as they were. Either
/// way the FARM-B counter moves on by one (modulo 4) and nothing is
/// delivered.
pub proof fn lemma_farm_set_vr(m: FarmModel, new_vr: u8)
    requires
        farm_inv(m),
    ensures
        ({
            let e = FarmEvent::BcFrame { command: ControlCommand::SetVr(new_vr) };
            let n = farm_next(m, e);
            &&& farm_actions(m, e).len() == 0
            &&& n.farm_b_counter == (m.farm_b_counter + 1) % 4
            &&& !n.retransmit_flag
            &&& m.state != FarmState::Lockout ==> {
                &&& n.vr == new_vr
                &&& n.state == FarmState::Open
                &&& !n.wait_flag
                &&& !n.lockout_flag
            }
            &&& m.state == FarmState::Lockout ==> n.vr == m.vr && n.state == FarmState::Lockout
                && n.lockout_flag
        }),
{
}

/// A Type-AD frame that FARM-1 does not deliver: while Open, N(S) = V(R)
/// without a free buffer moves to Wait with the wait and retransmit flags
/// set; N(S) in the positive window sets the retransmit flag and stays
/// Open; N(S) in the negative window changes nothing; N(S) outside the
/// window, while Open or Wait, moves to Lockout with the lockout flag set.
/// V(R) never changes on such a frame.
pub proof fn lemma_farm_ad_not_accepted(m: FarmModel, seq: u8, buffer_available: bool, fdu: &[u8])
    requires
        farm_inv(m),
    ensures
        ({
            let e = FarmEvent::AdFrame { seq, buffer_available, fdu };
            let n = farm_next(m, e);
            let z = spec_zone(m.vr, m.pw, m.nw, seq);
            &&& m.state == FarmState::Open && seq == m.vr && !buffer_available ==> {
                &&& n.state == FarmState::Wait
                &&& n.wait_flag && n.retransmit_flag
                &&& n.vr == m.vr
            }
            &&& m.state == FarmState::Open && z == SeqZone::PositiveWindow ==> {
                &&& n.state == FarmState::Open
                &&& n.retransmit_flag
                &&& n.vr == m.vr
            }
            &&& m.state != FarmState::Lockout && z == SeqZone::Lockout ==> {
                &&& n.state == FarmState::Lockout
                &&& n.lockout_flag
                &&& n.vr == m.vr
            }
            &&& z == SeqZone::NegativeWindow ==> n == m
            &&& m.state == FarmState::Wait && z != SeqZone::Lockout ==> n == m
        }),
{
}

/// A buffer release takes FARM-1 from Wait back to Open and clears the
/// wait flag in every state; it leaves Lockout in place and changes
/// nothing else.
pub proof fn lemma_farm_buffer_release(m: FarmModel)
    requires
        farm_inv(m),
    ensures
        ({
            let n = farm_next(m, FarmEvent::BufferRelease);
            &&& !n.wait_flag
            &&& n.state == (if m.state == FarmState::Lockout {
                FarmState::Lockout
            } else {
                FarmState::Open
            })
            &&& n.vr == m.vr && n.lockout_flag == m.lockout_flag
            &&& n.retransmit_flag == m.retransmit_flag && n.farm_b_counter == m.farm_b_counter
            &&& farm_actions(m, FarmEvent::BufferRelease).len() == 0
        }),
{
}

/// An invalid frame is discarded and changes nothing; a CLCW report
/// changes nothing and reports V(R) and the lockout, wait and retransmit
/// flags as they stand, with the FARM-B counter and the channel.
pub proof fn lemma_farm_invalid_and_report(m: FarmModel)
    ensures
        farm_next(m, FarmEvent::InvalidFrame) == m,
        farm_actions(m, FarmEvent::InvalidFrame) == seq![FarmAction::<'static>::Discard],
        farm_next(m, FarmEvent::ClcwReport) == m,
        farm_actions(m, FarmEvent::ClcwReport) == seq![FarmAction::<'static>::ClcwReady],
        spec_farm_clcw(m).report_value == m.vr,
        spec_farm_clcw(m).lockout == m.lockout_flag,
        spec_farm_clcw(m).wait == m.wait_flag,
        spec_farm_clcw(m).retransmit == m.retransmit_flag,
        spec_farm_clcw(m).farm_b_counter == m.farm_b_counter % 4,
        spec_farm_clcw(m).vcid == m.vcid.0 % 64,
        spec_farm_clcw(m).cop_in_effect == 1,
{
}

} // verus!
