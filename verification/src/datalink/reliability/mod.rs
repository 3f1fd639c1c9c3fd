//! Hop-by-hop reliable frame delivery for the datalink layer.
//!
//! Provides the [`ReliabilityWriter`] / [`ReliabilityReader`]
//! traits, COP-1 wrappers ([`Cop1Writer`], [`Cop1Reader`]), and
//! [`NoReliability`] as a passthrough.
use vstd::prelude::*;

use crate::datalink::framing::sdlp::tc::{
    spec_tc_header, BypassFlag, ControlFlag, TelecommandTransferFrame,
    TelecommandTransferFrameHeader,
};
use cop1::farm::{farm_next, FarmAction, FarmActions, FarmConfig, FarmEvent, FarmMachine, FarmState};
use cop1::fop::{cap, fop_next, FopActions, FopConfig, FopEvent, FopMachine};

pub mod cop1;

verus! {

/// COP-1 sender (FOP-1) state machine interface.
pub trait ReliabilityWriter {
    /// Action to take after processing a frame.
    type Action;

    /// The writer's internal invariant.
    spec fn inv(&self) -> bool;

    /// Processes an outgoing frame through the reliability layer.
    fn write(&mut self, frame: &[u8]) -> (a: Self::Action)
        requires
            old(self).inv(),
        ensures
            final(self).inv(),
    ;
}

/// COP-1 receiver (FARM-1) state machine interface.
pub trait ReliabilityReader {
    /// Action to take after processing a frame.
    type Action;

    /// Processes an incoming frame through the reliability layer.
    fn read(&mut self, frame: &[u8]) -> Self::Action;
}

/// COP-1 sender-side reliability (FOP-1).
///
/// Each [`write`](ReliabilityWriter::write) call feeds the data
/// as a Type-AD (sequence-controlled) FDU. For Type-BD frames or
/// management directives, use [`fop_mut`](Self::fop_mut).
pub struct Cop1Writer<const WIN: usize, const BUF: usize> {
    fop: FopMachine<WIN, BUF>,
}

impl<const WIN: usize, const BUF: usize> Cop1Writer<WIN, BUF> {
    /// The wrapped FOP-1 machine.
    pub closed spec fn spec_fop(&self) -> FopMachine<WIN, BUF> {
        self.fop
    }

    /// Creates a new COP-1 writer in the Initial state.
    pub fn new(config: FopConfig) -> (w: Self)
        ensures
            w.spec_fop().wf(),
            w.spec_fop().spec_config() == config,
            w.spec_fop()@.state == cop1::fop::FopState::Initial,
            w.spec_fop()@.vs == 0,
            w.spec_fop()@.nnr == 0,
            w.spec_fop()@.write_pos == 0,
            w.spec_fop()@.pending_bd is None,
            w.spec_fop()@.transmission_limit == config.transmission_limit,
            cop1::fop::occupied_seqs(w.spec_fop()@.slots).len() == 0,
    {
        Cop1Writer { fop: FopMachine::new(config) }
    }

    /// Returns a reference to the inner FOP-1 state machine.
    pub fn fop(&self) -> (f: &FopMachine<WIN, BUF>)
        ensures
            *f == self.spec_fop(),
    {
        &self.fop
    }

    /// Returns a mutable reference for direct FOP-1 control.
    pub fn fop_mut(&mut self) -> (f: &mut FopMachine<WIN, BUF>)
        ensures
            *f == old(self).spec_fop(),
            final(self).spec_fop() == *final(f),
    {
        &mut self.fop
    }
}

impl<const WIN: usize, const BUF: usize> ReliabilityWriter for Cop1Writer<WIN, BUF> {
    type Action = FopActions;

    open spec fn inv(&self) -> bool {
        self.spec_fop().wf()
    }

    /// Hands `frame` to FOP-1 as a Type-AD FDU and returns its actions.
    fn write(&mut self, frame: &[u8]) -> (a: FopActions)
        ensures
            final(self).spec_fop()@ == fop_next(
                old(self).spec_fop()@,
                FopEvent::SendAd { fdu: frame },
            ).0,
            a@ == cap(fop_next(old(self).spec_fop()@, FopEvent::SendAd { fdu: frame }).1),
    {
        let mut actions = FopActions::new();
        self.fop.handle(FopEvent::SendAd { fdu: frame }, &mut actions);
        actions
    }
}

/// Result of processing a frame through COP-1 FARM-1.
#[derive(Debug, Copy, Clone, Eq, PartialEq, Structural)]
pub enum Cop1ReadResult {
    /// The frame was accepted for delivery.
    Accept,
    /// The frame was discarded (out of sequence, lockout, etc).
    Discard,
}

/// COP-1 receiver-side reliability (FARM-1).
///
/// Each [`read`](ReliabilityReader::read) call parses the TC
/// frame header to classify it as AD or BD and feeds the FARM-1
/// state machine. BC (control) frames are treated as invalid here;
/// use [`farm_mut`](Self::farm_mut) for direct BC handling.
pub struct Cop1Reader {
    farm: FarmMachine,
}

impl Cop1Reader {
    /// The wrapped FARM-1 machine.
    pub closed spec fn spec_farm(&self) -> FarmMachine {
        self.farm
    }

    /// Creates a new COP-1 reader in the Open state.
    pub fn new(config: FarmConfig) -> (r: Self)
        ensures
            r.spec_farm()@ == (cop1::farm::FarmModel {
                state: FarmState::Open,
                vr: 0,
                lockout_flag: false,
                wait_flag: false,
                retransmit_flag: false,
                farm_b_counter: 0,
                pw: config.window_width / 2,
                nw: config.window_width / 2,
                vcid: config.vcid,
            }),
    {
        Cop1Reader { farm: FarmMachine::new(config) }
    }

    /// Returns a reference to the inner FARM-1 state machine.
    pub fn farm(&self) -> (f: &FarmMachine)
        ensures
            *f == self.spec_farm(),
    {
        &self.farm
    }

    /// Returns a mutable reference for direct FARM-1 control.
    pub fn farm_mut(&mut self) -> (f: &mut FarmMachine)
        ensures
            *f == old(self).spec_farm(),
            final(self).spec_farm() == *final(f),
    {
        &mut self.farm
    }
}

/// Whether a TC frame of these bytes parses and carries an AD or BD header.
pub open spec fn tc_frame_kind_ok(frame: Seq<u8>) -> bool {
    frame.len() >= 5 && 4 <= spec_tc_header(frame).length_field && spec_tc_header(
        frame,
    ).length_field + 1 <= frame.len()
}

impl ReliabilityReader for Cop1Reader {
    type Action = Cop1ReadResult;

    /// Classifies the TC frame by its bypass and control flags and feeds it
    /// to FARM-1: an AD frame (with a buffer available) or a BD frame is
    /// handed over, anything else counts as an invalid frame. The frame is
    /// accepted exactly when FARM-1 delivers it.
    fn read(&mut self, frame: &[u8]) -> (r: Cop1ReadResult)
        ensures
            ({
                let m = old(self).spec_farm()@;
                let h = spec_tc_header(frame@);
                if !tc_frame_kind_ok(frame@) {
                    final(self).spec_farm()@ == m && r == Cop1ReadResult::Discard
                } else if h.bypass == 0 && h.control == 0 {
                    &&& final(self).spec_farm()@ == farm_next(
                        m,
                        FarmEvent::AdFrame {
                            seq: h.sequence_num,
                            buffer_available: true,
                            fdu: frame,
                        },
                    )
                    &&& (r == Cop1ReadResult::Accept) == (m.state == FarmState::Open
                        && h.sequence_num == m.vr)
                } else if h.bypass == 1 && h.control == 0 {
                    &&& final(self).spec_farm()@ == farm_next(m, FarmEvent::BdFrame { fdu: frame })
                    &&& r == Cop1ReadResult::Accept
                } else {
                    final(self).spec_farm()@ == m && r == Cop1ReadResult::Discard
                }
            }),
    {
        let mut actions = FarmActions::new();
        let plausible = frame.len() >= 5 && TelecommandTransferFrameHeader::from_bytes(
            frame,
        ).length_field >= 4;
        let tc_frame = if plausible {
            match TelecommandTransferFrame::parse(frame) {
                Ok(f) => f,
                Err(_) => {
                    self.farm.handle(FarmEvent::InvalidFrame, &mut actions);
                    return Cop1ReadResult::Discard;
                },
            }
        } else {
            self.farm.handle(FarmEvent::InvalidFrame, &mut actions);
            return Cop1ReadResult::Discard;
        };
        let ghost m = self.farm@;
        let bypass = tc_frame.header().bypass_flag();
        let control = tc_frame.header().control_flag();
        let seq = tc_frame.header().sequence_num();
        let fdu = tc_frame.data_field();
        match (bypass, control) {
            (BypassFlag::TypeA, ControlFlag::TypeD) => {
                self.farm.handle(
                    FarmEvent::AdFrame { seq, buffer_available: true, fdu },
                    &mut actions,
                );
                proof {
                    assert(farm_next(m, FarmEvent::AdFrame { seq, buffer_available: true, fdu })
                        == farm_next(
                        m,
                        FarmEvent::AdFrame { seq, buffer_available: true, fdu: frame },
                    ));
                    assert(actions@.len() == 1);
                    assert((actions@[0] is Accept) == (m.state == FarmState::Open && seq == m.vr));
                }
            },
            (BypassFlag::TypeB, ControlFlag::TypeD) => {
                self.farm.handle(FarmEvent::BdFrame { fdu }, &mut actions);
                proof {
                    assert(farm_next(m, FarmEvent::BdFrame { fdu }) == farm_next(
                        m,
                        FarmEvent::BdFrame { fdu: frame },
                    ));
                    assert(actions@.len() == 1);
                    assert(actions@[0] is Accept);
                }
            },
            _ => {
                self.farm.handle(FarmEvent::InvalidFrame, &mut actions);
                return Cop1ReadResult::Discard;
            },
        }
        let ghost acts = actions@;
        let n = actions.len();
        let mut found = false;
        let mut i: usize = 0;
        while i < n
            invariant
                i <= n,
                n == actions@.len(),
                actions@ == acts,
                found == exists|j: int| 0 <= j < i && #[trigger] acts[j] is Accept,
            decreases n - i,
        {
            if let FarmAction::Accept { .. } = actions.get(i) {
                found = true;
            }
            i = i + 1;
        }
        if found {
            Cop1ReadResult::Accept
        } else {
            Cop1ReadResult::Discard
        }
    }
}

/// No-op reliability layer (passthrough).
///
/// Accepts all frames without sequencing or retransmission.
pub struct NoReliability;

impl ReliabilityWriter for NoReliability {
    type Action = ();

    open spec fn inv(&self) -> bool {
        true
    }

    fn write(&mut self, frame: &[u8]) {
    }
}

impl ReliabilityReader for NoReliability {
    type Action = ();

    fn read(&mut self, frame: &[u8]) {
    }
}

} // verus!
