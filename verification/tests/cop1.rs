use leodos_protocols::datalink::framing::sdlp::tc::{BypassFlag, ControlFlag, TelecommandTransferFrame};
use leodos_protocols::datalink::reliability::cop1::clcw::Clcw;
use leodos_protocols::datalink::reliability::cop1::farm::{
    ControlCommand, FarmAction, FarmActions, FarmConfig, FarmEvent, FarmMachine, FarmState,
};
use leodos_protocols::datalink::reliability::cop1::fop::{
    FopAction, FopActions, FopConfig, FopEvent, FopMachine, FopState,
};
use leodos_protocols::datalink::reliability::{
    Cop1ReadResult, Cop1Reader, Cop1Writer, NoReliability, ReliabilityReader, ReliabilityWriter,
};
use leodos_protocols::ids::Vcid;

fn make_farm() -> FarmMachine {
    FarmMachine::new(FarmConfig { vcid: Vcid::new(0), window_width: 10 })
}

fn first<'a>(actions: &FarmActions<'a>) -> FarmAction<'a> {
    actions.as_slice().iter().next().unwrap().clone()
}

#[test]
fn accept_in_sequence_frame() {
    let mut farm = make_farm();
    let fdu = [1, 2, 3];
    let mut actions = FarmActions::new();

    farm.handle(FarmEvent::AdFrame { seq: 0, buffer_available: true, fdu: &fdu }, &mut actions);

    assert_eq!(actions.len(), 1);
    assert!(matches!(first(&actions), FarmAction::Accept { .. }));
    assert_eq!(farm.vr(), 1);
    assert!(!farm.clcw().retransmit());
}

#[test]
fn no_buffer_transitions_to_wait() {
    let mut farm = make_farm();
    let mut actions = FarmActions::new();

    farm.handle(FarmEvent::AdFrame { seq: 0, buffer_available: false, fdu: &[] }, &mut actions);

    assert_eq!(farm.state(), FarmState::Wait);
    assert!(farm.clcw().wait());
    assert!(farm.clcw().retransmit());
}

#[test]
fn out_of_window_causes_lockout() {
    let mut farm = make_farm();
    let mut actions = FarmActions::new();

    // With W=10, PW=5: seq 200 is way outside the window
    farm.handle(FarmEvent::AdFrame { seq: 200, buffer_available: true, fdu: &[] }, &mut actions);

    assert_eq!(farm.state(), FarmState::Lockout);
    assert!(farm.clcw().lockout());
}

#[test]
fn unlock_resets_from_lockout() {
    let mut farm = make_farm();
    let mut actions = FarmActions::new();

    farm.handle(FarmEvent::AdFrame { seq: 200, buffer_available: true, fdu: &[] }, &mut actions);
    assert_eq!(farm.state(), FarmState::Lockout);

    farm.handle(FarmEvent::BcFrame { command: ControlCommand::Unlock }, &mut actions);

    assert_eq!(farm.state(), FarmState::Open);
    assert!(!farm.clcw().lockout());
}

#[test]
fn set_vr_updates_sequence() {
    let mut farm = make_farm();
    let mut actions = FarmActions::new();

    farm.handle(FarmEvent::BcFrame { command: ControlCommand::SetVr(42) }, &mut actions);

    assert_eq!(farm.vr(), 42);
    assert_eq!(farm.clcw().report_value(), 42);
}

#[test]
fn set_vr_ignored_in_lockout() {
    let mut farm = make_farm();
    let mut actions = FarmActions::new();

    farm.handle(FarmEvent::AdFrame { seq: 200, buffer_available: true, fdu: &[] }, &mut actions);

    // Set V(R) should NOT work in Lockout (E8/S3)
    farm.handle(FarmEvent::BcFrame { command: ControlCommand::SetVr(42) }, &mut actions);

    assert_eq!(farm.state(), FarmState::Lockout);
    assert_eq!(farm.vr(), 0); // unchanged
}

#[test]
fn bd_frame_accepted_in_all_states() {
    let mut farm = make_farm();
    let mut actions = FarmActions::new();

    farm.handle(FarmEvent::AdFrame { seq: 200, buffer_available: true, fdu: &[] }, &mut actions);

    farm.handle(FarmEvent::BdFrame { fdu: &[0xAA] }, &mut actions);

    assert!(matches!(first(&actions), FarmAction::Accept { .. }));
}

#[test]
fn farm_b_counter_increments_on_bd_bc() {
    let mut farm = make_farm();
    let mut actions = FarmActions::new();

    farm.handle(FarmEvent::BdFrame { fdu: &[] }, &mut actions);
    assert_eq!(farm.clcw().farm_b_counter(), 1);

    farm.handle(FarmEvent::BcFrame { command: ControlCommand::Unlock }, &mut actions);
    assert_eq!(farm.clcw().farm_b_counter(), 2);
}

#[test]
fn buffer_release_transitions_wait_to_open() {
    let mut farm = make_farm();
    let mut actions = FarmActions::new();

    farm.handle(FarmEvent::AdFrame { seq: 0, buffer_available: false, fdu: &[] }, &mut actions);
    assert_eq!(farm.state(), FarmState::Wait);

    farm.handle(FarmEvent::BufferRelease, &mut actions);

    assert_eq!(farm.state(), FarmState::Open);
    assert!(!farm.clcw().wait());
}

#[test]
fn positive_window_sets_retransmit() {
    let mut farm = make_farm();
    let mut actions = FarmActions::new();

    // Seq 3 while V(R)=0, within PW=5
    farm.handle(FarmEvent::AdFrame { seq: 3, buffer_available: true, fdu: &[] }, &mut actions);

    assert_eq!(farm.state(), FarmState::Open);
    assert!(farm.clcw().retransmit());
    assert!(matches!(first(&actions), FarmAction::Discard));
}

#[test]
fn negative_window_silently_discards() {
    let mut farm = make_farm();
    let mut actions = FarmActions::new();

    for i in 0..3u8 {
        farm.handle(FarmEvent::AdFrame { seq: i, buffer_available: true, fdu: &[] }, &mut actions);
    }
    assert_eq!(farm.vr(), 3);

    // Seq 1 is in the negative window (retransmit of old)
    farm.handle(FarmEvent::AdFrame { seq: 1, buffer_available: true, fdu: &[] }, &mut actions);

    assert_eq!(farm.state(), FarmState::Open);
    assert!(!farm.clcw().retransmit());
    assert!(matches!(first(&actions), FarmAction::Discard));
}

#[test]
fn clcw_report_action() {
    let mut farm = make_farm();
    let mut actions = FarmActions::new();

    farm.handle(FarmEvent::ClcwReport, &mut actions);

    assert!(matches!(first(&actions), FarmAction::ClcwReady));
}

#[test]
fn wrapping_sequence_acceptance() {
    let mut farm = FarmMachine::new(FarmConfig { vcid: Vcid::new(0), window_width: 10 });
    let fdu_buf = [254u8, 255, 0, 1];
    let mut actions = FarmActions::new();

    farm.handle(FarmEvent::BcFrame { command: ControlCommand::SetVr(254) }, &mut actions);

    for (i, &expected_seq) in fdu_buf.iter().enumerate() {
        farm.handle(
            FarmEvent::AdFrame { seq: expected_seq, buffer_available: true, fdu: &fdu_buf[i..i + 1] },
            &mut actions,
        );
        assert!(
            matches!(first(&actions), FarmAction::Accept { .. }),
            "should accept seq {expected_seq}"
        );
    }
    assert_eq!(farm.vr(), 2);
}

// ── FOP-1 ──

fn make_config() -> FopConfig {
    FopConfig { window_width: 4, transmission_limit: 3, timeout_type: 0 }
}

fn acts(actions: &FopActions) -> Vec<FopAction> {
    (0..actions.len()).map(|i| actions.get(i)).collect()
}

#[test]
fn starts_in_initial_state() {
    let fop: FopMachine<8, 1024> = FopMachine::new(make_config());
    assert_eq!(fop.state(), FopState::Initial);
}

#[test]
fn init_no_clcw_activates() {
    let mut fop: FopMachine<8, 1024> = FopMachine::new(make_config());
    let mut actions = FopActions::new();

    fop.handle(FopEvent::InitAdNoClcw, &mut actions);

    assert_eq!(fop.state(), FopState::Active);
    assert!(acts(&actions).iter().any(|a| matches!(a, FopAction::Accept)));
}

#[test]
fn send_ad_in_active_state() {
    let mut fop: FopMachine<8, 1024> = FopMachine::new(make_config());
    let mut actions = FopActions::new();

    fop.handle(FopEvent::InitAdNoClcw, &mut actions);
    fop.handle(FopEvent::SendAd { fdu: &[1, 2, 3] }, &mut actions);

    assert!(acts(&actions).iter().any(|a| matches!(a, FopAction::TransmitAd { seq: 0 })));
    assert_eq!(fop.vs(), 1);
    assert_eq!(fop.sent_count(), 1);
}

#[test]
fn send_ad_rejected_in_initial() {
    let mut fop: FopMachine<8, 1024> = FopMachine::new(make_config());
    let mut actions = FopActions::new();

    fop.handle(FopEvent::SendAd { fdu: &[1, 2, 3] }, &mut actions);

    assert!(acts(&actions).iter().any(|a| matches!(a, FopAction::Reject)));
}

#[test]
fn clcw_acknowledges_frames() {
    let mut fop: FopMachine<8, 1024> = FopMachine::new(make_config());
    let mut actions = FopActions::new();

    fop.handle(FopEvent::InitAdNoClcw, &mut actions);

    fop.handle(FopEvent::SendAd { fdu: &[1] }, &mut actions);
    fop.handle(FopEvent::SendAd { fdu: &[2] }, &mut actions);
    assert_eq!(fop.sent_count(), 2);

    // CLCW with N(R)=2 acknowledges both
    let mut clcw = Clcw::new();
    clcw.set_report_value(2);
    fop.handle(FopEvent::ClcwReceived { clcw }, &mut actions);

    assert_eq!(fop.sent_count(), 0);
    assert!(acts(&actions).iter().any(|a| matches!(a, FopAction::Acknowledged { seq: 0 })));
    assert!(acts(&actions).iter().any(|a| matches!(a, FopAction::Acknowledged { seq: 1 })));
}

#[test]
fn retransmit_flag_triggers_go_back_n() {
    let mut fop: FopMachine<8, 1024> = FopMachine::new(make_config());
    let mut actions = FopActions::new();

    fop.handle(FopEvent::InitAdNoClcw, &mut actions);
    fop.handle(FopEvent::SendAd { fdu: &[1] }, &mut actions);
    fop.handle(FopEvent::SendAd { fdu: &[2] }, &mut actions);

    // CLCW with retransmit flag set, N(R)=0
    let mut clcw = Clcw::new();
    clcw.set_retransmit(true);
    clcw.set_report_value(0);
    fop.handle(FopEvent::ClcwReceived { clcw }, &mut actions);

    assert_eq!(fop.state(), FopState::Retransmitting);
    let transmit_count =
        acts(&actions).iter().filter(|a| matches!(a, FopAction::TransmitAd { .. })).count();
    assert_eq!(transmit_count, 2);
}

#[test]
fn lockout_clcw_causes_alert() {
    let mut fop: FopMachine<8, 1024> = FopMachine::new(make_config());
    let mut actions = FopActions::new();

    fop.handle(FopEvent::InitAdNoClcw, &mut actions);

    let mut clcw = Clcw::new();
    clcw.set_lockout(true);
    fop.handle(FopEvent::ClcwReceived { clcw }, &mut actions);

    assert_eq!(fop.state(), FopState::Initial);
    assert!(acts(&actions).iter().any(|a| matches!(a, FopAction::Alert)));
}

#[test]
fn timer_expired_retransmits() {
    let mut fop: FopMachine<8, 1024> = FopMachine::new(make_config());
    let mut actions = FopActions::new();

    fop.handle(FopEvent::InitAdNoClcw, &mut actions);
    fop.handle(FopEvent::SendAd { fdu: &[1] }, &mut actions);

    fop.handle(FopEvent::TimerExpired, &mut actions);

    assert_eq!(fop.state(), FopState::Retransmitting);
    assert!(acts(&actions).iter().any(|a| matches!(a, FopAction::TransmitAd { seq: 0 })));
}

#[test]
fn timer_expired_alerts_after_limit() {
    let mut fop: FopMachine<8, 1024> = FopMachine::new(make_config());
    let mut actions = FopActions::new();

    fop.handle(FopEvent::InitAdNoClcw, &mut actions);
    fop.handle(FopEvent::SendAd { fdu: &[1] }, &mut actions);

    // Exhaust transmission limit (3)
    for _ in 0..3 {
        fop.handle(FopEvent::TimerExpired, &mut actions);
    }

    assert_eq!(fop.state(), FopState::Initial);
    assert!(acts(&actions).iter().any(|a| matches!(a, FopAction::Alert)));
}

#[test]
fn init_with_unlock() {
    let mut fop: FopMachine<8, 1024> = FopMachine::new(make_config());
    let mut actions = FopActions::new();

    fop.handle(FopEvent::InitAdUnlock, &mut actions);

    assert_eq!(fop.state(), FopState::InitWithUnlock);
    assert!(acts(&actions).iter().any(|a| matches!(a, FopAction::TransmitBcUnlock)));

    // Simulate successful CLCW response
    let clcw = Clcw::new(); // lockout=false, retransmit=false
    fop.handle(FopEvent::ClcwReceived { clcw }, &mut actions);

    assert_eq!(fop.state(), FopState::Active);
    assert!(acts(&actions).iter().any(|a| matches!(a, FopAction::Accept)));
}

#[test]
fn init_with_set_vr() {
    let mut fop: FopMachine<8, 1024> = FopMachine::new(make_config());
    let mut actions = FopActions::new();

    fop.handle(FopEvent::InitAdSetVr { vr: 42 }, &mut actions);

    assert_eq!(fop.state(), FopState::InitWithSetVr);
    assert!(acts(&actions).iter().any(|a| matches!(a, FopAction::TransmitBcSetVr { vr: 42 })));

    // CLCW confirms V(R)=42
    let mut clcw = Clcw::new();
    clcw.set_report_value(42);
    fop.handle(FopEvent::ClcwReceived { clcw }, &mut actions);

    assert_eq!(fop.state(), FopState::Active);
    assert_eq!(fop.vs(), 42);
}

#[test]
fn terminate_resets_to_initial() {
    let mut fop: FopMachine<8, 1024> = FopMachine::new(make_config());
    let mut actions = FopActions::new();

    fop.handle(FopEvent::InitAdNoClcw, &mut actions);
    fop.handle(FopEvent::SendAd { fdu: &[1] }, &mut actions);

    fop.handle(FopEvent::Terminate, &mut actions);

    assert_eq!(fop.state(), FopState::Initial);
    assert_eq!(fop.sent_count(), 0);
    assert!(acts(&actions).iter().any(|a| matches!(a, FopAction::Terminated)));
}

#[test]
fn bd_frame_can_be_sent() {
    let mut fop: FopMachine<8, 1024> = FopMachine::new(make_config());
    let mut actions = FopActions::new();

    fop.handle(FopEvent::InitAdNoClcw, &mut actions);
    fop.handle(FopEvent::SendBd { fdu: &[0xAA, 0xBB] }, &mut actions);

    assert!(acts(&actions).iter().any(|a| matches!(a, FopAction::TransmitBd)));
    let bd_data = fop.get_bd_fdu().unwrap();
    assert_eq!(bd_data, &[0xAA, 0xBB]);
}

#[test]
fn get_fdu_returns_correct_data() {
    let mut fop: FopMachine<8, 1024> = FopMachine::new(make_config());
    let mut actions = FopActions::new();

    fop.handle(FopEvent::InitAdNoClcw, &mut actions);
    fop.handle(FopEvent::SendAd { fdu: &[10, 20, 30] }, &mut actions);

    let fdu = fop.get_fdu(0).unwrap();
    assert_eq!(fdu, &[10, 20, 30]);
}

#[test]
fn wrapping_sequence_numbers() {
    let mut fop: FopMachine<8, 1024> = FopMachine::new(make_config());
    let mut actions = FopActions::new();

    fop.handle(FopEvent::InitAdNoClcw, &mut actions);

    fop.handle(FopEvent::Terminate, &mut actions);
    fop.handle(FopEvent::InitAdSetVr { vr: 254 }, &mut actions);
    let mut clcw = Clcw::new();
    clcw.set_report_value(254);
    fop.handle(FopEvent::ClcwReceived { clcw }, &mut actions);
    assert_eq!(fop.vs(), 254);

    fop.handle(FopEvent::SendAd { fdu: &[1] }, &mut actions);
    assert!(acts(&actions).iter().any(|a| matches!(a, FopAction::TransmitAd { seq: 254 })));

    fop.handle(FopEvent::SendAd { fdu: &[2] }, &mut actions);
    assert!(acts(&actions).iter().any(|a| matches!(a, FopAction::TransmitAd { seq: 255 })));

    fop.handle(FopEvent::SendAd { fdu: &[3] }, &mut actions);
    assert!(acts(&actions).iter().any(|a| matches!(a, FopAction::TransmitAd { seq: 0 })));

    assert_eq!(fop.vs(), 1);
}

// ── Reliability wrappers ──

fn fop_config() -> FopConfig {
    FopConfig { window_width: 4, transmission_limit: 3, timeout_type: 0 }
}

fn farm_config() -> FarmConfig {
    FarmConfig { vcid: Vcid::new(0), window_width: 10 }
}

#[test]
fn cop1_writer_rejects_in_initial_state() {
    let mut writer: Cop1Writer<8, 1024> = Cop1Writer::new(fop_config());

    let actions = writer.write(&[1, 2, 3]);
    assert!(acts(&actions).iter().any(|a| matches!(a, FopAction::Reject)));
}

#[test]
fn cop1_writer_sends_ad_when_active() {
    let mut writer: Cop1Writer<8, 1024> = Cop1Writer::new(fop_config());

    let mut init_actions = FopActions::new();
    writer.fop_mut().handle(FopEvent::InitAdNoClcw, &mut init_actions);
    assert_eq!(writer.fop().state(), FopState::Active);

    let actions = writer.write(&[0xAA, 0xBB]);
    assert!(acts(&actions).iter().any(|a| matches!(a, FopAction::TransmitAd { seq: 0 })));
}

#[test]
fn cop1_reader_accepts_in_sequence_ad() {
    let mut reader = Cop1Reader::new(farm_config());

    let mut buf = [0u8; 64];
    let frame_len = TelecommandTransferFrame::new(
        &mut buf,
        1,
        0,
        BypassFlag::TypeA,
        ControlFlag::TypeD,
        0,
        4,
    )
    .unwrap();
    buf[5..9].copy_from_slice(&[1, 2, 3, 4]);

    let result = reader.read(&buf[..frame_len]);
    assert_eq!(result, Cop1ReadResult::Accept);
    assert_eq!(reader.farm().vr(), 1);
}

#[test]
fn cop1_reader_accepts_bd_frame() {
    let mut reader = Cop1Reader::new(farm_config());

    let mut buf = [0u8; 64];
    let frame_len = TelecommandTransferFrame::new(
        &mut buf,
        1,
        0,
        BypassFlag::TypeB,
        ControlFlag::TypeD,
        0,
        2,
    )
    .unwrap();
    buf[5..7].copy_from_slice(&[0xAA, 0xBB]);

    let result = reader.read(&buf[..frame_len]);
    assert_eq!(result, Cop1ReadResult::Accept);
}

#[test]
fn no_reliability_passthrough() {
    let mut writer = NoReliability;
    let mut reader = NoReliability;

    writer.write(&[1, 2, 3]);
    reader.read(&[1, 2, 3]);
}

#[test]
fn clcw_bytes_roundtrip() {
    let mut clcw = Clcw::new();
    clcw.set_vcid(Vcid::new(5));
    clcw.set_lockout(true);
    clcw.set_retransmit(true);
    clcw.set_farm_b_counter(2);
    clcw.set_report_value(0x7E);
    let b = clcw.to_bytes();
    let back = Clcw::from_bytes(&b);
    assert_eq!(back.vcid(), 5);
    assert!(back.lockout());
    assert!(!back.wait());
    assert!(back.retransmit());
    assert_eq!(back.farm_b_counter(), 2);
    assert_eq!(back.report_value(), 0x7E);
}

#[test]
fn reader_discards_short_frame() {
    let mut reader = Cop1Reader::new(farm_config());
    assert_eq!(reader.read(&[0x00, 0x01]), Cop1ReadResult::Discard);
    assert_eq!(reader.farm().vr(), 0);
}

#[test]
fn get_fdu_keeps_data_until_acknowledged() {
    let mut fop: FopMachine<8, 1024> = FopMachine::new(make_config());
    let mut actions = FopActions::new();
    fop.handle(FopEvent::InitAdNoClcw, &mut actions);
    fop.handle(FopEvent::SendAd { fdu: &[10, 20, 30] }, &mut actions);
    fop.handle(FopEvent::SendAd { fdu: &[40] }, &mut actions);
    fop.handle(FopEvent::SendBd { fdu: &[0xAA] }, &mut actions);
    fop.handle(FopEvent::TimerExpired, &mut actions);
    // N(R) = 1 acknowledges frame 0 only.
    let mut clcw = Clcw::new();
    clcw.set_report_value(1);
    fop.handle(FopEvent::ClcwReceived { clcw }, &mut actions);
    assert_eq!(fop.get_fdu(0), None);
    assert_eq!(fop.get_fdu(1).unwrap(), &[40]);
    assert_eq!(fop.get_fdu(7), None);
}
