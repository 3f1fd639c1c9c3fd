use leodos_protocols::datalink::framing::sdlp::tm::{
    TelemetryTransferFrame, TmFrameReader, TmFrameWriter, TmFrameWriterConfig,
};
use leodos_protocols::datalink::link::asymmetric::{AsymmetricLink, AsymmetricLinkError};
use leodos_protocols::datalink::link::channel::{LinkError, LinkReader, LinkWriter};
use leodos_protocols::datalink::link::framed::{DatalinkError, DatalinkReader, DatalinkWriter};
use leodos_protocols::datalink::security::sdls::{ClearModeCrypto, SecurityAssociation, ServiceType};
use leodos_protocols::datalink::security::{NoSecurity, SdlsProcessor};
use leodos_protocols::ids::{Scid, Vcid};

fn tm_writer() -> TmFrameWriter<16> {
    TmFrameWriter::new(TmFrameWriterConfig { scid: Scid::new(1), vcid: Vcid::new(1), max_data_field_len: 4 })
}

#[test]
fn link_writer_send_and_flush() {
    let mut link = LinkWriter::new(tm_writer(), Vec::<Vec<u8>>::new());
    // Nothing pending: nothing to flush.
    assert!(matches!(link.start_flush::<()>(), Ok(None)));
    assert!(matches!(link.start_send::<()>(&[1, 2]), Ok(false)));
    assert!(matches!(link.start_send::<()>(&[3, 4]), Ok(false)));
    // The frame is full: flush first.
    assert!(matches!(link.start_send::<()>(&[5]), Ok(true)));
    assert!(matches!(link.start_send::<()>(&[0u8; 5]), Err(LinkError::FrameTooLarge)));
    match link.start_flush::<()>() {
        Ok(Some((frame, sink))) => {
            let parsed = TelemetryTransferFrame::parse_raw(frame).unwrap();
            assert_eq!(parsed.data_field(), &[1, 2, 3, 4]);
            sink.push(frame.to_vec());
            assert_eq!(sink.len(), 1);
        }
        _ => panic!("expected a frame"),
    }
    assert!(link.finish_send::<()>(&[5]).is_ok());
    assert!(matches!(link.finish_send::<()>(&[0u8; 5]), Err(LinkError::FrameTooLarge)));
}

#[test]
fn link_reader_receive() {
    let mut link = LinkReader::new(TmFrameReader::<16>::new(), 0u8);
    let mut out = [0u8; 2];
    assert_eq!(link.next_packet(&mut out), None);

    let (frame_buffer, _coding) = link.read_target();
    frame_buffer[..9].copy_from_slice(&[0, 0x12, 0, 0, 0, 0, 7, 8, 9]);
    // The packet is cut to the caller's buffer.
    assert!(matches!(link.accept_frame::<()>(9, &mut out), Ok(2)));
    assert_eq!(out, [7, 8]);
    // The frame's only packet has been handed out.
    assert_eq!(link.next_packet(&mut out), None);
    assert!(matches!(link.accept_frame::<()>(0, &mut out), Ok(0)));
    assert!(matches!(link.accept_frame::<()>(3, &mut out), Err(LinkError::InvalidFrame)));
}

#[test]
fn asymmetric_link_halves() {
    let mut link = AsymmetricLink::new(1u8, 2u16);
    *link.sender_mut() += 1;
    *link.receiver_mut() += 2;
    assert_eq!(*link.sender_mut(), 2);
    assert_eq!(*link.receiver_mut(), 4);
    let e: AsymmetricLinkError<u8, u16> = AsymmetricLinkError::Recv(3);
    assert!(matches!(e, AsymmetricLinkError::Recv(3)));
}

#[test]
fn datalink_writer_secures_frames() {
    let mut link = DatalinkWriter::new(tm_writer(), 0u8, NoSecurity);
    assert!(matches!(link.start_flush::<()>(), Ok(None)));
    assert!(matches!(link.start_write::<()>(&[9, 8, 7]), Ok(false)));
    assert!(matches!(link.start_write::<()>(&[1, 2]), Ok(true)));
    assert!(matches!(link.start_write::<()>(&[0u8; 9]), Err(DatalinkError::FrameTooLarge)));
    match link.start_flush::<()>() {
        Ok(Some((frame, _coding))) => {
            assert_eq!(frame.len(), 9);
            let parsed = TelemetryTransferFrame::parse_raw(frame).unwrap();
            assert_eq!(parsed.data_field(), &[9, 8, 7]);
        }
        _ => panic!("expected a frame"),
    }
    assert!(link.finish_write::<()>(&[1, 2]).is_ok());
}

#[test]
fn link_checks_before_accept_and_flush() {
    let link = LinkReader::new(TmFrameReader::<16>::new(), 0u8);
    assert!(link.can_accept(9));
    assert!(link.can_accept(16));
    assert!(!link.can_accept(17));

    let mut plain = DatalinkWriter::new(tm_writer(), 0u8, NoSecurity);
    assert!(plain.can_flush());
    assert!(matches!(plain.start_write::<()>(&[1]), Ok(false)));
    assert!(plain.can_flush());

    // An SDLS processor whose header and trailer cannot fit a 7-byte frame.
    let sa = SecurityAssociation {
        spi: 1,
        service_type: ServiceType::Authentication,
        iv_len: 4,
        sn_len: 4,
        pl_len: 0,
        mac_len: 16,
        sequence_number: 0,
        sequence_window: 100,
        auth_mask: heapless::Vec::new(),
    };
    let mut secured = DatalinkWriter::new(tm_writer(), 0u8, SdlsProcessor::new(sa, ClearModeCrypto, 6));
    // Nothing pending: nothing to secure.
    assert!(secured.can_flush());
    assert!(matches!(secured.start_write::<()>(&[1]), Ok(false)));
    assert!(!secured.can_flush());
}

#[test]
fn datalink_reader_receive() {
    let mut link = DatalinkReader::new(TmFrameReader::<16>::new(), 0u8, NoSecurity);
    let mut out = [0u8; 4];
    assert_eq!(link.next_packet(&mut out), None);

    let (frame_buffer, _coding) = link.read_target();
    frame_buffer[..9].copy_from_slice(&[0, 0x12, 0, 0, 0, 0, 7, 8, 9]);
    assert!(link.can_remove_security(9));
    assert!(!link.can_remove_security(17));
    // No bytes came: nothing to remove.
    assert!(matches!(link.remove_security::<()>(0), Ok(false)));
    assert!(matches!(link.remove_security::<()>(9), Ok(true)));
    assert!(link.can_accept(9));
    assert!(matches!(link.accept_frame::<()>(9, &mut out), Ok(3)));
    assert_eq!(out, [7, 8, 9, 0]);
    assert_eq!(link.next_packet(&mut out), None);
    assert!(matches!(link.accept_frame::<()>(0, &mut out), Ok(0)));
    assert!(matches!(link.accept_frame::<()>(3, &mut out), Err(DatalinkError::InvalidFrame)));
}

#[test]
fn datalink_reader_refuses_unsecured_frame() {
    let sa = SecurityAssociation {
        spi: 1,
        service_type: ServiceType::Authentication,
        iv_len: 4,
        sn_len: 4,
        pl_len: 0,
        mac_len: 16,
        sequence_number: 0,
        sequence_window: 100,
        auth_mask: heapless::Vec::new(),
    };
    let mut link = DatalinkReader::new(TmFrameReader::<64>::new(), 0u8, SdlsProcessor::new(sa, ClearModeCrypto, 6));
    let (frame_buffer, _coding) = link.read_target();
    frame_buffer[..6].copy_from_slice(&[0, 0x12, 0, 0, 0, 0]);
    // A frame too short for the security header and trailer cannot be processed.
    assert!(!link.can_remove_security(20));
    assert!(link.can_remove_security(40));
    // The security header names SPI 0, not the association's: refused, buffer kept.
    assert!(matches!(link.remove_security::<()>(40), Err(DatalinkError::Security)));
    let (frame_buffer, _coding) = link.read_target();
    assert_eq!(frame_buffer[..6], [0, 0x12, 0, 0, 0, 0]);
}
