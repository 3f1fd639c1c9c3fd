use leodos_protocols::datalink::framing::sdlp::proximity1::{
    BuildError, DfcId, ParseError, PduType, Plcw, Prox1FrameReader, Prox1FrameWriter,
    Prox1FrameWriterConfig, Proximity1TransferFrame, QoS, SegmentHeader, SequenceFlag, SrcDest,
    DFC_ID_MASK, FORMAT_ID_MASK, MAX_DATA_FIELD_LEN, MAX_FRAME_LEN, PROXIMITY1_VERSION,
    TYPE_ID_MASK,
};
use leodos_protocols::datalink::framing::{FrameReader, FrameWriter, PushError};

#[test]
fn proximity1_build_and_parse_u_frame() {
    let mut buf = [0u8; 256];
    let payload = [0xDE, 0xAD, 0xBE, 0xEF];

    let total = Proximity1TransferFrame::new(
        &mut buf,
        42,
        QoS::SequenceControlled,
        PduType::UserData,
        DfcId::Packets,
        false,
        3,
        SrcDest::Source,
        0x7F,
        payload.len(),
    )
    .unwrap();
    buf[5..5 + payload.len()].copy_from_slice(&payload);

    let frame = Proximity1TransferFrame::parse(&buf[..total]).unwrap();
    assert_eq!(frame.header().version(), PROXIMITY1_VERSION);
    assert_eq!(frame.header().qos(), QoS::SequenceControlled);
    assert_eq!(frame.header().pdu_type(), PduType::UserData);
    assert_eq!(frame.header().dfc_id(), DfcId::Packets);
    assert_eq!(frame.header().scid(), 42);
    assert!(!frame.header().pcid());
    assert_eq!(frame.header().port_id(), 3);
    assert_eq!(frame.header().src_dest(), SrcDest::Source);
    assert_eq!(frame.header().frame_len(), 5 + payload.len());
    assert_eq!(frame.header().fsn(), 0x7F);
    assert_eq!(frame.data_field(), &payload);
}

#[test]
fn proximity1_build_and_parse_p_frame() {
    let mut buf = [0u8; 64];

    let total = Proximity1TransferFrame::new(
        &mut buf,
        1023,
        QoS::Expedited,
        PduType::Supervisory,
        DfcId::Packets,
        true,
        0,
        SrcDest::Destination,
        255,
        8,
    )
    .unwrap();

    let frame = Proximity1TransferFrame::parse(&buf[..total]).unwrap();
    assert_eq!(frame.header().scid(), 1023);
    assert_eq!(frame.header().qos(), QoS::Expedited);
    assert_eq!(frame.header().pdu_type(), PduType::Supervisory);
    assert!(frame.header().pcid());
    assert_eq!(frame.header().src_dest(), SrcDest::Destination);
    assert_eq!(frame.header().fsn(), 255);
}

#[test]
fn proximity1_parse_roundtrip() {
    let mut buf = [0u8; 128];

    let total = Proximity1TransferFrame::new(
        &mut buf,
        500,
        QoS::Expedited,
        PduType::UserData,
        DfcId::UserDefined,
        false,
        7,
        SrcDest::Source,
        42,
        10,
    )
    .unwrap();

    let parsed = Proximity1TransferFrame::parse(&buf[..total]).unwrap();
    assert_eq!(parsed.header().scid(), 500);
    assert_eq!(parsed.header().qos(), QoS::Expedited);
    assert_eq!(parsed.header().dfc_id(), DfcId::UserDefined);
    assert_eq!(parsed.header().port_id(), 7);
    assert_eq!(parsed.header().fsn(), 42);
    assert_eq!(parsed.data_field().len(), 10);
    assert_eq!(parsed.frame_len(), total);
}

fn build_default(buf: &mut [u8], scid: u16, port_id: u8, len: usize) -> Result<usize, BuildError> {
    Proximity1TransferFrame::new(
        buf,
        scid,
        QoS::SequenceControlled,
        PduType::UserData,
        DfcId::Packets,
        false,
        port_id,
        SrcDest::Source,
        0,
        len,
    )
}

#[test]
fn proximity1_invalid_scid_rejected() {
    let mut buf = [0u8; 64];
    let err = build_default(&mut buf, 1024, 0, 1);
    assert!(matches!(err, Err(BuildError::InvalidScid(1024))));
}

#[test]
fn proximity1_invalid_port_id_rejected() {
    let mut buf = [0u8; 64];
    let err = build_default(&mut buf, 0, 8, 1);
    assert!(matches!(err, Err(BuildError::InvalidPortId(8))));
}

#[test]
fn proximity1_data_too_long_rejected() {
    let mut buf = [0u8; 64];
    let err = build_default(&mut buf, 0, 0, 2044);
    assert!(matches!(err, Err(BuildError::DataTooLong(2044))));
}

#[test]
fn proximity1_buffer_too_small_rejected() {
    let mut buf = [0u8; 4];
    let err = build_default(&mut buf, 0, 0, 1);
    assert!(matches!(err, Err(BuildError::BufferTooSmall { required: 6, provided: 4 })));
}

#[test]
fn proximity1_parse_too_short() {
    let buf = [0u8; 3];
    let err = Proximity1TransferFrame::parse(&buf);
    assert!(matches!(err, Err(ParseError::TooShortForHeader { actual: 3 })));
}

#[test]
fn proximity1_parse_invalid_version() {
    let mut buf = [0u8; 16];
    buf[0] = 0x00;
    buf[1] = 0x00;
    buf[2] = 0x00;
    buf[3] = 0x0F; // frame length C=15 -> 16 bytes total
    let err = Proximity1TransferFrame::parse(&buf);
    assert!(matches!(err, Err(ParseError::InvalidVersion(0))));
}

#[test]
fn proximity1_max_frame_size() {
    let mut buf = [0u8; MAX_FRAME_LEN];
    let total = Proximity1TransferFrame::new(
        &mut buf,
        0,
        QoS::Expedited,
        PduType::UserData,
        DfcId::UserDefined,
        false,
        0,
        SrcDest::Source,
        0,
        MAX_DATA_FIELD_LEN,
    )
    .unwrap();

    assert_eq!(total, MAX_FRAME_LEN);
    let frame = Proximity1TransferFrame::parse(&buf[..total]).unwrap();
    assert_eq!(frame.frame_len(), MAX_FRAME_LEN);
    assert_eq!(frame.data_field().len(), MAX_DATA_FIELD_LEN);
}

#[test]
fn proximity1_all_dfc_id_variants() {
    for (dfc, expected_raw) in [
        (DfcId::Packets, 0b00u8),
        (DfcId::Segments, 0b01),
        (DfcId::Reserved, 0b10),
        (DfcId::UserDefined, 0b11),
    ] {
        let mut buf = [0u8; 16];
        let total = Proximity1TransferFrame::new(
            &mut buf,
            0,
            QoS::SequenceControlled,
            PduType::UserData,
            dfc,
            false,
            0,
            SrcDest::Source,
            0,
            1,
        )
        .unwrap();

        let frame = Proximity1TransferFrame::parse(&buf[..total]).unwrap();
        assert_eq!(frame.header().dfc_id(), dfc);
        let word = u16::from_be_bytes([buf[0], buf[1]]);
        let raw = (word & DFC_ID_MASK) >> DFC_ID_MASK.trailing_zeros();
        assert_eq!(raw as u8, expected_raw);
    }
}

#[test]
fn plcw_roundtrip() {
    let plcw = Plcw::new(true, false, 5, 0xAB);
    assert!(plcw.retransmit());
    assert!(!plcw.pcid());
    assert_eq!(plcw.expedited_counter(), 5);
    assert_eq!(plcw.report_value(), 0xAB);

    let bytes = plcw.to_bytes();
    let parsed = Plcw::from_bytes(&bytes);
    assert_eq!(parsed, plcw);
}

#[test]
fn plcw_format_id_always_set() {
    let plcw = Plcw::new(false, false, 0, 0);
    // Bit 0 (MSB) should always be 1
    assert!(plcw.raw() & FORMAT_ID_MASK != 0);
    // Type ID should be 0 for PLCW
    assert!(plcw.raw() & TYPE_ID_MASK == 0);
}

#[test]
fn plcw_all_fields() {
    let plcw = Plcw::new(false, true, 7, 255);
    assert!(!plcw.retransmit());
    assert!(plcw.pcid());
    assert_eq!(plcw.expedited_counter(), 7);
    assert_eq!(plcw.report_value(), 255);
}

#[test]
fn plcw_display() {
    let plcw = Plcw::new(true, false, 3, 42);
    let s = plcw.to_string();
    assert!(s.contains("rt=1"));
    assert!(s.contains("vr=42"));
}

#[test]
fn segment_header_roundtrip() {
    let hdr = SegmentHeader::new(SequenceFlag::First, 42);
    assert_eq!(hdr.flags(), SequenceFlag::First);
    assert_eq!(hdr.pseudo_packet_id(), 42);

    let b = hdr.to_byte();
    let parsed = SegmentHeader::from_byte(b);
    assert_eq!(parsed, hdr);
}

#[test]
fn segment_header_all_flags() {
    for (flag, expected_bits) in [
        (SequenceFlag::First, 0b01),
        (SequenceFlag::Continuation, 0b00),
        (SequenceFlag::Last, 0b10),
        (SequenceFlag::Unsegmented, 0b11),
    ] {
        let hdr = SegmentHeader::new(flag, 0);
        assert_eq!(hdr.flags(), flag);
        assert_eq!(hdr.to_byte() >> 6, expected_bits);
    }
}

#[test]
fn segment_header_pseudo_id_masked() {
    // Only 6 bits should be kept
    let hdr = SegmentHeader::new(SequenceFlag::Unsegmented, 0xFF);
    assert_eq!(hdr.pseudo_packet_id(), 0x3F);
}

#[test]
fn plcw_exact_text_and_bytes() {
    let plcw = Plcw::new(true, true, 2, 9);
    assert_eq!(plcw.to_string(), "PLCW[rt=1 pcid=1 exp=2 vr=9]");
    assert_eq!(plcw.raw(), 0x8000 | 0x2000 | 0x1000 | 0x0200 | 9);
    assert_eq!(plcw.to_bytes(), [0xB2, 0x09]);
}

#[test]
fn prox1_writer_reader_roundtrip() {
    let config = Prox1FrameWriterConfig {
        scid: 5,
        qos: QoS::SequenceControlled,
        pdu_type: PduType::UserData,
        dfc_id: DfcId::Packets,
        pcid: false,
        port_id: 2,
        src_dest: SrcDest::Source,
        max_data_field_len: 8,
    };
    let mut writer = Prox1FrameWriter::<32>::new(config);
    assert!(writer.is_empty());
    writer.push(&[1, 2, 3]).unwrap();
    assert_eq!(writer.push(&[0u8; 9]), Err(PushError::TooLarge));
    assert_eq!(writer.push(&[0u8; 6]), Err(PushError::Full));
    let frame: Vec<u8> = writer.finish().unwrap().to_vec();
    assert_eq!(frame.len(), 8);
    let parsed = Proximity1TransferFrame::parse(&frame).unwrap();
    assert_eq!(parsed.header().scid(), 5);
    assert_eq!(parsed.header().port_id(), 2);
    assert_eq!(parsed.header().fsn(), 0);
    assert_eq!(parsed.data_field(), &[1, 2, 3]);

    let mut reader = Prox1FrameReader::<32>::new();
    reader.buffer_mut()[..frame.len()].copy_from_slice(&frame);
    reader.feed(frame.len()).unwrap();
    assert_eq!(reader.data_field(), &[1, 2, 3]);
    assert_eq!(reader.next(), Some(&[1u8, 2, 3][..]));
    assert_eq!(reader.next(), None);

    writer.push(&[4]).unwrap();
    let frame2: Vec<u8> = writer.finish().unwrap().to_vec();
    assert_eq!(Proximity1TransferFrame::parse(&frame2).unwrap().header().fsn(), 1);
}

#[test]
fn proximity1_display_format() {
    let mut buf = [0u8; 16];
    let total = Proximity1TransferFrame::new(
        &mut buf,
        100,
        QoS::Expedited,
        PduType::Supervisory,
        DfcId::Packets,
        true,
        5,
        SrcDest::Destination,
        77,
        4,
    )
    .unwrap();

    let frame = Proximity1TransferFrame::parse(&buf[..total]).unwrap();
    let s = frame.to_string();
    assert!(s.contains("scid=100"));
    assert!(s.contains("fsn=77"));
    assert_eq!(
        s,
        "Prox1[v=2 qos=Expedited pdu=Supervisory dfc=Packets scid=100 pcid=1 port=5 sd=Destination len=9 fsn=77] data=[4B]"
    );
}
