use leodos_protocols::datalink::framing::sdlp::aos::{
    self as aos, AosFrameReader, AosFrameWriter, AosFrameWriterConfig, AosTransferFrame,
};
use leodos_protocols::datalink::framing::sdlp::tm::{
    self as tm, TelemetryTransferFrame, TmFrameReader, TmFrameWriter, TmFrameWriterConfig,
};
use leodos_protocols::datalink::framing::{FrameReader, FrameWriter, PushError};
use leodos_protocols::ids::{Scid, Vcid};

#[test]
fn test_aos_builder_and_parser() {
    let mut buf = [0u8; 1024];
    let payload = [0xAA, 0xBB, 0xCC];

    let total =
        AosTransferFrame::new(&mut buf, 0x12, 0x3F, 0x123456, true, false, &payload).unwrap();

    let frame = AosTransferFrame::parse_raw(&buf[..total]).unwrap();
    assert_eq!(frame.header().scid(), 0x12);
    assert_eq!(frame.header().vcid(), 0x3F);
    assert_eq!(frame.header().vc_frame_count(), 0x123456);
    assert!(frame.header().is_replay());
    assert_eq!(frame.data(), &payload);
}

#[test]
fn aos_new_errors() {
    let mut small = [0u8; 8];
    assert_eq!(
        AosTransferFrame::new(&mut small, 1, 1, 0, false, false, &[0u8; 3]),
        Err(aos::BuildError::BufferTooSmall { required: 9, provided: 8 })
    );
    let mut buf = [0u8; 16];
    assert_eq!(
        AosTransferFrame::new(&mut buf, 1, 0x40, 0, false, false, &[]),
        Err(aos::BuildError::InvalidVcid(0x40))
    );
}

#[test]
fn aos_exact_header_bytes() {
    let mut buf = [0u8; 8];
    let total = AosTransferFrame::new(&mut buf, 0xAB, 0x05, 0x0102_0304, false, true, &[7, 8]).unwrap();
    assert_eq!(total, 8);
    // 01 | 10101011 | 000101 = 0x6AC5; count keeps its low 24 bits.
    assert_eq!(buf, [0x6A, 0xC5, 0x02, 0x03, 0x04, 0x40, 7, 8]);
}

#[test]
fn aos_parse_errors() {
    assert_eq!(AosTransferFrame::parse_raw(&[0x40, 0, 0, 0, 0]).unwrap_err(), aos::ParseError::TooShortForHeader);
    assert_eq!(
        AosTransferFrame::parse_raw(&[0x00, 0, 0, 0, 0, 0]).unwrap_err(),
        aos::ParseError::InvalidVersion(0)
    );
}

#[test]
fn aos_writer_reader_roundtrip() {
    let mut writer = AosFrameWriter::<32>::new(AosFrameWriterConfig { scid: 3, vcid: 4, max_data_field_len: 10 });
    writer.push(&[1, 2]).unwrap();
    writer.push(&[3]).unwrap();
    assert_eq!(writer.push(&[0u8; 11]), Err(PushError::TooLarge));
    assert_eq!(writer.push(&[0u8; 8]), Err(PushError::Full));
    let frame: Vec<u8> = writer.finish().unwrap().to_vec();
    assert_eq!(frame.len(), 9);
    let parsed = AosTransferFrame::parse_raw(&frame).unwrap();
    assert_eq!(parsed.header().scid(), 3);
    assert_eq!(parsed.header().vcid(), 4);
    assert_eq!(parsed.header().vc_frame_count(), 0);
    assert!(!parsed.header().is_replay());
    assert_eq!(parsed.data(), &[1, 2, 3]);

    writer.push(&[9]).unwrap();
    let frame2: Vec<u8> = writer.finish().unwrap().to_vec();
    assert_eq!(AosTransferFrame::parse_raw(&frame2).unwrap().header().vc_frame_count(), 1);

    let mut reader = AosFrameReader::<32>::new();
    reader.buffer_mut()[..frame.len()].copy_from_slice(&frame);
    reader.feed(frame.len()).unwrap();
    assert_eq!(reader.next(), Some(&[1u8, 2, 3][..]));
    assert_eq!(reader.next(), None);
}

#[test]
fn tm_build_and_parse() {
    let mut buf = [0u8; 16];
    let len = TelemetryTransferFrame::new(&mut buf, 0, Scid::new(0x155), Vcid::new(5), 7, 9, 0x123).unwrap();
    assert_eq!(len, 16);
    let frame = TelemetryTransferFrame::parse_raw(&buf).unwrap();
    assert_eq!(frame.header().version(), 0);
    assert_eq!(frame.header().scid(), Scid::new(0x155));
    assert_eq!(frame.header().vcid(), Vcid::new(5));
    assert_eq!(frame.header().mc_frame_count(), 7);
    assert_eq!(frame.header().vc_frame_count(), 9);
    assert_eq!(frame.header().first_header_pointer(), 0x123);
    assert_eq!(frame.data_field().len(), 10);
    // 00 | 0101010101 | 101 | 0 = 0x155A
    assert_eq!(&buf[..6], &[0x15, 0x5A, 7, 9, 0x01, 0x23]);
}

#[test]
fn tm_new_errors() {
    let mut small = [0u8; 5];
    assert_eq!(
        TelemetryTransferFrame::new(&mut small, 0, Scid::new(1), Vcid::new(1), 0, 0, 0),
        Err(tm::BuildError::BufferTooSmall { required_len: 6, provided_len: 5 })
    );
    let mut buf = [0u8; 8];
    assert_eq!(
        TelemetryTransferFrame::new(&mut buf, 0, Scid::new(1024), Vcid::new(1), 0, 0, 0),
        Err(tm::BuildError::InvalidScid(Scid::new(1024)))
    );
    assert_eq!(
        TelemetryTransferFrame::new(&mut buf, 0, Scid::new(1), Vcid::new(8), 0, 0, 0),
        Err(tm::BuildError::InvalidVcid(Vcid::new(8)))
    );
    assert_eq!(TelemetryTransferFrame::parse_raw(&[0u8; 5]).unwrap_err(), tm::ParseError::TooShortForHeader);
}

#[test]
fn tm_new_keeps_ocf_and_status_flags() {
    let mut buf = [0x00u8, 0x01, 0, 0, 0xF8, 0x00, 0xEE];
    TelemetryTransferFrame::new(&mut buf, 0, Scid::new(0), Vcid::new(0), 0, 0, 0x7FF).unwrap();
    assert_eq!(buf, [0x00, 0x01, 0, 0, 0xFF, 0xFF, 0xEE]);
}

#[test]
fn tm_writer_counts_wrap() {
    let mut writer = TmFrameWriter::<16>::new(TmFrameWriterConfig {
        scid: Scid::new(9),
        vcid: Vcid::new(2),
        max_data_field_len: 4,
    });
    for i in 0..=256u32 {
        writer.push(&[i as u8]).unwrap();
        let frame = writer.finish().unwrap();
        let parsed = TelemetryTransferFrame::parse_raw(frame).unwrap();
        assert_eq!(parsed.header().mc_frame_count(), (i % 256) as u8);
        assert_eq!(parsed.header().vc_frame_count(), (i % 256) as u8);
        assert_eq!(parsed.data_field(), &[i as u8]);
    }
    let mut reader = TmFrameReader::<16>::new();
    assert!(reader.feed(4).is_err());
    reader.buffer_mut()[..7].copy_from_slice(&[0, 0x92, 0, 0, 0, 0, 42]);
    reader.feed(7).unwrap();
    assert_eq!(reader.next(), Some(&[42u8][..]));
}
