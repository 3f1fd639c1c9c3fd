use leodos_protocols::datalink::framing::uslp::{
    BuildError, ParseError, TfdzRule, Upid, UslpFrameReader, UslpFrameWriter,
    UslpFrameWriterConfig, UslpTransferFrame, USLP_TFVN,
};
use leodos_protocols::datalink::framing::{FrameReader, FrameWriter, PushError};

/// Builds a frame over the whole buffer with the defaults of the builder.
fn build(buf: &mut [u8], scid: u16, vcid: u8) -> Result<usize, BuildError> {
    UslpTransferFrame::new(buf, scid, vcid, false, 0, false, false, false, 0, 0)
}

#[test]
fn build_and_parse_basic_frame() {
    let mut buf = [0u8; 32];
    build(&mut buf, 42, 1).unwrap();
    let frame = UslpTransferFrame::parse(&buf).unwrap();

    assert_eq!(frame.header().tfvn(), USLP_TFVN);
    assert_eq!(frame.header().scid(), 42);
    assert_eq!(frame.header().vcid(), 1);
    assert_eq!(frame.header().map_id(), 0);
    assert!(!frame.header().source_or_dest());
    assert!(!frame.header().eofph());
    assert!(!frame.header().bypass());
    assert!(!frame.header().protocol_control_command());
    assert!(!frame.header().ocf_flag());
    assert_eq!(frame.header().vcf_count_length(), 0);
    assert_eq!(frame.header().frame_length(), 31);
}

#[test]
fn parse_validates_tfvn() {
    let mut buf = [0u8; 16];
    build(&mut buf, 0, 0).unwrap();
    buf[0] = 0x00; // TFVN = 0 instead of 0xC
    let err = UslpTransferFrame::parse(&buf).unwrap_err();
    assert_eq!(err, ParseError::InvalidVersion(0));
}

#[test]
fn parse_validates_length() {
    let mut buf = [0u8; 16];
    build(&mut buf, 0, 0).unwrap();
    let err = UslpTransferFrame::parse(&buf[..12]).unwrap_err();
    assert!(matches!(err, ParseError::LengthMismatch { .. }));
}

#[test]
fn roundtrip_with_vcf_count() {
    let mut buf = [0u8; 64];
    UslpTransferFrame::new(&mut buf, 1000, 5, false, 3, true, false, false, 2, 1234).unwrap();
    let frame = UslpTransferFrame::parse(&buf).unwrap();

    assert_eq!(frame.header().scid(), 1000);
    assert_eq!(frame.header().vcid(), 5);
    assert_eq!(frame.header().map_id(), 3);
    assert!(frame.header().bypass());
    assert_eq!(frame.header().vcf_count_length(), 2);
    assert_eq!(frame.vcf_count(), 1234);
    assert_eq!(frame.primary_header_size(), 9);
}

#[test]
fn roundtrip_parse() {
    let mut buf = [0u8; 32];
    UslpTransferFrame::new(&mut buf, 500, 7, true, 0, false, false, true, 0, 0).unwrap();

    let frame = UslpTransferFrame::parse(&buf).unwrap();
    assert_eq!(frame.header().scid(), 500);
    assert_eq!(frame.header().vcid(), 7);
    assert!(frame.header().source_or_dest());
    assert!(frame.header().ocf_flag());
}

#[test]
fn tfdf_header_roundtrip() {
    let mut buf = [0u8; 32];
    build(&mut buf, 0, 0).unwrap();

    UslpTransferFrame::set_tfdf_header(
        &mut buf,
        0,
        TfdzRule::NoSegmentation,
        Upid::SpacePackets.code(),
        None,
    );

    let frame = UslpTransferFrame::parse(&buf).unwrap();
    assert_eq!(frame.tfdz_rule(0), TfdzRule::NoSegmentation);
    assert_eq!(frame.upid(0), 0);
    assert_eq!(frame.pointer(0), None);
}

#[test]
fn tfdf_header_with_pointer() {
    let mut buf = [0u8; 32];
    build(&mut buf, 0, 0).unwrap();

    UslpTransferFrame::set_tfdf_header(
        &mut buf,
        0,
        TfdzRule::PacketsSpanning,
        Upid::SpacePackets.code(),
        Some(0x0100),
    );

    let frame = UslpTransferFrame::parse(&buf).unwrap();
    assert_eq!(frame.tfdz_rule(0), TfdzRule::PacketsSpanning);
    assert_eq!(frame.pointer(0), Some(0x0100));
}

#[test]
fn invalid_vcid_rejected() {
    let mut buf = [0u8; 32];
    let err = build(&mut buf, 0, 64).unwrap_err();
    assert_eq!(err, BuildError::InvalidVcid(64));
}

#[test]
fn tfdz_rule_from_bits() {
    for i in 0..=7u8 {
        let rule = TfdzRule::from_bits(i);
        assert_eq!(rule.code(), i);
    }
}

#[test]
fn tfdz_rule_has_pointer() {
    assert!(TfdzRule::PacketsSpanning.has_pointer());
    assert!(TfdzRule::SduStart.has_pointer());
    assert!(TfdzRule::SduContinue.has_pointer());
    assert!(!TfdzRule::OctetStream.has_pointer());
    assert!(!TfdzRule::StartingSegment.has_pointer());
    assert!(!TfdzRule::ContinuingSegment.has_pointer());
    assert!(!TfdzRule::LastSegment.has_pointer());
    assert!(!TfdzRule::NoSegmentation.has_pointer());
}

#[test]
fn max_scid() {
    let mut buf = [0u8; 16];
    build(&mut buf, 0xFFFF, 0).unwrap();
    let frame = UslpTransferFrame::parse(&buf).unwrap();
    assert_eq!(frame.header().scid(), 0xFFFF);
}

#[test]
fn uslp_new_returns_frame_length() {
    let mut buf = [0u8; 20];
    assert_eq!(build(&mut buf, 1, 1), Ok(20));
    // Frame Length field is total length minus one.
    assert_eq!(u16::from_be_bytes([buf[4], buf[5]]), 19);
}

#[test]
fn uslp_writer_reader_roundtrip() {
    let config = UslpFrameWriterConfig {
        scid: 77,
        vcid: 3,
        map_id: 1,
        bypass: false,
        protocol_control_command: false,
        ocf_flag: false,
        vcf_count_length: 1,
        insert_zone_len: 0,
        tfdz_rule: TfdzRule::NoSegmentation,
        upid: Upid::SpacePackets.code(),
        fecf_present: false,
        max_data_zone_len: 16,
    };
    let mut writer = UslpFrameWriter::<64>::new(config);
    assert!(writer.is_empty());
    writer.push(&[1, 2, 3]).unwrap();
    writer.push(&[4, 5]).unwrap();
    assert!(!writer.is_empty());
    assert_eq!(writer.push(&[0u8; 17]), Err(PushError::TooLarge));
    assert_eq!(writer.push(&[0u8; 12]), Err(PushError::Full));
    let frame: Vec<u8> = writer.finish().unwrap().to_vec();
    // 7 header + 1 VCF count + 1 TFDF header + 5 data.
    assert_eq!(frame.len(), 14);
    assert!(writer.is_empty());

    let parsed = UslpTransferFrame::parse(&frame).unwrap();
    assert_eq!(parsed.header().scid(), 77);
    assert_eq!(parsed.header().vcid(), 3);
    assert_eq!(parsed.header().map_id(), 1);
    assert_eq!(parsed.vcf_count(), 0);
    assert_eq!(parsed.data_zone(0, false), &[1, 2, 3, 4, 5]);

    let mut reader = UslpFrameReader::<64>::new(0, false);
    reader.buffer_mut()[..frame.len()].copy_from_slice(&frame);
    reader.feed(frame.len()).unwrap();
    assert_eq!(reader.next(), Some(&[1u8, 2, 3, 4, 5][..]));
    assert_eq!(reader.next(), None);

    // The second frame carries the next VCF count.
    writer.push(&[9]).unwrap();
    let frame2: Vec<u8> = writer.finish().unwrap().to_vec();
    assert_eq!(UslpTransferFrame::parse(&frame2).unwrap().vcf_count(), 1);
}

#[test]
fn new_zeroes_the_body_after_the_header() {
    let mut buf = [0xEEu8; 24];
    UslpTransferFrame::new(&mut buf, 7, 2, false, 1, false, false, false, 2, 0x0102).unwrap();
    assert_eq!(&buf[7..9], &[0x01, 0x02]);
    assert!(buf[9..].iter().all(|&b| b == 0));
}
