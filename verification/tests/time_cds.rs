use leodos_protocols::misc::time::cds::{
    CdsConfig, CdsError, CdsTime, EpochId, SubMillis, EPOCH_ID_MASK, MS_PER_DAY,
};

#[test]
fn cds_p_field_roundtrip() {
    let config = CdsConfig::CCSDS_16();
    let pf = config.p_field();
    let parsed = CdsConfig::from_p_field(pf).unwrap();
    assert_eq!(parsed, config);
}

#[test]
fn p_field_with_us() {
    let config = CdsConfig::CCSDS_16_US();
    let pf = config.p_field();
    let parsed = CdsConfig::from_p_field(pf).unwrap();
    assert_eq!(parsed, config);
    assert_eq!(parsed.sub_millis, SubMillis::Microseconds);
}

#[test]
fn p_field_24bit_day() {
    let config = CdsConfig {
        epoch: EpochId::Ccsds,
        day_24bit: true,
        sub_millis: SubMillis::Absent,
    };
    let pf = config.p_field();
    let parsed = CdsConfig::from_p_field(pf).unwrap();
    assert!(parsed.day_24bit);
}

#[test]
fn p_field_agency_epoch() {
    let config = CdsConfig {
        epoch: EpochId::Agency,
        day_24bit: false,
        sub_millis: SubMillis::Absent,
    };
    let pf = config.p_field();
    assert_eq!((pf & EPOCH_ID_MASK) >> EPOCH_ID_MASK.trailing_zeros(), 1);
    let parsed = CdsConfig::from_p_field(pf).unwrap();
    assert_eq!(parsed.epoch, EpochId::Agency);
}

#[test]
fn p_field_value() {
    // CDS (100), CCSDS epoch (0), 16-bit day (0), no sub-ms (00)
    assert_eq!(CdsConfig::CCSDS_16().p_field(), 0x40);
    // CDS (100), CCSDS epoch (0), 16-bit day (0), µs (01)
    assert_eq!(CdsConfig::CCSDS_16_US().p_field(), 0x41);
}

#[test]
fn encode_decode_16bit_no_subms() {
    let t = CdsTime::new(CdsConfig::CCSDS_16(), 1000, 43_200_000, 0);
    let mut buf = [0u8; 16];
    let len = t.encode(&mut buf).unwrap();
    // 1 P + 2 day + 4 ms = 7
    assert_eq!(len, 7);

    let decoded = CdsTime::decode(&buf[..len]).unwrap();
    assert_eq!(decoded.day, 1000);
    assert_eq!(decoded.ms_of_day, 43_200_000);
    assert_eq!(decoded.sub_ms, 0);
}

#[test]
fn encode_decode_16bit_us() {
    let t = CdsTime::new(CdsConfig::CCSDS_16_US(), 500, 1000, 750);
    let mut buf = [0u8; 16];
    let len = t.encode(&mut buf).unwrap();
    // 1 P + 2 day + 4 ms + 2 µs = 9
    assert_eq!(len, 9);

    let decoded = CdsTime::decode(&buf[..len]).unwrap();
    assert_eq!(decoded.day, 500);
    assert_eq!(decoded.ms_of_day, 1000);
    assert_eq!(decoded.sub_ms, 750);
}

#[test]
fn encode_decode_24bit_ps() {
    let config = CdsConfig {
        epoch: EpochId::Ccsds,
        day_24bit: true,
        sub_millis: SubMillis::Picoseconds,
    };
    let t = CdsTime::new(config, 100_000, 50_000_000, 123_456_789);
    let mut buf = [0u8; 16];
    let len = t.encode(&mut buf).unwrap();
    // 1 P + 3 day + 4 ms + 4 ps = 12
    assert_eq!(len, 12);

    let decoded = CdsTime::decode(&buf[..len]).unwrap();
    assert_eq!(decoded.day, 100_000);
    assert_eq!(decoded.ms_of_day, 50_000_000);
    assert_eq!(decoded.sub_ms, 123_456_789);
}

#[test]
fn cds_t_field_only() {
    let config = CdsConfig::CCSDS_16();
    let t = CdsTime::new(config, 365, 72_000_000, 0);
    let mut buf = [0u8; 8];
    let len = t.encode_t_field(&mut buf).unwrap();
    assert_eq!(len, 6); // 2 day + 4 ms

    let decoded = CdsTime::decode_t_field(&config, &buf[..len]).unwrap();
    assert_eq!(decoded.day, 365);
    assert_eq!(decoded.ms_of_day, 72_000_000);
}

#[test]
fn cds_buffer_too_short() {
    let t = CdsTime::new(CdsConfig::CCSDS_16(), 0, 0, 0);
    let mut buf = [0u8; 3];
    assert!(matches!(
        t.encode(&mut buf),
        Err(CdsError::BufferTooShort { required: 7, .. })
    ));
}

#[test]
fn not_cds_p_field() {
    // CUC P-field (time code ID = 010)
    let err = CdsConfig::from_p_field(0x2E);
    assert!(matches!(err, Err(CdsError::NotCds(0b010))));
}

#[test]
fn max_16bit_day() {
    let t = CdsTime::new(CdsConfig::CCSDS_16(), 65535, 0, 0);
    let mut buf = [0u8; 8];
    let len = t.encode(&mut buf).unwrap();
    let decoded = CdsTime::decode(&buf[..len]).unwrap();
    assert_eq!(decoded.day, 65535);
}

#[test]
fn max_24bit_day() {
    let config = CdsConfig {
        epoch: EpochId::Ccsds,
        day_24bit: true,
        sub_millis: SubMillis::Absent,
    };
    let t = CdsTime::new(config, 0xFF_FFFF, 0, 0);
    let mut buf = [0u8; 12];
    let len = t.encode(&mut buf).unwrap();
    let decoded = CdsTime::decode(&buf[..len]).unwrap();
    assert_eq!(decoded.day, 0xFF_FFFF);
}

#[test]
fn midnight_and_end_of_day() {
    let config = CdsConfig::CCSDS_16();

    let midnight = CdsTime::new(config, 0, 0, 0);
    assert_eq!(midnight.ms_of_day, 0);

    let end = CdsTime::new(config, 0, MS_PER_DAY - 1, 0);
    assert_eq!(end.ms_of_day, 86_399_999);

    let mut buf = [0u8; 8];
    end.encode(&mut buf).unwrap();
    let decoded = CdsTime::decode(&buf).unwrap();
    assert_eq!(decoded.ms_of_day, 86_399_999);
}

#[test]
fn encoded_len_values() {
    assert_eq!(CdsConfig::CCSDS_16().encoded_len(), 7);
    assert_eq!(CdsConfig::CCSDS_16_US().encoded_len(), 9);
    let ps_24 = CdsConfig {
        epoch: EpochId::Ccsds,
        day_24bit: true,
        sub_millis: SubMillis::Picoseconds,
    };
    assert_eq!(ps_24.encoded_len(), 12);
}

#[test]
fn cds_encoding_bytes_exact() {
    // 16-bit day 0x0102, ms 0x03040506, µs 0x0708: P-field 0x41
    let t = CdsTime::new(CdsConfig::CCSDS_16_US(), 0x0102, 0x0304_0506, 0x0708);
    let mut buf = [0xEEu8; 10];
    assert_eq!(t.encode(&mut buf), Ok(9));
    assert_eq!(buf, [0x41, 0x01, 0x02, 0x03, 0x04, 0x05, 0x06, 0x07, 0x08, 0xEE]);
}

#[test]
fn cds_day_truncated_to_field() {
    // A 16-bit day field keeps the low 16 bits of the day.
    let t = CdsTime::new(CdsConfig::CCSDS_16(), 0x1_0005, 7, 0);
    let mut buf = [0u8; 7];
    t.encode(&mut buf).unwrap();
    let d = CdsTime::decode(&buf).unwrap();
    assert_eq!(d.day, 5);
}

#[test]
fn cds_invalid_sub_millis_code() {
    assert_eq!(
        CdsConfig::from_p_field(0x43),
        Err(CdsError::InvalidSubMillisCode(3))
    );
}

#[test]
fn cds_decode_errors() {
    assert_eq!(
        CdsTime::decode(&[]),
        Err(CdsError::BufferTooShort { required: 1, provided: 0 })
    );
    assert_eq!(
        CdsTime::decode(&[0x40, 0, 0]),
        Err(CdsError::BufferTooShort { required: 7, provided: 3 })
    );
    assert_eq!(
        CdsTime::decode_t_field(&CdsConfig::CCSDS_16(), &[0, 0]),
        Err(CdsError::BufferTooShort { required: 6, provided: 2 })
    );
}

#[test]
fn cds_unset_sub_millis_not_encoded() {
    // Without a sub-millisecond field the value does not travel.
    let t = CdsTime::new(CdsConfig::CCSDS_16(), 1, 2, 99);
    let mut buf = [0u8; 7];
    t.encode(&mut buf).unwrap();
    assert_eq!(CdsTime::decode(&buf).unwrap().sub_ms, 0);
}
