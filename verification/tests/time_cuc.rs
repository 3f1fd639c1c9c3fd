use leodos_protocols::misc::time::cuc::{CucConfig, CucTime, Error, TimeCodeId};

#[test]
fn cuc_p_field_roundtrip() {
    let config = CucConfig::CCSDS_4_2();
    let pf = config.p_field();
    let parsed = CucConfig::from_p_field(pf).unwrap();
    assert_eq!(parsed, config);
}

#[test]
fn p_field_values() {
    // CcsdsEpoch (0b010), coarse=4 (code=3), fine=2 = 0x2E
    let config = CucConfig::CCSDS_4_2();
    assert_eq!(config.p_field(), 0x2E);

    // CcsdsEpoch (0b010), coarse=4 (code=3), fine=0 = 0x2C
    let config = CucConfig::CCSDS_4_0();
    assert_eq!(config.p_field(), 0x2C);
}

#[test]
fn encode_decode_roundtrip_4_2() {
    let config = CucConfig::CCSDS_4_2();
    let t = CucTime::new(config, 1_000_000, 0x8000_0000);

    let mut buf = [0u8; 16];
    let len = t.encode(&mut buf).unwrap();
    assert_eq!(len, 7); // 1 P-field + 4 coarse + 2 fine

    let decoded = CucTime::decode(&buf[..len]).unwrap();
    assert_eq!(decoded.coarse, 1_000_000);
    // Fine: we wrote 0x8000_0000, but only 2 bytes → 0x8000
    // decoded back into u32: 0x8000_0000
    assert_eq!(decoded.fine, 0x8000_0000);
}

#[test]
fn encode_decode_roundtrip_4_0() {
    let config = CucConfig::CCSDS_4_0();
    let t = CucTime::new(config, 42, 0);

    let mut buf = [0u8; 8];
    let len = t.encode(&mut buf).unwrap();
    assert_eq!(len, 5); // 1 + 4

    let decoded = CucTime::decode(&buf[..len]).unwrap();
    assert_eq!(decoded.coarse, 42);
    assert_eq!(decoded.fine, 0);
}

#[test]
fn cuc_t_field_only() {
    let config = CucConfig::CCSDS_4_2();
    let t = CucTime::new(config, 12345, 0xABCD_0000);

    let mut buf = [0u8; 8];
    let len = t.encode_t_field(&mut buf).unwrap();
    assert_eq!(len, 6); // 4 coarse + 2 fine

    let decoded = CucTime::decode_t_field(&config, &buf[..len]).unwrap();
    assert_eq!(decoded.coarse, 12345);
    assert_eq!(decoded.fine, 0xABCD_0000);
}

#[test]
fn agency_epoch() {
    let config = CucConfig::new(TimeCodeId::AgencyEpoch, 2, 1);
    let t = CucTime::new(config, 300, 0x8000_0000);

    let mut buf = [0u8; 8];
    let len = t.encode(&mut buf).unwrap();
    assert_eq!(len, 4); // 1 P-field + 2 coarse + 1 fine

    let decoded = CucTime::decode(&buf[..len]).unwrap();
    assert_eq!(decoded.config.time_code_id, TimeCodeId::AgencyEpoch);
    assert_eq!(decoded.coarse, 300);
    assert_eq!(decoded.fine, 0x8000_0000);
}

#[test]
fn cuc_buffer_too_short() {
    let t = CucTime::new(CucConfig::CCSDS_4_2(), 0, 0);
    let mut buf = [0u8; 3]; // need 7
    let err = t.encode(&mut buf);
    assert!(matches!(
        err,
        Err(Error::BufferTooShort {
            required: 7,
            provided: 3,
        })
    ));
}

#[test]
fn invalid_time_code_id() {
    let err = CucConfig::from_p_field(0x00); // id = 0b000
    assert!(matches!(err, Err(Error::InvalidTimeCodeId(0))));
}

#[test]
fn small_coarse_field() {
    // 1-byte coarse, 0 fine — can represent 0..255 seconds
    let config = CucConfig::new(TimeCodeId::CcsdsEpoch, 1, 0);
    let t = CucTime::new(config, 200, 0);

    let mut buf = [0u8; 4];
    let len = t.encode(&mut buf).unwrap();
    assert_eq!(len, 2); // 1 P-field + 1 coarse

    let decoded = CucTime::decode(&buf[..len]).unwrap();
    assert_eq!(decoded.coarse, 200);
}

#[test]
fn cuc_encoding_bytes_exact() {
    // coarse 0x01020304, fine high bytes 0xA1B2: P-field 0x2E
    let t = CucTime::new(CucConfig::CCSDS_4_2(), 0x0102_0304, 0xA1B2_C3D4);
    let mut buf = [0u8; 7];
    assert_eq!(t.encode(&mut buf), Ok(7));
    assert_eq!(buf, [0x2E, 0x01, 0x02, 0x03, 0x04, 0xA1, 0xB2]);
    // The fine value comes back cut to its two high bytes.
    assert_eq!(CucTime::decode(&buf).unwrap().fine, 0xA1B2_0000);
}

#[test]
fn cuc_decode_errors() {
    assert_eq!(
        CucTime::decode(&[]),
        Err(Error::BufferTooShort { required: 1, provided: 0 })
    );
    assert_eq!(
        CucTime::decode(&[0x2E, 1, 2]),
        Err(Error::BufferTooShort { required: 7, provided: 3 })
    );
    assert_eq!(CucConfig::from_p_field(0x30), Err(Error::InvalidTimeCodeId(3)));
}
