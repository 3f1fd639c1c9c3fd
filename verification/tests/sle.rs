use leodos_protocols::misc::sle::cltu::CltuOp;
use leodos_protocols::misc::sle::{
    BindResult, CltuBindInvocation, CltuStartInvocation, CltuStatus, CltuTransferDataInvocation,
    CltuTransferDataReturn, Credentials, ServiceInstanceId, ServiceType, SleError, Time,
};

#[test]
fn cltu_bind_roundtrip() {
    let bind = CltuBindInvocation::new(b"operator", b"antenna-1", 3, None).unwrap();

    let mut buf = [0u8; 256];
    let n = bind.encode(&mut buf).unwrap();

    let decoded = CltuBindInvocation::decode(&buf[..n]).unwrap();
    assert_eq!(decoded.initiator_id(), b"operator");
    assert_eq!(decoded.responder_id(), b"antenna-1");
    assert_eq!(decoded.service_type, ServiceType::FCltu);
    assert_eq!(decoded.version, 3);
    assert!(decoded.credentials.is_none());
}

#[test]
fn cltu_start_roundtrip() {
    let start = CltuStartInvocation { credentials: None, invoke_id: 1, first_cltu_id: 100 };

    let mut buf = [0u8; 128];
    let n = start.encode(&mut buf).unwrap();

    let decoded = CltuStartInvocation::decode(&buf[..n]).unwrap();
    assert_eq!(decoded.invoke_id, 1);
    assert_eq!(decoded.first_cltu_id, 100);
    assert!(decoded.credentials.is_none());
}

#[test]
fn cltu_transfer_data_roundtrip() {
    let cltu_data = [0x01, 0x02, 0x03, 0x04, 0x05];
    let td = CltuTransferDataInvocation::new(42, &cltu_data, None).unwrap();

    let mut buf = [0u8; 128];
    let n = td.encode(&mut buf).unwrap();

    let decoded = CltuTransferDataInvocation::decode(&buf[..n]).unwrap();
    assert_eq!(decoded.cltu_id, 42);
    assert_eq!(decoded.data(), &cltu_data);
    assert!(decoded.credentials.is_none());
    assert_eq!(decoded.cltu_id(), 42);
    assert!(decoded.credentials().is_none());
}

#[test]
fn cltu_transfer_data_return_roundtrip() {
    let ret = CltuTransferDataReturn { cltu_id: 42, status: CltuStatus::Radiated, credentials: None };

    let mut buf = [0u8; 64];
    let n = ret.encode(&mut buf).unwrap();

    let decoded = CltuTransferDataReturn::decode(&buf[..n]).unwrap();
    assert_eq!(decoded.cltu_id, 42);
    assert_eq!(decoded.status, CltuStatus::Radiated);
    assert!(decoded.credentials.is_none());
}

fn creds() -> Credentials {
    Credentials { time: [1, 2, 3, 4, 5, 6, 7, 8], random: 0xDEAD_BEEF, hash: [9u8; 20] }
}

#[test]
fn cltu_start_exact_encoding() {
    let start = CltuStartInvocation { credentials: None, invoke_id: 1, first_cltu_id: 100 };
    let mut buf = [0u8; 32];
    let n = start.encode(&mut buf).unwrap();
    assert_eq!(
        &buf[..n],
        &[0xA4, 0x0A, 0x30, 0x08, 0x05, 0x00, 0x02, 0x01, 0x01, 0x02, 0x01, 0x64]
    );
}

#[test]
fn cltu_integer_encoding_is_minimal_twos_complement() {
    // 200 needs a leading zero octet; 0xDEADBEEF needs five octets.
    let start = CltuStartInvocation { credentials: None, invoke_id: 200, first_cltu_id: 0xDEAD_BEEF };
    let mut buf = [0u8; 32];
    let n = start.encode(&mut buf).unwrap();
    assert_eq!(&buf[6..10], &[0x02, 0x02, 0x00, 0xC8]);
    assert_eq!(&buf[10..n], &[0x02, 0x05, 0x00, 0xDE, 0xAD, 0xBE, 0xEF]);
    let decoded = CltuStartInvocation::decode(&buf[..n]).unwrap();
    assert_eq!(decoded.invoke_id, 200);
    assert_eq!(decoded.first_cltu_id, 0xDEAD_BEEF);
}

#[test]
fn cltu_credentials_roundtrip() {
    let ret = CltuTransferDataReturn { cltu_id: 7, status: CltuStatus::Interrupted, credentials: Some(creds()) };
    let mut buf = [0u8; 128];
    let n = ret.encode(&mut buf).unwrap();
    let decoded = CltuTransferDataReturn::decode(&buf[..n]).unwrap();
    assert_eq!(decoded, ret);

    let bind = CltuBindInvocation::new(b"a", b"b", 5, Some(creds())).unwrap();
    let n = bind.encode(&mut buf).unwrap();
    let decoded = CltuBindInvocation::decode(&buf[..n]).unwrap();
    assert_eq!(decoded.credentials, Some(creds()));
    assert_eq!(decoded.version, 5);
}

#[test]
fn cltu_large_data_uses_long_length_form() {
    let data = vec![0x5Au8; 300];
    let td = CltuTransferDataInvocation::new(1, &data, None).unwrap();
    let mut buf = vec![0u8; 400];
    let n = td.encode(&mut buf).unwrap();
    assert_eq!(&buf[..2], &[0xA8, 0x82]);
    let decoded = CltuTransferDataInvocation::decode(&buf[..n]).unwrap();
    assert_eq!(decoded.data(), &data[..]);
}

#[test]
fn cltu_errors() {
    assert_eq!(CltuBindInvocation::new(&[0u8; 65], b"x", 1, None).unwrap_err(), SleError::TooLong);
    assert_eq!(CltuTransferDataInvocation::new(1, &[0u8; 2049], None).unwrap_err(), SleError::TooLong);

    let start = CltuStartInvocation { credentials: None, invoke_id: 1, first_cltu_id: 100 };
    let mut small = [0u8; 5];
    assert_eq!(start.encode(&mut small), Err(SleError::BufferTooSmall));

    let mut buf = [0u8; 32];
    let n = start.encode(&mut buf).unwrap();
    // A Start PDU is not a Transfer Data return.
    assert_eq!(CltuTransferDataReturn::decode(&buf[..n]).unwrap_err(), SleError::UnexpectedTag);
    // Truncated input.
    assert_eq!(CltuStartInvocation::decode(&buf[..n - 1]).unwrap_err(), SleError::Truncated);
    assert_eq!(CltuStartInvocation::decode(&[]).unwrap_err(), SleError::Truncated);

    let ret = CltuTransferDataReturn { cltu_id: 1, status: CltuStatus::Expired, credentials: None };
    let n = ret.encode(&mut buf).unwrap();
    buf[n - 1] = 9; // status 9 is not a CLTU status
    assert_eq!(CltuTransferDataReturn::decode(&buf[..n]).unwrap_err(), SleError::InvalidEnumValue);
}

#[test]
fn cltu_status_and_op_codes() {
    assert_eq!(CltuStatus::from_i64(0), Ok(CltuStatus::Radiated));
    assert_eq!(CltuStatus::from_i64(3), Ok(CltuStatus::ProductionNotStarted));
    assert_eq!(CltuStatus::from_i64(4), Err(SleError::InvalidEnumValue));
    assert_eq!(CltuStatus::from_i64(-1), Err(SleError::InvalidEnumValue));
    assert_eq!(CltuOp::TransferDataReturn.code(), 9);
    assert_eq!(CltuOp::Start.code(), 4);
}

#[test]
fn sle_types() {
    assert_eq!(ServiceType::from_u8(2), Ok(ServiceType::FCltu));
    assert_eq!(ServiceType::from_u8(3), Err(SleError::InvalidEnumValue));
    assert_eq!(BindResult::from_u8(1), Ok(BindResult::AccessDenied));
    assert_eq!(BindResult::from_u8(4), Err(SleError::InvalidEnumValue));

    let t = Time::from_bytes([0x12, 0x34, 0x00, 0x01, 0x02, 0x03, 0x03, 0xE7]);
    assert_eq!(t.day(), 0x1234);
    assert_eq!(t.ms_of_day(), 0x0001_0203);
    assert_eq!(t.microseconds(), 999);
    let mut out = [0u8; 10];
    assert_eq!(t.encode(&mut out), Ok(8));
    assert_eq!(Time::decode(&out), Ok((t, 8)));
    assert_eq!(Time::decode(&out[..7]), Err(SleError::BufferTooSmall));
    assert_eq!(t.encode(&mut out[..7]), Err(SleError::BufferTooSmall));

    let id = ServiceInstanceId::from_bytes(b"sagr=1").unwrap();
    assert_eq!(id.as_bytes(), b"sagr=1");
    assert_eq!(id.len(), 6);
    assert!(!id.is_empty());
    assert_eq!(ServiceInstanceId::from_bytes(&[0u8; 65]), Err(SleError::BufferTooSmall));
    assert_eq!(SleError::Truncated.message(), "truncated or malformed input");
}

#[test]
fn ber_integer_overflow_and_bad_length() {
    // An INTEGER of nine content octets does not fit in 64 bits.
    let mut pdu = vec![0xA4, 0x12, 0x30, 0x10, 0x05, 0x00, 0x02, 0x09];
    pdu.extend_from_slice(&[1u8; 9]);
    pdu.extend_from_slice(&[0x02, 0x01, 0x01]);
    assert_eq!(CltuStartInvocation::decode(&pdu).unwrap_err(), SleError::IntegerOverflow);
    // Indefinite length octets are not read here.
    assert_eq!(CltuStartInvocation::decode(&[0xA4, 0x80, 0x30, 0x00]).unwrap_err(), SleError::Truncated);
    // A NULL with content is malformed.
    assert_eq!(
        CltuStartInvocation::decode(&[0xA4, 0x05, 0x30, 0x03, 0x05, 0x01, 0x00]).unwrap_err(),
        SleError::Truncated
    );
    // Negative numbers come back through the two's complement.
    let start = CltuStartInvocation { credentials: None, invoke_id: 0xFFFF, first_cltu_id: 0 };
    let mut buf = [0u8; 32];
    let n = start.encode(&mut buf).unwrap();
    assert_eq!(&buf[6..10], &[0x02, 0x03, 0x00, 0xFF, 0xFF][..4]);
    assert_eq!(CltuStartInvocation::decode(&buf[..n]).unwrap(), start);
}
