use leodos_protocols::datalink::security::sdls::ep::{
    EpHeader, FrameSecurityReport, KeyProcedure, McProcedure, PduType, SaProcedure, ServiceGroup,
    EP_HEADER_SIZE,
};
use leodos_protocols::datalink::security::sdls::key::{KeyRing, KeyState, ManagedKey};
use leodos_protocols::datalink::security::sdls::sa_mgmt::{ManagedSa, SaState, SaTable};
use leodos_protocols::datalink::security::sdls::{
    apply_security, process_security, read_spi, write_security_header, AesGcmCrypto,
    ClearModeCrypto, CryptoProvider, Error, SecurityAssociation, SecurityHeader, ServiceType,
};

fn test_sa() -> SecurityAssociation {
    SecurityAssociation {
        spi: 1,
        service_type: ServiceType::Authentication,
        iv_len: 4,
        sn_len: 4,
        pl_len: 0,
        mac_len: 16,
        sequence_number: 0,
        sequence_window: 100,
        auth_mask: heapless::Vec::new(),
    }
}

#[test]
fn mod_sa_sizes() {
    let sa = test_sa();
    // SPI(2) + IV(4) + SN(4) + PL(0) = 10
    assert_eq!(sa.header_size(), 10);
    assert_eq!(sa.trailer_size(), 16);
    assert_eq!(sa.overhead(), 26);
}

#[test]
fn mod_write_and_read_spi() {
    let sa = test_sa();
    let mut buf = [0u8; 64];
    let iv = [0u8; 4];
    let sn = [0u8; 4];
    write_security_header(&sa, &iv, &sn, 0, &mut buf).unwrap();

    let spi = read_spi(&buf).unwrap();
    assert_eq!(spi, 1);
}

#[test]
fn mod_reserved_spi_rejected() {
    let mut sa = test_sa();
    sa.spi = 0;
    let mut buf = [0u8; 64];
    let err = write_security_header(&sa, &[0; 4], &[0; 4], 0, &mut buf).unwrap_err();
    assert_eq!(err, Error::ReservedSpi(0));

    sa.spi = 0xFFFF;
    let err = write_security_header(&sa, &[0; 4], &[0; 4], 0, &mut buf).unwrap_err();
    assert_eq!(err, Error::ReservedSpi(0xFFFF));
}

#[test]
fn mod_header_roundtrip() {
    let sa = test_sa();
    let mut buf = [0u8; 64];
    let iv = [0x01, 0x02, 0x03, 0x04];
    let sn = [0x00, 0x00, 0x00, 0x05];
    let written = write_security_header(&sa, &iv, &sn, 0, &mut buf).unwrap();
    assert_eq!(written, 10);

    let hdr = SecurityHeader::parse(&sa, &buf[..written]).unwrap();
    assert_eq!(hdr.spi(), 1);
    assert_eq!(hdr.iv(), &[0x01, 0x02, 0x03, 0x04]);
    assert_eq!(hdr.sequence_number(), &[0x00, 0x00, 0x00, 0x05]);
    assert_eq!(hdr.sequence_number_value(), 5);
    assert_eq!(hdr.pad_length(), 0);
}

#[test]
fn mod_clear_mode_apply_and_process() {
    // Simulate a frame: [5-byte fake header][sec hdr][data][mac]
    let mut sa_send = test_sa();
    let mut sa_recv = test_sa();
    let crypto = ClearModeCrypto;

    let header_end = 5;
    let data_start = header_end + sa_send.header_size(); // 15
    let data_end = data_start + 10; // 25
    let mut frame = [0u8; 64];
    frame[0..5].copy_from_slice(&[0xC0, 0x00, 0x2A, 0x00, 0x28]);
    frame[data_start..data_end].copy_from_slice(&[1, 2, 3, 4, 5, 6, 7, 8, 9, 10]);

    apply_security(&mut sa_send, &crypto, &mut frame, header_end, data_start, data_end).unwrap();

    // SPI should be written at header_end
    assert_eq!(read_spi(&frame[header_end..]).unwrap(), 1);
    // Sequence number should have incremented
    assert_eq!(sa_send.sequence_number, 1);

    process_security(&mut sa_recv, &crypto, &mut frame, header_end, data_start, data_end).unwrap();

    // Receiver sequence number should have advanced
    assert_eq!(sa_recv.sequence_number, 1);
    // Data should still be intact (clear mode)
    assert_eq!(&frame[data_start..data_end], &[1, 2, 3, 4, 5, 6, 7, 8, 9, 10]);
}

#[test]
fn mod_encryption_only_sa() {
    let sa = SecurityAssociation {
        spi: 2,
        service_type: ServiceType::Encryption,
        iv_len: 12,
        sn_len: 0,
        pl_len: 1,
        mac_len: 0,
        sequence_number: 0,
        sequence_window: 0,
        auth_mask: heapless::Vec::new(),
    };
    // SPI(2) + IV(12) + SN(0) + PL(1) = 15
    assert_eq!(sa.header_size(), 15);
    assert_eq!(sa.trailer_size(), 0);
}

#[test]
fn mod_authenticated_encryption_sa() {
    let sa = SecurityAssociation {
        spi: 3,
        service_type: ServiceType::AuthenticatedEncryption,
        iv_len: 12,
        sn_len: 0,
        pl_len: 1,
        mac_len: 16,
        sequence_number: 0,
        sequence_window: 100,
        auth_mask: heapless::Vec::new(),
    };
    // SPI(2) + IV(12) + SN(0) + PL(1) = 15
    assert_eq!(sa.header_size(), 15);
    // MAC(16)
    assert_eq!(sa.trailer_size(), 16);
    assert_eq!(sa.overhead(), 31);
}

#[test]
fn mod_spi_read_too_short() {
    let err = read_spi(&[0x00]).unwrap_err();
    assert_eq!(err, Error::FrameTooShort);
}

#[test]
fn mod_header_with_pad_length() {
    let sa = SecurityAssociation {
        spi: 10,
        service_type: ServiceType::Encryption,
        iv_len: 0,
        sn_len: 0,
        pl_len: 2,
        mac_len: 0,
        sequence_number: 0,
        sequence_window: 0,
        auth_mask: heapless::Vec::new(),
    };
    let mut buf = [0u8; 16];
    let written = write_security_header(&sa, &[], &[], 42, &mut buf).unwrap();
    // SPI(2) + PL(2) = 4
    assert_eq!(written, 4);

    let hdr = SecurityHeader::parse(&sa, &buf[..written]).unwrap();
    assert_eq!(hdr.spi(), 10);
    assert_eq!(hdr.pad_length(), 42);
}

fn aes_gcm_sa() -> SecurityAssociation {
    SecurityAssociation {
        spi: 5,
        service_type: ServiceType::AuthenticatedEncryption,
        iv_len: 12,
        sn_len: 0,
        pl_len: 0,
        mac_len: 16,
        sequence_number: 1,
        sequence_window: 100,
        auth_mask: heapless::Vec::new(),
    }
}

#[test]
fn aes_gcm_128_roundtrip() {
    let key = [0x42u8; 16];
    let crypto = AesGcmCrypto::new_128(&key);
    let sa = aes_gcm_sa();

    let iv = [0u8; 12];
    let aad = [0xC0, 0x00, 0x2A];
    let plain = [1u8, 2, 3, 4, 5, 6, 7, 8];
    let mut data = plain;
    let mut tag = [0u8; 16];

    crypto.encrypt(&sa, &iv, &aad, &mut data, &mut tag).unwrap();
    assert_ne!(data, plain);

    crypto.decrypt(&sa, &iv, &aad, &mut data, &tag).unwrap();
    assert_eq!(data, plain);
}

#[test]
fn aes_gcm_256_roundtrip() {
    let key = [0x7Fu8; 32];
    let crypto = AesGcmCrypto::new_256(&key);
    let sa = aes_gcm_sa();

    let iv = [0u8; 12];
    let aad = b"header";
    let plain = *b"secret!!";
    let mut data = plain;
    let mut tag = [0u8; 16];

    crypto.encrypt(&sa, &iv, aad, &mut data, &mut tag).unwrap();
    crypto.decrypt(&sa, &iv, aad, &mut data, &tag).unwrap();
    assert_eq!(data, plain);
}

#[test]
fn aes_gcm_tampered_ciphertext() {
    let key = [0x42u8; 16];
    let crypto = AesGcmCrypto::new_128(&key);
    let sa = aes_gcm_sa();

    let iv = [0u8; 12];
    let aad = [0xC0];
    let mut data = [1u8, 2, 3, 4];
    let mut tag = [0u8; 16];

    crypto.encrypt(&sa, &iv, &aad, &mut data, &mut tag).unwrap();

    data[0] ^= 0xFF; // tamper
    let err = crypto.decrypt(&sa, &iv, &aad, &mut data, &tag).unwrap_err();
    assert_eq!(err, Error::MacVerificationFailed);
}

#[test]
fn aes_gcm_tampered_aad() {
    let key = [0x42u8; 16];
    let crypto = AesGcmCrypto::new_128(&key);
    let sa = aes_gcm_sa();

    let iv = [0u8; 12];
    let aad = [0xC0];
    let mut data = [1u8, 2, 3, 4];
    let mut tag = [0u8; 16];

    crypto.encrypt(&sa, &iv, &aad, &mut data, &mut tag).unwrap();

    let bad_aad = [0xC1]; // tampered
    let err = crypto.decrypt(&sa, &iv, &bad_aad, &mut data, &tag).unwrap_err();
    assert_eq!(err, Error::MacVerificationFailed);
}

#[test]
fn aes_gcm_apply_process_roundtrip() {
    let key = [0xABu8; 16];
    let crypto = AesGcmCrypto::new_128(&key);

    let mut sa_send = aes_gcm_sa();
    let mut sa_recv = aes_gcm_sa();

    // [5B header][14B sec hdr][10B data][16B MAC]
    let header_end = 5;
    let data_start = header_end + sa_send.header_size();
    let data_end = data_start + 10;
    let total = data_end + sa_send.trailer_size();
    let mut frame = [0u8; 64];

    frame[0..5].copy_from_slice(&[0xC0, 0x00, 0x2A, 0x00, 0x28]);
    frame[data_start..data_end].copy_from_slice(&[1, 2, 3, 4, 5, 6, 7, 8, 9, 10]);

    apply_security(&mut sa_send, &crypto, &mut frame, header_end, data_start, data_end).unwrap();

    assert_eq!(sa_send.sequence_number, 2);
    // Data should be encrypted (not cleartext)
    assert_ne!(&frame[data_start..data_end], &[1, 2, 3, 4, 5, 6, 7, 8, 9, 10]);
    // MAC should be non-zero
    assert_ne!(&frame[data_end..total], &[0u8; 16]);

    process_security(&mut sa_recv, &crypto, &mut frame, header_end, data_start, data_end).unwrap();

    // Data should be decrypted back
    assert_eq!(&frame[data_start..data_end], &[1, 2, 3, 4, 5, 6, 7, 8, 9, 10]);
}

#[test]
fn aes_gcm_detect_tampered_frame() {
    let key = [0xABu8; 16];
    let crypto = AesGcmCrypto::new_128(&key);

    let mut sa_send = aes_gcm_sa();
    let mut sa_recv = aes_gcm_sa();

    let header_end = 5;
    let data_start = header_end + sa_send.header_size();
    let data_end = data_start + 10;
    let mut frame = [0u8; 64];

    frame[0..5].copy_from_slice(&[0xC0, 0x00, 0x2A, 0x00, 0x28]);
    frame[data_start..data_end].copy_from_slice(&[1, 2, 3, 4, 5, 6, 7, 8, 9, 10]);

    apply_security(&mut sa_send, &crypto, &mut frame, header_end, data_start, data_end).unwrap();

    // Tamper with encrypted data
    frame[data_start] ^= 0xFF;

    let err = process_security(&mut sa_recv, &crypto, &mut frame, header_end, data_start, data_end)
        .unwrap_err();
    assert_eq!(err, Error::MacVerificationFailed);
}

#[test]
fn sdls_unknown_spi_and_short_frames() {
    let mut sa = test_sa();
    let crypto = ClearModeCrypto;
    let mut frame = [0u8; 40];
    frame[5] = 0x00;
    frame[6] = 0x07;
    assert_eq!(
        process_security(&mut sa, &crypto, &mut frame, 5, 15, 25),
        Err(Error::UnknownSpi(7))
    );
    let mut short = [0u8; 6];
    assert_eq!(
        process_security(&mut sa, &crypto, &mut short, 5, 5, 5),
        Err(Error::FrameTooShort)
    );
    let mut small = [0u8; 20];
    assert_eq!(
        apply_security(&mut sa, &crypto, &mut small, 5, 10, 10),
        Err(Error::BufferTooSmall { required: 26, available: 20 })
    );
}

#[test]
fn sdls_replayed_frame_rejected() {
    let mut sa_send = test_sa();
    let mut sa_recv = test_sa();
    sa_recv.sequence_number = 5;
    let crypto = ClearModeCrypto;
    let mut frame = [0u8; 64];
    apply_security(&mut sa_send, &crypto, &mut frame, 5, 15, 25).unwrap();
    assert_eq!(
        process_security(&mut sa_recv, &crypto, &mut frame, 5, 15, 25),
        Err(Error::SequenceNumberRejected { received: 0, expected: 5 })
    );
    assert_eq!(sa_recv.sequence_number, 5);
}

#[test]
fn sdls_security_header_bytes() {
    // Authentication SA, counter 0x0102: SPI 1, IV and SN from the counter.
    let mut sa = test_sa();
    sa.sequence_number = 0x0102;
    let crypto = ClearModeCrypto;
    let mut frame = [0u8; 41];
    apply_security(&mut sa, &crypto, &mut frame, 5, 15, 25).unwrap();
    assert_eq!(&frame[5..15], &[0x00, 0x01, 0x00, 0x00, 0x01, 0x02, 0x00, 0x00, 0x01, 0x02]);
    assert_eq!(sa.sequence_number, 0x0103);
}

// ── Extended Procedures ──

#[test]
fn header_roundtrip_key_otar() {
    let hdr = EpHeader {
        pdu_type: PduType::Command,
        user_flag: false,
        service_group: ServiceGroup::KeyManagement.code(),
        procedure_id: KeyProcedure::Otar.code(),
    };
    let mut buf = [0u8; 8];
    hdr.encode(10, &mut buf).unwrap();

    let (parsed, length) = EpHeader::parse(&buf).unwrap();
    assert_eq!(parsed.pdu_type, PduType::Command);
    assert!(!parsed.user_flag);
    assert_eq!(parsed.service_group, ServiceGroup::KeyManagement.code());
    assert_eq!(parsed.procedure_id, KeyProcedure::Otar.code());
    assert_eq!(length, 10);
}

#[test]
fn header_roundtrip_sa_start() {
    let hdr = EpHeader {
        pdu_type: PduType::Reply,
        user_flag: true,
        service_group: ServiceGroup::SaManagementIr.code(),
        procedure_id: SaProcedure::Start.code(),
    };
    let mut buf = [0u8; 8];
    hdr.encode(32, &mut buf).unwrap();

    let (parsed, length) = EpHeader::parse(&buf).unwrap();
    assert_eq!(parsed.pdu_type, PduType::Reply);
    assert!(parsed.user_flag);
    assert_eq!(parsed.service_group, ServiceGroup::SaManagementIr.code());
    assert_eq!(parsed.procedure_id, SaProcedure::Start.code());
    assert_eq!(length, 32);
}

#[test]
fn header_size_is_3_bytes() {
    assert_eq!(EP_HEADER_SIZE, 3);
}

#[test]
fn service_group_try_from() {
    assert_eq!(ServiceGroup::try_from(0b00).unwrap(), ServiceGroup::KeyManagement);
    assert_eq!(ServiceGroup::try_from(0b01).unwrap(), ServiceGroup::SaManagementIr);
    assert_eq!(ServiceGroup::try_from(0b10).unwrap(), ServiceGroup::SaManagementRi);
    assert_eq!(ServiceGroup::try_from(0b11).unwrap(), ServiceGroup::MonitoringControl);
}

#[test]
fn mc_procedures() {
    assert_eq!(McProcedure::try_from(0b0001).unwrap(), McProcedure::Ping);
    assert_eq!(McProcedure::try_from(0b0111).unwrap(), McProcedure::ResetAlarmFlag);
    assert!(McProcedure::try_from(0b1111).is_err());
}

#[test]
fn ep_buffer_too_short() {
    assert!(EpHeader::parse(&[0u8; 2]).is_err());
}

#[test]
fn fsr_roundtrip() {
    let fsr = FrameSecurityReport {
        last_spi: 42,
        arsn_lsb: 0xAB,
        alarm: true,
        bad_sn: false,
        bad_mac: true,
        bad_sa: false,
    };
    let mut buf = [0u8; 4];
    fsr.encode(&mut buf);

    let parsed = FrameSecurityReport::parse(&buf);
    assert_eq!(parsed.last_spi, 42);
    assert_eq!(parsed.arsn_lsb, 0xAB);
    assert!(parsed.alarm);
    assert!(!parsed.bad_sn);
    assert!(parsed.bad_mac);
    assert!(!parsed.bad_sa);
}

#[test]
fn fsr_control_word_type_is_1() {
    let fsr = FrameSecurityReport {
        last_spi: 0,
        arsn_lsb: 0,
        alarm: false,
        bad_sn: false,
        bad_mac: false,
        bad_sa: false,
    };
    let mut buf = [0u8; 4];
    fsr.encode(&mut buf);
    assert_eq!(buf[0] & 0x80, 0x80);
}

#[test]
fn ep_encode_bytes_and_errors() {
    let hdr = EpHeader {
        pdu_type: PduType::Reply,
        user_flag: true,
        service_group: 0b11,
        procedure_id: 0b0101,
    };
    let mut buf = [0u8; 3];
    assert_eq!(hdr.encode(2, &mut buf), Ok(3));
    assert_eq!(buf, [0xF5, 0x00, 0x10]);
    let mut small = [0u8; 2];
    assert_eq!(
        hdr.encode(2, &mut small),
        Err(Error::BufferTooSmall { required: 3, available: 2 })
    );
    assert_eq!(KeyProcedure::try_from(0b0101), Err(Error::InvalidProcedure));
    assert_eq!(SaProcedure::try_from(0b0000), Ok(SaProcedure::ReadArsn));
    assert_eq!(ServiceGroup::try_from(4), Err(Error::InvalidProcedure));
}

#[test]
fn fsr_bytes_exact() {
    let fsr = FrameSecurityReport {
        last_spi: 0x1234,
        arsn_lsb: 0x56,
        alarm: false,
        bad_sn: true,
        bad_mac: false,
        bad_sa: true,
    };
    let mut buf = [0u8; 4];
    fsr.encode(&mut buf);
    assert_eq!(buf, [0xC5, 0x12, 0x34, 0x56]);
}

// ── Key management ──

#[test]
fn key_lifecycle() {
    let mut key = ManagedKey::new(1, &[0xAA; 16]).unwrap();
    assert_eq!(key.state, KeyState::Preactive);
    assert_eq!(key.material(), &[0xAA; 16]);

    assert!(key.deactivate().is_err());
    key.activate().unwrap();
    assert_eq!(key.state, KeyState::Active);

    assert!(key.activate().is_err());
    key.deactivate().unwrap();
    assert_eq!(key.state, KeyState::Deactivated);

    key.destroy();
    assert_eq!(key.state, KeyState::Destroyed);
    assert_eq!(key.key_len, 0);
}

#[test]
fn keyring_load_activate() {
    let mut ring = KeyRing::new();
    ring.load(1, &[0x42; 16]).unwrap();
    ring.load(2, &[0x7F; 32]).unwrap();

    assert!(ring.load(1, &[0x00; 16]).is_err());

    ring.activate(1).unwrap();
    assert_eq!(ring.find(1).unwrap().state, KeyState::Active);

    assert!(ring.activate(99).is_err());
}

#[test]
fn keyring_destroy() {
    let mut ring = KeyRing::new();
    ring.load(5, &[0xFF; 16]).unwrap();
    ring.destroy(5).unwrap();
    assert_eq!(ring.find(5).unwrap().state, KeyState::Destroyed);
}

#[test]
fn keyring_inventory() {
    let mut ring = KeyRing::new();
    ring.load(1, &[0x11; 16]).unwrap();
    ring.load(2, &[0x22; 16]).unwrap();
    ring.activate(1).unwrap();

    let inv = ring.inventory();
    assert_eq!(inv.len(), 2);
    assert_eq!(inv[0], (1, KeyState::Active));
    assert_eq!(inv[1], (2, KeyState::Preactive));
}

#[test]
fn invalid_key_length() {
    assert!(ManagedKey::new(1, &[]).is_err());
    assert!(ManagedKey::new(1, &[0u8; 33]).is_err());
}

#[test]
fn keyring_otar_loads_clear_block() {
    let mut ring = KeyRing::new();
    ring.load(1, &[0x01; 16]).unwrap();
    let sa = test_sa();
    let crypto = ClearModeCrypto;
    // Master key not active yet.
    let mut block = [0u8; 4];
    assert_eq!(ring.otar(1, &[], &mut block, &[], &crypto, &sa), Err(Error::InvalidKeyState));
    assert_eq!(ring.otar(9, &[], &mut block, &[], &crypto, &sa), Err(Error::UnknownKeyId(9)));
    ring.activate(1).unwrap();
    // Two entries: key 7 with 2 bytes, key 8 with 1 byte, then a truncated entry.
    let mut block = [0, 7, 0, 2, 0xAA, 0xBB, 0, 8, 0, 1, 0xCC, 0, 9, 0, 5, 1];
    assert_eq!(ring.otar(1, &[], &mut block, &[], &crypto, &sa), Ok(2));
    assert_eq!(ring.find(7).unwrap().material(), &[0xAA, 0xBB]);
    assert_eq!(ring.find(8).unwrap().key_len, 1);
    assert!(ring.find(9).is_none());
    // Loading the same keys again stops at the first duplicate.
    let mut again = [0, 7, 0, 1, 0x01];
    assert_eq!(ring.otar(1, &[], &mut again, &[], &crypto, &sa), Err(Error::DuplicateKeyId));
}

#[test]
fn keyring_verify_echoes_challenge_in_clear_mode() {
    let mut ring = KeyRing::new();
    ring.load(3, &[0x33; 16]).unwrap();
    let sa = test_sa();
    let crypto = ClearModeCrypto;
    let mut resp = [0u8; 4];
    let mut tag = [0u8; 2];
    assert_eq!(
        ring.verify(3, &[], &[1, 2, 3], &mut resp, &mut tag, &crypto, &sa),
        Err(Error::InvalidKeyState)
    );
    ring.activate(3).unwrap();
    ring.verify(3, &[], &[1, 2, 3], &mut resp, &mut tag, &crypto, &sa).unwrap();
    assert_eq!(resp, [1, 2, 3, 0]);
}

// ── SA management ──

#[test]
fn sa_lifecycle() {
    let mut sa = ManagedSa::new(1, ServiceType::AuthenticatedEncryption).unwrap();
    assert_eq!(sa.state, SaState::Unkeyed);

    assert!(sa.start().is_err());
    assert!(sa.stop().is_err());
    assert!(sa.expire().is_err());

    sa.rekey(10).unwrap();
    assert_eq!(sa.state, SaState::Keyed);
    assert_eq!(sa.key_id, Some(10));

    // Can't rekey from Keyed — must be Unkeyed
    assert!(sa.rekey(20).is_err());

    sa.start().unwrap();
    assert_eq!(sa.state, SaState::Operational);
    assert!(sa.start().is_err());

    // Can't expire from Operational — must stop first
    assert!(sa.expire().is_err());

    sa.stop().unwrap();
    assert_eq!(sa.state, SaState::Keyed);

    sa.expire().unwrap();
    assert_eq!(sa.state, SaState::Unkeyed);
    assert_eq!(sa.key_id, None);
}

#[test]
fn sa_table_crud() {
    let mut table = SaTable::new();
    table.create(1, ServiceType::Authentication).unwrap();
    table.create(2, ServiceType::Encryption).unwrap();

    assert!(table.create(1, ServiceType::Authentication).is_err());

    table.rekey(1, 100).unwrap();
    table.start(1).unwrap();
    assert_eq!(table.find(1).unwrap().state, SaState::Operational);

    // Can't delete from Operational
    assert!(table.delete(1).is_err());

    table.stop(1).unwrap();
    // Can't delete from Keyed either
    assert!(table.delete(1).is_err());

    table.expire(1).unwrap();
    // Now in Unkeyed — can delete
    table.delete(1).unwrap();
    assert!(table.find(1).is_none());
}

#[test]
fn sa_table_arsn() {
    let mut table = SaTable::new();
    table.create(5, ServiceType::AuthenticatedEncryption).unwrap();

    table.set_arsn(5, 42).unwrap();
    assert_eq!(table.read_arsn(5).unwrap(), 42);

    assert!(table.set_arsn(99, 0).is_err());
}

#[test]
fn sa_mgmt_reserved_spi_rejected() {
    assert!(ManagedSa::new(0, ServiceType::Authentication).is_err());
    assert!(ManagedSa::new(0xFFFF, ServiceType::Authentication).is_err());
}

#[test]
fn sa_table_errors_and_order() {
    let mut table = SaTable::new();
    assert_eq!(table.create(0, ServiceType::Authentication), Err(Error::ReservedSpi(0)));
    table.create(1, ServiceType::Authentication).unwrap();
    table.create(2, ServiceType::Encryption).unwrap();
    table.create(3, ServiceType::Encryption).unwrap();
    assert_eq!(table.create(2, ServiceType::Encryption), Err(Error::DuplicateSpi(2)));
    assert_eq!(table.delete(7), Err(Error::UnknownSpi(7)));
    // Deleting the first moves the last into its place.
    table.delete(1).unwrap();
    let spis: Vec<u16> = table.iter().iter().map(|m| m.sa.spi).collect();
    assert_eq!(spis, vec![3, 2]);
    assert_eq!(table.read_arsn(1), Err(Error::UnknownSpi(1)));
}

#[test]
fn early_errors_need_no_layout() {
    // A reserved SPI is refused before the offsets are looked at.
    let mut sa = test_sa();
    sa.spi = 0;
    let mut frame = [0u8; 64];
    assert_eq!(
        apply_security(&mut sa, &ClearModeCrypto, &mut frame, 20, 10, 30),
        Err(Error::ReservedSpi(0))
    );
    // A frame too short for the trailer is refused the same way.
    let mut sa = test_sa();
    assert_eq!(
        apply_security(&mut sa, &ClearModeCrypto, &mut frame, 20, 10, 60),
        Err(Error::BufferTooSmall { required: 76, available: 64 })
    );
    assert!(frame.iter().all(|&b| b == 0));
    // On receipt, a frame naming another SPI is refused first.
    let mut frame = [0u8; 64];
    frame[20] = 0;
    frame[21] = 9;
    assert_eq!(
        process_security(&mut sa, &ClearModeCrypto, &mut frame, 20, 10, 30),
        Err(Error::UnknownSpi(9))
    );
}

#[test]
fn authentication_with_data_field_before_header_end() {
    // Authentication only reads the frame up to `data_end` and the MAC,
    // so a data field end before the Security Header's end is handled.
    let mut send = test_sa();
    let mut recv = test_sa();
    let mut frame = [0u8; 64];
    apply_security(&mut send, &ClearModeCrypto, &mut frame, 5, 15, 12).unwrap();
    assert_eq!(send.sequence_number, 1);
    process_security(&mut recv, &ClearModeCrypto, &mut frame, 5, 15, 12).unwrap();
    assert_eq!(recv.sequence_number, 1);
}

#[test]
fn long_iv_header_is_written() {
    let mut sa = test_sa();
    sa.iv_len = 40;
    let iv = [7u8; 40];
    let mut out = [0u8; 64];
    let n = write_security_header(&sa, &iv, &[1, 2, 3, 4], 0, &mut out).unwrap();
    assert_eq!(n, 2 + 40 + 4);
    assert_eq!(&out[2..42], &iv[..]);
    assert_eq!(&out[42..46], &[1, 2, 3, 4]);
}
