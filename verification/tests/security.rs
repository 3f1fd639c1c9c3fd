use leodos_protocols::datalink::security::sdls::{
    AesGcmCrypto, ClearModeCrypto, SecurityAssociation, ServiceType,
};
use leodos_protocols::datalink::security::{NoSecurity, SdlsProcessor, SecurityProcessor};

fn auth_sa() -> SecurityAssociation {
    SecurityAssociation {
        spi: 1,
        service_type: ServiceType::Authentication,
        iv_len: 4,
        sn_len: 4,
        pl_len: 0,
        mac_len: 16,
        sequence_number: 0,
        sequence_window: 100,
        auth_mask: heapless::Vec::new(),
    }
}

fn aead_sa() -> SecurityAssociation {
    SecurityAssociation {
        spi: 5,
        service_type: ServiceType::AuthenticatedEncryption,
        iv_len: 12,
        sn_len: 0,
        pl_len: 0,
        mac_len: 16,
        sequence_number: 1,
        sequence_window: 100,
        auth_mask: heapless::Vec::new(),
    }
}

#[test]
fn no_security_passthrough() {
    let mut processor = NoSecurity;
    let mut frame = [0xAA; 32];
    let len = processor.apply(&mut frame).unwrap();
    assert_eq!(len, 32);
    assert!(frame.iter().all(|&b| b == 0xAA));
}

#[test]
fn sdls_clear_mode_roundtrip() {
    let sa = auth_sa();
    let header_end = 5;
    let data_start = header_end + sa.header_size();
    let data_end = data_start + 10;
    let total = data_end + sa.trailer_size();

    let mut send = SdlsProcessor::new(sa.clone(), ClearModeCrypto, header_end);
    let mut recv = SdlsProcessor::new(sa, ClearModeCrypto, header_end);

    let mut frame = [0u8; 64];
    frame[0..5].copy_from_slice(&[0xC0, 0x00, 0x2A, 0x00, 0x28]);
    frame[data_start..data_end].copy_from_slice(&[1, 2, 3, 4, 5, 6, 7, 8, 9, 10]);

    let len = send.apply(&mut frame[..total]).unwrap();
    assert_eq!(len, total);

    let len = recv.process(&mut frame[..total]).unwrap();
    assert_eq!(len, total);
    assert_eq!(&frame[data_start..data_end], &[1, 2, 3, 4, 5, 6, 7, 8, 9, 10]);
}

#[test]
fn sdls_aes_gcm_roundtrip() {
    let sa = aead_sa();
    let header_end = 5;
    let data_start = header_end + sa.header_size();
    let data_end = data_start + 8;
    let total = data_end + sa.trailer_size();

    let key = [0xABu8; 16];

    let mut send = SdlsProcessor::new(sa.clone(), AesGcmCrypto::new_128(&key), header_end);
    let mut recv = SdlsProcessor::new(sa, AesGcmCrypto::new_128(&key), header_end);

    let mut frame = [0u8; 64];
    frame[0..5].copy_from_slice(&[0xC0, 0x00, 0x2A, 0x00, 0x28]);
    let plain = [1u8, 2, 3, 4, 5, 6, 7, 8];
    frame[data_start..data_end].copy_from_slice(&plain);

    send.apply(&mut frame[..total]).unwrap();
    assert_ne!(&frame[data_start..data_end], &plain);

    recv.process(&mut frame[..total]).unwrap();
    assert_eq!(&frame[data_start..data_end], &plain);
}

#[test]
fn no_security_process_keeps_frame() {
    let mut processor = NoSecurity;
    let mut frame = [1u8, 2, 3, 4, 5];
    assert_eq!(processor.process(&mut frame).unwrap(), 5);
    assert_eq!(frame, [1, 2, 3, 4, 5]);
}

#[test]
fn sdls_processor_tampered_frame_rejected() {
    let sa = aead_sa();
    let header_end = 5;
    let data_start = header_end + sa.header_size();
    let data_end = data_start + 8;
    let total = data_end + sa.trailer_size();
    let key = [0x11u8; 16];
    let mut send = SdlsProcessor::new(sa.clone(), AesGcmCrypto::new_128(&key), header_end);
    let mut recv = SdlsProcessor::new(sa, AesGcmCrypto::new_128(&key), header_end);
    let mut frame = [0u8; 64];
    frame[0..5].copy_from_slice(&[0xC0, 0x00, 0x2A, 0x00, 0x28]);
    send.apply(&mut frame[..total]).unwrap();
    frame[data_start] ^= 0xFF;
    assert!(recv.process(&mut frame[..total]).is_err());
}
