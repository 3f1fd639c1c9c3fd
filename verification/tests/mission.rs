use leodos_protocols::mission::colonies::executor::{read_assignment, write_failure, ClientError};
use leodos_protocols::mission::colonies::messages::{ArgIterator, ColoniesOpCode, PayloadWriter};
use leodos_protocols::mission::compute::packet as compute;
use leodos_protocols::mission::spacecomp::packet::{
    AssignCollectorPayload, AssignMapperPayload, AssignReducerPayload, OpCode, PhaseDonePayload,
    Role, SpaceCompHeader, SpaceCompMessage,
};

#[test]
fn packet_test_all_opcodes_roundtrip() {
    for code in [
        OpCode::SubmitJob,
        OpCode::AssignCollector,
        OpCode::AssignMapper,
        OpCode::AssignReducer,
        OpCode::PhaseDone,
        OpCode::JobResult,
        OpCode::DataChunk,
    ] {
        let val = code.code();
        assert_eq!(OpCode::try_from(val), Ok(code));
    }
    for code in [
        compute::OpCode::SubmitJob,
        compute::OpCode::AssignCollector,
        compute::OpCode::AssignMapper,
        compute::OpCode::AssignReducer,
        compute::OpCode::PhaseDone,
        compute::OpCode::JobResult,
        compute::OpCode::DataChunk,
    ] {
        let val = code.code();
        assert_eq!(compute::OpCode::try_from(val), Ok(code));
    }
}

#[test]
fn test_message_roundtrip() {
    let payload = [0x01, 0x05, 3];
    let total = SpaceCompMessage::HEADER_SIZE + payload.len();
    let mut buf = [0u8; 32];

    let hdr = SpaceCompHeader::new(OpCode::AssignCollector, 0x1234);
    buf[..SpaceCompMessage::HEADER_SIZE].copy_from_slice(&hdr.to_bytes());
    buf[SpaceCompMessage::HEADER_SIZE..total].copy_from_slice(&payload);

    let msg = SpaceCompMessage::parse(&buf[..total]).unwrap();
    assert_eq!(msg.op_code(), Ok(OpCode::AssignCollector));
    assert_eq!(msg.job_id(), 0x1234);
    assert_eq!(msg.payload()[2], 3);
}

#[test]
fn spacecomp_message_new_and_parse() {
    let mut buf = [0xFFu8; 16];
    let n = SpaceCompMessage::new(&mut buf, OpCode::PhaseDone, 0xBEEF, &[2]).unwrap();
    assert_eq!(n, 5);
    assert_eq!(&buf[..5], &[0x04, 0x00, 0xBE, 0xEF, 0x02]);
    assert_eq!(buf[5], 0xFF);
    let msg = SpaceCompMessage::parse(&buf[..n]).unwrap();
    assert_eq!(msg.op_code(), Ok(OpCode::PhaseDone));
    assert_eq!(msg.job_id(), 0xBEEF);
    assert_eq!(msg.payload(), &[2]);
    assert_eq!(msg.as_bytes(), &buf[..5]);
    assert_eq!(msg.header().job_id(), 0xBEEF);
    assert!(SpaceCompMessage::new(&mut buf[..4], OpCode::PhaseDone, 1, &[1]).is_none());
    assert!(SpaceCompMessage::parse(&buf[..3]).is_none());
    let bad = [0x07u8, 0, 0, 1];
    assert_eq!(SpaceCompMessage::parse(&bad).unwrap().op_code(), Err(()));
}

#[test]
fn spacecomp_header_setters() {
    let mut h = SpaceCompHeader::new(OpCode::SubmitJob, 1);
    h.set_op_code(OpCode::DataChunk);
    h.set_job_id(0x0102);
    assert_eq!(h.op_code(), Ok(OpCode::DataChunk));
    assert_eq!(h.job_id(), 0x0102);
    assert_eq!(h.to_bytes(), [0x10, 0x00, 0x01, 0x02]);
    assert_eq!(SpaceCompHeader::from_bytes(&[0x10, 0x00, 0x01, 0x02]), h);
    let mut c = compute::SpaceCompHeader::new(compute::OpCode::JobResult, 7);
    c.set_job_id(8);
    assert_eq!(c.op_code(), Ok(compute::OpCode::JobResult));
    assert_eq!(c.job_id(), 8);
}

#[test]
fn payloads_and_roles() {
    let a = AssignCollectorPayload::new(0x0105u16, 3);
    assert_eq!(a.mapper_addr(), 0x0105);
    assert_eq!(a.partition_id(), 3);
    let m = AssignMapperPayload::new(7u16, 4);
    assert_eq!(m.reducer_addr(), 7);
    assert_eq!(m.collector_count(), 4);
    let r = AssignReducerPayload::new(9u16, 2);
    assert_eq!(r.los_addr(), 9);
    assert_eq!(r.mapper_count(), 2);
    let c = compute::AssignCollectorPayload::new((1u8, 5u8), 6);
    assert_eq!(c.mapper_addr(), (1, 5));
    assert_eq!(c.partition_id(), 6);

    let mut p = PhaseDonePayload::new(Role::Mapper);
    assert_eq!(p.role(), Ok(Role::Mapper));
    p.set_role(Role::Reducer);
    assert_eq!(p.role(), Ok(Role::Reducer));
    assert_eq!(Role::try_from(1), Ok(Role::Collector));
    assert_eq!(Role::try_from(0), Err(()));
    assert_eq!(Role::try_from(4), Err(()));
    assert_eq!(compute::Role::try_from(2), Ok(compute::Role::Mapper));
    assert_eq!(compute::PhaseDonePayload::new(compute::Role::Collector).role(), Ok(compute::Role::Collector));
}

#[test]
fn colonies_op_codes() {
    for code in [
        ColoniesOpCode::AssignRequest,
        ColoniesOpCode::AssignResponse,
        ColoniesOpCode::Close,
        ColoniesOpCode::Fail,
        ColoniesOpCode::KeepAlive,
    ] {
        assert_eq!(ColoniesOpCode::try_from(code.code()), Ok(code));
    }
    assert_eq!(ColoniesOpCode::try_from(5), Err(()));
}

#[test]
fn colonies_payload_writer_and_args() {
    let mut buf = [0u8; 16];
    let mut w = PayloadWriter::new(&mut buf);
    w.write_str("key").unwrap();
    w.write_bytes(&[1, 2]).unwrap();
    w.write_bytes(&[]).unwrap();
    assert_eq!(w.len(), 11);
    assert_eq!(w.remaining_capacity(), 5);
    assert_eq!(w.write_bytes(&[0u8; 4]), Err(()));
    w.write_bytes(&[9, 9, 9]).unwrap();
    assert_eq!(w.remaining_capacity(), 0);
    assert_eq!(w.write_bytes(&[]), Err(()));
    assert_eq!(&buf[..7], &[0, 3, b'k', b'e', b'y', 0, 2]);

    let mut it = ArgIterator::new(&buf);
    assert_eq!(it.next(), Some(&b"key"[..]));
    assert_eq!(it.next(), Some(&[1u8, 2][..]));
    assert_eq!(it.next(), Some(&[][..]));
    assert_eq!(it.next(), Some(&[9u8, 9, 9][..]));
    assert_eq!(it.next(), None);

    // An announced length past the end stops the iteration.
    let mut short = ArgIterator::new(&[0, 5, 1, 2]);
    assert_eq!(short.next(), None);
}

#[test]
fn executor_reads_assignment() {
    let mut payload = [0u8; 32];
    let mut w = PayloadWriter::new(&mut payload);
    w.write_bytes(b"proc-1").unwrap();
    w.write_str("echo").unwrap();
    w.write_bytes(&[9, 9]).unwrap();
    let len = w.len();
    // Not an assignment response, or another message: ignored.
    assert!(matches!(read_assignment::<()>(2, 7, 7, &payload[..len]), Ok(None)));
    assert!(matches!(read_assignment::<()>(1, 6, 7, &payload[..len]), Ok(None)));
    let a = read_assignment::<()>(1, 7, 7, &payload[..len]).unwrap().unwrap();
    assert_eq!(a.process_id, b"proc-1".to_vec());
    assert_eq!(a.func_name, "echo");
    let mut args = a.args;
    assert_eq!(args.next(), Some(&[9u8, 9][..]));
    // A payload without a function name.
    assert!(matches!(read_assignment::<()>(1, 7, 7, &payload[..8]), Err(ClientError::PayloadFormat)));
    // A function name that is not UTF-8.
    let bad = [0, 1, b'p', 0, 1, 0xFF];
    assert!(matches!(read_assignment::<()>(1, 7, 7, &bad), Err(ClientError::PayloadFormat)));
}

#[test]
fn executor_failure_payload() {
    let mut buf = [0u8; 12];
    let mut w = PayloadWriter::new(&mut buf);
    write_failure(&mut w, b"p1", "bad");
    assert_eq!(w.len(), 4 + 5);
    assert_eq!(&buf[..9], &[0, 2, b'p', b'1', 0, 3, b'b', b'a', b'd']);
    // An error message that does not fit is left out.
    let mut small = [0u8; 6];
    let mut w = PayloadWriter::new(&mut small);
    write_failure(&mut w, b"p1", "bad");
    assert_eq!(w.len(), 4);
}
