//! SpaceCoMP message format.
//!
//! Used by the coordinator to assign roles (collector, mapper, reducer)
//! to satellites, and by satellites to report phase completion.
//!
//! A message is what the transport layer (SRSPP) delivers once the
//! lower-layer headers are stripped: the SpaceCoMP header and a
//! role-specific payload.
use vstd::prelude::*;

use crate::utils::{copy_in, splice};

verus! {

/// Operation codes for the SpaceCoMP MapReduce protocol.
///
/// A job proceeds in phases: the coordinator assigns roles to
/// satellites, collectors send data chunks to mappers, mappers
/// forward intermediate results to the reducer, and the reducer
/// sends the final result back to the coordinator.
#[derive(Debug, Copy, Clone, PartialEq, Eq, Structural)]
pub enum OpCode {
    /// Ground or coordinator initiates a new MapReduce job.
    SubmitJob,
    /// Assign a satellite the collector role for one data partition.
    AssignCollector,
    /// Assign a satellite the mapper role for a set of collectors.
    AssignMapper,
    /// Assign a satellite the reducer role for all mappers.
    AssignReducer,
    /// A satellite reports that its phase is complete.
    PhaseDone,
    /// Reducer sends aggregated results back to the coordinator.
    JobResult,
    /// Raw or intermediate data chunk between pipeline stages.
    DataChunk,
}

/// The op code with value `v`, if there is one.
pub open spec fn spec_op_code(v: u8) -> Option<OpCode> {
    if v == 0x00 {
        Some(OpCode::SubmitJob)
    } else if v == 0x01 {
        Some(OpCode::AssignCollector)
    } else if v == 0x02 {
        Some(OpCode::AssignMapper)
    } else if v == 0x03 {
        Some(OpCode::AssignReducer)
    } else if v == 0x04 {
        Some(OpCode::PhaseDone)
    } else if v == 0x05 {
        Some(OpCode::JobResult)
    } else if v == 0x10 {
        Some(OpCode::DataChunk)
    } else {
        None
    }
}

impl OpCode {
    /// The op code's value on the wire.
    pub open spec fn spec_code(self) -> u8 {
        match self {
            OpCode::SubmitJob => 0x00,
            OpCode::AssignCollector => 0x01,
            OpCode::AssignMapper => 0x02,
            OpCode::AssignReducer => 0x03,
            OpCode::PhaseDone => 0x04,
            OpCode::JobResult => 0x05,
            OpCode::DataChunk => 0x10,
        }
    }

    /// Returns the op code's value on the wire.
    pub fn code(self) -> (c: u8)
        ensures
            c == self.spec_code(),
    {
        match self {
            OpCode::SubmitJob => 0x00,
            OpCode::AssignCollector => 0x01,
            OpCode::AssignMapper => 0x02,
            OpCode::AssignReducer => 0x03,
            OpCode::PhaseDone => 0x04,
            OpCode::JobResult => 0x05,
            OpCode::DataChunk => 0x10,
        }
    }

    /// The op code with value `value`; `Err(())` for an unknown one.
    pub fn try_from(value: u8) -> (r: Result<Self, ()>)
        ensures
            match spec_op_code(value) {
                Some(c) => r == Ok::<Self, ()>(c),
                None => r == Err::<Self, ()>(()),
            },
    {
        match value {
            0x00 => Ok(OpCode::SubmitJob),
            0x01 => Ok(OpCode::AssignCollector),
            0x02 => Ok(OpCode::AssignMapper),
            0x03 => Ok(OpCode::AssignReducer),
            0x04 => Ok(OpCode::PhaseDone),
            0x05 => Ok(OpCode::JobResult),
            0x10 => Ok(OpCode::DataChunk),
            _ => Err(()),
        }
    }
}

/// Every op code reads back from its value.
pub proof fn lemma_op_code_roundtrip(c: OpCode)
    ensures
        spec_op_code(c.spec_code()) == Some(c),
{
}

/// The 4-byte SpaceCoMP header: op code, a reserved byte and the job ID.
///
/// ```text
/// +------------------------------------+---------+
/// | Field Name                         | Size    |
/// +------------------------------------+---------+
/// | OpCode                             | 8 bits  |
/// | Reserved                           | 8 bits  |
/// | Job ID                             | 16 bits |
/// +------------------------------------+---------+
/// ```
#[derive(Debug, Clone, Copy, PartialEq, Eq, Structural)]
pub struct SpaceCompHeader {
    op_code: u8,
    reserved: u8,
    job_id: u16,
}

impl SpaceCompHeader {
    /// The op code byte.
    pub closed spec fn spec_op_byte(&self) -> u8 {
        self.op_code
    }

    /// The job ID.
    pub closed spec fn spec_job_id(&self) -> u16 {
        self.job_id
    }

    /// The reserved byte.
    pub closed spec fn spec_reserved(&self) -> u8 {
        self.reserved
    }

    /// The header's 4 bytes on the wire.
    pub open spec fn spec_bytes(&self) -> Seq<u8> {
        seq![self.spec_op_byte(), self.spec_reserved(), (self.spec_job_id() / 256) as u8, (
        self.spec_job_id() % 256) as u8]
    }

    /// The header that `new` makes for `op_code` and `job_id`.
    pub closed spec fn new_spec(op_code: OpCode, job_id: u16) -> Self {
        SpaceCompHeader { op_code: op_code.spec_code(), reserved: 0, job_id }
    }

    /// A header for `op_code` and `job_id`, with the reserved byte 0.
    pub fn new(op_code: OpCode, job_id: u16) -> (h: Self)
        ensures
            h.spec_op_byte() == op_code.spec_code(),
            h.spec_reserved() == 0,
            h.spec_job_id() == job_id,
            h == Self::new_spec(op_code, job_id),
    {
        SpaceCompHeader { op_code: op_code.code(), reserved: 0, job_id }
    }

    /// The op code; `Err(())` when the byte is no known op code.
    pub fn op_code(&self) -> (r: Result<OpCode, ()>)
        ensures
            match spec_op_code(self.spec_op_byte()) {
                Some(c) => r == Ok::<OpCode, ()>(c),
                None => r == Err::<OpCode, ()>(()),
            },
    {
        OpCode::try_from(self.op_code)
    }

    /// Sets the op code.
    pub fn set_op_code(&mut self, op_code: OpCode)
        ensures
            final(self).spec_op_byte() == op_code.spec_code(),
            final(self).spec_reserved() == old(self).spec_reserved(),
            final(self).spec_job_id() == old(self).spec_job_id(),
    {
        self.op_code = op_code.code();
    }

    /// The job ID.
    pub fn job_id(&self) -> (j: u16)
        ensures
            j == self.spec_job_id(),
    {
        self.job_id
    }

    /// Sets the job ID.
    pub fn set_job_id(&mut self, job_id: u16)
        ensures
            final(self).spec_job_id() == job_id,
            final(self).spec_op_byte() == old(self).spec_op_byte(),
            final(self).spec_reserved() == old(self).spec_reserved(),
    {
        self.job_id = job_id;
    }

    /// Reads a header from the first 4 bytes of `b`.
    pub fn from_bytes(b: &[u8]) -> (h: Self)
        requires
            b@.len() >= 4,
        ensures
            h.spec_bytes() == b@.subrange(0, 4),
    {
        let h = SpaceCompHeader { op_code: b[0], reserved: b[1], job_id: b[2] as u16 * 256 + b[3] as u16 };
        assert(h.spec_bytes() =~= b@.subrange(0, 4));
        h
    }

    /// The header's 4 bytes on the wire.
    pub fn to_bytes(&self) -> (b: [u8; 4])
        ensures
            b@ == self.spec_bytes(),
    {
        let b = [self.op_code, self.reserved, (self.job_id / 256) as u8, (self.job_id % 256) as u8];
        assert(b@ =~= self.spec_bytes());
        b
    }
}

/// Payload for [`OpCode::AssignCollector`]: tells a satellite to collect
/// its data partition and forward the resulting [`OpCode::DataChunk`]
/// messages to the mapper at `mapper_addr`.
///
/// `A` is the ISL address type of the network layer.
#[derive(Debug, Clone, Copy)]
pub struct AssignCollectorPayload<A> {
    mapper_addr: A,
    partition_id: u8,
}

impl<A: Copy> AssignCollectorPayload<A> {
    /// The mapper's address.
    pub closed spec fn spec_mapper_addr(&self) -> A {
        self.mapper_addr
    }

    /// The partition index.
    pub closed spec fn spec_partition_id(&self) -> u8 {
        self.partition_id
    }

    /// A payload for `mapper_addr` and `partition_id`.
    pub fn new(mapper_addr: A, partition_id: u8) -> (p: Self)
        ensures
            p.spec_mapper_addr() == mapper_addr,
            p.spec_partition_id() == partition_id,
    {
        AssignCollectorPayload { mapper_addr, partition_id }
    }

    /// ISL address of the mapper that will receive this collector's data.
    pub fn mapper_addr(&self) -> (a: A)
        ensures
            a == self.spec_mapper_addr(),
    {
        self.mapper_addr
    }

    /// Zero-based partition index assigned to this collector.
    pub fn partition_id(&self) -> (p: u8)
        ensures
            p == self.spec_partition_id(),
    {
        self.partition_id
    }
}

/// Payload for [`OpCode::AssignMapper`]: tells a satellite to accumulate
/// data chunks from `collector_count` collectors, run the map function,
/// and forward intermediate results to the reducer at `reducer_addr`.
///
/// `A` is the ISL address type of the network layer.
#[derive(Debug, Clone, Copy)]
pub struct AssignMapperPayload<A> {
    reducer_addr: A,
    collector_count: u8,
}

impl<A: Copy> AssignMapperPayload<A> {
    /// The reducer's address.
    pub closed spec fn spec_reducer_addr(&self) -> A {
        self.reducer_addr
    }

    /// The number of collectors.
    pub closed spec fn spec_collector_count(&self) -> u8 {
        self.collector_count
    }

    /// A payload for `reducer_addr` and `collector_count`.
    pub fn new(reducer_addr: A, collector_count: u8) -> (p: Self)
        ensures
            p.spec_reducer_addr() == reducer_addr,
            p.spec_collector_count() == collector_count,
    {
        AssignMapperPayload { reducer_addr, collector_count }
    }

    /// ISL address of the reducer that will receive map output.
    pub fn reducer_addr(&self) -> (a: A)
        ensures
            a == self.spec_reducer_addr(),
    {
        self.reducer_addr
    }

    /// Number of collectors that will send data to this mapper.
    pub fn collector_count(&self) -> (c: u8)
        ensures
            c == self.spec_collector_count(),
    {
        self.collector_count
    }
}

/// Payload for [`OpCode::AssignReducer`]: tells a satellite to accumulate
/// intermediate results from `mapper_count` mappers, run the reduce
/// function, and send the final result to the coordinator at `los_addr`.
///
/// `A` is the ISL address type of the network layer.
#[derive(Debug, Clone, Copy)]
pub struct AssignReducerPayload<A> {
    los_addr: A,
    mapper_count: u8,
}

impl<A: Copy> AssignReducerPayload<A> {
    /// The coordinator's address.
    pub closed spec fn spec_los_addr(&self) -> A {
        self.los_addr
    }

    /// The number of mappers.
    pub closed spec fn spec_mapper_count(&self) -> u8 {
        self.mapper_count
    }

    /// A payload for `los_addr` and `mapper_count`.
    pub fn new(los_addr: A, mapper_count: u8) -> (p: Self)
        ensures
            p.spec_los_addr() == los_addr,
            p.spec_mapper_count() == mapper_count,
    {
        AssignReducerPayload { los_addr, mapper_count }
    }

    /// ISL address of the coordinator (line-of-sight to ground).
    pub fn los_addr(&self) -> (a: A)
        ensures
            a == self.spec_los_addr(),
    {
        self.los_addr
    }

    /// Number of mappers that will send results to this reducer.
    pub fn mapper_count(&self) -> (c: u8)
        ensures
            c == self.spec_mapper_count(),
    {
        self.mapper_count
    }
}

/// The role a satellite was assigned in a MapReduce job.
#[derive(Debug, Copy, Clone, PartialEq, Eq, Structural)]
pub enum Role {
    /// Collects a data partition.
    Collector,
    /// Maps collected data.
    Mapper,
    /// Reduces mapped data.
    Reducer,
}

/// The role with value `v`, if there is one.
pub open spec fn spec_role(v: u8) -> Option<Role> {
    if v == 1 {
        Some(Role::Collector)
    } else if v == 2 {
        Some(Role::Mapper)
    } else if v == 3 {
        Some(Role::Reducer)
    } else {
        None
    }
}

impl Role {
    /// The role's value on the wire.
    pub open spec fn spec_code(self) -> u8 {
        match self {
            Role::Collector => 1,
            Role::Mapper => 2,
            Role::Reducer => 3,
        }
    }

    /// Returns the role's value on the wire.
    pub fn code(self) -> (c: u8)
        ensures
            c == self.spec_code(),
    {
        match self {
            Role::Collector => 1,
            Role::Mapper => 2,
            Role::Reducer => 3,
        }
    }

    /// The role with value `value`; `Err(())` for an unknown one.
    pub fn try_from(value: u8) -> (r: Result<Self, ()>)
        ensures
            match spec_role(value) {
                Some(c) => r == Ok::<Self, ()>(c),
                None => r == Err::<Self, ()>(()),
            },
    {
        match value {
            1 => Ok(Role::Collector),
            2 => Ok(Role::Mapper),
            3 => Ok(Role::Reducer),
            _ => Err(()),
        }
    }
}

/// Payload for [`OpCode::PhaseDone`]: the role that completed.
#[derive(Debug, Clone, Copy, PartialEq, Eq, Structural)]
pub struct PhaseDonePayload {
    role: u8,
}

impl PhaseDonePayload {
    /// The role byte.
    pub closed spec fn spec_role_byte(&self) -> u8 {
        self.role
    }

    /// A payload reporting `role`.
    pub fn new(role: Role) -> (p: Self)
        ensures
            p.spec_role_byte() == role.spec_code(),
    {
        PhaseDonePayload { role: role.code() }
    }

    /// The role that completed; `Err(())` when the byte is no known role.
    pub fn role(&self) -> (r: Result<Role, ()>)
        ensures
            match spec_role(self.spec_role_byte()) {
                Some(c) => r == Ok::<Role, ()>(c),
                None => r == Err::<Role, ()>(()),
            },
    {
        Role::try_from(self.role)
    }

    /// Sets the role.
    pub fn set_role(&mut self, role: Role)
        ensures
            final(self).spec_role_byte() == role.spec_code(),
    {
        self.role = role.code();
    }
}

/// A role written into a phase report reads back as that role.
pub proof fn lemma_phase_done_roundtrip(role: Role)
    ensures
        spec_role(role.spec_code()) == Some(role),
{
}

/// Application-level SpaceCoMP message: header + variable payload.
///
/// ```text
/// +------------------------------------+---------+
/// | Field Name                         | Size    |
/// +------------------------------------+---------+
/// | OpCode                             | 8 bits  |
/// | Reserved                           | 8 bits  |
/// | Job ID                             | 16 bits |
/// | -- Payload (Variable) ------------ | ------- |
/// | Role-specific payload              | 0-N     |
/// |                                    | bytes   |
/// +------------------------------------+---------+
/// ```
#[derive(Debug)]
pub struct SpaceCompMessage<'a> {
    header: SpaceCompHeader,
    bytes: &'a [u8],
}

impl<'a> SpaceCompMessage<'a> {
    /// Size of the SpaceCoMP header in bytes.
    pub const HEADER_SIZE: usize = 4;

    /// The message bytes: header then payload.
    pub closed spec fn spec_bytes(&self) -> Seq<u8> {
        self.bytes@
    }

    /// The parsed header.
    pub closed spec fn spec_header(&self) -> SpaceCompHeader {
        self.header
    }

    /// Parses a message: the first 4 bytes are its header, the rest its
    /// payload; `None` below 4 bytes.
    pub fn parse(bytes: &'a [u8]) -> (r: Option<Self>)
        ensures
            bytes@.len() < 4 ==> r is None,
            bytes@.len() >= 4 ==> (r matches Some(m) && m.spec_bytes() == bytes@
                && m.spec_header().spec_bytes() == bytes@.subrange(0, 4)),
    {
        if bytes.len() < Self::HEADER_SIZE {
            return None;
        }
        Some(SpaceCompMessage { header: SpaceCompHeader::from_bytes(bytes), bytes })
    }

    /// The op code; `Err(())` when the byte is no known op code.
    pub fn op_code(&self) -> (r: Result<OpCode, ()>)
        ensures
            match spec_op_code(self.spec_header().spec_op_byte()) {
                Some(c) => r == Ok::<OpCode, ()>(c),
                None => r == Err::<OpCode, ()>(()),
            },
    {
        self.header.op_code()
    }

    /// The job ID.
    pub fn job_id(&self) -> (j: u16)
        ensures
            j == self.spec_header().spec_job_id(),
    {
        self.header.job_id()
    }

    /// The header.
    pub fn header(&self) -> (h: &SpaceCompHeader)
        ensures
            *h == self.spec_header(),
    {
        &self.header
    }

    /// The payload: the bytes after the header.
    pub fn payload(&self) -> (p: &'a [u8])
        requires
            self.spec_bytes().len() >= 4,
        ensures
            p@ == self.spec_bytes().subrange(4, self.spec_bytes().len() as int),
    {
        vstd::slice::slice_subrange(self.bytes, Self::HEADER_SIZE, self.bytes.len())
    }

    /// The whole message, header and payload.
    pub fn as_bytes(&self) -> (b: &'a [u8])
        ensures
            b@ == self.spec_bytes(),
    {
        self.bytes
    }

    /// Writes a message for `op_code` and `job_id` carrying `payload` at the
    /// start of `buffer`; returns its length, or `None` when it does not
    /// fit.
    pub fn new(buffer: &mut [u8], op_code: OpCode, job_id: u16, payload: &[u8]) -> (r: Option<usize>)
        ensures
            old(buffer)@.len() < 4 + payload@.len() ==> r is None && final(buffer)@ == old(buffer)@,
            old(buffer)@.len() >= 4 + payload@.len() ==> r == Some((4 + payload@.len()) as usize)
                && final(buffer)@ == splice(
                old(buffer)@,
                0,
                SpaceCompHeader::new_spec(op_code, job_id).spec_bytes() + payload@,
            ),
    {
        if buffer.len() < Self::HEADER_SIZE || buffer.len() - Self::HEADER_SIZE < payload.len() {
            return None;
        }
        let h = SpaceCompHeader::new(op_code, job_id);
        let hb = h.to_bytes();
        let ghost b0 = buffer@;
        copy_in(buffer, 0, &hb);
        copy_in(buffer, Self::HEADER_SIZE, payload);
        assert(buffer@ =~= splice(b0, 0, SpaceCompHeader::new_spec(op_code, job_id).spec_bytes() + payload@));
        Some(Self::HEADER_SIZE + payload.len())
    }
}

/// A message that `new` writes parses back with its op code, job ID and
/// payload.
pub proof fn lemma_message_roundtrip(b: Seq<u8>, op_code: OpCode, job_id: u16, payload: Seq<u8>)
    requires
        b.len() >= 4 + payload.len(),
    ensures
        ({
            let out = splice(b, 0, SpaceCompHeader::new_spec(op_code, job_id).spec_bytes() + payload).subrange(
                0,
                (4 + payload.len()) as int,
            );
            let h = SpaceCompHeader::new_spec(op_code, job_id);
            &&& out.subrange(0, 4) == h.spec_bytes()
            &&& out.subrange(4, out.len() as int) == payload
            &&& spec_op_code(h.spec_op_byte()) == Some(op_code)
            &&& h.spec_job_id() == job_id
        }),
{
    let h = SpaceCompHeader::new_spec(op_code, job_id);
    let out = splice(b, 0, h.spec_bytes() + payload).subrange(0, (4 + payload.len()) as int);
    assert(out.subrange(0, 4) =~= h.spec_bytes());
    assert(out.subrange(4, out.len() as int) =~= payload);
}

/// The value on the wire of every `OpCode`, as the protocol's table fixes it; decoding gives that variant for exactly
/// those values and nothing for any other.
pub proof fn lemma_op_code_values()
    ensures
        OpCode::SubmitJob.spec_code() == 0x00,
        OpCode::AssignCollector.spec_code() == 0x01,
        OpCode::AssignMapper.spec_code() == 0x02,
        OpCode::AssignReducer.spec_code() == 0x03,
        OpCode::PhaseDone.spec_code() == 0x04,
        OpCode::JobResult.spec_code() == 0x05,
        OpCode::DataChunk.spec_code() == 0x10,
        spec_op_code(0x00) == Some(OpCode::SubmitJob),
        spec_op_code(0x01) == Some(OpCode::AssignCollector),
        spec_op_code(0x02) == Some(OpCode::AssignMapper),
        spec_op_code(0x03) == Some(OpCode::AssignReducer),
        spec_op_code(0x04) == Some(OpCode::PhaseDone),
        spec_op_code(0x05) == Some(OpCode::JobResult),
        spec_op_code(0x10) == Some(OpCode::DataChunk),
        forall|v: u8| v != 0x00 && v != 0x01 && v != 0x02 && v != 0x03 && v != 0x04 && v != 0x05 && v != 0x10 ==> spec_op_code(v) == None::<OpCode>,
{
}

/// The value on the wire of every `Role`, as the protocol's table fixes it; decoding gives that variant for exactly
/// those values and nothing for any other.
pub proof fn lemma_role_values()
    ensures
        Role::Collector.spec_code() == 1,
        Role::Mapper.spec_code() == 2,
        Role::Reducer.spec_code() == 3,
        spec_role(1) == Some(Role::Collector),
        spec_role(2) == Some(Role::Mapper),
        spec_role(3) == Some(Role::Reducer),
        forall|v: u8| v != 1 && v != 2 && v != 3 ==> spec_role(v) == None::<Role>,
{
}

/// A header on the wire: the op code byte, the reserved byte, then the
/// job ID big-endian.
pub proof fn lemma_header_layout(h: SpaceCompHeader)
    ensures
        h.spec_bytes().len() == 4,
        h.spec_bytes()[0] == h.spec_op_byte(),
        h.spec_bytes()[1] == h.spec_reserved(),
        h.spec_bytes()[2] * 256 + h.spec_bytes()[3] == h.spec_job_id(),
{
}

} // verus!
