//! CLTU (Forward Command Link Transmission Unit) service PDUs.
//!
//! CLTU is the SLE service for sending uplink command frames
//! through a ground station. The client binds, starts the
//! service, then sends CLTU data which the ground station
//! radiates to the spacecraft.
//!
//! Every PDU is a context-specific constructed element, tagged with its
//! operation, around a SEQUENCE whose first element carries the
//! credentials (a NULL when there are none).
use vstd::prelude::*;

use super::ber::{
    enumerated, integer, lemma_enter_tlv, lemma_int_content, lemma_read_int_tlv,
    lemma_read_primitive_tlv, lemma_tlv_len, null, octet_string, spec_class, spec_int_content,
    spec_peek_tag, spec_read_context_tag, spec_read_int, spec_read_null, spec_read_primitive,
    spec_read_sequence, spec_tlv, tlv, BerReader, Class, ENUMERATED, INTEGER, NULL, OCTET_STRING,
    SEQUENCE,
};
use super::isp1::{cred_view, Credentials};
use super::types::{spec_service_type, ServiceType, SleError};
use crate::utils::{copy_in, splice};

verus! {

/// Maximum length of an initiator/responder identifier string.
pub const MAX_ID_LEN: usize = 64;

/// Maximum CLTU data size.
pub const MAX_CLTU_DATA: usize = 2048;

/// CLTU operation tags (context-specific CHOICE tags).
#[derive(Copy, Clone, Debug, PartialEq, Eq, Structural)]
pub enum CltuOp {
    /// Bind invocation.
    Bind,
    /// Bind return.
    BindReturn,
    /// Unbind invocation.
    Unbind,
    /// Unbind return.
    UnbindReturn,
    /// Start invocation.
    Start,
    /// Start return.
    StartReturn,
    /// Stop invocation.
    Stop,
    /// Stop return.
    StopReturn,
    /// Transfer data invocation.
    TransferData,
    /// Transfer data return.
    TransferDataReturn,
}

impl CltuOp {
    /// The operation's tag number.
    pub open spec fn spec_code(self) -> u8 {
        match self {
            CltuOp::Bind => 0,
            CltuOp::BindReturn => 1,
            CltuOp::Unbind => 2,
            CltuOp::UnbindReturn => 3,
            CltuOp::Start => 4,
            CltuOp::StartReturn => 5,
            CltuOp::Stop => 6,
            CltuOp::StopReturn => 7,
            CltuOp::TransferData => 8,
            CltuOp::TransferDataReturn => 9,
        }
    }

    /// Returns the operation's tag number.
    pub fn code(self) -> (c: u8)
        ensures
            c == self.spec_code(),
    {
        match self {
            CltuOp::Bind => 0,
            CltuOp::BindReturn => 1,
            CltuOp::Unbind => 2,
            CltuOp::UnbindReturn => 3,
            CltuOp::Start => 4,
            CltuOp::StartReturn => 5,
            CltuOp::Stop => 6,
            CltuOp::StopReturn => 7,
            CltuOp::TransferData => 8,
            CltuOp::TransferDataReturn => 9,
        }
    }
}

/// Result of CLTU radiation.
#[derive(Copy, Clone, Debug, PartialEq, Eq, Structural)]
pub enum CltuStatus {
    /// CLTU was successfully radiated.
    Radiated,
    /// CLTU expired before it could be radiated.
    Expired,
    /// Radiation was interrupted.
    Interrupted,
    /// Production has not been started.
    ProductionNotStarted,
}

/// The status with code `v`, if there is one.
pub open spec fn spec_cltu_status(v: i64) -> Result<CltuStatus, SleError> {
    if v == 0 {
        Ok(CltuStatus::Radiated)
    } else if v == 1 {
        Ok(CltuStatus::Expired)
    } else if v == 2 {
        Ok(CltuStatus::Interrupted)
    } else if v == 3 {
        Ok(CltuStatus::ProductionNotStarted)
    } else {
        Err(SleError::InvalidEnumValue)
    }
}

impl CltuStatus {
    /// The status code.
    pub open spec fn spec_code(self) -> u8 {
        match self {
            CltuStatus::Radiated => 0,
            CltuStatus::Expired => 1,
            CltuStatus::Interrupted => 2,
            CltuStatus::ProductionNotStarted => 3,
        }
    }

    /// Returns the status code.
    pub fn code(self) -> (c: u8)
        ensures
            c == self.spec_code(),
    {
        match self {
            CltuStatus::Radiated => 0,
            CltuStatus::Expired => 1,
            CltuStatus::Interrupted => 2,
            CltuStatus::ProductionNotStarted => 3,
        }
    }

    /// Converts from an integer value.
    pub fn from_i64(v: i64) -> (r: Result<Self, SleError>)
        ensures
            r == spec_cltu_status(v),
    {
        match v {
            0 => Ok(CltuStatus::Radiated),
            1 => Ok(CltuStatus::Expired),
            2 => Ok(CltuStatus::Interrupted),
            3 => Ok(CltuStatus::ProductionNotStarted),
            _ => Err(SleError::InvalidEnumValue),
        }
    }
}

// ── Common PDU structure ────────────────────────────────────────

/// What a PDU carries of credentials: time octets, random number and hash
/// octets.
pub type CredView = Option<(Seq<u8>, u32, Seq<u8>)>;

/// Credentials of the sizes that a PDU carries: 8 time octets and 20
/// hash octets.
pub open spec fn cred_ok(c: CredView) -> bool {
    match c {
        None => true,
        Some((t, _, h)) => t.len() == 8 && h.len() == 20,
    }
}

/// The credentials element: NULL, or a SEQUENCE of the time, the random
/// number and the hash.
pub open spec fn spec_cred_bytes(c: CredView) -> Seq<u8> {
    match c {
        None => spec_tlv(NULL, Seq::empty()),
        Some((t, rnd, h)) => spec_tlv(
            SEQUENCE,
            spec_tlv(OCTET_STRING, t) + spec_tlv(INTEGER, spec_int_content(rnd as int)) + spec_tlv(
                OCTET_STRING,
                h,
            ),
        ),
    }
}

/// The identifier octet of the element of operation `op`: context
/// specific and constructed.
pub open spec fn spec_op_id(op: u8) -> u8 {
    (0xA0 + op) as u8
}

/// A PDU of operation `op` around the SEQUENCE content `content`.
pub open spec fn spec_pdu(op: u8, content: Seq<u8>) -> Seq<u8> {
    spec_tlv(spec_op_id(op), spec_tlv(SEQUENCE, content))
}

/// What an encoder does with buffer `before` for encoding `e`: writes it
/// at the start and returns its length, or returns `BufferTooSmall`
/// and leaves the buffer alone when it does not fit.
pub open spec fn spec_written(
    e: Seq<u8>,
    before: Seq<u8>,
    after: Seq<u8>,
    r: Result<usize, SleError>,
) -> bool {
    if e.len() <= before.len() {
        r == Ok::<usize, SleError>(e.len() as usize) && after == splice(before, 0, e)
    } else {
        r == Err::<usize, SleError>(SleError::BufferTooSmall) && after == before
    }
}

/// Reading credentials: a universal NULL stands for none; otherwise a
/// SEQUENCE of the time, the random number and the hash, of which the
/// first 8 and 20 octets are kept (`Truncated` when shorter).
pub open spec fn spec_read_credentials(s: Seq<u8>) -> Result<(CredView, Seq<u8>), SleError> {
    match spec_peek_tag(s) {
        Err(e) => Err(e),
        Ok((t, cl, _)) => if t == NULL && cl == Class::Universal {
            match spec_read_null(s) {
                Err(e) => Err(e),
                Ok(r) => Ok((None, r)),
            }
        } else {
            match spec_read_sequence(s) {
                Err(e) => Err(e),
                Ok((_, r1)) => match spec_read_primitive(r1, OCTET_STRING) {
                    Err(e) => Err(e),
                    Ok((tb, r2)) => match spec_read_int(r2, INTEGER) {
                        Err(e) => Err(e),
                        Ok((rnd, r3)) => match spec_read_primitive(r3, OCTET_STRING) {
                            Err(e) => Err(e),
                            Ok((hb, r4)) => if tb.len() < 8 || hb.len() < 20 {
                                Err(SleError::Truncated)
                            } else {
                                Ok(
                                    (
                                        Some((tb.subrange(0, 8), rnd as u32, hb.subrange(0, 20))),
                                        r4,
                                    ),
                                )
                            },
                        },
                    },
                },
            }
        },
    }
}

/// Opening a PDU of operation `op`: its tag, its SEQUENCE and its
/// credentials; the credentials and the octets after them.
pub open spec fn spec_open_pdu(s: Seq<u8>, op: u8) -> Result<(CredView, Seq<u8>), SleError> {
    match spec_read_context_tag(s) {
        Err(e) => Err(e),
        Ok((tag, _, r0)) => if tag != op {
            Err(SleError::UnexpectedTag)
        } else {
            match spec_read_sequence(r0) {
                Err(e) => Err(e),
                Ok((_, r1)) => spec_read_credentials(r1),
            }
        },
    }
}

/// Copies the first 8 octets of `s`.
fn array8(s: &[u8]) -> (a: [u8; 8])
    requires
        s@.len() >= 8,
    ensures
        a@ == s@.subrange(0, 8),
{
    let mut a = [0u8; 8];
    let mut i: usize = 0;
    while i < 8
        invariant
            i <= 8,
            s@.len() >= 8,
            forall|j: int| 0 <= j < i ==> a@[j] == s@[j],
        decreases 8 - i,
    {
        a[i] = s[i];
        i = i + 1;
    }
    assert(a@ =~= s@.subrange(0, 8));
    a
}

/// Copies the first 20 octets of `s`.
fn array20(s: &[u8]) -> (a: [u8; 20])
    requires
        s@.len() >= 20,
    ensures
        a@ == s@.subrange(0, 20),
{
    let mut a = [0u8; 20];
    let mut i: usize = 0;
    while i < 20
        invariant
            i <= 20,
            s@.len() >= 20,
            forall|j: int| 0 <= j < i ==> a@[j] == s@[j],
        decreases 20 - i,
    {
        a[i] = s[i];
        i = i + 1;
    }
    assert(a@ =~= s@.subrange(0, 20));
    a
}

/// Reads the credentials element.
fn read_credentials(r: &mut BerReader) -> (res: Result<Option<Credentials>, SleError>)
    ensures
        match spec_read_credentials(old(r).rest()) {
            Err(e) => res == Err::<Option<Credentials>, SleError>(e),
            Ok((cv, rest)) => (res matches Ok(c) && cred_view(c) == cv) && final(r).rest() == rest,
        },
{
    let (peek_tag, peek_class, _) = r.peek_tag()?;
    if peek_tag == NULL && peek_class == Class::Universal {
        r.read_null()?;
        return Ok(None);
    }
    let _cred_len = r.read_sequence()?;
    let time_bytes = r.read_octet_string()?;
    let random = r.read_integer()?;
    let hash_bytes = r.read_octet_string()?;
    if time_bytes.len() < 8 || hash_bytes.len() < 20 {
        return Err(SleError::Truncated);
    }
    let time = array8(time_bytes);
    let hash = array20(hash_bytes);
    Ok(Some(Credentials { time, random: random as u32, hash }))
}

/// Opens a PDU of operation `op` and reads its credentials.
fn open_pdu(r: &mut BerReader, op: u8) -> (res: Result<Option<Credentials>, SleError>)
    ensures
        match spec_open_pdu(old(r).rest(), op) {
            Err(e) => res == Err::<Option<Credentials>, SleError>(e),
            Ok((cv, rest)) => (res matches Ok(c) && cred_view(c) == cv) && final(r).rest() == rest,
        },
{
    let (tag, _len) = r.read_context_tag()?;
    if tag != op {
        return Err(SleError::UnexpectedTag);
    }
    let _seq_len = r.read_sequence()?;
    read_credentials(r)
}

/// Encodes the credentials element.
fn cred_bytes(c: &Option<Credentials>) -> (v: Vec<u8>)
    ensures
        v@ == spec_cred_bytes(cred_view(*c)),
{
    match c {
        None => null(),
        Some(cred) => {
            let mut content = match octet_string(&cred.time) {
                Ok(v) => v,
                Err(_) => Vec::new(),
            };
            let mut rnd = integer(cred.random as i64);
            content.append(&mut rnd);
            let mut hash = match octet_string(&cred.hash) {
                Ok(v) => v,
                Err(_) => Vec::new(),
            };
            content.append(&mut hash);
            proof {
                lemma_int_content(cred.random as i64);
            }
            match tlv(SEQUENCE, content) {
                Ok(v) => v,
                Err(_) => Vec::new(),
            }
        },
    }
}

/// The credentials element is at most 45 octets long.
proof fn lemma_cred_bytes_len(c: CredView)
    requires
        cred_ok(c),
    ensures
        spec_cred_bytes(c).len() <= 45,
{
    match c {
        None => {},
        Some((t, rnd, h)) => {
            lemma_int_content(rnd as i64);
            lemma_tlv_len(OCTET_STRING, t);
            lemma_tlv_len(INTEGER, spec_int_content(rnd as int));
            lemma_tlv_len(OCTET_STRING, h);
            let inner = spec_tlv(OCTET_STRING, t) + spec_tlv(INTEGER, spec_int_content(rnd as int))
                + spec_tlv(OCTET_STRING, h);
            lemma_tlv_len(SEQUENCE, inner);
        },
    }
}

/// Wraps `content` into the PDU of operation `op` and writes it at the
/// start of `buf`.
fn write_pdu(op: u8, content: Vec<u8>, buf: &mut [u8]) -> (r: Result<usize, SleError>)
    requires
        content@.len() <= 0xFFF0,
        op < 32,
    ensures
        spec_written(spec_pdu(op, content@), old(buf)@, final(buf)@, r),
{
    let ghost c = content@;
    let seq = match tlv(SEQUENCE, content) {
        Ok(v) => v,
        Err(e) => {
            return Err(e);
        },
    };
    proof {
        lemma_tlv_len(SEQUENCE, c);
    }
    let pdu = match tlv(0xA0 + op, seq) {
        Ok(v) => v,
        Err(e) => {
            return Err(e);
        },
    };
    if pdu.len() > buf.len() {
        return Err(SleError::BufferTooSmall);
    }
    copy_in(buf, 0, pdu.as_slice());
    Ok(pdu.len())
}

/// Reading back the credentials element that the encoder writes gives
/// the credentials and leaves what follows.
pub proof fn lemma_read_credentials(c: CredView, rest: Seq<u8>)
    requires
        cred_ok(c),
    ensures
        spec_read_credentials(spec_cred_bytes(c) + rest) == Ok::<(CredView, Seq<u8>), SleError>(
            (c, rest),
        ),
{
    let s = spec_cred_bytes(c) + rest;
    match c {
        None => {
            assert(s[0] == NULL);
            assert(NULL & 0x1Fu8 == NULL) by (bit_vector);
            lemma_read_primitive_tlv(NULL, Seq::empty(), rest);
        },
        Some((t, rnd, h)) => {
            lemma_int_content(rnd as i64);
            let a = spec_tlv(OCTET_STRING, t);
            let b = spec_tlv(INTEGER, spec_int_content(rnd as int));
            let d = spec_tlv(OCTET_STRING, h);
            lemma_tlv_len(OCTET_STRING, t);
            lemma_tlv_len(INTEGER, spec_int_content(rnd as int));
            lemma_tlv_len(OCTET_STRING, h);
            assert(s[0] == SEQUENCE);
            assert(SEQUENCE & 0x1Fu8 != NULL) by (bit_vector);
            lemma_enter_tlv(SEQUENCE, a + b + d, rest);
            assert(a + b + d + rest =~= a + (b + (d + rest)));
            lemma_read_primitive_tlv(OCTET_STRING, t, b + (d + rest));
            lemma_read_int_tlv(INTEGER, rnd as i64, d + rest);
            lemma_read_primitive_tlv(OCTET_STRING, h, rest);
            assert(t.subrange(0, 8) =~= t);
            assert(h.subrange(0, 20) =~= h);
        },
    }
}

/// Opening a PDU that the encoder writes gives its credentials and the
/// rest of its content.
pub proof fn lemma_open_pdu(op: u8, c: CredView, after: Seq<u8>)
    requires
        cred_ok(c),
        op < 32,
        after.len() <= 0xFF00,
    ensures
        spec_open_pdu(spec_pdu(op, spec_cred_bytes(c) + after), op) == Ok::<
            (CredView, Seq<u8>),
            SleError,
        >((c, after)),
{
    lemma_cred_bytes_len(c);
    let content = spec_cred_bytes(c) + after;
    let inner = spec_tlv(SEQUENCE, content);
    lemma_tlv_len(SEQUENCE, content);
    let s = spec_pdu(op, content);
    assert(s =~= spec_tlv(spec_op_id(op), inner) + Seq::empty());
    lemma_enter_tlv(spec_op_id(op), inner, Seq::empty());
    let id = spec_op_id(op);
    assert(0xA0 + op < 256);
    assert(id == 0xA0 + op);
    assert(spec_class(id) == Class::Context);
    assert(id & 0x1F == op) by (bit_vector)
        requires
            id == 0xA0 + op,
            op < 32,
    ;
    assert(inner + Seq::empty() =~= spec_tlv(SEQUENCE, content) + Seq::empty());
    lemma_enter_tlv(SEQUENCE, content, Seq::empty());
    assert(content + Seq::<u8>::empty() =~= content);
    lemma_read_credentials(c, after);
}

/// Opening a PDU whose content after the credentials is `a` then `b`.
proof fn lemma_open_pdu2(op: u8, c: CredView, a: Seq<u8>, b: Seq<u8>)
    requires
        cred_ok(c),
        op < 32,
        a.len() + b.len() <= 0xFF00,
    ensures
        spec_open_pdu(spec_pdu(op, spec_cred_bytes(c) + a + b), op) == Ok::<
            (CredView, Seq<u8>),
            SleError,
        >((c, a + b)),
{
    assert(spec_cred_bytes(c) + a + b =~= spec_cred_bytes(c) + (a + b));
    lemma_open_pdu(op, c, a + b);
}

// ── Bind ────────────────────────────────────────────────────────

/// What a Bind invocation carries: initiator and responder identifiers,
/// service type, version and credentials.
pub type BindView = (Seq<u8>, Seq<u8>, ServiceType, u16, CredView);

/// The SEQUENCE content of a Bind invocation after its credentials.
pub open spec fn spec_bind_fields(v: BindView) -> Seq<u8> {
    spec_tlv(OCTET_STRING, v.0) + spec_tlv(OCTET_STRING, v.1) + spec_tlv(
        ENUMERATED,
        spec_int_content(v.2.spec_code() as int),
    ) + spec_tlv(INTEGER, spec_int_content(v.3 as int))
}

/// The encoding of a Bind invocation.
pub open spec fn spec_encode_bind(v: BindView) -> Seq<u8> {
    spec_pdu(0, spec_cred_bytes(v.4) + spec_bind_fields(v))
}

/// Decoding a Bind invocation: the service type must be a known one, and
/// the decoded invocation is a Forward CLTU bind of the identifiers read
/// (`TooLong` beyond 64 octets).
pub open spec fn spec_decode_bind(s: Seq<u8>) -> Result<BindView, SleError> {
    match spec_open_pdu(s, 0) {
        Err(e) => Err(e),
        Ok((cred, r2)) => match spec_read_primitive(r2, OCTET_STRING) {
            Err(e) => Err(e),
            Ok((init, r3)) => match spec_read_primitive(r3, OCTET_STRING) {
                Err(e) => Err(e),
                Ok((resp, r4)) => match spec_read_int(r4, ENUMERATED) {
                    Err(e) => Err(e),
                    Ok((st, r5)) => match spec_service_type(st as u8) {
                        Err(e) => Err(e),
                        Ok(_) => match spec_read_int(r5, INTEGER) {
                            Err(e) => Err(e),
                            Ok((ver, _)) => if init.len() > MAX_ID_LEN || resp.len() > MAX_ID_LEN {
                                Err(SleError::TooLong)
                            } else {
                                Ok((init, resp, ServiceType::FCltu, ver as u16, cred))
                            },
                        },
                    },
                },
            },
        },
    }
}

/// CLTU Bind invocation PDU.
#[derive(Clone, Debug)]
pub struct CltuBindInvocation {
    /// Identifier of the initiator (client).
    pub initiator_id: [u8; MAX_ID_LEN],
    /// Length of initiator_id.
    pub initiator_id_len: usize,
    /// Identifier of the responder (ground station).
    pub responder_id: [u8; MAX_ID_LEN],
    /// Length of responder_id.
    pub responder_id_len: usize,
    /// Service type (should be FCltu).
    pub service_type: ServiceType,
    /// Protocol version number.
    pub version: u16,
    /// Optional authentication credentials.
    pub credentials: Option<Credentials>,
}

impl CltuBindInvocation {
    /// Both identifier lengths are within their arrays.
    pub open spec fn wf(&self) -> bool {
        self.initiator_id_len <= MAX_ID_LEN && self.responder_id_len <= MAX_ID_LEN
    }

    /// What the invocation carries.
    pub open spec fn spec_view(&self) -> BindView {
        (
            self.initiator_id@.subrange(0, self.initiator_id_len as int),
            self.responder_id@.subrange(0, self.responder_id_len as int),
            self.service_type,
            self.version,
            cred_view(self.credentials),
        )
    }

    /// Creates a new CLTU bind invocation; `TooLong` when an identifier
    /// exceeds 64 octets.
    pub fn new(
        initiator_id: &[u8],
        responder_id: &[u8],
        version: u16,
        credentials: Option<Credentials>,
    ) -> (r: Result<Self, SleError>)
        ensures
            initiator_id@.len() > MAX_ID_LEN || responder_id@.len() > MAX_ID_LEN ==> r == Err::<
                Self,
                SleError,
            >(SleError::TooLong),
            initiator_id@.len() <= MAX_ID_LEN && responder_id@.len() <= MAX_ID_LEN ==> (r matches Ok(
                b,
            ) && b.wf() && b.spec_view() == (
                initiator_id@,
                responder_id@,
                ServiceType::FCltu,
                version,
                cred_view(credentials),
            )),
    {
        if initiator_id.len() > MAX_ID_LEN || responder_id.len() > MAX_ID_LEN {
            return Err(SleError::TooLong);
        }
        let mut init = [0u8; MAX_ID_LEN];
        copy_in(&mut init, 0, initiator_id);
        let mut resp = [0u8; MAX_ID_LEN];
        copy_in(&mut resp, 0, responder_id);
        let b = CltuBindInvocation {
            initiator_id: init,
            initiator_id_len: initiator_id.len(),
            responder_id: resp,
            responder_id_len: responder_id.len(),
            service_type: ServiceType::FCltu,
            version,
            credentials,
        };
        assert(b.spec_view().0 =~= initiator_id@);
        assert(b.spec_view().1 =~= responder_id@);
        Ok(b)
    }

    /// Returns the initiator identifier as a byte slice.
    pub fn initiator_id(&self) -> (s: &[u8])
        requires
            self.wf(),
        ensures
            s@ == self.spec_view().0,
    {
        vstd::slice::slice_subrange(self.initiator_id.as_slice(), 0, self.initiator_id_len)
    }

    /// Returns the responder identifier as a byte slice.
    pub fn responder_id(&self) -> (s: &[u8])
        requires
            self.wf(),
        ensures
            s@ == self.spec_view().1,
    {
        vstd::slice::slice_subrange(self.responder_id.as_slice(), 0, self.responder_id_len)
    }

    /// Encodes this PDU into `buf`.
    pub fn encode(&self, buf: &mut [u8]) -> (r: Result<usize, SleError>)
        requires
            self.wf(),
        ensures
            spec_written(spec_encode_bind(self.spec_view()), old(buf)@, final(buf)@, r),
    {
        let mut content = cred_bytes(&self.credentials);
        let mut init = match octet_string(self.initiator_id()) {
            Ok(v) => v,
            Err(_) => Vec::new(),
        };
        content.append(&mut init);
        let mut resp = match octet_string(self.responder_id()) {
            Ok(v) => v,
            Err(_) => Vec::new(),
        };
        content.append(&mut resp);
        let mut st = enumerated(self.service_type.code() as i64);
        content.append(&mut st);
        let mut ver = integer(self.version as i64);
        content.append(&mut ver);
        proof {
            let v = self.spec_view();
            lemma_cred_bytes_len(v.4);
            lemma_tlv_len(OCTET_STRING, v.0);
            lemma_tlv_len(OCTET_STRING, v.1);
            lemma_int_content(v.2.spec_code() as i64);
            lemma_int_content(v.3 as i64);
            lemma_tlv_len(ENUMERATED, spec_int_content(v.2.spec_code() as int));
            lemma_tlv_len(INTEGER, spec_int_content(v.3 as int));
            assert(content@ =~= spec_cred_bytes(v.4) + spec_bind_fields(v));
        }
        write_pdu(CltuOp::Bind.code(), content, buf)
    }

    /// Decodes a CLTU Bind invocation from BER bytes.
    pub fn decode(buf: &[u8]) -> (r: Result<Self, SleError>)
        ensures
            match spec_decode_bind(buf@) {
                Err(e) => r == Err::<Self, SleError>(e),
                Ok(v) => (r matches Ok(b) && b.wf() && b.spec_view() == v),
            },
    {
        let mut r = BerReader::new(buf);
        let credentials = open_pdu(&mut r, CltuOp::Bind.code())?;
        let initiator = r.read_octet_string()?;
        let responder = r.read_octet_string()?;
        let st = r.read_enum()?;
        let _service_type = ServiceType::from_u8(st as u8)?;
        let version = r.read_integer()?;
        Self::new(initiator, responder, version as u16, credentials)
    }
}

/// Decoding the encoding of a Forward CLTU bind invocation gives it back.
pub proof fn lemma_bind_roundtrip(v: BindView)
    requires
        v.0.len() <= MAX_ID_LEN,
        v.1.len() <= MAX_ID_LEN,
        v.2 == ServiceType::FCltu,
        cred_ok(v.4),
    ensures
        spec_decode_bind(spec_encode_bind(v)) == Ok::<BindView, SleError>(v),
{
    let a = spec_tlv(OCTET_STRING, v.0);
    let b = spec_tlv(OCTET_STRING, v.1);
    let c = spec_tlv(ENUMERATED, spec_int_content(v.2.spec_code() as int));
    let d = spec_tlv(INTEGER, spec_int_content(v.3 as int));
    let e = Seq::<u8>::empty();
    lemma_tlv_len(OCTET_STRING, v.0);
    lemma_tlv_len(OCTET_STRING, v.1);
    lemma_int_content(v.2.spec_code() as i64);
    lemma_int_content(v.3 as i64);
    lemma_tlv_len(ENUMERATED, spec_int_content(v.2.spec_code() as int));
    lemma_tlv_len(INTEGER, spec_int_content(v.3 as int));
    assert(spec_bind_fields(v) =~= a + (b + (c + d)));
    lemma_open_pdu(0, v.4, spec_bind_fields(v));
    assert(spec_read_primitive(a + (b + (c + d)), OCTET_STRING) == Ok::<
        (Seq<u8>, Seq<u8>),
        SleError,
    >((v.0, b + (c + d)))) by {
        lemma_read_primitive_tlv(OCTET_STRING, v.0, b + (c + d));
    }
    assert(spec_read_primitive(b + (c + d), OCTET_STRING) == Ok::<(Seq<u8>, Seq<u8>), SleError>(
        (v.1, c + d),
    )) by {
        lemma_read_primitive_tlv(OCTET_STRING, v.1, c + d);
    }
    assert(spec_read_int(c + d, ENUMERATED) == Ok::<(i64, Seq<u8>), SleError>(
        (v.2.spec_code() as i64, d),
    )) by {
        lemma_read_int_tlv(ENUMERATED, v.2.spec_code() as i64, d);
    }
    assert(spec_read_int(d, INTEGER) == Ok::<(i64, Seq<u8>), SleError>((v.3 as i64, e))) by {
        assert(d + e =~= d);
        lemma_read_int_tlv(INTEGER, v.3 as i64, e);
    }
}

// ── Start ───────────────────────────────────────────────────────

/// What a Start invocation carries: credentials, invoke ID and first CLTU
/// ID.
pub type StartView = (CredView, u16, u32);

/// The encoding of a Start invocation.
pub open spec fn spec_encode_start(v: StartView) -> Seq<u8> {
    spec_pdu(
        4,
        spec_cred_bytes(v.0) + spec_tlv(INTEGER, spec_int_content(v.1 as int)) + spec_tlv(
            INTEGER,
            spec_int_content(v.2 as int),
        ),
    )
}

/// Decoding a Start invocation; the integers are cut to their field
/// widths.
pub open spec fn spec_decode_start(s: Seq<u8>) -> Result<StartView, SleError> {
    match spec_open_pdu(s, 4) {
        Err(e) => Err(e),
        Ok((cred, r2)) => match spec_read_int(r2, INTEGER) {
            Err(e) => Err(e),
            Ok((a, r3)) => match spec_read_int(r3, INTEGER) {
                Err(e) => Err(e),
                Ok((b, _)) => Ok((cred, a as u16, b as u32)),
            },
        },
    }
}

/// CLTU Start invocation PDU.
///
/// Starts CLTU production at the ground station so CLTUs
/// can be sent for radiation.
#[derive(Copy, Clone, Debug, PartialEq, Eq)]
pub struct CltuStartInvocation {
    /// Optional authentication credentials.
    pub credentials: Option<Credentials>,
    /// Invocation identifier (sequence number).
    pub invoke_id: u16,
    /// First CLTU identifier to be accepted.
    pub first_cltu_id: u32,
}

impl CltuStartInvocation {
    /// What the invocation carries.
    pub open spec fn spec_view(&self) -> StartView {
        (cred_view(self.credentials), self.invoke_id, self.first_cltu_id)
    }

    /// Encodes this PDU into `buf`.
    pub fn encode(&self, buf: &mut [u8]) -> (r: Result<usize, SleError>)
        ensures
            spec_written(spec_encode_start(self.spec_view()), old(buf)@, final(buf)@, r),
    {
        let mut content = cred_bytes(&self.credentials);
        let mut a = integer(self.invoke_id as i64);
        content.append(&mut a);
        let mut b = integer(self.first_cltu_id as i64);
        content.append(&mut b);
        proof {
            let v = self.spec_view();
            lemma_cred_bytes_len(v.0);
            lemma_int_content(v.1 as i64);
            lemma_int_content(v.2 as i64);
            lemma_tlv_len(INTEGER, spec_int_content(v.1 as int));
            lemma_tlv_len(INTEGER, spec_int_content(v.2 as int));
        }
        write_pdu(CltuOp::Start.code(), content, buf)
    }

    /// Decodes a CLTU Start invocation from BER bytes.
    pub fn decode(buf: &[u8]) -> (r: Result<Self, SleError>)
        ensures
            match spec_decode_start(buf@) {
                Err(e) => r == Err::<Self, SleError>(e),
                Ok(v) => (r matches Ok(s) && s.spec_view() == v),
            },
    {
        let mut r = BerReader::new(buf);
        let credentials = open_pdu(&mut r, CltuOp::Start.code())?;
        let invoke_id = r.read_integer()?;
        let first_cltu_id = r.read_integer()?;
        Ok(CltuStartInvocation {
            credentials,
            invoke_id: invoke_id as u16,
            first_cltu_id: first_cltu_id as u32,
        })
    }
}

/// Decoding the encoding of a Start invocation gives it back.
pub proof fn lemma_start_roundtrip(v: StartView)
    requires
        cred_ok(v.0),
    ensures
        spec_decode_start(spec_encode_start(v)) == Ok::<StartView, SleError>(v),
{
    let a = spec_tlv(INTEGER, spec_int_content(v.1 as int));
    let b = spec_tlv(INTEGER, spec_int_content(v.2 as int));
    let e = Seq::<u8>::empty();
    let s = spec_encode_start(v);
    lemma_int_content(v.1 as i64);
    lemma_int_content(v.2 as i64);
    lemma_tlv_len(INTEGER, spec_int_content(v.1 as int));
    lemma_tlv_len(INTEGER, spec_int_content(v.2 as int));
    lemma_open_pdu2(4, v.0, a, b);
    assert(spec_read_int(a + b, INTEGER) == Ok::<(i64, Seq<u8>), SleError>((v.1 as i64, b))) by {
        lemma_read_int_tlv(INTEGER, v.1 as i64, b);
    }
    assert(spec_read_int(b, INTEGER) == Ok::<(i64, Seq<u8>), SleError>((v.2 as i64, e))) by {
        assert(b + e =~= b);
        lemma_read_int_tlv(INTEGER, v.2 as i64, e);
    }
}

// ── Transfer Data ───────────────────────────────────────────────

/// What a Transfer Data invocation carries: CLTU ID, data and
/// credentials.
pub type TransferDataView = (u32, Seq<u8>, CredView);

/// The encoding of a Transfer Data invocation.
pub open spec fn spec_encode_transfer_data(v: TransferDataView) -> Seq<u8> {
    spec_pdu(
        8,
        spec_cred_bytes(v.2) + spec_tlv(INTEGER, spec_int_content(v.0 as int)) + spec_tlv(
            OCTET_STRING,
            v.1,
        ),
    )
}

/// Decoding a Transfer Data invocation (`TooLong` beyond 2048 data
/// octets).
pub open spec fn spec_decode_transfer_data(s: Seq<u8>) -> Result<TransferDataView, SleError> {
    match spec_open_pdu(s, 8) {
        Err(e) => Err(e),
        Ok((cred, r2)) => match spec_read_int(r2, INTEGER) {
            Err(e) => Err(e),
            Ok((id, r3)) => match spec_read_primitive(r3, OCTET_STRING) {
                Err(e) => Err(e),
                Ok((data, _)) => if data.len() > MAX_CLTU_DATA {
                    Err(SleError::TooLong)
                } else {
                    Ok((id as u32, data, cred))
                },
            },
        },
    }
}

/// CLTU Transfer Data invocation — sends a CLTU for radiation.
#[derive(Clone, Debug)]
pub struct CltuTransferDataInvocation {
    /// CLTU identifier (sequence number).
    pub cltu_id: u32,
    /// The CLTU data to be radiated.
    data: Vec<u8>,
    /// Optional authentication credentials.
    pub credentials: Option<Credentials>,
}

impl CltuTransferDataInvocation {
    /// The CLTU data.
    pub closed spec fn spec_data(&self) -> Seq<u8> {
        self.data@
    }

    /// What the invocation carries: its CLTU ID, data and credentials.
    pub closed spec fn spec_view(&self) -> TransferDataView {
        (self.cltu_id, self.spec_data(), cred_view(self.credentials))
    }

    /// At most 2048 data octets.
    pub open spec fn wf(&self) -> bool {
        self.spec_data().len() <= MAX_CLTU_DATA
    }

    /// Creates a new CLTU transfer data invocation; `TooLong` beyond 2048
    /// data octets.
    pub fn new(cltu_id: u32, data: &[u8], credentials: Option<Credentials>) -> (r: Result<
        Self,
        SleError,
    >)
        ensures
            data@.len() > MAX_CLTU_DATA ==> r == Err::<Self, SleError>(SleError::TooLong),
            data@.len() <= MAX_CLTU_DATA ==> (r matches Ok(t) && t.wf() && t.spec_view() == (
                cltu_id,
                data@,
                cred_view(credentials),
            )),
    {
        if data.len() > MAX_CLTU_DATA {
            return Err(SleError::TooLong);
        }
        let v = crate::utils::copy_out(data, 0, data.len());
        assert(data@.subrange(0, data@.len() as int) =~= data@);
        Ok(CltuTransferDataInvocation { cltu_id, data: v, credentials })
    }

    /// Returns the CLTU identifier.
    pub fn cltu_id(&self) -> (id: u32)
        ensures
            id == self.spec_view().0,
    {
        self.cltu_id
    }

    /// Returns the credentials.
    pub fn credentials(&self) -> (c: &Option<Credentials>)
        ensures
            cred_view(*c) == self.spec_view().2,
    {
        &self.credentials
    }

    /// Returns the CLTU data.
    pub fn data(&self) -> (d: &[u8])
        ensures
            d@ == self.spec_data(),
            d@ == self.spec_view().1,
    {
        self.data.as_slice()
    }

    /// Encodes this PDU into `buf`.
    pub fn encode(&self, buf: &mut [u8]) -> (r: Result<usize, SleError>)
        requires
            self.wf(),
        ensures
            spec_written(spec_encode_transfer_data(self.spec_view()), old(buf)@, final(buf)@, r),
    {
        let mut content = cred_bytes(&self.credentials);
        let mut id = integer(self.cltu_id as i64);
        content.append(&mut id);
        let mut d = match octet_string(self.data()) {
            Ok(v) => v,
            Err(_) => Vec::new(),
        };
        content.append(&mut d);
        proof {
            let v = self.spec_view();
            lemma_cred_bytes_len(v.2);
            lemma_int_content(v.0 as i64);
            lemma_tlv_len(INTEGER, spec_int_content(v.0 as int));
            lemma_tlv_len(OCTET_STRING, v.1);
        }
        write_pdu(CltuOp::TransferData.code(), content, buf)
    }

    /// Decodes a CLTU transfer data invocation from BER bytes.
    pub fn decode(buf: &[u8]) -> (r: Result<Self, SleError>)
        ensures
            match spec_decode_transfer_data(buf@) {
                Err(e) => r == Err::<Self, SleError>(e),
                Ok(v) => (r matches Ok(t) && t.wf() && t.spec_view() == v),
            },
    {
        let mut r = BerReader::new(buf);
        let credentials = open_pdu(&mut r, CltuOp::TransferData.code())?;
        let cltu_id = r.read_integer()?;
        let data = r.read_octet_string()?;
        Self::new(cltu_id as u32, data, credentials)
    }
}

/// Decoding the encoding of a Transfer Data invocation gives it back.
pub proof fn lemma_transfer_data_roundtrip(v: TransferDataView)
    requires
        v.1.len() <= MAX_CLTU_DATA,
        cred_ok(v.2),
    ensures
        spec_decode_transfer_data(spec_encode_transfer_data(v)) == Ok::<TransferDataView, SleError>(
            v,
        ),
{
    let a = spec_tlv(INTEGER, spec_int_content(v.0 as int));
    let b = spec_tlv(OCTET_STRING, v.1);
    let e = Seq::<u8>::empty();
    let s = spec_encode_transfer_data(v);
    lemma_int_content(v.0 as i64);
    lemma_tlv_len(INTEGER, spec_int_content(v.0 as int));
    lemma_tlv_len(OCTET_STRING, v.1);
    lemma_open_pdu2(8, v.2, a, b);
    assert(spec_read_int(a + b, INTEGER) == Ok::<(i64, Seq<u8>), SleError>((v.0 as i64, b))) by {
        lemma_read_int_tlv(INTEGER, v.0 as i64, b);
    }
    assert(spec_read_primitive(b, OCTET_STRING) == Ok::<(Seq<u8>, Seq<u8>), SleError>((v.1, e)))
        by {
        assert(b + e =~= b);
        lemma_read_primitive_tlv(OCTET_STRING, v.1, e);
    }
}

// ── Transfer Data Return ────────────────────────────────────────

/// What a Transfer Data return carries: CLTU ID, status and credentials.
pub type TransferDataReturnView = (u32, CltuStatus, CredView);

/// The encoding of a Transfer Data return.
pub open spec fn spec_encode_transfer_data_return(v: TransferDataReturnView) -> Seq<u8> {
    spec_pdu(
        9,
        spec_cred_bytes(v.2) + spec_tlv(INTEGER, spec_int_content(v.0 as int)) + spec_tlv(
            ENUMERATED,
            spec_int_content(v.1.spec_code() as int),
        ),
    )
}

/// Decoding a Transfer Data return; the status must be a known one.
pub open spec fn spec_decode_transfer_data_return(s: Seq<u8>) -> Result<
    TransferDataReturnView,
    SleError,
> {
    match spec_open_pdu(s, 9) {
        Err(e) => Err(e),
        Ok((cred, r2)) => match spec_read_int(r2, INTEGER) {
            Err(e) => Err(e),
            Ok((id, r3)) => match spec_read_int(r3, ENUMERATED) {
                Err(e) => Err(e),
                Ok((st, _)) => match spec_cltu_status(st) {
                    Err(e) => Err(e),
                    Ok(status) => Ok((id as u32, status, cred)),
                },
            },
        },
    }
}

/// CLTU Transfer Data return — acknowledgement from provider.
#[derive(Copy, Clone, Debug, PartialEq, Eq)]
pub struct CltuTransferDataReturn {
    /// CLTU identifier this return refers to.
    pub cltu_id: u32,
    /// Status of the CLTU.
    pub status: CltuStatus,
    /// Optional authentication credentials.
    pub credentials: Option<Credentials>,
}

impl CltuTransferDataReturn {
    /// What the return carries.
    pub open spec fn spec_view(&self) -> TransferDataReturnView {
        (self.cltu_id, self.status, cred_view(self.credentials))
    }

    /// Encodes this PDU into `buf`.
    pub fn encode(&self, buf: &mut [u8]) -> (r: Result<usize, SleError>)
        ensures
            spec_written(
                spec_encode_transfer_data_return(self.spec_view()),
                old(buf)@,
                final(buf)@,
                r,
            ),
    {
        let mut content = cred_bytes(&self.credentials);
        let mut id = integer(self.cltu_id as i64);
        content.append(&mut id);
        let mut st = enumerated(self.status.code() as i64);
        content.append(&mut st);
        proof {
            let v = self.spec_view();
            lemma_cred_bytes_len(v.2);
            lemma_int_content(v.0 as i64);
            lemma_int_content(v.1.spec_code() as i64);
            lemma_tlv_len(INTEGER, spec_int_content(v.0 as int));
            lemma_tlv_len(ENUMERATED, spec_int_content(v.1.spec_code() as int));
        }
        write_pdu(CltuOp::TransferDataReturn.code(), content, buf)
    }

    /// Decodes a CLTU transfer data return from BER bytes.
    pub fn decode(buf: &[u8]) -> (r: Result<Self, SleError>)
        ensures
            match spec_decode_transfer_data_return(buf@) {
                Err(e) => r == Err::<Self, SleError>(e),
                Ok(v) => (r matches Ok(t) && t.spec_view() == v),
            },
    {
        let mut r = BerReader::new(buf);
        let credentials = open_pdu(&mut r, CltuOp::TransferDataReturn.code())?;
        let cltu_id = r.read_integer()?;
        let st = r.read_enum()?;
        let status = CltuStatus::from_i64(st)?;
        Ok(CltuTransferDataReturn { cltu_id: cltu_id as u32, status, credentials })
    }
}

/// Decoding the encoding of a Transfer Data return gives it back.
pub proof fn lemma_transfer_data_return_roundtrip(v: TransferDataReturnView)
    requires
        cred_ok(v.2),
    ensures
        spec_decode_transfer_data_return(spec_encode_transfer_data_return(v)) == Ok::<
            TransferDataReturnView,
            SleError,
        >(v),
{
    let a = spec_tlv(INTEGER, spec_int_content(v.0 as int));
    let b = spec_tlv(ENUMERATED, spec_int_content(v.1.spec_code() as int));
    let e = Seq::<u8>::empty();
    let s = spec_encode_transfer_data_return(v);
    lemma_int_content(v.0 as i64);
    lemma_int_content(v.1.spec_code() as i64);
    lemma_tlv_len(INTEGER, spec_int_content(v.0 as int));
    lemma_tlv_len(ENUMERATED, spec_int_content(v.1.spec_code() as int));
    lemma_open_pdu2(9, v.2, a, b);
    assert(spec_read_int(a + b, INTEGER) == Ok::<(i64, Seq<u8>), SleError>((v.0 as i64, b))) by {
        lemma_read_int_tlv(INTEGER, v.0 as i64, b);
    }
    assert(spec_read_int(b, ENUMERATED) == Ok::<(i64, Seq<u8>), SleError>(
        (v.1.spec_code() as i64, e),
    )) by {
        assert(b + e =~= b);
        lemma_read_int_tlv(ENUMERATED, v.1.spec_code() as i64, e);
    }
    assert(spec_cltu_status(v.1.spec_code() as i64) == Ok::<CltuStatus, SleError>(v.1));
    assert(spec_decode_transfer_data_return(s) == Ok::<TransferDataReturnView, SleError>(
        ((v.0 as i64) as u32, v.1, v.2),
    ));
}

/// The value on the wire of every `CltuOp`, as the protocol's table fixes it.
pub proof fn lemma_cltu_op_values()
    ensures
        CltuOp::Bind.spec_code() == 0,
        CltuOp::BindReturn.spec_code() == 1,
        CltuOp::Unbind.spec_code() == 2,
        CltuOp::UnbindReturn.spec_code() == 3,
        CltuOp::Start.spec_code() == 4,
        CltuOp::StartReturn.spec_code() == 5,
        CltuOp::Stop.spec_code() == 6,
        CltuOp::StopReturn.spec_code() == 7,
        CltuOp::TransferData.spec_code() == 8,
        CltuOp::TransferDataReturn.spec_code() == 9,
{
}

/// The value on the wire of every `CltuStatus`, as the protocol's table fixes it; decoding gives that variant for exactly
/// those values and nothing for any other.
pub proof fn lemma_cltu_status_values()
    ensures
        CltuStatus::Radiated.spec_code() == 0,
        CltuStatus::Expired.spec_code() == 1,
        CltuStatus::Interrupted.spec_code() == 2,
        CltuStatus::ProductionNotStarted.spec_code() == 3,
        spec_cltu_status(0) == Ok::<CltuStatus, SleError>(CltuStatus::Radiated),
        spec_cltu_status(1) == Ok::<CltuStatus, SleError>(CltuStatus::Expired),
        spec_cltu_status(2) == Ok::<CltuStatus, SleError>(CltuStatus::Interrupted),
        spec_cltu_status(3) == Ok::<CltuStatus, SleError>(CltuStatus::ProductionNotStarted),
        forall|v: i64| v != 0 && v != 1 && v != 2 && v != 3 ==> spec_cltu_status(v) == Err::<CltuStatus, SleError>(SleError::InvalidEnumValue),
{
}

/// Each PDU starts with the context-specific constructed tag of its
/// operation, `0xA0` plus the operation's number: Bind, Start, Transfer
/// Data and Transfer Data return.
pub proof fn lemma_pdu_operation_tags(b: BindView, s: StartView, t: TransferDataView, r: TransferDataReturnView)
    ensures
        spec_encode_bind(b)[0] == 0xA0 + CltuOp::Bind.spec_code(),
        spec_encode_start(s)[0] == 0xA0 + CltuOp::Start.spec_code(),
        spec_encode_transfer_data(t)[0] == 0xA0 + CltuOp::TransferData.spec_code(),
        spec_encode_transfer_data_return(r)[0] == 0xA0 + CltuOp::TransferDataReturn.spec_code(),
{
}

} // verus!
