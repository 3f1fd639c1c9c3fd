//! The decisions of a ColonyOS executor on an assignment reply: whether it
//! is the reply awaited, which process and function it assigns, and what a
//! failure report carries. Sending, receiving and running the handler are
//! asynchronous and stay with the caller.
use vstd::prelude::*;
use vstd::string::StringSliceAdditionalSpecFns;

use crate::mission::colonies::messages::{spec_lv, spec_next_arg, ArgIterator, ColoniesOpCode, PayloadWriter};
use crate::utils::{copy_out, splice};

verus! {

/// Errors of the executor's client side.
#[derive(Debug)]
pub enum ClientError<E> {
    /// The link failed.
    Transport(E),
    /// The reply does not fit in the buffer.
    BufferTooSmall,
    /// The assignment's payload is not a process ID and a function name.
    PayloadFormat,
}

/// Whether `b` lies in `lo..=hi`.
pub open spec fn in_range(b: u8, lo: u8, hi: u8) -> bool {
    lo <= b <= hi
}

/// Whether `s` starts with a well-formed UTF-8 sequence of 2 to 4 bytes
/// led by `s[0]` (Unicode Table 3-7): the second byte's range depends on
/// the lead byte, every later byte is a continuation byte.
pub open spec fn utf8_multibyte_len(s: Seq<u8>) -> nat {
    let b0 = s[0];
    let cont = |i: int| s.len() > i && in_range(s[i], 0x80, 0xBF);
    if in_range(b0, 0xC2, 0xDF) && cont(1) {
        2
    } else if b0 == 0xE0 && s.len() > 1 && in_range(s[1], 0xA0, 0xBF) && cont(2) {
        3
    } else if (in_range(b0, 0xE1, 0xEC) || in_range(b0, 0xEE, 0xEF)) && cont(1) && cont(2) {
        3
    } else if b0 == 0xED && s.len() > 1 && in_range(s[1], 0x80, 0x9F) && cont(2) {
        3
    } else if b0 == 0xF0 && s.len() > 1 && in_range(s[1], 0x90, 0xBF) && cont(2) && cont(3) {
        4
    } else if in_range(b0, 0xF1, 0xF3) && cont(1) && cont(2) && cont(3) {
        4
    } else if b0 == 0xF4 && s.len() > 1 && in_range(s[1], 0x80, 0x8F) && cont(2) && cont(3) {
        4
    } else {
        0
    }
}

/// Whether the bytes `b` are valid UTF-8: a run of ASCII bytes and
/// well-formed multi-byte sequences.
pub open spec fn is_utf8(b: Seq<u8>) -> bool
    decreases b.len(),
{
    if b.len() == 0 {
        true
    } else if b[0] < 0x80 {
        is_utf8(b.subrange(1, b.len() as int))
    } else {
        let n = utf8_multibyte_len(b);
        n > 0 && is_utf8(b.subrange(n as int, b.len() as int))
    }
}

/// `core::str::from_utf8`: the bytes as a string slice over the same bytes
/// when they are valid UTF-8 (as `is_utf8` states it), else nothing.
#[verifier::external_body]
fn utf8_str(b: &[u8]) -> (r: Option<&str>)
    ensures
        r is Some <==> is_utf8(b@),
        r matches Some(s) ==> s.spec_bytes() == b@,
{
    core::str::from_utf8(b).ok()
}

/// The longest process ID an executor keeps, in bytes.
pub const MAX_PROCESS_ID_LEN: usize = 64;

/// A process ID cut to its first 64 bytes.
pub open spec fn spec_process_id(b: Seq<u8>) -> Seq<u8> {
    if b.len() <= MAX_PROCESS_ID_LEN {
        b
    } else {
        b.subrange(0, MAX_PROCESS_ID_LEN as int)
    }
}

/// An assignment: the process to report on, the function to run and its
/// arguments.
pub struct Assignment<'a> {
    /// The process ID, cut to 64 bytes.
    pub process_id: Vec<u8>,
    /// The name of the function to run.
    pub func_name: &'a str,
    /// The function's arguments.
    pub args: ArgIterator<'a>,
}

/// Reads an assignment reply with op code `op_code`, message ID `msg_id`
/// and payload `payload`, when the executor awaits message
/// `expected_msg_id`: `Ok(None)` for a reply that is not an assignment
/// response or answers another message; `PayloadFormat` when the payload
/// does not start with a process ID and a UTF-8 function name (each
/// length-value encoded); else the assignment.
pub fn read_assignment<'a, E>(op_code: u8, msg_id: u32, expected_msg_id: u32, payload: &'a [u8]) -> (r:
    Result<Option<Assignment<'a>>, ClientError<E>>)
    ensures
        op_code != ColoniesOpCode::AssignResponse.spec_code() || msg_id != expected_msg_id ==> r matches Ok(
            None,
        ),
        op_code == ColoniesOpCode::AssignResponse.spec_code() && msg_id == expected_msg_id ==> match spec_next_arg(
            payload@,
        ) {
            None => r matches Err(ClientError::PayloadFormat),
            Some((pid, rest)) => match spec_next_arg(rest) {
                None => r matches Err(ClientError::PayloadFormat),
                Some((name, args)) => if !is_utf8(name) {
                    r matches Err(ClientError::PayloadFormat)
                } else {
                    r matches Ok(Some(a)) && a.process_id@ == spec_process_id(pid)
                        && a.func_name.spec_bytes() == name && a.args.rest() == args
                },
            },
        },
{
    if op_code != ColoniesOpCode::AssignResponse.code() || msg_id != expected_msg_id {
        return Ok(None);
    }
    let mut iter = ArgIterator::new(payload);
    let pid = match iter.next() {
        Some(p) => p,
        None => {
            return Err(ClientError::PayloadFormat);
        },
    };
    let n = if pid.len() < MAX_PROCESS_ID_LEN {
        pid.len()
    } else {
        MAX_PROCESS_ID_LEN
    };
    let process_id = copy_out(pid, 0, n);
    proof {
        assert(pid@.subrange(0, n as int) =~= spec_process_id(pid@));
    }
    let name = match iter.next() {
        Some(b) => b,
        None => {
            return Err(ClientError::PayloadFormat);
        },
    };
    let func_name = match utf8_str(name) {
        Some(s) => s,
        None => {
            return Err(ClientError::PayloadFormat);
        },
    };
    Ok(Some(Assignment { process_id, func_name, args: iter }))
}

/// The op code of the reply to an assignment: `Close` when the handler
/// succeeded (the payload is then what it wrote after the process ID),
/// `Fail` when it failed (the payload is then the failure report of
/// `write_failure`).
pub fn reply_op_code(handler_ok: bool) -> (c: ColoniesOpCode)
    ensures
        c == if handler_ok {
            ColoniesOpCode::Close
        } else {
            ColoniesOpCode::Fail
        },
{
    if handler_ok {
        ColoniesOpCode::Close
    } else {
        ColoniesOpCode::Fail
    }
}

/// A payload writer's buffer and cursor after appending the LV encoding of
/// `v`, when it fits.
pub open spec fn spec_lv_append(buf: Seq<u8>, cursor: nat, v: Seq<u8>) -> (Seq<u8>, nat) {
    if cursor + 2 + v.len() <= buf.len() {
        (splice(buf, cursor as int, spec_lv(v)), cursor + 2 + v.len())
    } else {
        (buf, cursor)
    }
}

/// Writes a failure report's payload with `w`: the process ID, then the
/// error message, each appended when it fits.
pub fn write_failure(w: &mut PayloadWriter<'_>, process_id: &[u8], err_msg: &str)
    requires
        old(w).wf(),
    ensures
        final(w).wf(),
        ({
            let (b1, c1) = spec_lv_append(old(w).spec_buffer(), old(w).spec_cursor(), process_id@);
            let (b2, c2) = spec_lv_append(b1, c1, err_msg.spec_bytes());
            final(w).spec_buffer() == b2 && final(w).spec_cursor() == c2
        }),
{
    let _ = w.write_bytes(process_id);
    let _ = w.write_str(err_msg);
}

} // verus!
