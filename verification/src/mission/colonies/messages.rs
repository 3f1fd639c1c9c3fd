//! ColonyOS message op codes and the Length-Value (LV) encoding of
//! message arguments: each argument is a 2-byte big-endian length
//! followed by that many bytes.
use vstd::prelude::*;
use vstd::string::StringSliceAdditionalSpecFns;

use crate::utils::{be_bytes, be_value, copy_in, splice};

verus! {

/// ColonyOS message operation codes.
#[derive(Debug, Copy, Clone, PartialEq, Eq, Structural)]
pub enum ColoniesOpCode {
    /// Executor -> Server. Request a job.
    AssignRequest,
    /// Server -> Executor. Assign a job.
    AssignResponse,
    /// Executor -> Server. Close a job.
    Close,
    /// Executor -> Server. Indicate job failure.
    Fail,
    /// Bidirectional. Keep-alive message.
    KeepAlive,
}

/// The op code with value `v`, if there is one.
pub open spec fn spec_op_code(v: u8) -> Option<ColoniesOpCode> {
    if v == 0 {
        Some(ColoniesOpCode::AssignRequest)
    } else if v == 1 {
        Some(ColoniesOpCode::AssignResponse)
    } else if v == 2 {
        Some(ColoniesOpCode::Close)
    } else if v == 3 {
        Some(ColoniesOpCode::Fail)
    } else if v == 4 {
        Some(ColoniesOpCode::KeepAlive)
    } else {
        None
    }
}

impl ColoniesOpCode {
    /// The op code's value on the wire.
    pub open spec fn spec_code(self) -> u8 {
        match self {
            ColoniesOpCode::AssignRequest => 0,
            ColoniesOpCode::AssignResponse => 1,
            ColoniesOpCode::Close => 2,
            ColoniesOpCode::Fail => 3,
            ColoniesOpCode::KeepAlive => 4,
        }
    }

    /// Returns the op code's value on the wire.
    pub fn code(self) -> (c: u8)
        ensures
            c == self.spec_code(),
    {
        match self {
            ColoniesOpCode::AssignRequest => 0,
            ColoniesOpCode::AssignResponse => 1,
            ColoniesOpCode::Close => 2,
            ColoniesOpCode::Fail => 3,
            ColoniesOpCode::KeepAlive => 4,
        }
    }

    /// The op code with value `value`; `Err(())` for an unknown one.
    pub fn try_from(value: u8) -> (r: Result<Self, ()>)
        ensures
            match spec_op_code(value) {
                Some(c) => r == Ok::<Self, ()>(c),
                None => r == Err::<Self, ()>(()),
            },
    {
        match value {
            0 => Ok(ColoniesOpCode::AssignRequest),
            1 => Ok(ColoniesOpCode::AssignResponse),
            2 => Ok(ColoniesOpCode::Close),
            3 => Ok(ColoniesOpCode::Fail),
            4 => Ok(ColoniesOpCode::KeepAlive),
            _ => Err(()),
        }
    }
}

/// Every op code reads back from its value.
pub proof fn lemma_op_code_roundtrip(c: ColoniesOpCode)
    ensures
        spec_op_code(c.spec_code()) == Some(c),
{
}

/// The LV encoding of `value`: its length modulo 2^16 in two big-endian
/// bytes, then its bytes.
pub open spec fn spec_lv(value: Seq<u8>) -> Seq<u8> {
    be_bytes(value.len() % 0x1_0000, 2) + value
}

/// The next argument of the LV-encoded bytes `s` and what follows it;
/// `None` when fewer than 2 bytes are left or the announced length runs
/// past the end.
pub open spec fn spec_next_arg(s: Seq<u8>) -> Option<(Seq<u8>, Seq<u8>)> {
    if s.len() < 2 {
        None
    } else {
        let len = be_value(s.subrange(0, 2));
        if s.len() < 2 + len {
            None
        } else {
            Some((s.subrange(2, (2 + len) as int), s.subrange((2 + len) as int, s.len() as int)))
        }
    }
}

/// Iterates over the LV-encoded arguments of a message payload.
#[derive(Debug, Clone, Copy)]
pub struct ArgIterator<'a> {
    buffer: &'a [u8],
}

impl<'a> ArgIterator<'a> {
    /// The bytes not read yet.
    pub closed spec fn rest(&self) -> Seq<u8> {
        self.buffer@
    }

    /// Creates an iterator over `buffer`.
    pub fn new(buffer: &'a [u8]) -> (it: Self)
        ensures
            it.rest() == buffer@,
    {
        ArgIterator { buffer }
    }

    /// Returns the next argument, or `None` when the rest holds no
    /// complete one.
    pub fn next(&mut self) -> (r: Option<&'a [u8]>)
        ensures
            match spec_next_arg(old(self).rest()) {
                None => r is None && final(self).rest() == old(self).rest(),
                Some((v, rest)) => (r matches Some(d) && d@ == v) && final(self).rest() == rest,
            },
    {
        if self.buffer.len() < 2 {
            return None;
        }
        proof {
            crate::utils::lemma_pow256_values();
            crate::utils::lemma_be_value_bound(self.buffer@.subrange(0, 2));
        }
        let len = crate::utils::read_be(self.buffer, 0, 2) as usize;
        if self.buffer.len() - 2 < len {
            return None;
        }
        let total_len = 2 + len;
        let value = vstd::slice::slice_subrange(self.buffer, 2, total_len);
        self.buffer = vstd::slice::slice_subrange(self.buffer, total_len, self.buffer.len());
        Some(value)
    }
}

/// Reading the LV encoding of a value of at most 65535 bytes gives the
/// value back and leaves what follows it.
pub proof fn lemma_lv_roundtrip(value: Seq<u8>, rest: Seq<u8>)
    requires
        value.len() <= 0xFFFF,
    ensures
        spec_next_arg(spec_lv(value) + rest) == Some((value, rest)),
{
    let s = spec_lv(value) + rest;
    let n = value.len();
    crate::utils::lemma_pow256_values();
    crate::utils::lemma_be_roundtrip_fits(n, 2);
    assert(s.subrange(0, 2) =~= be_bytes(n, 2));
    assert(s.subrange(2, (2 + n) as int) =~= value);
    assert(s.subrange((2 + n) as int, s.len() as int) =~= rest);
}

/// Writes Length-Value (LV) encoded arguments into a message buffer.
///
/// The writer borrows the buffer; what it writes stays there once the
/// writer is dropped.
pub struct PayloadWriter<'a> {
    buffer: &'a mut [u8],
    cursor: usize,
}

impl<'a> PayloadWriter<'a> {
    /// The buffer's bytes.
    pub closed spec fn spec_buffer(&self) -> Seq<u8> {
        self.buffer@
    }

    /// The number of bytes written so far.
    pub closed spec fn spec_cursor(&self) -> nat {
        self.cursor as nat
    }

    /// The cursor lies within the buffer.
    pub closed spec fn wf(&self) -> bool {
        self.cursor <= self.buffer@.len()
    }

    /// Creates a writer at the start of `buffer`.
    pub fn new(buffer: &'a mut [u8]) -> (w: Self)
        ensures
            w.wf(),
            w.spec_cursor() == 0,
            w.spec_buffer() == old(buffer)@,
    {
        PayloadWriter { buffer, cursor: 0 }
    }

    /// Appends the LV encoding of `data` at the cursor; `Err(())` when it
    /// does not fit in what is left of the buffer. The length field holds
    /// the length modulo 2^16.
    pub fn write_bytes(&mut self, data: &[u8]) -> (r: Result<(), ()>)
        requires
            old(self).wf(),
        ensures
            final(self).wf(),
            old(self).spec_cursor() + 2 + data@.len() > old(self).spec_buffer().len() ==> r == Err::<(), ()>(())
                && final(self).spec_buffer() == old(self).spec_buffer() && final(self).spec_cursor()
                == old(self).spec_cursor(),
            old(self).spec_cursor() + 2 + data@.len() <= old(self).spec_buffer().len() ==> r == Ok::<(), ()>(())
                && final(self).spec_buffer() == splice(
                old(self).spec_buffer(),
                old(self).spec_cursor() as int,
                spec_lv(data@),
            ) && final(self).spec_cursor() == old(self).spec_cursor() + 2 + data@.len(),
    {
        let len = data.len();
        if self.buffer.len() - self.cursor < 2 || self.buffer.len() - self.cursor - 2 < len {
            return Err(());
        }
        let ghost b0 = self.buffer@;
        let n: u16 = (len % 0x1_0000) as u16;
        proof {
            crate::utils::lemma_be_bytes_len(len as nat % 0x1_0000, 2);
        }
        crate::utils::write_be(self.buffer, self.cursor, 2, n as u64);
        self.cursor = self.cursor + 2;
        copy_in(self.buffer, self.cursor, data);
        self.cursor = self.cursor + len;
        proof {
            assert(self.buffer@ =~= splice(b0, (self.cursor - 2 - len) as int, spec_lv(data@)));
        }
        Ok(())
    }

    /// Appends the LV encoding of the bytes of `s`.
    pub fn write_str(&mut self, s: &str) -> (r: Result<(), ()>)
        requires
            old(self).wf(),
        ensures
            final(self).wf(),
            old(self).spec_cursor() + 2 + s.spec_bytes().len() > old(self).spec_buffer().len() ==> r == Err::<(), ()>(())
                && final(self).spec_buffer() == old(self).spec_buffer() && final(self).spec_cursor()
                == old(self).spec_cursor(),
            old(self).spec_cursor() + 2 + s.spec_bytes().len() <= old(self).spec_buffer().len() ==> r == Ok::<(), ()>(())
                && final(self).spec_buffer() == splice(
                old(self).spec_buffer(),
                old(self).spec_cursor() as int,
                spec_lv(s.spec_bytes()),
            ) && final(self).spec_cursor() == old(self).spec_cursor() + 2 + s.spec_bytes().len(),
    {
        self.write_bytes(s.as_bytes())
    }

    /// The number of bytes written so far.
    pub fn len(&self) -> (n: usize)
        ensures
            n == self.spec_cursor(),
    {
        self.cursor
    }

    /// The number of bytes still free in the buffer.
    pub fn remaining_capacity(&self) -> (n: usize)
        requires
            self.wf(),
        ensures
            n == self.spec_buffer().len() - self.spec_cursor(),
    {
        self.buffer.len() - self.cursor
    }
}

/// The value on the wire of every `ColoniesOpCode`, as the protocol's table fixes it; decoding gives that variant for exactly
/// those values and nothing for any other.
pub proof fn lemma_colonies_op_code_values()
    ensures
        ColoniesOpCode::AssignRequest.spec_code() == 0,
        ColoniesOpCode::AssignResponse.spec_code() == 1,
        ColoniesOpCode::Close.spec_code() == 2,
        ColoniesOpCode::Fail.spec_code() == 3,
        ColoniesOpCode::KeepAlive.spec_code() == 4,
        spec_op_code(0) == Some(ColoniesOpCode::AssignRequest),
        spec_op_code(1) == Some(ColoniesOpCode::AssignResponse),
        spec_op_code(2) == Some(ColoniesOpCode::Close),
        spec_op_code(3) == Some(ColoniesOpCode::Fail),
        spec_op_code(4) == Some(ColoniesOpCode::KeepAlive),
        forall|v: u8| v != 0 && v != 1 && v != 2 && v != 3 && v != 4 ==> spec_op_code(v) == None::<ColoniesOpCode>,
{
}

/// An LV-encoded argument on the wire: two length bytes, big-endian,
/// holding the value's length modulo 2^16, then the value itself.
pub proof fn lemma_lv_layout(value: Seq<u8>)
    ensures
        spec_lv(value).len() == 2 + value.len(),
        spec_lv(value)[0] * 256 + spec_lv(value)[1] == value.len() % 0x1_0000,
        spec_lv(value).subrange(2, spec_lv(value).len() as int) == value,
{
    let n = value.len() % 0x1_0000;
    crate::utils::lemma_be_bytes_index(n, 2, 0);
    crate::utils::lemma_be_bytes_index(n, 2, 1);
    crate::utils::lemma_pow256_values();
    assert(spec_lv(value).subrange(2, spec_lv(value).len() as int) =~= value);
}

} // verus!
