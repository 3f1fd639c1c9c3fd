//! Minimal ASN.1 BER encoder/decoder.
//!
//! Covers the subset that the SLE PDUs use: single-octet identifiers
//! (tag numbers below 31), definite lengths of up to two octets in the
//! long form, and the universal types INTEGER, OCTET STRING, NULL,
//! ENUMERATED and SEQUENCE together with context-specific constructed
//! elements.
//!
//! Encoding builds each element from its content, so every length is
//! written in its shortest form. Decoding reads a cursor over a byte
//! slice; every read checks that the element's content lies within the
//! slice.
use vstd::prelude::*;

use super::types::SleError;
use crate::utils::{be_bytes, be_value, copy_out, lemma_be_bytes_index, lemma_be_bytes_len,
    lemma_be_roundtrip_fits, lemma_be_value_bound, lemma_pow256_values, pow256, read_be, write_be,
};

verus! {

/// Identifier octet of an INTEGER.
pub const INTEGER: u8 = 0x02;

/// Identifier octet of an OCTET STRING.
pub const OCTET_STRING: u8 = 0x04;

/// Identifier octet of a NULL.
pub const NULL: u8 = 0x05;

/// Identifier octet of an ENUMERATED.
pub const ENUMERATED: u8 = 0x0A;

/// Identifier octet of a SEQUENCE (universal, constructed, number 16).
pub const SEQUENCE: u8 = 0x30;

/// Constructed bit of an identifier octet.
pub const CONSTRUCTED: u8 = 0x20;

/// Largest content length that the length octets written here express.
pub const MAX_CONTENT_LEN: usize = 0xFFFF;

/// BER tag class: the top two bits of an identifier octet.
#[derive(Copy, Clone, Debug, PartialEq, Eq, Structural)]
pub enum Class {
    /// Universal (`00`).
    Universal,
    /// Application (`01`).
    Application,
    /// Context-specific (`10`).
    Context,
    /// Private (`11`).
    Private,
}

/// The class of identifier octet `b`.
pub open spec fn spec_class(b: u8) -> Class {
    if b < 0x40 {
        Class::Universal
    } else if b < 0x80 {
        Class::Application
    } else if b < 0xC0 {
        Class::Context
    } else {
        Class::Private
    }
}

/// Returns the class of identifier octet `b`.
pub fn class_of(b: u8) -> (c: Class)
    ensures
        c == spec_class(b),
{
    if b < 0x40 {
        Class::Universal
    } else if b < 0x80 {
        Class::Application
    } else if b < 0xC0 {
        Class::Context
    } else {
        Class::Private
    }
}

// ── Encoding ────────────────────────────────────────────────────

/// The length octets for `n` content octets, in the shortest form: one
/// octet below 128, else `0x81` or `0x82` and one or two octets.
pub open spec fn spec_length_octets(n: nat) -> Seq<u8> {
    if n < 0x80 {
        seq![n as u8]
    } else if n < 0x100 {
        seq![0x81u8, n as u8]
    } else {
        seq![0x82u8, (n / 256) as u8, (n % 256) as u8]
    }
}

/// The element with identifier octet `id` and content `content`.
pub open spec fn spec_tlv(id: u8, content: Seq<u8>) -> Seq<u8> {
    seq![id] + spec_length_octets(content.len()) + content
}

/// The number of content octets of INTEGER `v`: the fewest that hold it
/// in two's complement.
pub open spec fn spec_int_size(v: int) -> nat {
    if -0x80 <= v < 0x80 {
        1
    } else if -0x8000 <= v < 0x8000 {
        2
    } else if -0x80_0000 <= v < 0x80_0000 {
        3
    } else if -0x8000_0000 <= v < 0x8000_0000 {
        4
    } else if -0x80_0000_0000 <= v < 0x80_0000_0000 {
        5
    } else if -0x8000_0000_0000 <= v < 0x8000_0000_0000 {
        6
    } else if -0x80_0000_0000_0000 <= v < 0x80_0000_0000_0000 {
        7
    } else {
        8
    }
}

/// The content octets of INTEGER `v`: its two's complement, big-endian,
/// in `spec_int_size(v)` octets.
pub open spec fn spec_int_content(v: int) -> Seq<u8> {
    let k = spec_int_size(v);
    be_bytes(
        if v >= 0 {
            v as nat
        } else {
            (v + pow256(k)) as nat
        },
        k,
    )
}

/// The number that two's-complement content octets `c` denote.
pub open spec fn spec_int_value(c: Seq<u8>) -> int {
    if c.len() > 0 && c[0] >= 0x80 {
        be_value(c) - pow256(c.len())
    } else {
        be_value(c) as int
    }
}

/// Appends the length octets for `n` content octets to `out`.
fn push_length(out: &mut Vec<u8>, n: usize)
    requires
        n <= MAX_CONTENT_LEN,
    ensures
        final(out)@ == old(out)@ + spec_length_octets(n as nat),
{
    if n < 0x80 {
        out.push(n as u8);
    } else if n < 0x100 {
        out.push(0x81);
        out.push(n as u8);
    } else {
        out.push(0x82);
        out.push((n / 256) as u8);
        out.push((n % 256) as u8);
    }
    assert(final(out)@ =~= old(out)@ + spec_length_octets(n as nat));
}

/// Builds the element with identifier octet `id` around `content`;
/// `TooLong` when the content has more than `MAX_CONTENT_LEN` octets.
pub fn tlv(id: u8, content: Vec<u8>) -> (r: Result<Vec<u8>, SleError>)
    ensures
        content@.len() > MAX_CONTENT_LEN ==> r == Err::<Vec<u8>, SleError>(SleError::TooLong),
        content@.len() <= MAX_CONTENT_LEN ==> (r matches Ok(v) && v@ == spec_tlv(id, content@)),
{
    if content.len() > MAX_CONTENT_LEN {
        return Err(SleError::TooLong);
    }
    let mut content = content;
    let mut out: Vec<u8> = Vec::new();
    out.push(id);
    push_length(&mut out, content.len());
    let ghost c = content@;
    out.append(&mut content);
    assert(out@ =~= spec_tlv(id, c));
    Ok(out)
}

/// `256^k` for `k <= 8`.
fn pow256_exec(k: usize) -> (p: u128)
    requires
        k <= 8,
    ensures
        p == pow256(k as nat),
{
    proof {
        lemma_pow256_values();
    }
    if k == 0 {
        1
    } else if k == 1 {
        0x100
    } else if k == 2 {
        0x1_0000
    } else if k == 3 {
        0x100_0000
    } else if k == 4 {
        0x1_0000_0000
    } else if k == 5 {
        0x100_0000_0000
    } else if k == 6 {
        0x1_0000_0000_0000
    } else if k == 7 {
        0x100_0000_0000_0000
    } else {
        0x1_0000_0000_0000_0000
    }
}

/// The content octets of INTEGER `v`.
fn int_content(v: i64) -> (c: Vec<u8>)
    ensures
        c@ == spec_int_content(v as int),
{
    let k: usize = if -0x80 <= v && v < 0x80 {
        1
    } else if -0x8000 <= v && v < 0x8000 {
        2
    } else if -0x80_0000 <= v && v < 0x80_0000 {
        3
    } else if -0x8000_0000 <= v && v < 0x8000_0000 {
        4
    } else if -0x80_0000_0000 <= v && v < 0x80_0000_0000 {
        5
    } else if -0x8000_0000_0000 <= v && v < 0x8000_0000_0000 {
        6
    } else if -0x80_0000_0000_0000 <= v && v < 0x80_0000_0000_0000 {
        7
    } else {
        8
    };
    let p = pow256_exec(k);
    proof {
        lemma_pow256_values();
    }
    let x: u64 = if v >= 0 {
        v as u64
    } else {
        (v as i128 + p as i128) as u64
    };
    let mut out: Vec<u8> = vec![0u8; k];
    write_be(out.as_mut_slice(), 0, k, x);
    assert(out@ =~= spec_int_content(v as int));
    out
}

/// Encodes INTEGER `v`.
pub fn integer(v: i64) -> (e: Vec<u8>)
    ensures
        e@ == spec_tlv(INTEGER, spec_int_content(v as int)),
{
    let c = int_content(v);
    proof {
        lemma_int_content(v);
    }
    match tlv(INTEGER, c) {
        Ok(e) => e,
        Err(_) => Vec::new(),
    }
}

/// Encodes ENUMERATED `v`.
pub fn enumerated(v: i64) -> (e: Vec<u8>)
    ensures
        e@ == spec_tlv(ENUMERATED, spec_int_content(v as int)),
{
    let c = int_content(v);
    proof {
        lemma_int_content(v);
    }
    match tlv(ENUMERATED, c) {
        Ok(e) => e,
        Err(_) => Vec::new(),
    }
}

/// Encodes NULL.
pub fn null() -> (e: Vec<u8>)
    ensures
        e@ == spec_tlv(NULL, Seq::empty()),
{
    let e = vec![NULL, 0u8];
    assert(e@ =~= spec_tlv(NULL, Seq::empty()));
    e
}

/// Encodes an OCTET STRING holding `data`; `TooLong` beyond
/// `MAX_CONTENT_LEN` octets.
pub fn octet_string(data: &[u8]) -> (r: Result<Vec<u8>, SleError>)
    ensures
        data@.len() > MAX_CONTENT_LEN ==> r == Err::<Vec<u8>, SleError>(SleError::TooLong),
        data@.len() <= MAX_CONTENT_LEN ==> (r matches Ok(v) && v@ == spec_tlv(OCTET_STRING, data@)),
{
    let c = copy_out(data, 0, data.len());
    proof {
        assert(data@.subrange(0, data@.len() as int) =~= data@);
    }
    tlv(OCTET_STRING, c)
}

// ── Facts about the encoding ────────────────────────────────────

/// A number and the quotient of its top digit in base `p`.
proof fn lemma_top_digit(x: nat, p: nat)
    requires
        p > 0,
        x < 256 * p,
    ensures
        (x / p) % 256 == x / p,
        (x / p >= 128) == (x >= 128 * p),
{
    vstd::arithmetic::div_mod::lemma_fundamental_div_mod(x as int, p as int);
    let q = x / p;
    let r = x % p;
    assert(q < 256 && ((q >= 128) == (x >= 128 * p))) by (nonlinear_arith)
        requires
            x == p * q + r,
            0 <= r < p,
            p > 0,
            x < 256 * p,
            q >= 0,
    ;
}

/// INTEGER content octets: one to eight of them, denoting `v`.
pub proof fn lemma_int_content(v: i64)
    ensures
        1 <= spec_int_content(v as int).len() <= 8,
        spec_int_content(v as int).len() == spec_int_size(v as int),
        spec_int_value(spec_int_content(v as int)) == v,
{
    let k = spec_int_size(v as int);
    lemma_pow256_values();
    let x: nat = if v >= 0 {
        v as nat
    } else {
        (v + pow256(k)) as nat
    };
    let c = spec_int_content(v as int);
    assert(x < pow256(k));
    lemma_be_roundtrip_fits(x, k);
    lemma_be_bytes_index(x, k, 0);
    let p = pow256((k - 1) as nat);
    assert(pow256(k) == 256 * p);
    lemma_top_digit(x, p);
    assert((c[0] >= 0x80) == (v < 0));
}

// ── Decoding ────────────────────────────────────────────────────

/// The content length and the number of identifier and length octets of
/// the element at the start of `s`, when its length octets are in a form
/// read here.
pub open spec fn spec_header(s: Seq<u8>) -> Option<(nat, nat)> {
    if s.len() < 2 {
        None
    } else if s[1] < 0x80 {
        Some((s[1] as nat, 2nat))
    } else if s[1] == 0x81 && s.len() >= 3 {
        Some((s[2] as nat, 3nat))
    } else if s[1] == 0x82 && s.len() >= 4 {
        Some(((s[2] * 256 + s[3]) as nat, 4nat))
    } else {
        None
    }
}

/// The element at the start of `s`: its identifier octet, its header
/// size and its content length; `Truncated` when the header cannot be
/// read or the content runs past `s`.
pub open spec fn spec_element(s: Seq<u8>) -> Result<(u8, nat, nat), SleError> {
    match spec_header(s) {
        None => Err(SleError::Truncated),
        Some((c, h)) => if h + c > s.len() {
            Err(SleError::Truncated)
        } else {
            Ok((s[0], h, c))
        },
    }
}

/// Reading a primitive element with identifier `id` from `s`: its content
/// and the octets after it.
pub open spec fn spec_read_primitive(s: Seq<u8>, id: u8) -> Result<(Seq<u8>, Seq<u8>), SleError> {
    match spec_element(s) {
        Err(e) => Err(e),
        Ok((t, h, c)) => if t != id {
            Err(SleError::UnexpectedTag)
        } else {
            Ok((s.subrange(h as int, (h + c) as int), s.subrange((h + c) as int, s.len() as int)))
        },
    }
}

/// Entering the constructed element at the start of `s`: its identifier
/// octet, its content length and the octets after its header.
pub open spec fn spec_enter(s: Seq<u8>) -> Result<(u8, nat, Seq<u8>), SleError> {
    match spec_element(s) {
        Err(e) => Err(e),
        Ok((t, h, c)) => Ok((t, c, s.subrange(h as int, s.len() as int))),
    }
}

/// Entering a SEQUENCE: its content length and what follows its header.
pub open spec fn spec_read_sequence(s: Seq<u8>) -> Result<(nat, Seq<u8>), SleError> {
    match spec_enter(s) {
        Err(e) => Err(e),
        Ok((t, c, r)) => if t != SEQUENCE {
            Err(SleError::UnexpectedTag)
        } else {
            Ok((c, r))
        },
    }
}

/// Entering a context-specific element: its tag number, its content
/// length and what follows its header.
pub open spec fn spec_read_context_tag(s: Seq<u8>) -> Result<(u8, nat, Seq<u8>), SleError> {
    match spec_enter(s) {
        Err(e) => Err(e),
        Ok((t, c, r)) => if spec_class(t) != Class::Context {
            Err(SleError::UnexpectedTag)
        } else {
            Ok((t & 0x1F, c, r))
        },
    }
}

/// The tag number, class and constructed bit of the next element.
pub open spec fn spec_peek_tag(s: Seq<u8>) -> Result<(u8, Class, bool), SleError> {
    if s.len() == 0 {
        Err(SleError::Truncated)
    } else {
        Ok((s[0] & 0x1F, spec_class(s[0]), s[0] & CONSTRUCTED != 0))
    }
}

/// Reading a NULL: what follows it; `Truncated` when it has content.
pub open spec fn spec_read_null(s: Seq<u8>) -> Result<Seq<u8>, SleError> {
    match spec_read_primitive(s, NULL) {
        Err(e) => Err(e),
        Ok((c, r)) => if c.len() != 0 {
            Err(SleError::Truncated)
        } else {
            Ok(r)
        },
    }
}

/// Reading an INTEGER (`id` == `INTEGER`) or ENUMERATED (`id` ==
/// `ENUMERATED`): its value and what follows it; `Truncated` without
/// content octets, `IntegerOverflow` beyond eight.
pub open spec fn spec_read_int(s: Seq<u8>, id: u8) -> Result<(i64, Seq<u8>), SleError> {
    match spec_read_primitive(s, id) {
        Err(e) => Err(e),
        Ok((c, r)) => if c.len() == 0 {
            Err(SleError::Truncated)
        } else if c.len() > 8 {
            Err(SleError::IntegerOverflow)
        } else {
            Ok((spec_int_value(c) as i64, r))
        },
    }
}

/// A cursor over BER octets.
pub struct BerReader<'a> {
    buf: &'a [u8],
    pos: usize,
}

impl<'a> BerReader<'a> {
    #[verifier::type_invariant]
    spec fn inv(&self) -> bool {
        self.pos <= self.buf@.len()
    }

    /// The octets not read yet.
    pub closed spec fn rest(&self) -> Seq<u8> {
        self.buf@.subrange(self.pos as int, self.buf@.len() as int)
    }

    /// Creates a reader at the start of `buf`.
    pub fn new(buf: &'a [u8]) -> (r: Self)
        ensures
            r.rest() == buf@,
    {
        let r = BerReader { buf, pos: 0 };
        assert(r.rest() =~= buf@);
        r
    }

    /// The element at the cursor, as `spec_element` gives it.
    fn element(&self) -> (r: Result<(u8, usize, usize), SleError>)
        ensures
            match spec_element(self.rest()) {
                Err(e) => r == Err::<(u8, usize, usize), SleError>(e),
                Ok((t, h, c)) => r == Ok::<(u8, usize, usize), SleError>(
                    (t, h as usize, c as usize),
                ) && self.pos + h + c <= self.buf.len(),
            },
    {
        proof {
            use_type_invariant(self);
        }
        let left = self.buf.len() - self.pos;
        if left < 2 {
            return Err(SleError::Truncated);
        }
        let l0 = self.buf[self.pos + 1];
        let (c, h): (usize, usize) = if l0 < 0x80 {
            (l0 as usize, 2)
        } else if l0 == 0x81 && left >= 3 {
            (self.buf[self.pos + 2] as usize, 3)
        } else if l0 == 0x82 && left >= 4 {
            (self.buf[self.pos + 2] as usize * 256 + self.buf[self.pos + 3] as usize, 4)
        } else {
            return Err(SleError::Truncated);
        };
        if h + c > left {
            return Err(SleError::Truncated);
        }
        Ok((self.buf[self.pos], h, c))
    }

    /// Moves the cursor on by `n` octets.
    fn advance(&mut self, n: usize)
        requires
            old(self).pos + n <= old(self).buf.len(),
        ensures
            final(self).rest() == old(self).rest().subrange(n as int, old(self).rest().len() as int),
            final(self).buf == old(self).buf,
            final(self).pos == old(self).pos + n,
    {
        self.pos = self.pos + n;
        assert(self.rest() =~= old(self).rest().subrange(n as int, old(self).rest().len() as int));
    }

    /// Returns the tag number, class and constructed bit of the next
    /// element without consuming it.
    pub fn peek_tag(&self) -> (r: Result<(u8, Class, bool), SleError>)
        ensures
            r == spec_peek_tag(self.rest()),
    {
        proof {
            use_type_invariant(self);
        }
        if self.pos >= self.buf.len() {
            return Err(SleError::Truncated);
        }
        let b = self.buf[self.pos];
        Ok((b & 0x1F, class_of(b), b & CONSTRUCTED != 0))
    }

    /// Enters a context-specific element; returns its tag number and
    /// content length.
    pub fn read_context_tag(&mut self) -> (r: Result<(u8, usize), SleError>)
        ensures
            match spec_read_context_tag(old(self).rest()) {
                Err(e) => r == Err::<(u8, usize), SleError>(e) && final(self).rest() == old(self).rest(),
                Ok((t, c, rest)) => r == Ok::<(u8, usize), SleError>((t, c as usize))
                    && final(self).rest() == rest,
            },
    {
        let (t, h, c) = self.element()?;
        if class_of(t) != Class::Context {
            return Err(SleError::UnexpectedTag);
        }
        self.advance(h);
        Ok((t & 0x1F, c))
    }

    /// Enters a SEQUENCE; returns its content length.
    pub fn read_sequence(&mut self) -> (r: Result<usize, SleError>)
        ensures
            match spec_read_sequence(old(self).rest()) {
                Err(e) => r == Err::<usize, SleError>(e) && final(self).rest() == old(self).rest(),
                Ok((c, rest)) => r == Ok::<usize, SleError>(c as usize) && final(self).rest() == rest,
            },
    {
        let (t, h, c) = self.element()?;
        if t != SEQUENCE {
            return Err(SleError::UnexpectedTag);
        }
        self.advance(h);
        Ok(c)
    }

    /// Reads a primitive element with identifier `id`; returns its content.
    fn read_primitive(&mut self, id: u8) -> (r: Result<&'a [u8], SleError>)
        ensures
            match spec_read_primitive(old(self).rest(), id) {
                Err(e) => r == Err::<&'a [u8], SleError>(e) && final(self).rest() == old(self).rest(),
                Ok((c, rest)) => (r matches Ok(d) && d@ == c) && final(self).rest() == rest,
            },
    {
        let (t, h, c) = self.element()?;
        if t != id {
            return Err(SleError::UnexpectedTag);
        }
        let start = self.pos + h;
        let content = vstd::slice::slice_subrange(self.buf, start, start + c);
        self.advance(h + c);
        Ok(content)
    }

    /// Reads a NULL.
    pub fn read_null(&mut self) -> (r: Result<(), SleError>)
        ensures
            match spec_read_null(old(self).rest()) {
                Err(e) => r == Err::<(), SleError>(e),
                Ok(rest) => r is Ok && final(self).rest() == rest,
            },
    {
        let c = self.read_primitive(NULL)?;
        if c.len() != 0 {
            return Err(SleError::Truncated);
        }
        Ok(())
    }

    /// Reads an OCTET STRING; returns its content.
    pub fn read_octet_string(&mut self) -> (r: Result<&'a [u8], SleError>)
        ensures
            match spec_read_primitive(old(self).rest(), OCTET_STRING) {
                Err(e) => r == Err::<&'a [u8], SleError>(e),
                Ok((c, rest)) => (r matches Ok(d) && d@ == c) && final(self).rest() == rest,
            },
    {
        self.read_primitive(OCTET_STRING)
    }

    /// Reads an INTEGER or ENUMERATED with identifier `id`.
    fn read_int(&mut self, id: u8) -> (r: Result<i64, SleError>)
        ensures
            match spec_read_int(old(self).rest(), id) {
                Err(e) => r == Err::<i64, SleError>(e),
                Ok((v, rest)) => r == Ok::<i64, SleError>(v) && final(self).rest() == rest,
            },
    {
        let c = self.read_primitive(id)?;
        let n = c.len();
        if n == 0 {
            return Err(SleError::Truncated);
        }
        if n > 8 {
            return Err(SleError::IntegerOverflow);
        }
        let u = read_be(c, 0, n);
        proof {
            lemma_pow256_values();
            lemma_be_value_bound(c@);
            assert(c@.subrange(0, n as int) =~= c@);
            lemma_int_value_range(c@);
        }
        let v: i64 = if c[0] >= 0x80 {
            (u as i128 - pow256_exec(n) as i128) as i64
        } else {
            u as i64
        };
        Ok(v)
    }

    /// Reads an INTEGER.
    pub fn read_integer(&mut self) -> (r: Result<i64, SleError>)
        ensures
            match spec_read_int(old(self).rest(), INTEGER) {
                Err(e) => r == Err::<i64, SleError>(e),
                Ok((v, rest)) => r == Ok::<i64, SleError>(v) && final(self).rest() == rest,
            },
    {
        self.read_int(INTEGER)
    }

    /// Reads an ENUMERATED.
    pub fn read_enum(&mut self) -> (r: Result<i64, SleError>)
        ensures
            match spec_read_int(old(self).rest(), ENUMERATED) {
                Err(e) => r == Err::<i64, SleError>(e),
                Ok((v, rest)) => r == Ok::<i64, SleError>(v) && final(self).rest() == rest,
            },
    {
        self.read_int(ENUMERATED)
    }
}

/// Content octets of one to eight octets denote a number in `i64`.
proof fn lemma_int_value_range(c: Seq<u8>)
    requires
        1 <= c.len() <= 8,
    ensures
        i64::MIN <= spec_int_value(c) <= i64::MAX,
        c[0] < 0x80 ==> be_value(c) <= i64::MAX,
{
    lemma_pow256_values();
    lemma_be_value_bound(c);
    let k = c.len();
    let p = pow256((k - 1) as nat);
    assert(pow256(k) == 256 * p);
    crate::utils::lemma_be_bytes_of_value(c);
    lemma_be_bytes_index(be_value(c), k, 0);
    lemma_top_digit(be_value(c), p);
}

/// Reading the element that `spec_tlv` builds gives back its identifier,
/// header size and content, and leaves what follows it.
pub proof fn lemma_read_tlv(id: u8, content: Seq<u8>, rest: Seq<u8>)
    requires
        content.len() <= 0xFFFF,
    ensures
        ({
            let s = spec_tlv(id, content) + rest;
            let h = 1 + spec_length_octets(content.len()).len();
            &&& spec_element(s) == Ok::<(u8, nat, nat), SleError>((id, h as nat, content.len()))
            &&& s.subrange(h as int, (h + content.len()) as int) == content
            &&& s.subrange((h + content.len()) as int, s.len() as int) == rest
            &&& s.subrange(h as int, s.len() as int) == content + rest
        }),
{
    let s = spec_tlv(id, content) + rest;
    let n = content.len();
    let l = spec_length_octets(n);
    let h = 1 + l.len();
    assert(s[0] == id);
    assert(s[1] == l[0]);
    if n >= 0x80 {
        assert(s[2] == l[1]);
    }
    if n >= 0x100 {
        assert(s[3] == l[2]);
        assert((n / 256) as u8 * 256 + (n % 256) as u8 == n);
    }
    assert(s.subrange(h as int, (h + n) as int) =~= content);
    assert(s.subrange((h + n) as int, s.len() as int) =~= rest);
    assert(s.subrange(h as int, s.len() as int) =~= content + rest);
}

/// Reading a primitive element that `spec_tlv` builds gives back its
/// content and what follows it.
pub proof fn lemma_read_primitive_tlv(id: u8, content: Seq<u8>, rest: Seq<u8>)
    requires
        content.len() <= 0xFFFF,
    ensures
        spec_read_primitive(spec_tlv(id, content) + rest, id) == Ok::<(Seq<u8>, Seq<u8>), SleError>(
            (content, rest),
        ),
{
    lemma_read_tlv(id, content, rest);
}

/// Reading an INTEGER or ENUMERATED that the encoder writes gives back
/// its value.
pub proof fn lemma_read_int_tlv(id: u8, v: i64, rest: Seq<u8>)
    ensures
        spec_read_int(spec_tlv(id, spec_int_content(v as int)) + rest, id) == Ok::<
            (i64, Seq<u8>),
            SleError,
        >((v, rest)),
{
    lemma_int_content(v);
    lemma_read_tlv(id, spec_int_content(v as int), rest);
}

/// Entering a constructed element that `spec_tlv` builds gives its
/// identifier, content length, and its content followed by what follows.
pub proof fn lemma_enter_tlv(id: u8, content: Seq<u8>, rest: Seq<u8>)
    requires
        content.len() <= 0xFFFF,
    ensures
        spec_enter(spec_tlv(id, content) + rest) == Ok::<(u8, nat, Seq<u8>), SleError>(
            (id, content.len(), content + rest),
        ),
{
    lemma_read_tlv(id, content, rest);
}

/// The length of an element that `spec_tlv` builds.
pub proof fn lemma_tlv_len(id: u8, content: Seq<u8>)
    requires
        content.len() <= 0xFFFF,
    ensures
        spec_tlv(id, content).len() == 1 + spec_length_octets(content.len()).len() + content.len(),
        spec_tlv(id, content).len() <= content.len() + 4,
{
}

/// The class of an identifier octet is its top two bits: `00` Universal,
/// `01` Application, `10` Context-specific, `11` Private.
pub proof fn lemma_class_bits(b: u8)
    ensures
        (spec_class(b) == Class::Universal) == (b / 64 == 0),
        (spec_class(b) == Class::Application) == (b / 64 == 1),
        (spec_class(b) == Class::Context) == (b / 64 == 2),
        (spec_class(b) == Class::Private) == (b / 64 == 3),
{
}

} // verus!
