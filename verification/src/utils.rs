//! Big-endian integer fields inside byte buffers.
//!
//! Every wire format in this crate stores multi-byte integers most
//! significant byte first. `be_bytes(v, n)` is the `n`-byte big-endian
//! image of `v` (taken modulo `256^n`), and `be_value(s)` is the number
//! that a big-endian byte string denotes.
use vstd::arithmetic::div_mod::{
    lemma_div_denominator, lemma_div_pos_is_pos, lemma_fundamental_div_mod,
    lemma_mod_breakdown,
};
use vstd::arithmetic::mul::{lemma_mul_inequality, lemma_mul_strictly_positive};
use vstd::prelude::*;

verus! {

/// `256^n`.
pub open spec fn pow256(n: nat) -> nat
    decreases n,
{
    if n == 0 {
        1
    } else {
        256 * pow256((n - 1) as nat)
    }
}

/// The number denoted by a big-endian byte string.
pub open spec fn be_value(s: Seq<u8>) -> nat
    decreases s.len(),
{
    if s.len() == 0 {
        0
    } else {
        (be_value(s.drop_last()) * 256 + s.last()) as nat
    }
}

/// The `n`-byte big-endian image of `v` (the low `n` bytes of `v`).
pub open spec fn be_bytes(v: nat, n: nat) -> Seq<u8>
    decreases n,
{
    if n == 0 {
        Seq::empty()
    } else {
        be_bytes(v / 256, (n - 1) as nat).push((v % 256) as u8)
    }
}

pub proof fn lemma_pow256_pos(n: nat)
    ensures
        pow256(n) > 0,
    decreases n,
{
    if n > 0 {
        lemma_pow256_pos((n - 1) as nat);
    }
}

/// Values of the powers used by the fixed-size fields.
pub proof fn lemma_pow256_values()
    ensures
        pow256(0) == 1,
        pow256(1) == 0x100,
        pow256(2) == 0x1_0000,
        pow256(3) == 0x100_0000,
        pow256(4) == 0x1_0000_0000,
        pow256(5) == 0x100_0000_0000,
        pow256(6) == 0x1_0000_0000_0000,
        pow256(7) == 0x100_0000_0000_0000,
        pow256(8) == 0x1_0000_0000_0000_0000,
{
    reveal_with_fuel(pow256, 9);
}

pub proof fn lemma_be_bytes_len(v: nat, n: nat)
    ensures
        be_bytes(v, n).len() == n,
    decreases n,
{
    if n > 0 {
        lemma_be_bytes_len(v / 256, (n - 1) as nat);
    }
}

/// A big-endian string of `n` bytes denotes a number below `256^n`.
pub proof fn lemma_be_value_bound(s: Seq<u8>)
    ensures
        be_value(s) < pow256(s.len()),
    decreases s.len(),
{
    if s.len() > 0 {
        lemma_be_value_bound(s.drop_last());
        let p = pow256((s.len() - 1) as nat);
        assert(be_value(s.drop_last()) + 1 <= p);
        lemma_mul_inequality((be_value(s.drop_last()) + 1) as int, p as int, 256);
    }
}

/// Reading back the image of `v` gives `v` modulo `256^n`.
pub proof fn lemma_be_roundtrip(v: nat, n: nat)
    ensures
        be_bytes(v, n).len() == n,
        be_value(be_bytes(v, n)) == v % pow256(n),
    decreases n,
{
    lemma_be_bytes_len(v, n);
    if n == 0 {
    } else {
        let m = (n - 1) as nat;
        lemma_be_roundtrip(v / 256, m);
        lemma_pow256_pos(m);
        let s = be_bytes(v, n);
        assert(s.drop_last() =~= be_bytes(v / 256, m));
        lemma_mod_breakdown(v as int, 256, pow256(m) as int);
        assert(be_value(s) == ((v / 256) % pow256(m)) * 256 + v % 256);
    }
}

/// Reading back the image of a value that fits gives the value.
pub proof fn lemma_be_roundtrip_fits(v: nat, n: nat)
    requires
        v < pow256(n),
    ensures
        be_bytes(v, n).len() == n,
        be_value(be_bytes(v, n)) == v,
{
    lemma_be_roundtrip(v, n);
    vstd::arithmetic::div_mod::lemma_small_mod(v, pow256(n));
}

/// Byte `j` of the image of `v` is `(v / 256^(n-1-j)) % 256`.
pub proof fn lemma_be_bytes_index(v: nat, n: nat, j: int)
    requires
        0 <= j < n,
    ensures
        be_bytes(v, n).len() == n,
        be_bytes(v, n)[j] == ((v / pow256((n - 1 - j) as nat)) % 256) as u8,
    decreases n,
{
    lemma_be_bytes_len(v, n);
    let m = (n - 1) as nat;
    if j == n - 1 {
        assert(pow256(0) == 1);
        assert(v / 1nat == v) by (nonlinear_arith);
    } else {
        lemma_be_bytes_index(v / 256, m, j);
        lemma_pow256_pos((m - 1 - j) as nat);
        lemma_div_denominator(v as int, 256, pow256((m - 1 - j) as nat) as int);
    }
}

/// The last `k` bytes of the `n`-byte image of `v` are its `k`-byte image.
pub proof fn lemma_be_bytes_low(v: nat, n: nat, k: nat)
    requires
        k <= n,
    ensures
        be_bytes(v, n).len() == n,
        be_bytes(v, n).subrange(n - k, n as int) == be_bytes(v, k),
    decreases n,
{
    lemma_be_bytes_len(v, n);
    lemma_be_bytes_len(v, k);
    if k == n {
        assert(be_bytes(v, n).subrange(0, n as int) =~= be_bytes(v, n));
    } else if k == 0 {
        assert(be_bytes(v, n).subrange(n as int, n as int) =~= be_bytes(v, 0));
    } else {
        let m = (n - 1) as nat;
        lemma_be_bytes_low(v / 256, m, (k - 1) as nat);
        lemma_be_bytes_len(v / 256, m);
        assert(be_bytes(v, n).subrange(n - k, n as int) =~= be_bytes(v / 256, m).subrange(
            m - (k - 1),
            m as int,
        ).push((v % 256) as u8));
    }
}

/// The image of a number read from `s` is `s` itself.
pub proof fn lemma_be_bytes_of_value(s: Seq<u8>)
    ensures
        be_bytes(be_value(s), s.len()) == s,
    decreases s.len(),
{
    if s.len() > 0 {
        let m = (s.len() - 1) as nat;
        lemma_be_bytes_of_value(s.drop_last());
        let v = be_value(s);
        let w = be_value(s.drop_last());
        assert(v / 256 == w && v % 256 == s.last()) by {
            vstd::arithmetic::div_mod::lemma_fundamental_div_mod_converse(
                v as int,
                256,
                w as int,
                s.last() as int,
            );
        }
        lemma_be_bytes_len(v, s.len());
        assert(be_bytes(v, s.len()) =~= s);
    }
}

/// Reads the big-endian number stored in `buf[start..start + n]`.
pub fn read_be(buf: &[u8], start: usize, n: usize) -> (v: u64)
    requires
        n <= 8,
        start + n <= buf@.len(),
    ensures
        v == be_value(buf@.subrange(start as int, start + n)),
{
    let mut v: u64 = 0;
    let mut i: usize = 0;
    proof {
        lemma_pow256_values();
    }
    while i < n
        invariant
            i <= n <= 8,
            start + n <= buf@.len(),
            start + n <= buf.len(),
            v == be_value(buf@.subrange(start as int, start + i)),
            v < pow256(i as nat),
            pow256(8) == 0x1_0000_0000_0000_0000,
        decreases n - i,
    {
        proof {
            lemma_be_value_bound(buf@.subrange(start as int, start + i));
            lemma_pow256_mono(i as nat, 7);
            assert(buf@.subrange(start as int, start + i + 1).drop_last() =~= buf@.subrange(
                start as int,
                start + i,
            ));
        }
        v = v * 256 + buf[start + i] as u64;
        i = i + 1;
    }
    v
}

pub proof fn lemma_pow256_mono(a: nat, b: nat)
    requires
        a <= b,
    ensures
        pow256(a) <= pow256(b),
    decreases b,
{
    if a < b {
        lemma_pow256_mono(a, (b - 1) as nat);
        lemma_pow256_pos((b - 1) as nat);
    }
}

/// Writes the `n`-byte big-endian image of `v` into `buf[start..start + n]`,
/// leaving every other byte as it was.
pub fn write_be(buf: &mut [u8], start: usize, n: usize, v: u64)
    requires
        n <= 8,
        start + n <= old(buf)@.len(),
    ensures
        final(buf)@ == old(buf)@.subrange(0, start as int) + be_bytes(v as nat, n as nat)
            + old(buf)@.subrange(start + n, old(buf)@.len() as int),
{
    let ghost orig = buf@;
    let mut x: u64 = v;
    let mut k: usize = 0;
    proof {
        lemma_be_bytes_len(v as nat, n as nat);
        assert(pow256(0) == 1);
        assert((v as nat) / 1nat == v) by (nonlinear_arith);
    }
    while k < n
        invariant
            k <= n <= 8,
            start + n <= orig.len(),
            start + n <= buf.len(),
            buf@.len() == orig.len(),
            be_bytes(v as nat, n as nat).len() == n,
            x == (v as nat) / pow256(k as nat),
            forall|i: int|
                0 <= i < orig.len() && !(start + n - k <= i < start + n) ==> #[trigger] buf@[i]
                    == orig[i],
            forall|i: int|
                start + n - k <= i < start + n ==> #[trigger] buf@[i] == be_bytes(
                    v as nat,
                    n as nat,
                )[i - start],
        decreases n - k,
    {
        let pos = start + n - 1 - k;
        proof {
            lemma_be_bytes_index(v as nat, n as nat, (n - 1 - k) as int);
            lemma_pow256_pos(k as nat);
            lemma_div_denominator(v as int, pow256(k as nat) as int, 256);
        }
        buf[pos] = (x % 256) as u8;
        x = x / 256;
        k = k + 1;
    }
    assert(buf@ =~= orig.subrange(0, start as int) + be_bytes(v as nat, n as nat) + orig.subrange(
        start + n,
        orig.len() as int,
    ));
}

/// `dst` with `src` written over it from `at`.
pub open spec fn splice(dst: Seq<u8>, at: int, src: Seq<u8>) -> Seq<u8> {
    dst.subrange(0, at) + src + dst.subrange(at + src.len(), dst.len() as int)
}

/// Copies `src[start..start + len]` into a new vector.
pub fn copy_out(src: &[u8], start: usize, len: usize) -> (v: Vec<u8>)
    requires
        start + len <= src@.len(),
    ensures
        v@ == src@.subrange(start as int, start + len),
{
    let mut v: Vec<u8> = Vec::new();
    let mut i: usize = 0;
    while i < len
        invariant
            i <= len,
            start + len <= src@.len(),
            start + len <= src.len(),
            v@ == src@.subrange(start as int, start + i),
        decreases len - i,
    {
        v.push(src[start + i]);
        i = i + 1;
        assert(v@ =~= src@.subrange(start as int, start + i));
    }
    v
}

/// Whether `buf[at..at + s.len()]` holds exactly the bytes of `s`.
pub fn bytes_eq(buf: &[u8], at: usize, s: &[u8]) -> (r: bool)
    requires
        at + s@.len() <= buf@.len(),
    ensures
        r == (buf@.subrange(at as int, at + s@.len()) == s@),
{
    let mut i: usize = 0;
    while i < s.len()
        invariant
            i <= s@.len(),
            at + s@.len() <= buf@.len(),
            at + s@.len() <= buf.len(),
            forall|j: int| 0 <= j < i ==> buf@[at + j] == s@[j],
        decreases s@.len() - i,
    {
        if buf[at + i] != s[i] {
            assert(buf@.subrange(at as int, at + s@.len())[i as int] != s@[i as int]);
            return false;
        }
        i = i + 1;
    }
    assert(buf@.subrange(at as int, at + s@.len()) =~= s@);
    true
}

/// Writes `src` into `dst` from `at`, leaving every other byte as it was.
pub fn copy_in(dst: &mut [u8], at: usize, src: &[u8])
    requires
        at + src@.len() <= old(dst)@.len(),
    ensures
        final(dst)@ == splice(old(dst)@, at as int, src@),
{
    let ghost orig = dst@;
    let mut i: usize = 0;
    while i < src.len()
        invariant
            i <= src@.len(),
            at + src@.len() <= orig.len(),
            at + src@.len() <= dst.len(),
            dst@.len() == orig.len(),
            forall|j: int|
                0 <= j < orig.len() && !(at <= j < at + i) ==> #[trigger] dst@[j] == orig[j],
            forall|j: int| at <= j < at + i ==> #[trigger] dst@[j] == src@[j - at],
        decreases src@.len() - i,
    {
        dst[at + i] = src[i];
        i = i + 1;
    }
    assert(dst@ =~= splice(orig, at as int, src@));
}

/// Sets every byte of `dst` from `at` to its end to zero.
pub fn zero_from(dst: &mut [u8], at: usize)
    requires
        at <= old(dst)@.len(),
    ensures
        final(dst)@ == old(dst)@.subrange(0, at as int) + Seq::new(
            (old(dst)@.len() - at) as nat,
            |i: int| 0u8,
        ),
{
    let ghost orig = dst@;
    let mut i: usize = at;
    while i < dst.len()
        invariant
            at <= i <= orig.len(),
            dst@.len() == orig.len(),
            forall|j: int| 0 <= j < at ==> #[trigger] dst@[j] == orig[j],
            forall|j: int| at <= j < i ==> #[trigger] dst@[j] == 0u8,
        decreases orig.len() - i,
    {
        dst[i] = 0;
        i = i + 1;
    }
    assert(dst@ =~= orig.subrange(0, at as int) + Seq::new((orig.len() - at) as nat, |i: int| 0u8));
}

} // verus!
