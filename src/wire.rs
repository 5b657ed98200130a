//! Little-endian byte encodings of unsigned integers.
use vstd::arithmetic::div_mod::*;
use vstd::prelude::*;

verus! {

/// `256^n`.
pub open spec fn pow256(n: nat) -> nat
    decreases n,
{
    if n == 0 {
        1
    } else {
        256 * pow256((n - 1) as nat)
    }
}

/// The `n` least significant bytes of `v`, least significant first.
pub open spec fn le_bytes(v: nat, n: nat) -> Seq<u8>
    decreases n,
{
    if n == 0 {
        Seq::empty()
    } else {
        seq![(v % 256) as u8] + le_bytes(v / 256, (n - 1) as nat)
    }
}

/// The number whose little-endian encoding is `s`.
pub open spec fn le_value(s: Seq<u8>) -> nat
    decreases s.len(),
{
    if s.len() == 0 {
        0
    } else {
        s[0] as nat + 256 * le_value(s.drop_first())
    }
}

pub proof fn lemma_pow256_positive(n: nat)
    ensures
        pow256(n) >= 1,
    decreases n,
{
    if n > 0 {
        lemma_pow256_positive((n - 1) as nat);
    }
}

pub proof fn lemma_le_bytes_len(v: nat, n: nat)
    ensures
        le_bytes(v, n).len() == n,
    decreases n,
{
    if n > 0 {
        lemma_le_bytes_len(v / 256, (n - 1) as nat);
    }
}

/// Decoding an encoding gives the number back, when it fits in `n` bytes.
pub proof fn lemma_value_of_bytes(v: nat, n: nat)
    requires
        v < pow256(n),
    ensures
        le_value(le_bytes(v, n)) == v,
    decreases n,
{
    if n > 0 {
        let m = (n - 1) as nat;
        assert(v / 256 < pow256(m)) by {
            lemma_fundamental_div_mod(v as int, 256);
            assert(v / 256 < pow256(m)) by (nonlinear_arith)
                requires
                    v < 256 * pow256(m),
                    v == 256 * (v / 256) + v % 256,
                    v % 256 >= 0,
            ;
        }
        lemma_value_of_bytes(v / 256, m);
        let s = le_bytes(v, n);
        assert(s.drop_first() =~= le_bytes(v / 256, m));
        lemma_fundamental_div_mod(v as int, 256);
    }
}

/// Two numbers that fit in `n` bytes and encode alike are equal.
pub proof fn lemma_le_bytes_injective(a: nat, b: nat, n: nat)
    requires
        a < pow256(n),
        b < pow256(n),
        le_bytes(a, n) == le_bytes(b, n),
    ensures
        a == b,
{
    lemma_value_of_bytes(a, n);
    lemma_value_of_bytes(b, n);
}

/// Two concatenations whose last parts have one length are equal part by part.
pub proof fn lemma_split_last(p1: Seq<u8>, s1: Seq<u8>, p2: Seq<u8>, s2: Seq<u8>)
    requires
        s1.len() == s2.len(),
        p1 + s1 == p2 + s2,
    ensures
        p1 == p2,
        s1 == s2,
{
    let w = p1 + s1;
    assert(p1 =~= w.subrange(0, p1.len() as int));
    assert(p2 =~= (p2 + s2).subrange(0, p2.len() as int));
    assert(s1 =~= w.subrange(p1.len() as int, w.len() as int));
    assert(s2 =~= (p2 + s2).subrange(p2.len() as int, w.len() as int));
}

/// Encoding the value of a byte sequence gives the sequence back.
pub proof fn lemma_bytes_of_value(s: Seq<u8>)
    ensures
        le_bytes(le_value(s), s.len()) == s,
        le_value(s) < pow256(s.len()),
    decreases s.len(),
{
    if s.len() > 0 {
        let rest = s.drop_first();
        lemma_bytes_of_value(rest);
        let v = le_value(s);
        let r = le_value(rest);
        assert(v == s[0] as nat + 256 * r);
        assert(v % 256 == s[0] as nat && v / 256 == r) by {
            lemma_fundamental_div_mod_converse(v as int, 256, r as int, s[0] as int);
        }
        assert(v < pow256(s.len())) by (nonlinear_arith)
            requires
                v == s[0] as nat + 256 * r,
                r < pow256(rest.len()),
                pow256(s.len()) == 256 * pow256(rest.len()),
                s[0] < 256,
        ;
        assert(le_bytes(v, s.len()) =~= s);
    }
}

/// Appends the `n` low bytes of `v` to `buf`, least significant first.
pub fn push_le(buf: &mut Vec<u8>, v: u128, n: usize)
    requires
        n <= 16,
    ensures
        final(buf)@ == old(buf)@ + le_bytes(v as nat, n as nat),
{
    let ghost start = old(buf)@;
    let mut rest: u128 = v;
    let mut i: usize = 0;
    while i < n
        invariant
            i <= n,
            start + le_bytes(v as nat, n as nat) == buf@ + le_bytes(rest as nat, (n - i) as nat),
        decreases n - i,
    {
        let ghost before = buf@;
        buf.push((rest % 256) as u8);
        assert(le_bytes(rest as nat, (n - i) as nat) == seq![(rest % 256) as u8] + le_bytes(
            (rest / 256) as nat,
            (n - i - 1) as nat,
        ));
        assert(before + le_bytes(rest as nat, (n - i) as nat) =~= buf@ + le_bytes(
            (rest / 256) as nat,
            (n - i - 1) as nat,
        ));
        rest = rest / 256;
        i = i + 1;
    }
    assert(le_bytes(rest as nat, 0) =~= Seq::<u8>::empty());
    assert(buf@ =~= buf@ + Seq::<u8>::empty());
}

/// Reads the little-endian number held in `data[start..start + n]`.
pub fn read_le(data: &[u8], start: usize, n: usize) -> (r: u64)
    requires
        n <= 8,
        start + n <= data@.len(),
    ensures
        r as nat == le_value(data@.subrange(start as int, start + n)),
{
    let len = data.len();
    let mut acc: u64 = 0;
    let mut i: usize = n;
    proof {
        reveal_with_fuel(pow256, 9);
        assert(data@.subrange(start + n, start + n).len() == 0);
    }
    while i > 0
        invariant
            i <= n <= 8,
            start + n <= data@.len(),
            len == data@.len(),
            acc as nat == le_value(data@.subrange(start + i, start + n)),
            acc < pow256((n - i) as nat),
            pow256(8) == 0x1_0000_0000_0000_0000,
        decreases i,
    {
        i = i - 1;
        let b = data[start + i];
        let ghost tail = data@.subrange(start + i + 1, start + n);
        let ghost whole = data@.subrange(start + i, start + n);
        assert(whole.drop_first() =~= tail);
        assert(whole[0] == b);
        assert(pow256((n - i) as nat) == 256 * pow256((n - i - 1) as nat));
        assert(pow256((n - i) as nat) <= pow256(8)) by {
            lemma_pow256_monotone((n - i) as nat, 8);
        }
        assert(acc * 256 + b < pow256((n - i) as nat)) by (nonlinear_arith)
            requires
                acc < pow256((n - i - 1) as nat),
                pow256((n - i) as nat) == 256 * pow256((n - i - 1) as nat),
                b < 256,
        ;
        acc = acc * 256 + b as u64;
    }
    acc
}

pub proof fn lemma_pow256_monotone(a: nat, b: nat)
    requires
        a <= b,
    ensures
        pow256(a) <= pow256(b),
    decreases b,
{
    if a < b {
        lemma_pow256_monotone(a, (b - 1) as nat);
        lemma_pow256_positive((b - 1) as nat);
    }
}

/// Appends the bytes of `src` to `buf`.
pub fn push_all(buf: &mut Vec<u8>, src: &[u8])
    ensures
        final(buf)@ == old(buf)@ + src@,
{
    let ghost start = old(buf)@;
    let mut i: usize = 0;
    while i < src.len()
        invariant
            i <= src@.len(),
            buf@ == start + src@.subrange(0, i as int),
        decreases src@.len() - i,
    {
        buf.push(src[i]);
        assert(src@.subrange(0, i + 1) =~= src@.subrange(0, i as int).push(src@[i as int]));
        i = i + 1;
    }
    assert(src@.subrange(0, src@.len() as int) =~= src@);
}

/// Copies `data[start..start + N]` into `arr`.
pub fn copy_into<const N: usize>(arr: &mut [u8; N], data: &[u8], start: usize)
    requires
        start + N <= data@.len(),
    ensures
        final(arr)@ == data@.subrange(start as int, start + N),
{
    let len = data.len();
    let mut i: usize = 0;
    while i < N
        invariant
            i <= N,
            start + N <= data@.len(),
            len == data@.len(),
            arr@.len() == N,
            forall|j: int| 0 <= j < i ==> arr@[j] == data@[start + j],
        decreases N - i,
    {
        arr[i] = data[start + i];
        i = i + 1;
    }
    assert(arr@ =~= data@.subrange(start as int, start + N));
}

/// Why bytes from the air do not make a value of a characteristic.
#[derive(Clone, Copy, Debug, PartialEq, Eq, Structural)]
pub enum FromGattError {
    /// The number of bytes is not one the characteristic takes.
    InvalidLength,
    /// The bytes are not valid UTF-8 text.
    InvalidCharacter,
}

/// Reads the `n`-byte little-endian number at `data[start..]`; its encoding is
/// exactly those bytes.
pub fn read_uint(data: &[u8], start: usize, n: usize) -> (r: u64)
    requires
        1 <= n <= 8,
        start + n <= data@.len(),
    ensures
        le_bytes(r as nat, n as nat) == data@.subrange(start as int, start + n),
        n == 1 ==> r < 0x100,
        n == 2 ==> r < 0x1_0000,
        n == 4 ==> r < 0x1_0000_0000,
{
    let r = read_le(data, start, n);
    proof {
        let s = data@.subrange(start as int, start + n);
        lemma_bytes_of_value(s);
        reveal_with_fuel(pow256, 5);
    }
    r
}

} // verus!
