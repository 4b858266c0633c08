//! Little-endian field layout of PLDM messages, and the outside calls
//! (zerocopy, bitfield) that the codecs are built on.

use vstd::prelude::*;
use zerocopy::byteorder::little_endian::{U16, U32, U64};
use zerocopy::{FromBytes, IntoBytes};
use vstd::arithmetic::power2::pow2;

verus! {

/// The two bytes of `x`, least significant first.
pub open spec fn le16(x: u16) -> Seq<u8> {
    seq![(x % 256) as u8, (x / 256) as u8]
}

/// The four bytes of `x`, least significant first.
pub open spec fn le32(x: u32) -> Seq<u8> {
    seq![
        (x % 256) as u8,
        ((x / 256) % 256) as u8,
        ((x / 65536) % 256) as u8,
        (x / 16777216) as u8,
    ]
}

/// The eight bytes of `x`, least significant first.
pub open spec fn le64(x: u64) -> Seq<u8> {
    le32((x % 4294967296) as u32) + le32((x / 4294967296) as u32)
}

/// The `u16` whose little-endian bytes start at `s[i]`.
pub open spec fn get16(s: Seq<u8>, i: int) -> u16 {
    (s[i] + 256 * s[i + 1]) as u16
}

/// The `u32` whose little-endian bytes start at `s[i]`.
pub open spec fn get32(s: Seq<u8>, i: int) -> u32 {
    (s[i] + 256 * s[i + 1] + 65536 * s[i + 2] + 16777216 * s[i + 3]) as u32
}

/// The `u64` whose little-endian bytes start at `s[i]`.
pub open spec fn get64(s: Seq<u8>, i: int) -> u64 {
    (get32(s, i) + 4294967296 * get32(s, i + 4)) as u64
}

pub proof fn lemma_le16_len(x: u16)
    ensures
        le16(x).len() == 2,
{
}

/// Reading back the bytes of a `u16` gives the `u16`.
pub proof fn lemma_get_le16(x: u16, pre: Seq<u8>, post: Seq<u8>)
    ensures
        get16(pre + le16(x) + post, pre.len() as int) == x,
{
    let s = pre + le16(x) + post;
    assert(s[pre.len() as int] == (x % 256) as u8);
    assert(s[pre.len() as int + 1] == (x / 256) as u8);
}

/// Reading back the bytes of a `u32` gives the `u32`.
pub proof fn lemma_get_le32(x: u32, pre: Seq<u8>, post: Seq<u8>)
    ensures
        get32(pre + le32(x) + post, pre.len() as int) == x,
{
    let s = pre + le32(x) + post;
    let p = pre.len() as int;
    assert(s[p] == (x % 256) as u8);
    assert(s[p + 1] == ((x / 256) % 256) as u8);
    assert(s[p + 2] == ((x / 65536) % 256) as u8);
    assert(s[p + 3] == (x / 16777216) as u8);
}

/// The `u16` read where its bytes were laid out.
pub proof fn lemma_get16(s: Seq<u8>, off: int, x: u16)
    requires
        0 <= off,
        off + 2 <= s.len(),
        s.subrange(off, off + 2) == le16(x),
    ensures
        get16(s, off) == x,
{
    assert(s[off] == s.subrange(off, off + 2)[0]);
    assert(s[off + 1] == s.subrange(off, off + 2)[1]);
}

/// The `u32` read where its bytes were laid out.
pub proof fn lemma_get32(s: Seq<u8>, off: int, x: u32)
    requires
        0 <= off,
        off + 4 <= s.len(),
        s.subrange(off, off + 4) == le32(x),
    ensures
        get32(s, off) == x,
{
    let t = s.subrange(off, off + 4);
    assert(s[off] == t[0]);
    assert(s[off + 1] == t[1]);
    assert(s[off + 2] == t[2]);
    assert(s[off + 3] == t[3]);
}

/// The `u64` read where its bytes were laid out.
pub proof fn lemma_get64(s: Seq<u8>, off: int, x: u64)
    requires
        0 <= off,
        off + 8 <= s.len(),
        s.subrange(off, off + 8) == le64(x),
    ensures
        get64(s, off) == x,
{
    let lo = (x % 4294967296) as u32;
    let hi = (x / 4294967296) as u32;
    assert(s.subrange(off, off + 4) =~= le32(lo)) by {
        assert(s.subrange(off, off + 4) =~= s.subrange(off, off + 8).subrange(0, 4));
    }
    assert(s.subrange(off + 4, off + 8) =~= le32(hi)) by {
        assert(s.subrange(off + 4, off + 8) =~= s.subrange(off, off + 8).subrange(4, 8));
    }
    lemma_get32(s, off, lo);
    lemma_get32(s, off + 4, hi);
}

/// Dropping the first `n` bytes of `a + b + rest`, where `a` has `n` bytes.
pub proof fn lemma_skip_concat(a: Seq<u8>, b: Seq<u8>, rest: Seq<u8>)
    ensures
        (a + b + rest).skip(a.len() as int) == b + rest,
{
    assert((a + b + rest).skip(a.len() as int) =~= b + rest);
}

/// The `u16` read from two bytes, through zerocopy's little-endian `U16`.
#[verifier::external_body]
pub(crate) fn le16_from_bytes(b0: u8, b1: u8) -> (r: u16)
    ensures
        r == b0 + 256 * b1,
{
    U16::from_bytes([b0, b1]).get()
}

/// The two little-endian bytes of `x`, through zerocopy's `U16`.
#[verifier::external_body]
pub(crate) fn le16_to_bytes(x: u16) -> (r: [u8; 2])
    ensures
        r@ == le16(x),
{
    U16::new(x).to_bytes()
}

/// The `u32` read from four bytes, through zerocopy's little-endian `U32`.
#[verifier::external_body]
pub(crate) fn le32_from_bytes(b0: u8, b1: u8, b2: u8, b3: u8) -> (r: u32)
    ensures
        r == b0 + 256 * b1 + 65536 * b2 + 16777216 * b3,
{
    U32::from_bytes([b0, b1, b2, b3]).get()
}

/// The four little-endian bytes of `x`, through zerocopy's `U32`.
#[verifier::external_body]
pub(crate) fn le32_to_bytes(x: u32) -> (r: [u8; 4])
    ensures
        r@ == le32(x),
{
    U32::new(x).to_bytes()
}

/// The eight little-endian bytes of `x`, through zerocopy's `U64`.
#[verifier::external_body]
pub(crate) fn le64_to_bytes(x: u64) -> (r: [u8; 8])
    ensures
        r@ == le64(x),
{
    U64::new(x).to_bytes()
}

/// Copies `src` to the front of `dst` with zerocopy's `write_to_prefix`,
/// which fails, leaving `dst` as it was, when `dst` is shorter than `src`.
#[verifier::external_body]
pub(crate) fn write_to_prefix(src: &[u8], dst: &mut [u8]) -> (r: bool)
    ensures
        r == (src@.len() <= old(dst)@.len()),
        r ==> final(dst)@ == src@ + old(dst)@.skip(src@.len() as int),
        !r ==> final(dst)@ == old(dst)@,
{
    src.write_to_prefix(dst).is_ok()
}

/// The first `N` bytes of `src` as an array, with zerocopy's
/// `read_from_prefix`, which fails when `src` is shorter than `N`.
#[verifier::external_body]
pub(crate) fn read_array_prefix<const N: usize>(src: &[u8]) -> (r: Option<[u8; N]>)
    ensures
        r is Some <==> src@.len() >= N,
        r matches Some(a) ==> a@ == src@.subrange(0, N as int),
{
    match <[u8; N]>::read_from_prefix(src) {
        Ok((a, _)) => Some(a),
        Err(_) => None,
    }
}

/// Bit `i` of `v`.
pub open spec fn bit_of(v: u32, i: nat) -> bool {
    (v as nat / pow2(i)) % 2 == 1
}

/// `v` with bit `i` set to `b`.
pub open spec fn with_bit(v: u32, i: nat, b: bool) -> u32 {
    (v - (if bit_of(v, i) { pow2(i) as int } else { 0 }) + (if b { pow2(i) as int } else { 0 })) as u32
}

/// Bit `i` of `v`, with bitfield's `Bit::bit`.
#[verifier::external_body]
pub(crate) fn get_bit(v: u32, i: usize) -> (r: bool)
    requires
        i < 32,
    ensures
        r == bit_of(v, i as nat),
{
    bitfield::Bit::bit(&v, i)
}

/// Sets bit `i` of `v` to `b`, with bitfield's `BitMut::set_bit`.
#[verifier::external_body]
pub(crate) fn set_bit(v: &mut u32, i: usize, b: bool)
    requires
        i < 32,
    ensures
        *final(v) == with_bit(*old(v), i as nat, b),
{
    bitfield::BitMut::set_bit(v, i, b)
}

/// `n` zero bytes.
pub open spec fn zeros(n: nat) -> Seq<u8> {
    Seq::new(n, |i: int| 0u8)
}

/// The array whose view is `s`, for `s` of length `N`.
pub open spec fn arr<const N: usize>(s: Seq<u8>) -> [u8; N] {
    choose|a: [u8; N]| a@ == s
}

/// The array whose view is `s`, for `s` of length `N`.
pub open spec fn arr_of<T, const N: usize>(s: Seq<T>) -> [T; N] {
    choose|a: [T; N]| a@ == s
}

/// An array is the one `arr_of` picks for its view.
pub proof fn lemma_arr_of<T, const N: usize>(s: Seq<T>, a: [T; N])
    requires
        a@ == s,
    ensures
        arr_of::<T, N>(s) == a,
{
    let b = arr_of::<T, N>(s);
    assert(exists|x: [T; N]| x@ == s) by {
        assert(a@ == s);
    }
    assert(b@ == s);
    assert(b =~= a);
}

/// The array of `N` bytes that holds `s[0..k]` and zeros after.
pub open spec fn fill<const N: usize>(s: Seq<u8>, k: nat) -> [u8; N]
    decreases k,
{
    if k == 0 {
        vstd::array::spec_array_fill_for_copy_type::<u8, N>(0u8)
    } else {
        vstd::array::spec_array_update(fill::<N>(s, (k - 1) as nat), k - 1, s[k - 1])
    }
}

proof fn lemma_fill<const N: usize>(s: Seq<u8>, k: nat)
    requires
        k <= N,
        s.len() == N,
    ensures
        fill::<N>(s, k)@.len() == N,
        forall|i: int| 0 <= i < k ==> fill::<N>(s, k)@[i] == s[i],
    decreases k,
{
    broadcast use vstd::array::group_array_axioms;

    if k > 0 {
        lemma_fill::<N>(s, (k - 1) as nat);
    } else {
        let a = vstd::array::spec_array_fill_for_copy_type::<u8, N>(0u8);
        vstd::array::array_len_matches_n(&a);
    }
}

/// Every sequence of `N` bytes is the view of an array, the one `arr` picks.
pub proof fn lemma_arr_view<const N: usize>(s: Seq<u8>)
    requires
        s.len() == N,
    ensures
        arr::<N>(s)@ == s,
{
    lemma_fill::<N>(s, N as nat);
    let a = fill::<N>(s, N as nat);
    assert(a@ =~= s);
}

/// An array is the one `arr` picks for its view.
pub proof fn lemma_arr<const N: usize>(s: Seq<u8>, a: [u8; N])
    requires
        a@ == s,
    ensures
        arr::<N>(s) == a,
{
    let b = arr::<N>(s);
    assert(exists|x: [u8; N]| x@ == s) by {
        assert(a@ == s);
    }
    assert(b@ == s);
    assert(b =~= a);
}

/// An array of `N` zero bytes.
pub fn zeroed<const N: usize>() -> (r: [u8; N])
    ensures
        r@ == zeros(N as nat),
{
    let mut data = [0u8; N];
    let mut z: usize = 0;
    while z < N
        invariant
            0 <= z <= N,
            data@.len() == N,
            forall|k: int| 0 <= k < z ==> data@[k] == 0,
        decreases N - z,
    {
        data[z] = 0;
        z = z + 1;
    }
    assert(data@ =~= zeros(N as nat));
    data
}

/// Copies `n` bytes of `src` from `off` into a zeroed array of `N` bytes.
pub fn bytes_from<const N: usize>(src: &[u8], off: usize, n: usize) -> (r: [u8; N])
    requires
        n <= N,
        off + n <= src@.len(),
    ensures
        r@ == src@.subrange(off as int, off + n) + zeros((N - n) as nat),
{
    let mut data = [0u8; N];
    let mut z: usize = 0;
    while z < N
        invariant
            0 <= z <= N,
            data@.len() == N,
            forall|k: int| 0 <= k < z ==> data@[k] == 0,
        decreases N - z,
    {
        data[z] = 0;
        z = z + 1;
    }
    let mut i: usize = 0;
    while i < n
        invariant
            n <= N,
            off + n <= src.len(),
            0 <= i <= n,
            data@.len() == N,
            forall|k: int| 0 <= k < i ==> data@[k] == src@[off + k],
            forall|k: int| i <= k < N ==> data@[k] == 0,
        decreases n - i,
    {
        data[i] = src[off + i];
        i = i + 1;
    }
    assert(data@ =~= src@.subrange(off as int, off + n) + zeros((N - n) as nat));
    data
}

/// Appends the first `n` bytes of `data` to `v`.
pub fn push_prefix<const N: usize>(v: &mut Vec<u8>, data: &[u8; N], n: usize)
    requires
        n <= N,
    ensures
        final(v)@ == old(v)@ + data@.subrange(0, n as int),
{
    let mut i: usize = 0;
    while i < n
        invariant
            n <= N,
            0 <= i <= n,
            data@.len() == N,
            v@ == old(v)@ + data@.subrange(0, i as int),
        decreases n - i,
    {
        v.push(data[i]);
        i = i + 1;
        assert(v@ =~= old(v)@ + data@.subrange(0, i as int));
    }
}

/// Appends `x` to `v`.
pub fn push8(v: &mut Vec<u8>, x: u8)
    ensures
        final(v)@ == old(v)@ + seq![x],
{
    v.push(x);
}

/// Appends the little-endian bytes of `x` to `v`.
pub fn push16(v: &mut Vec<u8>, x: u16)
    ensures
        final(v)@ == old(v)@ + le16(x),
{
    let b = le16_to_bytes(x);
    v.push(b[0]);
    v.push(b[1]);
    assert(v@ =~= old(v)@ + le16(x));
}

/// Appends the little-endian bytes of `x` to `v`.
pub fn push32(v: &mut Vec<u8>, x: u32)
    ensures
        final(v)@ == old(v)@ + le32(x),
{
    let b = le32_to_bytes(x);
    v.push(b[0]);
    v.push(b[1]);
    v.push(b[2]);
    v.push(b[3]);
    assert(v@ =~= old(v)@ + le32(x));
}

/// Appends the little-endian bytes of `x` to `v`.
pub fn push64(v: &mut Vec<u8>, x: u64)
    ensures
        final(v)@ == old(v)@ + le64(x),
{
    let b = le64_to_bytes(x);
    let mut i: usize = 0;
    while i < 8
        invariant
            0 <= i <= 8,
            b@ == le64(x),
            v@ == old(v)@ + b@.subrange(0, i as int),
        decreases 8 - i,
    {
        v.push(b[i]);
        i = i + 1;
        assert(v@ =~= old(v)@ + b@.subrange(0, i as int));
    }
    assert(b@.subrange(0, 8) =~= b@);
}

/// Appends the bytes of `s` to `v`.
pub fn push_all(v: &mut Vec<u8>, s: &[u8])
    ensures
        final(v)@ == old(v)@ + s@,
{
    let mut i: usize = 0;
    while i < s.len()
        invariant
            0 <= i <= s@.len(),
            v@ == old(v)@ + s@.subrange(0, i as int),
        decreases s@.len() - i,
    {
        v.push(s[i]);
        i = i + 1;
        assert(v@ =~= old(v)@ + s@.subrange(0, i as int));
    }
    assert(s@.subrange(0, s@.len() as int) =~= s@);
}

/// Reads the little-endian `u16` at `off`.
pub fn read16(buf: &[u8], off: usize) -> (r: u16)
    requires
        off + 2 <= buf@.len(),
    ensures
        r == get16(buf@, off as int),
{
    le16_from_bytes(buf[off], buf[off + 1])
}

/// Reads the little-endian `u32` at `off`.
pub fn read32(buf: &[u8], off: usize) -> (r: u32)
    requires
        off + 4 <= buf@.len(),
    ensures
        r == get32(buf@, off as int),
{
    le32_from_bytes(buf[off], buf[off + 1], buf[off + 2], buf[off + 3])
}

/// Reads the little-endian `u64` at `off`.
pub fn read64(buf: &[u8], off: usize) -> (r: u64)
    requires
        off + 8 <= buf@.len(),
    ensures
        r == get64(buf@, off as int),
{
    let n = buf.len();
    assert(off + 4 < n);
    let lo = read32(buf, off);
    let hi = read32(buf, off + 4);
    lo as u64 + 4294967296u64 * (hi as u64)
}

} // verus!
