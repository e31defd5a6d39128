//! Fixed-size little-endian wire formats: the traits and their implementations
//! for the integers, arrays and records that travel over Bluetooth.
//!
//! A value's encoding is given by `le_encoding`, and `from_le_bytes` reads a
//! value back from the first `SIZE` bytes of a buffer, as `le_decoding` says.
//! Floating-point readings travel as their IEEE-754 bit patterns: a field that
//! holds an `f32` on the sensor and on the host is a `u32` of its bits here,
//! and the bytes on the wire are the same.
use vstd::prelude::*;
use crate::le::{
    lemma_i16_le_from_bytes, lemma_i16_le_roundtrip, lemma_u32_le_from_bytes,
    lemma_u32_le_roundtrip, i16_bits, i16_from_le, i16_le_bytes, i16_of_le, i16_to_le, lemma_le_bytes_len, u32_from_le,
    u32_le_bytes, u32_of_le, u32_to_le,
};

verus! {

/// The fixed number of bytes a type occupies on the wire.
pub trait ByteSize {
    const SIZE: usize;

    /// Whether `SIZE` is the type's whole wire size. It can only fail for a
    /// size computed from parts (an array), when that product overflows `usize`.
    open spec fn size_exact() -> bool {
        true
    }
}

/// Types that write themselves, little-endian, into the front of a buffer.
pub trait ToBytesLe: ByteSize + Sized {
    /// The `SIZE` bytes that stand for this value.
    spec fn le_encoding(self) -> Seq<u8>;

    /// Every encoding has exactly `SIZE` bytes.
    proof fn lemma_le_encoding_len(self)
        requires
            Self::size_exact(),
        ensures
            self.le_encoding().len() == Self::SIZE,
    ;

    /// Writes `Self::SIZE` bytes into the front of `buf` and returns the
    /// number of bytes written; the rest of `buf` is left as it was.
    fn to_bytes_le(self, buf: &mut [u8]) -> (n: usize)
        requires
            Self::size_exact(),
            Self::SIZE <= old(buf)@.len(),
        ensures
            n == Self::SIZE,
            self.le_encoding().len() == Self::SIZE,
            final(buf)@ == self.le_encoding() + old(buf)@.skip(Self::SIZE as int),
    ;
}

/// Types that read themselves, little-endian, from the front of a buffer.
pub trait FromBytesLe: Sized + ByteSize {
    /// The value that the first `SIZE` bytes of `x` stand for.
    spec fn le_decoding(x: Seq<u8>) -> Self;

    /// Reads `Self` from the front of `x`, which holds at least `Self::SIZE` bytes.
    fn from_le_bytes(x: &[u8]) -> (r: Self)
        requires
            Self::size_exact(),
            Self::SIZE <= x@.len(),
        ensures
            r == Self::le_decoding(x@.take(Self::SIZE as int)),
    ;

    /// Bounds-checked variant: `None` if `x` is too short.
    fn try_from_le_bytes(x: &[u8]) -> (r: Option<Self>)
        requires
            Self::size_exact(),
        ensures
            x@.len() < Self::SIZE ==> r is None,
            Self::SIZE <= x@.len() ==> r == Some(Self::le_decoding(x@.take(Self::SIZE as int))),
    {
        if x.len() < Self::SIZE {
            None
        } else {
            Some(Self::from_le_bytes(x))
        }
    }
}

/// Copies `bytes` into `buf` starting at `off`, leaving the other bytes alone.
pub fn write_at(buf: &mut [u8], off: usize, bytes: &[u8])
    requires
        off + bytes@.len() <= old(buf)@.len(),
    ensures
        final(buf)@ == old(buf)@.take(off as int) + bytes@ + old(buf)@.skip(off + bytes@.len()),
{
    let ghost start = buf@;
    let len = buf.len();
    let mut i: usize = 0;
    while i < bytes.len()
        invariant
            len == start.len(),
            i <= bytes@.len(),
            off + bytes@.len() <= start.len(),
            buf@.len() == start.len(),
            buf@ == start.take(off as int) + bytes@.take(i as int) + start.skip(off + i),
        decreases bytes@.len() - i,
    {
        buf[off + i] = bytes[i];
        i = i + 1;
        assert(buf@ =~= start.take(off as int) + bytes@.take(i as int) + start.skip(off + i));
    }
    assert(bytes@.take(i as int) =~= bytes@);
}

impl ByteSize for i16 {
    const SIZE: usize = 2;
}

impl ToBytesLe for i16 {
    open spec fn le_encoding(self) -> Seq<u8> {
        i16_le_bytes(self)
    }

    proof fn lemma_le_encoding_len(self) {
        lemma_le_bytes_len(i16_bits(self), 2);
    }

    fn to_bytes_le(self, buf: &mut [u8]) -> (n: usize) {
        let b = i16_to_le(self);
        proof {
            lemma_le_bytes_len(i16_bits(self), 2);
        }
        write_at(buf, 0, &b);
        assert(old(buf)@.take(0) + b@ =~= b@);
        2
    }
}

impl FromBytesLe for i16 {
    open spec fn le_decoding(x: Seq<u8>) -> i16 {
        i16_from_le(x)
    }

    fn from_le_bytes(x: &[u8]) -> (r: i16) {
        let r = i16_of_le(x[0], x[1]);
        assert(seq![x@[0], x@[1]] =~= x@.take(2));
        assert(x@.take(2).take(2) =~= x@.take(2));
        r
    }
}

/// Bit patterns of `f32` readings travel as four little-endian bytes, exactly
/// as the float's own little-endian bytes.
impl ByteSize for u32 {
    const SIZE: usize = 4;
}

impl ToBytesLe for u32 {
    open spec fn le_encoding(self) -> Seq<u8> {
        u32_le_bytes(self)
    }

    proof fn lemma_le_encoding_len(self) {
        lemma_le_bytes_len(self as nat, 4);
    }

    fn to_bytes_le(self, buf: &mut [u8]) -> (n: usize) {
        let b = u32_to_le(self);
        proof {
            lemma_le_bytes_len(self as nat, 4);
        }
        write_at(buf, 0, &b);
        assert(old(buf)@.take(0) + b@ =~= b@);
        4
    }
}

impl FromBytesLe for u32 {
    open spec fn le_decoding(x: Seq<u8>) -> u32 {
        u32_from_le(x)
    }

    fn from_le_bytes(x: &[u8]) -> (r: u32) {
        let r = u32_of_le(x[0], x[1], x[2], x[3]);
        assert(seq![x@[0], x@[1], x@[2], x@[3]] =~= x@.take(4));
        assert(x@.take(4).take(4) =~= x@.take(4));
        r
    }
}

/// The encodings of the elements of `s`, one after the other.
pub open spec fn concat_encodings<T: ToBytesLe>(s: Seq<T>) -> Seq<u8>
    decreases s.len(),
{
    if s.len() == 0 {
        Seq::empty()
    } else {
        concat_encodings(s.drop_last()) + s.last().le_encoding()
    }
}

/// The `size` bytes of element `i` in the encoding of an array whose elements
/// take `size` bytes each.
pub open spec fn element_bytes(x: Seq<u8>, i: int, size: int) -> Seq<u8> {
    x.subrange(i * size, i * size + size)
}

/// Whether each element of `a` is what its `SIZE` bytes of `x` read as.
pub open spec fn decodes_elements<T: FromBytesLe, const N: usize>(x: Seq<u8>, a: [T; N]) -> bool {
    forall|i: int| 0 <= i < N ==> #[trigger] a[i] == T::le_decoding(element_bytes(x, i, T::SIZE as int))
}

/// An array whose first `k` elements are what their bytes of `x` read as
/// (the others are unspecified).
pub open spec fn decode_prefix<T: FromBytesLe, const N: usize>(x: Seq<u8>, k: nat) -> [T; N]
    decreases k,
{
    if k == 0 {
        vstd::pervasive::arbitrary()
    } else {
        vstd::array::spec_array_update(
            decode_prefix(x, (k - 1) as nat),
            k - 1,
            T::le_decoding(element_bytes(x, k - 1, T::SIZE as int)),
        )
    }
}

/// The first `k` elements of `decode_prefix(x, k)` are what their bytes read as.
pub proof fn lemma_decode_prefix<T: FromBytesLe, const N: usize>(x: Seq<u8>, k: nat)
    requires
        k <= N,
    ensures
        forall|i: int|
            0 <= i < k ==> #[trigger] decode_prefix::<T, N>(x, k)[i] == T::le_decoding(
                element_bytes(x, i, T::SIZE as int),
            ),
    decreases k,
{
    if k > 0 {
        lemma_decode_prefix::<T, N>(x, (k - 1) as nat);
        let prev = decode_prefix::<T, N>(x, (k - 1) as nat);
        let t = T::le_decoding(element_bytes(x, k - 1, T::SIZE as int));
        assert(decode_prefix::<T, N>(x, k)@ == prev@.update(k - 1, t));
    }
}

proof fn lemma_mul_bounds(i: int, n: int, s: int)
    requires
        0 <= i < n,
        0 <= s,
    ensures
        0 <= i * s,
        i * s + s <= n * s,
        (i + 1) * s == i * s + s,
{
    assert(0 <= i * s) by (nonlinear_arith)
        requires
            0 <= i,
            0 <= s,
    ;
    assert(i * s + s <= n * s) by (nonlinear_arith)
        requires
            i < n,
            0 <= s,
    ;
    assert((i + 1) * s == i * s + s) by (nonlinear_arith);
}

/// The concatenated encodings have `SIZE` bytes per element, and element `i`
/// occupies bytes `i * SIZE .. (i + 1) * SIZE`.
pub proof fn lemma_concat_encodings<T: ToBytesLe>(s: Seq<T>)
    requires
        T::size_exact(),
    ensures
        concat_encodings(s).len() == s.len() * T::SIZE,
        forall|i: int|
            0 <= i < s.len() ==> #[trigger] element_bytes(concat_encodings(s), i, T::SIZE as int)
                == s[i].le_encoding(),
    decreases s.len(),
{
    if s.len() > 0 {
        let t = s.drop_last();
        lemma_concat_encodings(t);
        s.last().lemma_le_encoding_len();
        let c = concat_encodings(s);
        let ct = concat_encodings(t);
        let sz = T::SIZE as int;
        assert((t.len() + 1) * sz == t.len() * sz + sz) by (nonlinear_arith);
        assert forall|i: int| 0 <= i < s.len() implies #[trigger] element_bytes(c, i, T::SIZE as int)
            == s[i].le_encoding() by {
            if i < t.len() {
                lemma_mul_bounds(i, t.len() as int, sz);
                assert(element_bytes(c, i, T::SIZE as int) =~= element_bytes(ct, i, T::SIZE as int));
                assert(t[i] == s[i]);
            } else {
                assert(element_bytes(c, i, T::SIZE as int) =~= s.last().le_encoding());
            }
        }
    }
}

/// Calls `Vec::from` on an array: a vector of the array's elements in order.
#[verifier::external_body]
fn array_into_vec<T, const N: usize>(a: [T; N]) -> (v: Vec<T>)
    ensures
        v@ == a@,
{
    Vec::from(a)
}

/// Calls `<[T; N]>::try_from` on a vector of exactly `N` elements: the array
/// of the vector's elements in order.
#[verifier::external_body]
fn vec_into_array<T, const N: usize>(v: Vec<T>) -> (a: [T; N])
    requires
        v@.len() == N,
    ensures
        a@ == v@,
{
    <[T; N]>::try_from(v).ok().unwrap()
}

/// `N` values of `T`, one after the other.
impl<T: ByteSize, const N: usize> ByteSize for [T; N] {
    const SIZE: usize = N * T::SIZE;

    open spec fn size_exact() -> bool {
        N * T::SIZE <= usize::MAX && T::size_exact()
    }
}

impl<T: ToBytesLe, const N: usize> ToBytesLe for [T; N] {
    open spec fn le_encoding(self) -> Seq<u8> {
        concat_encodings(self@)
    }

    proof fn lemma_le_encoding_len(self) {
        lemma_concat_encodings(self@);
    }

    fn to_bytes_le(self, buf: &mut [u8]) -> (n: usize) {
        let ghost elems = self@;
        let ghost start = buf@;
        let ghost c = concat_encodings(elems);
        let s = T::SIZE;
        proof {
            lemma_concat_encodings(elems);
        }
        let mut v = array_into_vec(self);
        while v.len() > 0
            invariant
                T::size_exact(),
                N * T::SIZE <= usize::MAX,
                s == T::SIZE,
                elems.len() == N,
                c == concat_encodings(elems),
                c.len() == N * s,
                forall|i: int| 0 <= i < N ==> #[trigger] element_bytes(c, i, T::SIZE as int)
                    == elems[i].le_encoding(),
                v@ == elems.take(v@.len() as int),
                v@.len() <= N,
                start.len() >= N * s,
                buf@.len() == start.len(),
                buf@ == start.take(v@.len() * s) + c.subrange(v@.len() * s, N * s) + start.skip(
                    N * s,
                ),
            decreases v@.len(),
        {
            let ghost before = buf@;
            let item = v.pop().unwrap();
            let i = v.len();
            proof {
                lemma_mul_bounds(i as int, N as int, s as int);
                assert(item == elems[i as int]);
            }
            let off = i * s;
            let (head, tail) = buf.split_at_mut(off);
            item.to_bytes_le(tail);
            proof {
                assert(c.subrange(i * s, N * s) =~= element_bytes(c, i as int, T::SIZE as int) + c.subrange(
                    i * s + s,
                    N * s,
                ));
                assert(buf@ =~= start.take(i * s) + c.subrange(i * s, N * s) + start.skip(N * s));
            }
        }
        proof {
            assert(c.subrange(0, N * s) =~= c);
            assert(buf@ =~= self.le_encoding() + start.skip(Self::SIZE as int));
        }
        N * s
    }
}

impl<T: FromBytesLe, const N: usize> FromBytesLe for [T; N] {
    open spec fn le_decoding(x: Seq<u8>) -> [T; N] {
        decode_prefix(x, N as nat)
    }

    fn from_le_bytes(x: &[u8]) -> (r: [T; N]) {
        let s = T::SIZE;
        let ghost t = x@.take(Self::SIZE as int);
        let mut v: Vec<T> = Vec::new();
        let mut i: usize = 0;
        while i < N
            invariant
                i <= N,
                v@.len() == i,
                N * T::SIZE <= usize::MAX,
                N * s <= x@.len(),
                s == T::SIZE,
                T::size_exact(),
                forall|j: int| 0 <= j < i ==> #[trigger] v@[j] == T::le_decoding(
                    element_bytes(x@, j, T::SIZE as int),
                ),
            decreases N - i,
        {
            proof {
                lemma_mul_bounds(i as int, N as int, s as int);
            }
            let e = T::from_le_bytes(&x[i * s..i * s + s]);
            assert(x@.subrange(i * s, i * s + s).take(s as int) =~= element_bytes(
                x@,
                i as int,
                T::SIZE as int,
            ));
            v.push(e);
            i = i + 1;
        }
        let r: [T; N] = vec_into_array(v);
        proof {
            assert forall|j: int| 0 <= j < N implies #[trigger] r[j] == T::le_decoding(
                element_bytes(t, j, T::SIZE as int),
            ) by {
                lemma_mul_bounds(j, N as int, s as int);
                assert(element_bytes(t, j, T::SIZE as int) =~= element_bytes(x@, j, T::SIZE as int));
                assert(r[j] == v@[j]);
            }
            lemma_array_decoding_unique(t, r);
        }
        r
    }
}

/// The reading of an array is, element by element, what each element's bytes
/// read as.
pub proof fn lemma_array_decoding<T: FromBytesLe, const N: usize>(x: Seq<u8>)
    ensures
        decodes_elements(x, <[T; N]>::le_decoding(x)),
{
    lemma_decode_prefix::<T, N>(x, N as nat);
}

/// An array whose elements are what their bytes read as is the reading of the
/// whole: the array decoding is unique.
pub proof fn lemma_array_decoding_unique<T: FromBytesLe, const N: usize>(x: Seq<u8>, a: [T; N])
    requires
        decodes_elements(x, a),
    ensures
        <[T; N]>::le_decoding(x) == a,
{
    let b = <[T; N]>::le_decoding(x);
    lemma_array_decoding::<T, N>(x);
    assert(b =~= a);
}

/// The reading of an array depends only on its first `SIZE` bytes.
pub proof fn lemma_array_decoding_prefix<T: FromBytesLe, const N: usize>(x: Seq<u8>, y: Seq<u8>)
    requires
        <[T; N]>::size_exact(),
        x.len() >= N * T::SIZE,
        y.len() >= N * T::SIZE,
        x.take(N * T::SIZE) == y.take(N * T::SIZE),
    ensures
        <[T; N]>::le_decoding(x) == <[T; N]>::le_decoding(y),
{
    let sz = T::SIZE as int;
    let a = <[T; N]>::le_decoding(x);
    lemma_array_decoding::<T, N>(x);
    assert forall|i: int| 0 <= i < N implies #[trigger] a[i] == T::le_decoding(
        element_bytes(y, i, sz),
    ) by {
        lemma_mul_bounds(i, N as int, sz);
        assert(element_bytes(x, i, sz) =~= x.take(N * sz).subrange(i * sz, i * sz + sz));
        assert(element_bytes(y, i, sz) =~= y.take(N * sz).subrange(i * sz, i * sz + sz));
    }
    lemma_array_decoding_unique(y, a);
}

/// An array reads back from its encoding, whatever follows it, given that
/// each element reads back from its own encoding.
pub proof fn lemma_array_roundtrip<T: ToBytesLe + FromBytesLe, const N: usize>(
    a: [T; N],
    rest: Seq<u8>,
)
    requires
        <[T; N]>::size_exact(),
        forall|v: T| #[trigger] T::le_decoding(v.le_encoding()) == v,
    ensures
        a.le_encoding().len() == <[T; N] as ByteSize>::SIZE,
        <[T; N]>::le_decoding(a.le_encoding() + rest) == a,
{
    lemma_concat_encodings(a@);
    let c = a.le_encoding();
    let x = c + rest;
    let sz = T::SIZE as int;
    assert forall|i: int| 0 <= i < N implies #[trigger] a[i] == T::le_decoding(
        element_bytes(x, i, T::SIZE as int),
    ) by {
        lemma_mul_bounds(i, N as int, sz);
        assert(element_bytes(x, i, T::SIZE as int) =~= element_bytes(c, i, T::SIZE as int));
        assert(element_bytes(c, i, T::SIZE as int) == a@[i].le_encoding());
    }
    lemma_array_decoding_unique(x, a);
}

/// Writing an array into a buffer and reading the front of that buffer back
/// gives the array again, whatever the buffer held after the written bytes,
/// given that each element reads back from its own encoding.
pub proof fn lemma_array_write_read<T: ToBytesLe + FromBytesLe, const N: usize>(
    a: [T; N],
    buf: Seq<u8>,
)
    requires
        N * T::SIZE <= usize::MAX,
        T::size_exact(),
        forall|v: T| #[trigger] T::le_decoding(v.le_encoding()) == v,
        buf.len() >= N * T::SIZE,
    ensures
        <[T; N] as ByteSize>::SIZE == N * T::SIZE,
        <[T; N]>::le_decoding(
            (a.le_encoding() + buf.skip(N * T::SIZE)).take(N * T::SIZE),
        ) == a,
{
    lemma_array_roundtrip(a, Seq::empty());
    let c = a.le_encoding();
    assert((c + buf.skip(N * T::SIZE)).take(N * T::SIZE) =~= c + Seq::<u8>::empty());
}

/// Three readings of a sensor axis triple (`x`, `y`, `z`), each held as the
/// IEEE-754 bit pattern of the `f32` reading.
#[derive(Clone, Copy, Debug, PartialEq, Eq, Structural)]
pub struct Tri {
    pub x: u32,
    pub y: u32,
    pub z: u32,
}

impl ByteSize for Tri {
    const SIZE: usize = 12;
}

impl ToBytesLe for Tri {
    open spec fn le_encoding(self) -> Seq<u8> {
        u32_le_bytes(self.x) + u32_le_bytes(self.y) + u32_le_bytes(self.z)
    }

    proof fn lemma_le_encoding_len(self) {
        lemma_le_bytes_len(self.x as nat, 4);
        lemma_le_bytes_len(self.y as nat, 4);
        lemma_le_bytes_len(self.z as nat, 4);
    }

    fn to_bytes_le(self, buf: &mut [u8]) -> (n: usize) {
        let ghost start = buf@;
        let mut offset: usize = 0;
        let bx = u32_to_le(self.x);
        write_at(buf, offset, &bx);
        offset = offset + 4;
        let by = u32_to_le(self.y);
        write_at(buf, offset, &by);
        offset = offset + 4;
        let bz = u32_to_le(self.z);
        write_at(buf, offset, &bz);
        offset = offset + 4;
        proof {
            lemma_le_bytes_len(self.x as nat, 4);
            lemma_le_bytes_len(self.y as nat, 4);
            lemma_le_bytes_len(self.z as nat, 4);
            assert(buf@ =~= self.le_encoding() + start.skip(12));
        }
        offset
    }
}

impl FromBytesLe for Tri {
    open spec fn le_decoding(x: Seq<u8>) -> Tri {
        Tri { x: u32_from_le(x), y: u32_from_le(x.skip(4)), z: u32_from_le(x.skip(8)) }
    }

    fn from_le_bytes(x: &[u8]) -> (r: Tri) {
        let r = Tri {
            x: <u32 as FromBytesLe>::from_le_bytes(&x[0..4]),
            y: <u32 as FromBytesLe>::from_le_bytes(&x[4..8]),
            z: <u32 as FromBytesLe>::from_le_bytes(&x[8..12]),
        };
        proof {
            let t = x@.take(12);
            assert(x@.subrange(0, 4).take(4).take(4) =~= t.take(4));
            assert(x@.subrange(4, 8).take(4).take(4) =~= t.skip(4).take(4));
            assert(x@.subrange(8, 12).take(4).take(4) =~= t.skip(8).take(4));
        }
        r
    }
}

/// One IMU sample: acceleration, angular rate and orientation quaternion,
/// each number held as the bit pattern of its `f32` value.
#[derive(Clone, Copy, Debug, PartialEq, Eq)]
pub struct ImuData {
    pub accel: Tri,
    pub gyro: Tri,
    pub quat: [u32; 4],
}

impl ByteSize for ImuData {
    const SIZE: usize = 40;
}

impl ToBytesLe for ImuData {
    open spec fn le_encoding(self) -> Seq<u8> {
        self.accel.le_encoding() + self.gyro.le_encoding() + self.quat.le_encoding()
    }

    proof fn lemma_le_encoding_len(self) {
        self.accel.lemma_le_encoding_len();
        self.gyro.lemma_le_encoding_len();
        lemma_concat_encodings(self.quat@);
    }

    fn to_bytes_le(self, buf: &mut [u8]) -> (n: usize) {
        let ghost start = buf@;
        let mut offset: usize = 0;
        let mut part = [0u8; 12];
        offset = offset + self.accel.to_bytes_le(&mut part);
        write_at(buf, 0, &part);
        offset = offset + self.gyro.to_bytes_le(&mut part);
        write_at(buf, 12, &part);
        let mut q = [0u8; 16];
        offset = offset + self.quat.to_bytes_le(&mut q);
        write_at(buf, 24, &q);
        assert(buf@ =~= self.le_encoding() + start.skip(40));
        offset
    }
}

impl FromBytesLe for ImuData {
    open spec fn le_decoding(x: Seq<u8>) -> ImuData {
        ImuData {
            accel: Tri::le_decoding(x),
            gyro: Tri::le_decoding(x.skip(12)),
            quat: <[u32; 4]>::le_decoding(x.skip(24)),
        }
    }

    fn from_le_bytes(x: &[u8]) -> (r: ImuData) {
        let r = ImuData {
            accel: Tri::from_le_bytes(&x[0..12]),
            gyro: Tri::from_le_bytes(&x[12..24]),
            quat: <[u32; 4]>::from_le_bytes(&x[24..40]),
        };
        proof {
            let t = x@.take(40);
            assert(x@.subrange(0, 12).take(12).take(4) =~= t.take(4));
            assert(x@.subrange(0, 12).take(12).skip(4).take(4) =~= t.skip(4).take(4));
            assert(x@.subrange(0, 12).take(12).skip(8).take(4) =~= t.skip(8).take(4));
            assert(x@.subrange(12, 24).take(12).take(4) =~= t.skip(12).take(4));
            assert(x@.subrange(12, 24).take(12).skip(4).take(4) =~= t.skip(12).skip(4).take(4));
            assert(x@.subrange(12, 24).take(12).skip(8).take(4) =~= t.skip(12).skip(8).take(4));
            let q = x@.subrange(24, 40).take(16);
            assert(q.take(16) =~= t.skip(24).take(16));
            lemma_array_decoding_prefix::<u32, 4>(q, t.skip(24));
        }
        r
    }
}

/// An array takes the size of its element once for each element, wherever
/// that product fits in a `usize`.
pub proof fn lemma_array_size<T: ByteSize, const N: usize>()
    requires
        N * T::SIZE <= usize::MAX,
    ensures
        <[T; N] as ByteSize>::SIZE == N * T::SIZE,
{
}

/// The wire layout of an IMU sample: the accelerometer's `x`, `y`, `z`, then
/// the gyroscope's, then the four quaternion words in index order, each as
/// its four little-endian bytes.
pub proof fn lemma_imu_data_wire_layout(d: ImuData)
    ensures
        d.le_encoding() == u32_le_bytes(d.accel.x) + u32_le_bytes(d.accel.y) + u32_le_bytes(
            d.accel.z,
        ) + u32_le_bytes(d.gyro.x) + u32_le_bytes(d.gyro.y) + u32_le_bytes(d.gyro.z)
            + u32_le_bytes(d.quat[0]) + u32_le_bytes(d.quat[1]) + u32_le_bytes(d.quat[2])
            + u32_le_bytes(d.quat[3]),
{
    let q = d.quat@;
    reveal_with_fuel(concat_encodings, 5);
    assert(q.drop_last() =~= seq![d.quat[0], d.quat[1], d.quat[2]]);
    assert(q.drop_last().drop_last() =~= seq![d.quat[0], d.quat[1]]);
    assert(q.drop_last().drop_last().drop_last() =~= seq![d.quat[0]]);
    assert(q.drop_last().drop_last().drop_last().drop_last() =~= Seq::<u32>::empty());
    assert(concat_encodings(q) =~= u32_le_bytes(d.quat[0]) + u32_le_bytes(d.quat[1])
        + u32_le_bytes(d.quat[2]) + u32_le_bytes(d.quat[3]));
    assert(d.le_encoding() =~= u32_le_bytes(d.accel.x) + u32_le_bytes(d.accel.y) + u32_le_bytes(
        d.accel.z,
    ) + u32_le_bytes(d.gyro.x) + u32_le_bytes(d.gyro.y) + u32_le_bytes(d.gyro.z)
        + u32_le_bytes(d.quat[0]) + u32_le_bytes(d.quat[1]) + u32_le_bytes(d.quat[2])
        + u32_le_bytes(d.quat[3]));
}

/// How an IMU sample is read from 40 bytes: each of its ten words is the
/// little-endian reading of four bytes, in the order of the wire layout
/// (accelerometer, gyroscope, then quaternion words 0 to 3).
pub proof fn lemma_imu_data_read_layout(x: Seq<u8>)
    requires
        x.len() >= 40,
    ensures
        ImuData::le_decoding(x).accel == (Tri {
            x: u32_from_le(x),
            y: u32_from_le(x.skip(4)),
            z: u32_from_le(x.skip(8)),
        }),
        ImuData::le_decoding(x).gyro == (Tri {
            x: u32_from_le(x.skip(12)),
            y: u32_from_le(x.skip(16)),
            z: u32_from_le(x.skip(20)),
        }),
        forall|i: int|
            0 <= i < 4 ==> #[trigger] ImuData::le_decoding(x).quat[i] == u32_from_le(
                x.skip(24 + 4 * i),
            ),
{
    let t = x.skip(24);
    lemma_array_decoding::<u32, 4>(t);
    assert(x.skip(12).skip(4) =~= x.skip(16));
    assert(x.skip(12).skip(8) =~= x.skip(20));
    assert forall|i: int| 0 <= i < 4 implies #[trigger] ImuData::le_decoding(x).quat[i]
        == u32_from_le(x.skip(24 + 4 * i)) by {
        assert(element_bytes(t, i, 4).take(4) =~= x.skip(24 + 4 * i).take(4));
    }
}

/// The wire sizes of the types of this module, and that the array sizes do
/// not overflow.
pub proof fn lemma_sizes()
    ensures
        <i16 as ByteSize>::SIZE == 2,
        <u32 as ByteSize>::SIZE == 4,
        <[i16; 3] as ByteSize>::SIZE == 6,
        <[i16; 3] as ByteSize>::size_exact(),
        <[u32; 4] as ByteSize>::SIZE == 16,
        <[u32; 4] as ByteSize>::size_exact(),
        <Tri as ByteSize>::SIZE == 12,
        <ImuData as ByteSize>::SIZE == 40,
{
}

/// A signed 16-bit value reads back from its encoding, whatever follows it.
pub proof fn lemma_i16_roundtrip(v: i16, rest: Seq<u8>)
    ensures
        v.le_encoding().len() == <i16 as ByteSize>::SIZE,
        i16::le_decoding(v.le_encoding() + rest) == v,
{
    lemma_i16_le_roundtrip(v, rest);
}

/// A 32-bit bit pattern reads back from its encoding, whatever follows it.
pub proof fn lemma_u32_roundtrip(v: u32, rest: Seq<u8>)
    ensures
        v.le_encoding().len() == <u32 as ByteSize>::SIZE,
        u32::le_decoding(v.le_encoding() + rest) == v,
{
    lemma_u32_le_roundtrip(v, rest);
}

/// Every signed 16-bit value reads back from its encoding alone.
proof fn lemma_i16_reads_back()
    ensures
        forall|v: i16| #[trigger] i16::le_decoding(v.le_encoding()) == v,
{
    assert forall|v: i16| #[trigger] i16::le_decoding(v.le_encoding()) == v by {
        lemma_i16_le_roundtrip(v, Seq::empty());
        assert(v.le_encoding() + Seq::<u8>::empty() =~= v.le_encoding());
    }
}

/// Every 32-bit bit pattern reads back from its encoding alone.
proof fn lemma_u32_reads_back()
    ensures
        forall|v: u32| #[trigger] u32::le_decoding(v.le_encoding()) == v,
{
    assert forall|v: u32| #[trigger] u32::le_decoding(v.le_encoding()) == v by {
        lemma_u32_le_roundtrip(v, Seq::empty());
        assert(v.le_encoding() + Seq::<u8>::empty() =~= v.le_encoding());
    }
}

/// Three 16-bit values read back from their encoding, whatever follows it.
pub proof fn lemma_i16_triple_roundtrip(v: [i16; 3], rest: Seq<u8>)
    ensures
        v.le_encoding().len() == <[i16; 3] as ByteSize>::SIZE,
        <[i16; 3]>::le_decoding(v.le_encoding() + rest) == v,
{
    lemma_i16_reads_back();
    lemma_array_roundtrip(v, rest);
}

/// Four 32-bit bit patterns read back from their encoding, whatever follows it.
pub proof fn lemma_u32_quad_roundtrip(v: [u32; 4], rest: Seq<u8>)
    ensures
        v.le_encoding().len() == <[u32; 4] as ByteSize>::SIZE,
        <[u32; 4]>::le_decoding(v.le_encoding() + rest) == v,
{
    lemma_u32_reads_back();
    lemma_array_roundtrip(v, rest);
}

/// An axis triple reads back from its encoding, whatever follows it.
pub proof fn lemma_tri_roundtrip(t: Tri, rest: Seq<u8>)
    ensures
        t.le_encoding().len() == <Tri as ByteSize>::SIZE,
        Tri::le_decoding(t.le_encoding() + rest) == t,
{
    let ex = u32_le_bytes(t.x);
    let ey = u32_le_bytes(t.y);
    let ez = u32_le_bytes(t.z);
    let s = t.le_encoding() + rest;
    lemma_u32_le_roundtrip(t.x, ey + ez + rest);
    lemma_u32_le_roundtrip(t.y, ez + rest);
    lemma_u32_le_roundtrip(t.z, rest);
    assert(s =~= ex + (ey + ez + rest));
    assert(s.skip(4) =~= ey + (ez + rest));
    assert(s.skip(8) =~= ez + rest);
}

/// An IMU sample reads back from its encoding, whatever follows it: the host
/// decodes exactly the sample the sensor sent.
pub proof fn lemma_imu_data_roundtrip(d: ImuData, rest: Seq<u8>)
    ensures
        d.le_encoding().len() == <ImuData as ByteSize>::SIZE,
        ImuData::le_decoding(d.le_encoding() + rest) == d,
{
    let ea = d.accel.le_encoding();
    let eg = d.gyro.le_encoding();
    let eq = d.quat.le_encoding();
    let s = d.le_encoding() + rest;
    lemma_tri_roundtrip(d.accel, eg + eq + rest);
    lemma_tri_roundtrip(d.gyro, eq + rest);
    lemma_u32_quad_roundtrip(d.quat, rest);
    assert(s =~= ea + (eg + eq + rest));
    assert(s.skip(12) =~= eg + (eq + rest));
    assert(s.skip(24) =~= eq + rest);
}

/// Every six bytes are the encoding of the three 16-bit values they read as.
pub proof fn lemma_i16_triple_bytes_roundtrip(x: Seq<u8>)
    requires
        x.len() >= <[i16; 3] as ByteSize>::SIZE,
    ensures
        <[i16; 3]>::le_decoding(x).le_encoding() == x.take(6),
{
    let b0 = element_bytes(x, 0, 2);
    let b1 = element_bytes(x, 1, 2);
    let b2 = element_bytes(x, 2, 2);
    let w: [i16; 3] = [i16_from_le(b0), i16_from_le(b1), i16_from_le(b2)];
    assert(decodes_elements(x, w));
    lemma_array_decoding_unique(x, w);
    lemma_concat_encodings(w@);
    lemma_i16_le_from_bytes(b0);
    lemma_i16_le_from_bytes(b1);
    lemma_i16_le_from_bytes(b2);
    assert(b0.take(2) =~= b0);
    assert(b1.take(2) =~= b1);
    assert(b2.take(2) =~= b2);
    let c = w.le_encoding();
    assert(element_bytes(c, 0, 2) == b0);
    assert(element_bytes(c, 1, 2) == b1);
    assert(element_bytes(c, 2, 2) == b2);
    assert(c =~= element_bytes(c, 0, 2) + element_bytes(c, 1, 2) + element_bytes(c, 2, 2));
    assert(x.take(6) =~= b0 + b1 + b2);
}

/// Every sixteen bytes are the encoding of the four 32-bit patterns they read as.
pub proof fn lemma_u32_quad_bytes_roundtrip(x: Seq<u8>)
    requires
        x.len() >= <[u32; 4] as ByteSize>::SIZE,
    ensures
        <[u32; 4]>::le_decoding(x).le_encoding() == x.take(16),
{
    let b0 = element_bytes(x, 0, 4);
    let b1 = element_bytes(x, 1, 4);
    let b2 = element_bytes(x, 2, 4);
    let b3 = element_bytes(x, 3, 4);
    let w: [u32; 4] = [u32_from_le(b0), u32_from_le(b1), u32_from_le(b2), u32_from_le(b3)];
    assert(decodes_elements(x, w));
    lemma_array_decoding_unique(x, w);
    lemma_concat_encodings(w@);
    lemma_u32_le_from_bytes(b0);
    lemma_u32_le_from_bytes(b1);
    lemma_u32_le_from_bytes(b2);
    lemma_u32_le_from_bytes(b3);
    assert(b0.take(4) =~= b0);
    assert(b1.take(4) =~= b1);
    assert(b2.take(4) =~= b2);
    assert(b3.take(4) =~= b3);
    let c = w.le_encoding();
    assert(element_bytes(c, 0, 4) == b0);
    assert(element_bytes(c, 1, 4) == b1);
    assert(element_bytes(c, 2, 4) == b2);
    assert(element_bytes(c, 3, 4) == b3);
    assert(c =~= element_bytes(c, 0, 4) + element_bytes(c, 1, 4) + element_bytes(c, 2, 4)
        + element_bytes(c, 3, 4));
    assert(x.take(16) =~= b0 + b1 + b2 + b3);
}

/// Every run of `SIZE` bytes is the encoding of the sample it reads as: the
/// format has no spare bits, so no two byte strings read as the same sample.
pub proof fn lemma_imu_data_bytes_roundtrip(x: Seq<u8>)
    requires
        x.len() >= <ImuData as ByteSize>::SIZE,
    ensures
        ImuData::le_decoding(x).le_encoding() == x.take(40),
{
    let d = ImuData::le_decoding(x);
    lemma_u32_le_from_bytes(x);
    lemma_u32_le_from_bytes(x.skip(4));
    lemma_u32_le_from_bytes(x.skip(8));
    lemma_u32_le_from_bytes(x.skip(12));
    lemma_u32_le_from_bytes(x.skip(12).skip(4));
    lemma_u32_le_from_bytes(x.skip(12).skip(8));
    lemma_u32_quad_bytes_roundtrip(x.skip(24));
    assert(d.le_encoding() =~= x.take(40));
}

} // verus!
