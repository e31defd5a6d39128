//! Little-endian byte encoding of unsigned and two's-complement integers,
//! as a mathematical model and as executable code proved against it.
use vstd::prelude::*;

verus! {

/// `256` raised to the power `n`.
pub open spec fn pow256(n: nat) -> nat
    decreases n,
{
    if n == 0 {
        1
    } else {
        256 * pow256((n - 1) as nat)
    }
}

/// The `n` low-order bytes of `v`, least significant byte first.
pub open spec fn le_bytes(v: nat, n: nat) -> Seq<u8>
    decreases n,
{
    if n == 0 {
        Seq::empty()
    } else {
        seq![(v % 256) as u8] + le_bytes(v / 256, (n - 1) as nat)
    }
}

/// The number whose little-endian bytes are `s`.
pub open spec fn le_value(s: Seq<u8>) -> nat
    decreases s.len(),
{
    if s.len() == 0 {
        0
    } else {
        s[0] as nat + 256 * le_value(s.drop_first())
    }
}

/// The two's-complement bit pattern of a 16-bit signed value, as a number.
pub open spec fn i16_bits(v: i16) -> nat {
    if v < 0 {
        (v + 0x1_0000) as nat
    } else {
        v as nat
    }
}

/// The signed 16-bit value whose two's-complement bit pattern is `u`.
pub open spec fn i16_of_bits(u: nat) -> int {
    if u >= 0x8000 {
        u - 0x1_0000
    } else {
        u as int
    }
}

/// The little-endian encoding of a signed 16-bit value.
pub open spec fn i16_le_bytes(v: i16) -> Seq<u8> {
    le_bytes(i16_bits(v), 2)
}

/// The signed 16-bit value read from the first two bytes of `s`, least significant first.
pub open spec fn i16_from_le(s: Seq<u8>) -> i16 {
    i16_of_bits(le_value(s.take(2))) as i16
}

/// The big-endian reading of two bytes as a signed 16-bit value.
pub open spec fn i16_from_be(hi: u8, lo: u8) -> i16 {
    i16_of_bits(hi as nat * 256 + lo as nat) as i16
}

/// The little-endian encoding of an unsigned 32-bit value.
pub open spec fn u32_le_bytes(v: u32) -> Seq<u8> {
    le_bytes(v as nat, 4)
}

/// The unsigned 32-bit value read from the first four bytes of `s`, least significant first.
pub open spec fn u32_from_le(s: Seq<u8>) -> u32 {
    le_value(s.take(4)) as u32
}

/// Every power of 256 is positive.
pub proof fn lemma_pow256_positive(n: nat)
    ensures
        pow256(n) > 0,
    decreases n,
{
    if n > 0 {
        lemma_pow256_positive((n - 1) as nat);
    }
}

/// The powers of 256 used for 16- and 32-bit values.
pub proof fn lemma_pow256_values()
    ensures
        pow256(2) == 0x1_0000,
        pow256(4) == 0x1_0000_0000,
{
    reveal_with_fuel(pow256, 5);
}

/// An encoding has exactly the requested number of bytes.
pub proof fn lemma_le_bytes_len(v: nat, n: nat)
    ensures
        le_bytes(v, n).len() == n,
    decreases n,
{
    if n > 0 {
        lemma_le_bytes_len(v / 256, (n - 1) as nat);
    }
}

/// The value of `n` bytes is below `256^n`.
pub proof fn lemma_le_value_bound(s: Seq<u8>)
    ensures
        le_value(s) < pow256(s.len()),
    decreases s.len(),
{
    if s.len() > 0 {
        let t = s.drop_first();
        lemma_le_value_bound(t);
        let a = s[0] as int;
        let b = le_value(t) as int;
        let p = pow256(t.len()) as int;
        assert(a + 256 * b < 256 * p) by (nonlinear_arith)
            requires
                0 <= a < 256,
                0 <= b < p,
        ;
    }
}

/// Reading back an `n`-byte encoding gives the value modulo `256^n`.
pub proof fn lemma_le_value_of_bytes(v: nat, n: nat)
    ensures
        le_value(le_bytes(v, n)) == v % pow256(n),
    decreases n,
{
    lemma_pow256_positive(n);
    if n == 0 {
    } else {
        let m = (n - 1) as nat;
        lemma_le_value_of_bytes(v / 256, m);
        lemma_pow256_positive(m);
        let s = le_bytes(v, n);
        assert(s.drop_first() =~= le_bytes(v / 256, m));
        vstd::arithmetic::div_mod::lemma_mod_breakdown(v as int, 256, pow256(m) as int);
    }
}

/// Encoding the value of a byte sequence, at its own length, gives the sequence back.
pub proof fn lemma_le_bytes_of_value(s: Seq<u8>)
    ensures
        le_bytes(le_value(s), s.len()) == s,
    decreases s.len(),
{
    if s.len() > 0 {
        let t = s.drop_first();
        lemma_le_bytes_of_value(t);
        let a = s[0] as int;
        let b = le_value(t) as int;
        assert((a + 256 * b) % 256 == a && (a + 256 * b) / 256 == b) by (nonlinear_arith)
            requires
                0 <= a < 256,
                0 <= b,
        ;
        assert(le_bytes(le_value(s), s.len()) =~= s);
    }
}

/// Two's-complement bits of a 16-bit value read back to the value.
pub proof fn lemma_i16_bits_roundtrip(v: i16)
    ensures
        i16_bits(v) < 0x1_0000,
        i16_of_bits(i16_bits(v)) == v,
{
}

/// The little-endian encoding of a 16-bit value reads back to that value.
pub proof fn lemma_i16_le_roundtrip(v: i16, rest: Seq<u8>)
    ensures
        i16_le_bytes(v).len() == 2,
        i16_from_le(i16_le_bytes(v) + rest) == v,
{
    lemma_le_bytes_len(i16_bits(v), 2);
    assert((i16_le_bytes(v) + rest).take(2) =~= i16_le_bytes(v));
    lemma_le_value_of_bytes(i16_bits(v), 2);
    lemma_pow256_values();
}

/// The little-endian encoding of a 32-bit value reads back to that value.
pub proof fn lemma_u32_le_roundtrip(v: u32, rest: Seq<u8>)
    ensures
        u32_le_bytes(v).len() == 4,
        u32_from_le(u32_le_bytes(v) + rest) == v,
{
    lemma_le_bytes_len(v as nat, 4);
    assert((u32_le_bytes(v) + rest).take(4) =~= u32_le_bytes(v));
    lemma_le_value_of_bytes(v as nat, 4);
    lemma_pow256_values();
}

/// Any two bytes are the encoding of the 16-bit value they are read as.
pub proof fn lemma_i16_le_from_bytes(s: Seq<u8>)
    requires
        s.len() >= 2,
    ensures
        i16_le_bytes(i16_from_le(s)) == s.take(2),
{
    let t = s.take(2);
    lemma_le_value_bound(t);
    lemma_pow256_values();
    lemma_le_bytes_of_value(t);
}

/// Any four bytes are the encoding of the 32-bit value they are read as.
pub proof fn lemma_u32_le_from_bytes(s: Seq<u8>)
    requires
        s.len() >= 4,
    ensures
        u32_le_bytes(u32_from_le(s)) == s.take(4),
{
    let t = s.take(4);
    lemma_le_value_bound(t);
    lemma_pow256_values();
    lemma_le_bytes_of_value(t);
}

/// The two little-endian bytes of a signed 16-bit value.
pub fn i16_to_le(v: i16) -> (r: [u8; 2])
    ensures
        r@ == i16_le_bytes(v),
{
    let u: u16 = if v < 0 {
        (v as i32 + 0x1_0000) as u16
    } else {
        v as u16
    };
    let r = [(u % 256) as u8, (u / 256) as u8];
    proof {
        reveal_with_fuel(le_bytes, 3);
        assert((u as nat / 256) / 256 == 0);
        assert(r@ =~= i16_le_bytes(v));
    }
    r
}

/// The signed 16-bit value of two bytes, least significant first.
pub fn i16_of_le(b0: u8, b1: u8) -> (r: i16)
    ensures
        r == i16_from_le(seq![b0, b1]),
{
    let u: u32 = b0 as u32 + 256 * b1 as u32;
    proof {
        let s = seq![b0, b1];
        assert(s.take(2) =~= s);
        reveal_with_fuel(le_value, 3);
        assert(s.drop_first() =~= seq![b1]);
        assert(s.drop_first().drop_first() =~= Seq::<u8>::empty());
        assert(le_value(s) == u);
    }
    if u >= 0x8000 {
        (u as i32 - 0x1_0000) as i16
    } else {
        u as i16
    }
}

/// The four little-endian bytes of an unsigned 32-bit value.
pub fn u32_to_le(v: u32) -> (r: [u8; 4])
    ensures
        r@ == u32_le_bytes(v),
{
    let r = [
        (v % 256) as u8,
        ((v / 256) % 256) as u8,
        ((v / 0x1_0000) % 256) as u8,
        (v / 0x100_0000) as u8,
    ];
    proof {
        reveal_with_fuel(le_bytes, 5);
        let n = v as nat;
        assert(n / 256 / 256 == n / 0x1_0000);
        assert(n / 256 / 256 / 256 == n / 0x100_0000);
        assert(n / 0x100_0000 < 256);
        assert(n / 256 / 256 / 256 / 256 == 0);
        assert(r@ =~= u32_le_bytes(v));
    }
    r
}

/// The unsigned 32-bit value of four bytes, least significant first.
pub fn u32_of_le(b0: u8, b1: u8, b2: u8, b3: u8) -> (r: u32)
    ensures
        r == u32_from_le(seq![b0, b1, b2, b3]),
{
    let r: u32 = b0 as u32 + 256 * (b1 as u32 + 256 * (b2 as u32 + 256 * b3 as u32));
    proof {
        let s = seq![b0, b1, b2, b3];
        assert(s.take(4) =~= s);
        reveal_with_fuel(le_value, 5);
        assert(s.drop_first() =~= seq![b1, b2, b3]);
        assert(s.drop_first().drop_first() =~= seq![b2, b3]);
        assert(s.drop_first().drop_first().drop_first() =~= seq![b3]);
        assert(s.drop_first().drop_first().drop_first().drop_first() =~= Seq::<u8>::empty());
    }
    r
}

} // verus!
