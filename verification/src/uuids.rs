//! The Bluetooth service and characteristic UUIDs of the boot, and their byte forms.
//!
//! A UUID is held as its 128-bit value. On the air a BLE stack takes the sixteen
//! bytes least significant first; the `uuid` crate's `to_bytes_le` gives the
//! mixed-endian (GUID) form, in which only the first three fields are swapped.
use vstd::prelude::*;
use crate::le::{le_bytes, le_value, lemma_le_bytes_len, lemma_le_value_of_bytes, pow256};

verus! {

pub const BASE_NAMESPACE_UUID: u128 = 0x45e43ca9_ba7d_4769_bc47_34578c000000u128;

pub const MOTION_SERVICE_UUID: u128 = 0x45e43ca9_ba7d_4769_bc47_34578c000100u128;

pub const IMU_DATA_CHAR_UUID: u128 = 0x45e43ca9_ba7d_4769_bc47_34578c000101u128;

pub const IMU_STATUS_CHAR_UUID: u128 = 0x45e43ca9_ba7d_4769_bc47_34578c000102u128;

pub const IMU_CONF_CHAR_UUID: u128 = 0x45e43ca9_ba7d_4769_bc47_34578c00010au128;

pub const NAVIGATION_SERVICE_UUID: u128 = 0x45e43ca9_ba7d_4769_bc47_34578c000200u128;

pub const GPS_DATA_CHAR_UUID: u128 = 0x45e43ca9_ba7d_4769_bc47_34578c000201u128;

pub const GPS_CONF_CHAR_UUID: u128 = 0x45e43ca9_ba7d_4769_bc47_34578c00020au128;

pub const CONTROL_SERVICE_UUID: u128 = 0x45e43ca9_ba7d_4769_bc47_34578c000300u128;

pub const CONTROL_COMMAND_CHAR_UUID: u128 = 0x45e43ca9_ba7d_4769_bc47_34578c000301u128;

/// The sixteen bytes of a UUID in RFC 4122 order, most significant first.
pub open spec fn uuid_be(v: u128) -> Seq<u8> {
    le_bytes(v as nat, 16).reverse()
}

/// The mixed-endian (GUID) order of RFC 4122 bytes `b`: the first three fields
/// (four, two and two bytes) are reversed, the last eight bytes are kept.
pub open spec fn guid_order(b: Seq<u8>) -> Seq<u8> {
    seq![b[3], b[2], b[1], b[0], b[5], b[4], b[7], b[6]] + b.subrange(8, 16)
}

/// Calls `uuid::Uuid::from_u128(v).into_bytes()`. The contract claims what the
/// crate's source shows: the bytes are those of `v`, most significant first.
#[verifier::external_body]
fn uuid_rfc_bytes(v: u128) -> (b: [u8; 16])
    ensures
        b@ == uuid_be(v),
{
    uuid::Uuid::from_u128(v).into_bytes()
}

/// Calls `uuid::Uuid::from_u128(v).to_bytes_le()`. The contract claims what the
/// crate's source shows: the RFC 4122 bytes of `v` with the first three fields
/// reversed and the last eight bytes in order.
#[verifier::external_body]
fn uuid_guid_bytes(v: u128) -> (b: [u8; 16])
    ensures
        b@ == guid_order(uuid_be(v)),
{
    uuid::Uuid::from_u128(v).to_bytes_le()
}

/// The sixteen bytes of a UUID as a BLE stack sends them: the RFC 4122 bytes
/// in reverse order, that is the 128-bit value least significant byte first.
pub fn ble_uuid_bytes(v: u128) -> (r: [u8; 16])
    ensures
        r@ == le_bytes(v as nat, 16),
{
    let a = uuid_rfc_bytes(v);
    let mut r = a;
    proof {
        lemma_le_bytes_len(v as nat, 16);
    }
    let mut i: usize = 0;
    while i < 16
        invariant
            i <= 16,
            a@ == uuid_be(v),
            a@.len() == 16,
            forall|k: int| 0 <= k < i ==> r@[k] == a@[15 - k],
            r@.len() == 16,
        decreases 16 - i,
    {
        r[i] = a[15 - i];
        i = i + 1;
    }
    assert(r@ =~= le_bytes(v as nat, 16));
    r
}

/// The mixed-endian (GUID) bytes of a UUID, as `uuid::Uuid::to_bytes_le` gives them.
pub fn uuid_bytes_le(v: u128) -> (r: [u8; 16])
    ensures
        r@ == guid_order(uuid_be(v)),
{
    uuid_guid_bytes(v)
}

/// `256^16`, one more than the largest 128-bit value.
pub proof fn lemma_pow256_16()
    ensures
        pow256(16) == 0x1_0000_0000_0000_0000_0000_0000_0000_0000,
{
    reveal_with_fuel(pow256, 17);
}

/// The BLE byte form of a UUID reads back, least significant first, to the UUID.
pub proof fn lemma_ble_uuid_roundtrip(v: u128)
    ensures
        le_bytes(v as nat, 16).len() == 16,
        le_value(le_bytes(v as nat, 16)) == v,
{
    lemma_le_bytes_len(v as nat, 16);
    lemma_le_value_of_bytes(v as nat, 16);
    lemma_pow256_16();
}

/// The GUID form and the BLE form of a UUID agree on the first eight bytes up
/// to field order and are mirror images on the last eight.
pub proof fn lemma_guid_and_ble_bytes(v: u128)
    ensures
        ({
            let g = guid_order(uuid_be(v));
            let l = le_bytes(v as nat, 16);
            &&& g.len() == 16
            &&& g.subrange(0, 4) == l.subrange(12, 16)
            &&& g.subrange(4, 6) == l.subrange(10, 12)
            &&& g.subrange(6, 8) == l.subrange(8, 10)
            &&& forall|k: int| 8 <= k < 16 ==> g[k] == l[15 - k]
        }),
{
    lemma_le_bytes_len(v as nat, 16);
    let g = guid_order(uuid_be(v));
    let l = le_bytes(v as nat, 16);
    assert(g.subrange(0, 4) =~= l.subrange(12, 16));
    assert(g.subrange(4, 6) =~= l.subrange(10, 12));
    assert(g.subrange(6, 8) =~= l.subrange(8, 10));
}

} // verus!
