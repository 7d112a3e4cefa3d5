//! What the library takes from `std::hash` beyond what vstd specifies.
use vstd::prelude::*;
use std::hash::Hasher;
use vstd::bytes::{spec_u32_to_le_bytes, spec_u64_to_le_bytes, lemma_auto_spec_u32_to_from_le_bytes, lemma_auto_spec_u64_to_from_le_bytes};
use vstd::endian::{endianness, Endian};

verus! {

/// The bytes of `le` (least significant first) in the byte order of the
/// machine: as they are where the machine is little-endian, reversed where
/// it is big-endian.
pub open spec fn native_order(le: Seq<u8>) -> Seq<u8> {
    match endianness() {
        Endian::Little => le,
        Endian::Big => le.reverse(),
    }
}

/// `value.to_ne_bytes()` for an `i32`.
pub open spec fn ne_bytes_i32(value: i32) -> Seq<u8> {
    native_order(spec_u32_to_le_bytes(value as u32))
}

/// `value.to_ne_bytes()` for a `u64`.
pub open spec fn ne_bytes_u64(value: u64) -> Seq<u8> {
    native_order(spec_u64_to_le_bytes(value))
}

/// `value.to_ne_bytes()` for an `i64`.
pub open spec fn ne_bytes_i64(value: i64) -> Seq<u8> {
    native_order(spec_u64_to_le_bytes(value as u64))
}

/// Putting bytes in the machine's order loses nothing.
pub proof fn lemma_native_order_injective(a: Seq<u8>, b: Seq<u8>)
    requires
        native_order(a) == native_order(b),
    ensures
        a == b,
{
    if endianness() is Big {
        let ra = a.reverse();
        let rb = b.reverse();
        assert(a.len() == ra.len() && b.len() == rb.len());
        assert forall|i: int| 0 <= i < a.len() implies a[i] == b[i] by {
            assert(ra[a.len() - 1 - i] == a[i]);
            assert(rb[b.len() - 1 - i] == b[i]);
        }
        assert(a =~= b);
    }
}

/// Different numbers have different bytes.
pub proof fn lemma_ne_bytes_injective()
    ensures
        forall|x: i32, y: i32| #[trigger] ne_bytes_i32(x) == #[trigger] ne_bytes_i32(y) ==> x == y,
        forall|x: u64, y: u64| #[trigger] ne_bytes_u64(x) == #[trigger] ne_bytes_u64(y) ==> x == y,
        forall|x: i64, y: i64| #[trigger] ne_bytes_i64(x) == #[trigger] ne_bytes_i64(y) ==> x == y,
{
    lemma_auto_spec_u32_to_from_le_bytes();
    lemma_auto_spec_u64_to_from_le_bytes();
    assert forall|x: i32, y: i32| #[trigger] ne_bytes_i32(x) == #[trigger] ne_bytes_i32(y) implies x == y by {
        lemma_native_order_injective(spec_u32_to_le_bytes(x as u32), spec_u32_to_le_bytes(y as u32));
        assert(spec_u32_to_le_bytes(x as u32) == spec_u32_to_le_bytes(y as u32));
        assert(x as u32 == y as u32);
        assert(x as u32 == y as u32 ==> x == y) by (bit_vector);
    }
    assert forall|x: u64, y: u64| #[trigger] ne_bytes_u64(x) == #[trigger] ne_bytes_u64(y) implies x == y by {
        lemma_native_order_injective(spec_u64_to_le_bytes(x), spec_u64_to_le_bytes(y));
    }
    assert forall|x: i64, y: i64| #[trigger] ne_bytes_i64(x) == #[trigger] ne_bytes_i64(y) implies x == y by {
        lemma_native_order_injective(spec_u64_to_le_bytes(x as u64), spec_u64_to_le_bytes(y as u64));
        assert(spec_u64_to_le_bytes(x as u64) == spec_u64_to_le_bytes(y as u64));
        assert(x as u64 == y as u64);
        assert(x as u64 == y as u64 ==> x == y) by (bit_vector);
    }
}

/// `hasher.write_i32(value)`. `Hasher`'s provided `write_i32` is
/// `self.write(&value.to_ne_bytes())`, and `DefaultHasher` overrides only
/// `write`, `write_str` and `finish`: so, in vstd's model of the hasher as
/// the pieces written to it, one more piece is written, the four bytes of
/// `value` in the machine's byte order.
#[verifier::external_body]
pub(crate) fn hasher_write_i32(hasher: &mut std::hash::DefaultHasher, value: i32)
    ensures
        final(hasher)@ == old(hasher)@.push(ne_bytes_i32(value)),
{
    hasher.write_i32(value)
}

/// `hasher.write_u64(value)`: as for [`hasher_write_i32`], one more piece is
/// written, the eight bytes of `value` in the machine's byte order.
#[verifier::external_body]
pub(crate) fn hasher_write_u64(hasher: &mut std::hash::DefaultHasher, value: u64)
    ensures
        final(hasher)@ == old(hasher)@.push(ne_bytes_u64(value)),
{
    hasher.write_u64(value)
}

/// `hasher.write_i64(value)`: as for [`hasher_write_i32`], one more piece is
/// written, the eight bytes of `value` in the machine's byte order.
#[verifier::external_body]
pub(crate) fn hasher_write_i64(hasher: &mut std::hash::DefaultHasher, value: i64)
    ensures
        final(hasher)@ == old(hasher)@.push(ne_bytes_i64(value)),
{
    hasher.write_i64(value)
}

} // verus!
