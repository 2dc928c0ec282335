//! Integer hashing through the standard library's default hasher.

use vstd::prelude::*;

verus! {

use std::collections::hash_map::DefaultHasher;
use std::hash::Hasher;
use vstd::std_specs::hash::DefaultHasherAdditionalSpecFns;

/// The four bytes of a `u32`, least significant first: the order in which
/// the standard hasher absorbs an integer on this target.
pub open spec fn u32_le_bytes(x: u32) -> Seq<u8> {
    seq![
        (x & 0xff) as u8,
        ((x >> 8) & 0xff) as u8,
        ((x >> 16) & 0xff) as u8,
        ((x >> 24) & 0xff) as u8,
    ]
}

/// The hash of a `u32`: what the standard default hasher returns when fed
/// the value's bytes, least significant first.
pub open spec fn hash_of_u32(x: u32) -> u64 {
    DefaultHasher::spec_finish(seq![u32_le_bytes(x)])
}

pub fn hash_int(num: u32) -> (r: u64)
    ensures
        r == hash_of_u32(num),
{
    assert(num & 0xff < 256 && (num >> 8) & 0xff < 256 && (num >> 16) & 0xff < 256 && (num >> 24)
        & 0xff < 256) by (bit_vector);
    let bytes: [u8; 4] = [
        (num & 0xff) as u8,
        ((num >> 8) & 0xff) as u8,
        ((num >> 16) & 0xff) as u8,
        ((num >> 24) & 0xff) as u8,
    ];
    let mut state = DefaultHasher::new();
    state.write(bytes.as_slice());
    proof {
        assert(bytes@ =~= u32_le_bytes(num));
        assert(state@ =~= seq![u32_le_bytes(num)]);
    }
    state.finish()
}

/// Split a `u32` into its four bytes, most significant first.
pub fn transform_u32_to_array_of_u8(x: u32) -> (r: [u8; 4])
    ensures
        r@.len() == 4,
        r@[0] == ((x >> 24) & 0xff) as u8,
        r@[1] == ((x >> 16) & 0xff) as u8,
        r@[2] == ((x >> 8) & 0xff) as u8,
        r@[3] == (x & 0xff) as u8,
        (((x >> 24) & 0xff) << 24) | (((x >> 16) & 0xff) << 16) | (((x >> 8) & 0xff) << 8) | (x
            & 0xff) == x,
{
    assert((x >> 24) & 0xff < 256 && (x >> 16) & 0xff < 256 && (x >> 8) & 0xff < 256 && x & 0xff
        < 256) by (bit_vector);
    let b1: u8 = ((x >> 24) & 0xff) as u8;
    let b2: u8 = ((x >> 16) & 0xff) as u8;
    let b3: u8 = ((x >> 8) & 0xff) as u8;
    let b4: u8 = (x & 0xff) as u8;
    assert((((x >> 24) & 0xff) << 24) | (((x >> 16) & 0xff) << 16) | (((x >> 8) & 0xff) << 8) | (
    x & 0xff) == x) by (bit_vector);
    [b1, b2, b3, b4]
}

} // verus!
