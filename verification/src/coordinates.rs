//! Integer grid coordinates with a stable positional hash.

use vstd::prelude::*;

verus! {

use std::collections::hash_map::DefaultHasher;
use std::hash::Hasher;
use vstd::std_specs::hash::DefaultHasherAdditionalSpecFns;

/// Coordinates are kept within this magnitude so that squared distances fit
/// in a machine word.
pub const MAX_COORDINATE: i64 = 1_000_000_000;

/// The eight bytes of a `u64`, least significant first: the order in which
/// the standard hasher absorbs an integer on this target.
pub open spec fn u64_le_bytes(x: u64) -> Seq<u8> {
    seq![
        (x & 0xff) as u8,
        ((x >> 8) & 0xff) as u8,
        ((x >> 16) & 0xff) as u8,
        ((x >> 24) & 0xff) as u8,
        ((x >> 32) & 0xff) as u8,
        ((x >> 40) & 0xff) as u8,
        ((x >> 48) & 0xff) as u8,
        ((x >> 56) & 0xff) as u8,
    ]
}

/// The sixteen bytes of a `u128`, least significant first.
pub open spec fn u128_le_bytes(x: u128) -> Seq<u8> {
    seq![
        (x & 0xff) as u8,
        ((x >> 8) & 0xff) as u8,
        ((x >> 16) & 0xff) as u8,
        ((x >> 24) & 0xff) as u8,
        ((x >> 32) & 0xff) as u8,
        ((x >> 40) & 0xff) as u8,
        ((x >> 48) & 0xff) as u8,
        ((x >> 56) & 0xff) as u8,
        ((x >> 64) & 0xff) as u8,
        ((x >> 72) & 0xff) as u8,
        ((x >> 80) & 0xff) as u8,
        ((x >> 88) & 0xff) as u8,
        ((x >> 96) & 0xff) as u8,
        ((x >> 104) & 0xff) as u8,
        ((x >> 112) & 0xff) as u8,
        ((x >> 120) & 0xff) as u8,
    ]
}

/// The hash of an `i64`: what the standard default hasher returns when fed
/// the value's two's-complement bytes, least significant first.
pub open spec fn hash_of_i64(value: i64) -> u64 {
    DefaultHasher::spec_finish(seq![u64_le_bytes(value as u64)])
}

/// The hash of an `i128`, by the same rule.
pub open spec fn hash_of_i128(value: i128) -> u64 {
    DefaultHasher::spec_finish(seq![u128_le_bytes(value as u128)])
}

fn calculate_hash_i64(value: i64) -> (r: u64)
    ensures
        r == hash_of_i64(value),
{
    let x: u64 = value as u64;
    assert(x & 0xff < 256 && (x >> 8) & 0xff < 256 && (x >> 16) & 0xff < 256 && (x >> 24) & 0xff
        < 256 && (x >> 32) & 0xff < 256 && (x >> 40) & 0xff < 256 && (x >> 48) & 0xff < 256 && (x
        >> 56) & 0xff < 256) by (bit_vector);
    let bytes: [u8; 8] = [
        (x & 0xff) as u8,
        ((x >> 8) & 0xff) as u8,
        ((x >> 16) & 0xff) as u8,
        ((x >> 24) & 0xff) as u8,
        ((x >> 32) & 0xff) as u8,
        ((x >> 40) & 0xff) as u8,
        ((x >> 48) & 0xff) as u8,
        ((x >> 56) & 0xff) as u8,
    ];
    let mut state = DefaultHasher::new();
    state.write(bytes.as_slice());
    proof {
        assert(bytes@ =~= u64_le_bytes(value as u64));
        assert(state@ =~= seq![u64_le_bytes(value as u64)]);
    }
    state.finish()
}

fn calculate_hash_i128(value: i128) -> (r: u64)
    ensures
        r == hash_of_i128(value),
{
    let x: u128 = value as u128;
    assert(x & 0xff < 256 && (x >> 8) & 0xff < 256 && (x >> 16) & 0xff < 256 && (x >> 24) & 0xff
        < 256 && (x >> 32) & 0xff < 256 && (x >> 40) & 0xff < 256 && (x >> 48) & 0xff < 256 && (x
        >> 56) & 0xff < 256 && (x >> 64) & 0xff < 256 && (x >> 72) & 0xff < 256 && (x >> 80)
        & 0xff < 256 && (x >> 88) & 0xff < 256 && (x >> 96) & 0xff < 256 && (x >> 104) & 0xff
        < 256 && (x >> 112) & 0xff < 256 && (x >> 120) & 0xff < 256) by (bit_vector);
    let bytes: [u8; 16] = [
        (x & 0xff) as u8,
        ((x >> 8) & 0xff) as u8,
        ((x >> 16) & 0xff) as u8,
        ((x >> 24) & 0xff) as u8,
        ((x >> 32) & 0xff) as u8,
        ((x >> 40) & 0xff) as u8,
        ((x >> 48) & 0xff) as u8,
        ((x >> 56) & 0xff) as u8,
        ((x >> 64) & 0xff) as u8,
        ((x >> 72) & 0xff) as u8,
        ((x >> 80) & 0xff) as u8,
        ((x >> 88) & 0xff) as u8,
        ((x >> 96) & 0xff) as u8,
        ((x >> 104) & 0xff) as u8,
        ((x >> 112) & 0xff) as u8,
        ((x >> 120) & 0xff) as u8,
    ];
    let mut state = DefaultHasher::new();
    state.write(bytes.as_slice());
    proof {
        assert(bytes@ =~= u128_le_bytes(value as u128));
        assert(state@ =~= seq![u128_le_bytes(value as u128)]);
    }
    state.finish()
}

/// The positional hash: each coordinate is offset by a different small
/// constant and hashed, the three hashes are summed, and the sum is hashed
/// once more.
pub open spec fn generate_hash_spec(x: i64, y: i64, z: i64) -> u64 {
    hash_of_i128(
        (hash_of_i64((x + 1) as i64) + hash_of_i64((y + 2) as i64) + hash_of_i64(
            (z + 3) as i64,
        )) as i128,
    )
}

fn generate_hash(x: i64, y: i64, z: i64) -> (r: u64)
    requires
        x < i64::MAX,
        y < i64::MAX - 1,
        z < i64::MAX - 2,
    ensures
        r == generate_hash_spec(x, y, z),
{
    let h_x = calculate_hash_i64(x + 1);
    let h_y = calculate_hash_i64(y + 2);
    let h_z = calculate_hash_i64(z + 3);
    let mut res: i128 = h_x as i128;
    res = res + h_y as i128;
    res = res + h_z as i128;
    calculate_hash_i128(res)
}

/// A point on the model's integer grid, carrying a stable hash of its
/// position.
#[derive(Clone, Copy, Debug)]
pub struct Coordinates {
    pub x: i64,
    pub y: i64,
    pub z: i64,
    pub hash: u64,
}

impl Coordinates {
    pub fn new(x: i64, y: i64, z: i64) -> (r: Coordinates)
        requires
            x < i64::MAX,
            y < i64::MAX - 1,
            z < i64::MAX - 2,
        ensures
            r.x == x,
            r.y == y,
            r.z == z,
            r.hash == generate_hash_spec(x, y, z),
    {
        let h = generate_hash(x, y, z);
        Coordinates { x, y, z, hash: h }
    }

    /// The squared Euclidean distance between two coordinates.  The square
    /// root that turns this into the distance itself is left to the caller.
    pub fn distance_squared(
        coordinates_alpha: &Coordinates,
        coordinates_beta: &Coordinates,
    ) -> (d: u64)
        requires
            -MAX_COORDINATE <= coordinates_alpha.x <= MAX_COORDINATE,
            -MAX_COORDINATE <= coordinates_alpha.y <= MAX_COORDINATE,
            -MAX_COORDINATE <= coordinates_alpha.z <= MAX_COORDINATE,
            -MAX_COORDINATE <= coordinates_beta.x <= MAX_COORDINATE,
            -MAX_COORDINATE <= coordinates_beta.y <= MAX_COORDINATE,
            -MAX_COORDINATE <= coordinates_beta.z <= MAX_COORDINATE,
        ensures
            d == (coordinates_alpha.x - coordinates_beta.x) * (coordinates_alpha.x
                - coordinates_beta.x) + (coordinates_alpha.y - coordinates_beta.y) * (
            coordinates_alpha.y - coordinates_beta.y) + (coordinates_alpha.z
                - coordinates_beta.z) * (coordinates_alpha.z - coordinates_beta.z),
    {
        let dx: i128 = coordinates_alpha.x as i128 - coordinates_beta.x as i128;
        let dy: i128 = coordinates_alpha.y as i128 - coordinates_beta.y as i128;
        let dz: i128 = coordinates_alpha.z as i128 - coordinates_beta.z as i128;
        assert(0 <= dx * dx <= 4_000_000_000_000_000_000) by (nonlinear_arith)
            requires -2_000_000_000 <= dx <= 2_000_000_000;
        assert(0 <= dy * dy <= 4_000_000_000_000_000_000) by (nonlinear_arith)
            requires -2_000_000_000 <= dy <= 2_000_000_000;
        assert(0 <= dz * dz <= 4_000_000_000_000_000_000) by (nonlinear_arith)
            requires -2_000_000_000 <= dz <= 2_000_000_000;
        (dx * dx + dy * dy + dz * dz) as u64
    }
}

impl PartialEq for Coordinates {
    /// Coordinates compare by position alone; the cached hash takes no part.
    fn eq(&self, other: &Coordinates) -> (r: bool) {
        self.x == other.x && self.y == other.y && self.z == other.z
    }
}

impl vstd::std_specs::cmp::PartialEqSpecImpl for Coordinates {
    open spec fn obeys_eq_spec() -> bool {
        true
    }

    open spec fn eq_spec(&self, other: &Coordinates) -> bool {
        self.x == other.x && self.y == other.y && self.z == other.z
    }
}

} // verus!
