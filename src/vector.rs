//! Integer vector values, marshaled by value.
use crate::ffi::GodotFfi;
use vstd::bytes::{
    lemma_auto_spec_u32_to_from_le_bytes, spec_u32_from_le_bytes, spec_u32_to_le_bytes,
    u32_from_le_bytes, u32_to_le_bytes,
};
use vstd::prelude::*;
use vstd::slice::slice_subrange;

verus! {

/// A 2D vector of 32-bit integers, laid out as `x` then `y`.
#[derive(Clone, Copy, Debug, Default, PartialEq, Eq, Structural)]
pub struct Vector2i {
    pub x: i32,
    pub y: i32,
}

impl Vector2i {
    pub fn new(x: i32, y: i32) -> (r: Vector2i)
        ensures
            r.x == x,
            r.y == y,
    {
        Vector2i { x, y }
    }
}

impl GodotFfi for Vector2i {
    /// Eight bytes: `x` then `y`, each little endian, two's complement.
    open spec fn spec_size() -> nat {
        8
    }

    open spec fn spec_to_sys(&self) -> Seq<u8> {
        spec_u32_to_le_bytes(self.x as u32) + spec_u32_to_le_bytes(self.y as u32)
    }

    open spec fn spec_from_sys(bytes: Seq<u8>) -> Vector2i {
        Vector2i {
            x: spec_u32_from_le_bytes(bytes.subrange(0, 4)) as i32,
            y: spec_u32_from_le_bytes(bytes.subrange(4, 8)) as i32,
        }
    }

    fn sys_size() -> (n: usize) {
        8
    }

    fn to_sys(&self) -> (r: Vec<u8>) {
        proof {
            lemma_auto_spec_u32_to_from_le_bytes();
        }
        let mut r = u32_to_le_bytes(self.x as u32);
        let mut tail = u32_to_le_bytes(self.y as u32);
        r.append(&mut tail);
        r
    }

    fn from_sys(bytes: &[u8]) -> (r: Vector2i) {
        let x = u32_from_le_bytes(slice_subrange(bytes, 0, 4)) as i32;
        let y = u32_from_le_bytes(slice_subrange(bytes, 4, 8)) as i32;
        Vector2i { x, y }
    }

    proof fn lemma_round_trip(v: Vector2i) {
        lemma_auto_spec_u32_to_from_le_bytes();
        let a = spec_u32_to_le_bytes(v.x as u32);
        let b = spec_u32_to_le_bytes(v.y as u32);
        assert((a + b).subrange(0, 4) =~= a);
        assert((a + b).subrange(4, 8) =~= b);
        let x = v.x;
        let y = v.y;
        assert((x as u32) as i32 == x) by (bit_vector);
        assert((y as u32) as i32 == y) by (bit_vector);
    }
}

} // verus!
