//! The protocol that moves a value to and from a host memory location: a value
//! occupies a fixed number of bytes there, is written into such a location, and
//! is read back from one.
use vstd::bytes::{
    lemma_auto_spec_u32_to_from_le_bytes, lemma_auto_spec_u64_to_from_le_bytes,
    spec_u32_from_le_bytes, spec_u32_to_le_bytes, spec_u64_from_le_bytes, spec_u64_to_le_bytes,
    u32_from_le_bytes, u32_to_le_bytes, u64_from_le_bytes, u64_to_le_bytes,
};
use vstd::prelude::*;

verus! {

/// A type that can be marshaled by value through a host location.
pub trait GodotFfi: Sized {
    /// The number of bytes a value occupies at a host location.
    spec fn spec_size() -> nat;

    /// The bytes of `self` at a host location.
    spec fn spec_to_sys(&self) -> Seq<u8>;

    /// The value that the bytes at a host location stand for.
    spec fn spec_from_sys(bytes: Seq<u8>) -> Self;

    /// The number of bytes a value occupies at a host location.
    fn sys_size() -> (n: usize)
        ensures
            n == Self::spec_size(),
    ;

    /// The bytes of `self`, as written to a host location.
    fn to_sys(&self) -> (r: Vec<u8>)
        ensures
            r@ == self.spec_to_sys(),
            r@.len() == Self::spec_size(),
    ;

    /// Reads a value from the bytes of a host location of the right size.
    fn from_sys(bytes: &[u8]) -> (r: Self)
        requires
            bytes@.len() == Self::spec_size(),
        ensures
            r == Self::spec_from_sys(bytes@),
    ;

    /// Reading back what was written gives the value again.
    proof fn lemma_round_trip(v: Self)
        ensures
            v.spec_to_sys().len() == Self::spec_size(),
            Self::spec_from_sys(v.spec_to_sys()) == v,
    ;
}

/// Writes `v` into a host location of the right size.
pub fn write_sys<T: GodotFfi>(v: &T, dst: &mut Vec<u8>)
    requires
        old(dst)@.len() == T::spec_size(),
    ensures
        final(dst)@ == v.spec_to_sys(),
{
    *dst = v.to_sys();
}

/// Fills a fresh, zeroed host location of the right size through `init`, then
/// reads the value it holds.
pub fn from_sys_init<T: GodotFfi, F: FnOnce(&mut [u8])>(init: F) -> (r: T)
    requires
        forall|b: &mut [u8]| b@.len() == T::spec_size() ==> call_requires(init, (b,)),
        forall|b: &mut [u8]| #[trigger] call_ensures(init, (b,), ()) ==> final(b)@.len() == b@.len(),
    ensures
        exists|b: &mut [u8]| {
            &&& b@.len() == T::spec_size()
            &&& #[trigger] call_ensures(init, (b,), ())
            &&& r == T::spec_from_sys(final(b)@)
        },
{
    let n = T::sys_size();
    let mut storage: Vec<u8> = vec![0u8; n];
    init(storage.as_mut_slice());
    T::from_sys(storage.as_slice())
}

impl GodotFfi for bool {
    /// One byte: 1 for true, 0 for false; any nonzero byte reads as true.
    open spec fn spec_size() -> nat {
        1
    }

    open spec fn spec_to_sys(&self) -> Seq<u8> {
        seq![if *self { 1u8 } else { 0u8 }]
    }

    open spec fn spec_from_sys(bytes: Seq<u8>) -> bool {
        bytes[0] != 0
    }

    fn sys_size() -> (n: usize) {
        1
    }

    fn to_sys(&self) -> (r: Vec<u8>) {
        let b: u8 = if *self { 1 } else { 0 };
        let r = vec![b];
        assert(r@ =~= self.spec_to_sys());
        r
    }

    fn from_sys(bytes: &[u8]) -> (r: bool) {
        bytes[0] != 0
    }

    proof fn lemma_round_trip(v: bool) {
    }
}

impl GodotFfi for i64 {
    /// Eight bytes, little endian, two's complement.
    open spec fn spec_size() -> nat {
        8
    }

    open spec fn spec_to_sys(&self) -> Seq<u8> {
        spec_u64_to_le_bytes(*self as u64)
    }

    open spec fn spec_from_sys(bytes: Seq<u8>) -> i64 {
        spec_u64_from_le_bytes(bytes) as i64
    }

    fn sys_size() -> (n: usize) {
        8
    }

    fn to_sys(&self) -> (r: Vec<u8>) {
        proof {
            lemma_auto_spec_u64_to_from_le_bytes();
        }
        u64_to_le_bytes(*self as u64)
    }

    fn from_sys(bytes: &[u8]) -> (r: i64) {
        u64_from_le_bytes(bytes) as i64
    }

    proof fn lemma_round_trip(v: i64) {
        lemma_auto_spec_u64_to_from_le_bytes();
        assert((v as u64) as i64 == v) by (bit_vector);
    }
}

/// An integer width that travels as a 64-bit host integer: widened on the way
/// in, truncated on the way out (the host has no narrower integer kind).
pub trait IntFunnel: Sized + Copy {
    spec fn spec_widen(self) -> i64;

    spec fn spec_narrow(v: i64) -> Self;

    /// The host integer for `self`.
    fn widen(self) -> (r: i64)
        ensures
            r == self.spec_widen(),
    ;

    /// The host integer cut to this width; out-of-range values wrap.
    fn narrow(v: i64) -> (r: Self)
        ensures
            r == Self::spec_narrow(v),
    ;

    /// Narrowing a widened value gives it back.
    proof fn lemma_narrow_widen(x: Self)
        ensures
            Self::spec_narrow(x.spec_widen()) == x,
    ;
}

impl IntFunnel for u8 {
    open spec fn spec_widen(self) -> i64 {
        self as i64
    }

    open spec fn spec_narrow(v: i64) -> u8 {
        v as u8
    }

    fn widen(self) -> (r: i64) {
        self as i64
    }

    fn narrow(v: i64) -> (r: u8) {
        v as u8
    }

    proof fn lemma_narrow_widen(x: u8) {
        assert((x as i64) as u8 == x) by (bit_vector);
    }
}

impl IntFunnel for u16 {
    open spec fn spec_widen(self) -> i64 {
        self as i64
    }

    open spec fn spec_narrow(v: i64) -> u16 {
        v as u16
    }

    fn widen(self) -> (r: i64) {
        self as i64
    }

    fn narrow(v: i64) -> (r: u16) {
        v as u16
    }

    proof fn lemma_narrow_widen(x: u16) {
        assert((x as i64) as u16 == x) by (bit_vector);
    }
}

impl IntFunnel for u32 {
    open spec fn spec_widen(self) -> i64 {
        self as i64
    }

    open spec fn spec_narrow(v: i64) -> u32 {
        v as u32
    }

    fn widen(self) -> (r: i64) {
        self as i64
    }

    fn narrow(v: i64) -> (r: u32) {
        v as u32
    }

    proof fn lemma_narrow_widen(x: u32) {
        assert((x as i64) as u32 == x) by (bit_vector);
    }
}

impl IntFunnel for u64 {
    open spec fn spec_widen(self) -> i64 {
        self as i64
    }

    open spec fn spec_narrow(v: i64) -> u64 {
        v as u64
    }

    fn widen(self) -> (r: i64) {
        self as i64
    }

    fn narrow(v: i64) -> (r: u64) {
        v as u64
    }

    proof fn lemma_narrow_widen(x: u64) {
        assert((x as i64) as u64 == x) by (bit_vector);
    }
}

impl IntFunnel for i8 {
    open spec fn spec_widen(self) -> i64 {
        self as i64
    }

    open spec fn spec_narrow(v: i64) -> i8 {
        v as i8
    }

    fn widen(self) -> (r: i64) {
        self as i64
    }

    fn narrow(v: i64) -> (r: i8) {
        v as i8
    }

    proof fn lemma_narrow_widen(x: i8) {
        assert((x as i64) as i8 == x) by (bit_vector);
    }
}

impl IntFunnel for i16 {
    open spec fn spec_widen(self) -> i64 {
        self as i64
    }

    open spec fn spec_narrow(v: i64) -> i16 {
        v as i16
    }

    fn widen(self) -> (r: i64) {
        self as i64
    }

    fn narrow(v: i64) -> (r: i16) {
        v as i16
    }

    proof fn lemma_narrow_widen(x: i16) {
        assert((x as i64) as i16 == x) by (bit_vector);
    }
}

impl IntFunnel for i32 {
    open spec fn spec_widen(self) -> i64 {
        self as i64
    }

    open spec fn spec_narrow(v: i64) -> i32 {
        v as i32
    }

    fn widen(self) -> (r: i64) {
        self as i64
    }

    fn narrow(v: i64) -> (r: i32) {
        v as i32
    }

    proof fn lemma_narrow_widen(x: i32) {
        assert((x as i64) as i32 == x) by (bit_vector);
    }
}

/// An integer of any supported width, handed to the host as a 64-bit integer
/// and read back from the host's bytes, comes back unchanged.
pub proof fn lemma_int_round_trip<T: IntFunnel>(x: T)
    ensures
        T::spec_narrow(<i64 as GodotFfi>::spec_from_sys(x.spec_widen().spec_to_sys())) == x,
{
    <i64 as GodotFfi>::lemma_round_trip(x.spec_widen());
    T::lemma_narrow_widen(x);
}

} // verus!
