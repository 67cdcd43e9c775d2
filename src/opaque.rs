//! Opaque value storage: a fixed number of bytes whose layout only the host knows.
use crate::ffi::GodotFfi;
use vstd::prelude::*;

verus! {

/// `N` bytes of host-defined layout, standing in for one host value.
pub struct Opaque<const N: usize> {
    bytes: [u8; N],
}

impl<const N: usize> View for Opaque<N> {
    type V = Seq<u8>;

    closed spec fn view(&self) -> Seq<u8> {
        self.bytes@
    }
}

impl<const N: usize> Opaque<N> {
    /// The buffer occupies exactly `N` bytes.
    pub broadcast proof fn lemma_size(o: Opaque<N>)
        ensures
            #[trigger] o@.len() == N,
    {
    }

    /// Storage with every byte zero, not yet constructed by the host.
    pub fn zeroed() -> (r: Opaque<N>)
        ensures
            r@ == Seq::new(N as nat, |i: int| 0u8),
    {
        let r = Opaque { bytes: [0u8; N] };
        assert(r@ =~= Seq::new(N as nat, |i: int| 0u8));
        r
    }

    /// Hands fresh storage to `init`, the host constructor, and returns it as the
    /// constructed value.
    pub fn with_init<F: FnOnce(&mut [u8])>(init: F) -> (r: Opaque<N>)
        requires
            forall|b: &mut [u8]| b@.len() == N ==> call_requires(init, (b,)),
        ensures
            r@.len() == N,
            exists|b: &mut [u8]| {
                &&& b@ == Seq::new(N as nat, |i: int| 0u8)
                &&& #[trigger] call_ensures(init, (b,), ())
                &&& r@ == final(b)@
            },
    {
        let mut r = Opaque::<N>::zeroed();
        init(&mut r.bytes);
        r
    }

    /// The number of bytes.
    pub fn size(&self) -> (n: usize)
        ensures
            n == N,
            n == self@.len(),
    {
        N
    }

    /// The bytes, for a host call that reads them.
    pub fn as_bytes(&self) -> (r: &[u8])
        ensures
            r@ == self@,
    {
        self.bytes.as_slice()
    }

    /// The bytes, for a host call that writes them.
    pub fn as_bytes_mut(&mut self) -> (r: &mut [u8])
        ensures
            r@ == old(self)@,
            final(r)@.len() == N ==> final(self)@ == final(r)@,
    {
        &mut self.bytes
    }
}

impl<const N: usize> GodotFfi for Opaque<N> {
    /// The `N` bytes, copied as they are.
    open spec fn spec_size() -> nat {
        N as nat
    }

    closed spec fn spec_to_sys(&self) -> Seq<u8> {
        self.bytes@
    }

    closed spec fn spec_from_sys(bytes: Seq<u8>) -> Opaque<N> {
        Opaque { bytes: choose|a: [u8; N]| a@ == bytes }
    }

    fn sys_size() -> (n: usize) {
        N
    }

    fn to_sys(&self) -> (r: Vec<u8>) {
        let mut r: Vec<u8> = Vec::new();
        let mut i: usize = 0;
        while i < N
            invariant
                i <= N,
                self.bytes@.len() == N,
                r@ == self.bytes@.subrange(0, i as int),
            decreases N - i,
        {
            r.push(self.bytes[i]);
            assert(r@ =~= self.bytes@.subrange(0, i + 1));
            i = i + 1;
        }
        assert(r@ =~= self.bytes@);
        r
    }

    fn from_sys(bytes: &[u8]) -> (r: Opaque<N>) {
        let mut r = Opaque::<N>::zeroed();
        let mut i: usize = 0;
        while i < N
            invariant
                i <= N,
                bytes@.len() == N,
                r.bytes@.len() == N,
                r.bytes@.subrange(0, i as int) == bytes@.subrange(0, i as int),
            decreases N - i,
        {
            r.bytes[i] = bytes[i];
            assert(r.bytes@.subrange(0, i + 1) =~= bytes@.subrange(0, i + 1));
            i = i + 1;
        }
        assert(r.bytes@.subrange(0, N as int) =~= r.bytes@);
        assert(bytes@.subrange(0, N as int) =~= bytes@);
        proof {
            lemma_array_view_injective(r.bytes, Self::spec_from_sys(bytes@).bytes);
        }
        r
    }

    proof fn lemma_round_trip(v: Opaque<N>) {
        let a = v.bytes;
        lemma_array_view_injective(a, Self::spec_from_sys(a@).bytes);
    }
}

proof fn lemma_array_view_injective<const N: usize>(a: [u8; N], b: [u8; N])
    requires
        a@ == b@,
    ensures
        a == b,
{
    assert(a =~= b);
}

} // verus!
