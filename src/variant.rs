//! The variant: a fixed-size buffer that can hold any host value, sized by the
//! build configuration, and the lookup of its per-kind converters.
use crate::cache::InterfaceCache;
use crate::config::BuildConfig;
use crate::names::str_concat;
use vstd::prelude::*;

verus! {

/// A host value of any kind, as the host lays it out.
pub struct Variant {
    config: BuildConfig,
    bytes: Vec<u8>,
}

impl View for Variant {
    type V = Seq<u8>;

    closed spec fn view(&self) -> Seq<u8> {
        self.bytes@
    }
}

impl Variant {
    pub closed spec fn spec_config(&self) -> BuildConfig {
        self.config
    }

    /// The buffer has the variant size of its configuration.
    pub open spec fn wf(&self) -> bool {
        self@.len() == self.spec_config().spec_variant_size()
    }

    /// Storage for a variant of configuration `config`, zeroed, awaiting a host
    /// constructor.
    pub fn uninit(config: BuildConfig) -> (r: Variant)
        ensures
            r.wf(),
            r.spec_config() == config,
            r@ == Seq::new(config.spec_variant_size() as nat, |i: int| 0u8),
    {
        let n = config.variant_size();
        let r = Variant { config, bytes: vec![0u8; n] };
        assert(r@ =~= Seq::new(config.spec_variant_size() as nat, |i: int| 0u8));
        r
    }

    /// Storage for a variant of the configuration that `cache` was built for.
    pub fn uninit_for(cache: &InterfaceCache) -> (r: Variant)
        ensures
            r.wf(),
            r.spec_config() == cache.spec_config(),
            r.matches(cache),
    {
        Variant::uninit(cache.config())
    }

    /// Whether the variant and the cache belong to the same build configuration.
    pub open spec fn matches(&self, cache: &InterfaceCache) -> bool {
        self.spec_config() == cache.spec_config()
    }

    /// Whether the variant may be handed to the functions of `cache`.
    pub fn matches_cache(&self, cache: &InterfaceCache) -> (r: bool)
        ensures
            r == self.matches(cache),
    {
        self.config == cache.config()
    }

    /// The build configuration of the variant.
    pub fn config(&self) -> (r: BuildConfig)
        ensures
            r == self.spec_config(),
    {
        self.config
    }

    /// The number of bytes.
    pub fn size(&self) -> (n: usize)
        ensures
            n == self@.len(),
    {
        self.bytes.len()
    }

    /// The bytes, for a host call that reads them.
    pub fn as_bytes(&self) -> (r: &[u8])
        ensures
            r@ == self@,
    {
        self.bytes.as_slice()
    }

    /// The bytes, for a host call that writes them.
    pub fn as_bytes_mut(&mut self) -> (r: &mut [u8])
        ensures
            r@ == old(self)@,
            final(self).spec_config() == old(self).spec_config(),
            final(self)@ == final(r)@,
    {
        self.bytes.as_mut_slice()
    }

    /// A variant whose bytes are those of a host location.
    pub fn clone_from_sys(config: BuildConfig, src: &[u8]) -> (r: Variant)
        requires
            src@.len() == config.spec_variant_size(),
        ensures
            r.wf(),
            r.spec_config() == config,
            r@ == src@,
    {
        let mut bytes: Vec<u8> = Vec::new();
        let mut i: usize = 0;
        while i < src.len()
            invariant
                i <= src@.len(),
                bytes@ == src@.subrange(0, i as int),
            decreases src@.len() - i,
        {
            bytes.push(src[i]);
            assert(bytes@ =~= src@.subrange(0, i + 1));
            i = i + 1;
        }
        assert(bytes@ =~= src@);
        Variant { config, bytes }
    }

    /// Copies the bytes of the variant to a host location of its size.
    pub fn clone_into_sys(&self, dst: &mut [u8])
        requires
            old(dst)@.len() == self@.len(),
        ensures
            final(dst)@ == self@,
    {
        let n = self.bytes.len();
        let mut i: usize = 0;
        while i < n
            invariant
                n == self@.len(),
                i <= n,
                dst@.len() == n,
                dst@.subrange(0, i as int) == self@.subrange(0, i as int),
            decreases n - i,
        {
            dst[i] = self.bytes[i];
            assert(dst@.subrange(0, i + 1) =~= self@.subrange(0, i + 1));
            i = i + 1;
        }
        assert(dst@ =~= dst@.subrange(0, n as int));
        assert(self@ =~= self@.subrange(0, n as int));
    }
}

/// The name of the cache field that turns a value of kind `kind` into a variant.
pub open spec fn to_variant_ident(kind: Seq<char>) -> Seq<char> {
    kind + "_to_variant"@
}

/// The name of the cache field that turns a variant into a value of kind `kind`.
pub open spec fn from_variant_ident(kind: Seq<char>) -> Seq<char> {
    kind + "_from_variant"@
}

/// The host function that writes a value of kind `kind` (snake case) into a variant.
pub fn from_type_converter(cache: &InterfaceCache, kind: &str) -> (r: Option<usize>)
    requires
        cache.wf(),
    ensures
        cache.names_function(to_variant_ident(kind@), r),
{
    let ident = str_concat(kind, "_to_variant");
    cache.get(ident.as_str())
}

/// The host function that reads a value of kind `kind` (snake case) out of a variant.
pub fn to_type_converter(cache: &InterfaceCache, kind: &str) -> (r: Option<usize>)
    requires
        cache.wf(),
    ensures
        cache.names_function(from_variant_ident(kind@), r),
{
    let ident = str_concat(kind, "_from_variant");
    cache.get(ident.as_str())
}

} // verus!
