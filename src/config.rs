//! Build configurations: pointer width and floating-point precision.
use vstd::prelude::*;

verus! {

/// One point of the build-configuration axis (precision of `real` x pointer width).
#[derive(Clone, Copy, Debug, PartialEq, Eq, Structural)]
pub enum BuildConfig {
    Float32,
    Float64,
    Double32,
    Double64,
}

/// Size in bytes of a variant under single precision.
pub const VARIANT_SIZE_SINGLE: usize = 24;

/// Size in bytes of a variant under double precision.
pub const VARIANT_SIZE_DOUBLE: usize = 40;

impl BuildConfig {
    pub open spec fn spec_is_double(self) -> bool {
        self is Double32 || self is Double64
    }

    pub open spec fn spec_variant_size(self) -> usize {
        if self.spec_is_double() {
            VARIANT_SIZE_DOUBLE
        } else {
            VARIANT_SIZE_SINGLE
        }
    }

    /// The name under which the API description lists this configuration's sizes.
    pub open spec fn spec_name(self) -> Seq<char> {
        match self {
            BuildConfig::Float32 => "float_32"@,
            BuildConfig::Float64 => "float_64"@,
            BuildConfig::Double32 => "double_32"@,
            BuildConfig::Double64 => "double_64"@,
        }
    }

    /// The name under which the API description lists this configuration's sizes.
    pub fn name(self) -> (r: String)
        ensures
            r@ == self.spec_name(),
    {
        match self {
            BuildConfig::Float32 => String::from_str("float_32"),
            BuildConfig::Float64 => String::from_str("float_64"),
            BuildConfig::Double32 => String::from_str("double_32"),
            BuildConfig::Double64 => String::from_str("double_64"),
        }
    }

    /// Whether `real` is a 64-bit float in this configuration.
    pub fn is_double(self) -> (r: bool)
        ensures
            r == self.spec_is_double(),
    {
        match self {
            BuildConfig::Double32 | BuildConfig::Double64 => true,
            _ => false,
        }
    }

    /// Byte size of the variant buffer in this configuration.
    pub fn variant_size(self) -> (r: usize)
        ensures
            r == self.spec_variant_size(),
    {
        if self.is_double() {
            VARIANT_SIZE_DOUBLE
        } else {
            VARIANT_SIZE_SINGLE
        }
    }
}

} // verus!
