//! The host's API description, as read by the generator: per build configuration
//! the byte size of every value kind, the global enumerations (among them the
//! value-kind tags), and per value kind its constructors and methods.
use vstd::prelude::*;

verus! {

/// Byte size of one value kind.
pub struct ClassSize {
    pub name: String,
    pub size: usize,
}

/// The size table of one build configuration.
pub struct ClassSizes {
    pub build_configuration: String,
    pub sizes: Vec<ClassSize>,
}

/// A named, typed argument of a constructor or a method.
pub struct MethodArg {
    pub name: String,
    pub type_: String,
}

/// A constructor of a value kind; `index` is its position in the host's table.
pub struct Constructor {
    pub index: usize,
    pub arguments: Option<Vec<MethodArg>>,
}

/// A method of a value kind. `hash` pins the method's signature version.
pub struct BuiltinMethod {
    pub name: String,
    pub hash: u32,
    pub is_vararg: bool,
    pub arguments: Option<Vec<MethodArg>>,
}

/// A value kind of the host with its operations.
pub struct BuiltinClass {
    pub name: String,
    pub has_destructor: bool,
    pub constructors: Vec<Constructor>,
    pub methods: Option<Vec<BuiltinMethod>>,
}

/// One enumerator of a global enumeration.
pub struct EnumValue {
    pub name: String,
    pub value: i32,
}

/// A global enumeration of the host.
pub struct GlobalEnum {
    pub name: String,
    pub values: Vec<EnumValue>,
}

/// The whole API description.
pub struct ExtensionApi {
    pub builtin_class_sizes: Vec<ClassSizes>,
    pub builtin_classes: Vec<BuiltinClass>,
    pub global_enums: Vec<GlobalEnum>,
}

} // verus!
