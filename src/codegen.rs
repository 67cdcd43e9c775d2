//! The generator: from the API description and a build configuration, the
//! opaque-type table, the value-kind enumerators, and the fields of the interface
//! cache with the host lookup that resolves each.
use crate::api::{BuiltinClass, BuiltinMethod, ClassSize, ClassSizes, Constructor, EnumValue, ExtensionApi, GlobalEnum, MethodArg};
use crate::names::{
    str_concat, has_prefix, lower_of, remove_underscores, snake_case_of, str_eq, strip_prefix,
    to_lowercase, to_snake_case, to_uppercase, upper_of, without_underscores,
};
use vstd::prelude::*;

verus! {

/// How the host resolves one cache field.
pub enum Lookup {
    /// `get_variant_from_type_constructor(kind)`: a value into a variant.
    FromTypeConstructor,
    /// `get_variant_to_type_constructor(kind)`: a variant into a value.
    ToTypeConstructor,
    /// `variant_get_ptr_constructor(kind, index)`.
    Constructor { index: usize },
    /// `variant_get_ptr_destructor(kind)`.
    Destructor,
    /// `variant_get_ptr_builtin_method(kind, name, hash)`.
    BuiltinMethod { name: String, hash: u32 },
}

/// The mathematical form of a `Lookup`.
pub enum LookupSpec {
    FromTypeConstructor,
    ToTypeConstructor,
    Constructor { index: nat },
    Destructor,
    BuiltinMethod { name: Seq<char>, hash: u32 },
}

impl View for Lookup {
    type V = LookupSpec;

    open spec fn view(&self) -> LookupSpec {
        match self {
            Lookup::FromTypeConstructor => LookupSpec::FromTypeConstructor,
            Lookup::ToTypeConstructor => LookupSpec::ToTypeConstructor,
            Lookup::Constructor { index } => LookupSpec::Constructor { index: *index as nat },
            Lookup::Destructor => LookupSpec::Destructor,
            Lookup::BuiltinMethod { name, hash } => LookupSpec::BuiltinMethod {
                name: name@,
                hash: *hash,
            },
        }
    }
}

/// One field of the interface cache: its name, the host's constant for its value
/// kind, and how it is resolved.
pub struct CacheField {
    pub ident: String,
    pub sys_variant_type: String,
    pub variant_tag: i32,
    pub lookup: Lookup,
}

/// The mathematical form of a `CacheField`.
pub struct FieldSpec {
    pub ident: Seq<char>,
    pub sys_variant_type: Seq<char>,
    pub variant_tag: i32,
    pub lookup: LookupSpec,
}

impl View for CacheField {
    type V = FieldSpec;

    open spec fn view(&self) -> FieldSpec {
        FieldSpec {
            ident: self.ident@,
            sys_variant_type: self.sys_variant_type@,
            variant_tag: self.variant_tag,
            lookup: self.lookup@,
        }
    }
}

/// The mathematical form of a list of fields.
pub open spec fn fields_view(v: Seq<CacheField>) -> Seq<FieldSpec> {
    v.map_values(|f: CacheField| f@)
}

/// The spellings of one value kind's name.
pub struct TypeNames {
    /// "PackedVector2Array"
    pub pascal_case: String,
    /// "packed_vector2_array"
    pub snake_case: String,
    /// "PACKED_VECTOR2_ARRAY"
    pub shout_case: String,
    /// "GDNativeVariantType_GDNATIVE_VARIANT_TYPE_PACKED_VECTOR2_ARRAY"
    pub sys_variant_type: String,
    /// The kind's value in the host's value-kind enumeration.
    pub variant_tag: i32,
}

/// The mathematical form of `TypeNames`.
pub struct TypeNamesSpec {
    pub pascal_case: Seq<char>,
    pub snake_case: Seq<char>,
    pub shout_case: Seq<char>,
    pub sys_variant_type: Seq<char>,
    pub variant_tag: i32,
}

impl View for TypeNames {
    type V = TypeNamesSpec;

    open spec fn view(&self) -> TypeNamesSpec {
        TypeNamesSpec {
            pascal_case: self.pascal_case@,
            snake_case: self.snake_case@,
            shout_case: self.shout_case@,
            sys_variant_type: self.sys_variant_type@,
            variant_tag: self.variant_tag,
        }
    }
}

/// What makes a generation fail.
pub enum GenError {
    /// A size table entry with an empty name.
    EmptyTypeName,
    /// A value-kind enumerator whose name does not start with `TYPE_`.
    MissingTypePrefix { name: String },
    /// A value-kind enumerator that matches no described value kind, and is not `OBJECT`.
    UnknownVariantType { name: String },
    /// Constructors not listed at their own index.
    ConstructorOrder { kind: String },
    /// No constructor at index 0, or one that takes arguments.
    DefaultConstructor { kind: String },
    /// No constructor at index 1, or one that does not take exactly one `from`
    /// argument of the kind's own type.
    CopyConstructor { kind: String },
}

/// The mathematical form of a `GenError`.
pub enum GenErrorSpec {
    EmptyTypeName,
    MissingTypePrefix { name: Seq<char> },
    UnknownVariantType { name: Seq<char> },
    ConstructorOrder { kind: Seq<char> },
    DefaultConstructor { kind: Seq<char> },
    CopyConstructor { kind: Seq<char> },
}

impl View for GenError {
    type V = GenErrorSpec;

    open spec fn view(&self) -> GenErrorSpec {
        match self {
            GenError::EmptyTypeName => GenErrorSpec::EmptyTypeName,
            GenError::MissingTypePrefix { name } => GenErrorSpec::MissingTypePrefix { name: name@ },
            GenError::UnknownVariantType { name } => GenErrorSpec::UnknownVariantType { name: name@ },
            GenError::ConstructorOrder { kind } => GenErrorSpec::ConstructorOrder { kind: kind@ },
            GenError::DefaultConstructor { kind } => GenErrorSpec::DefaultConstructor { kind: kind@ },
            GenError::CopyConstructor { kind } => GenErrorSpec::CopyConstructor { kind: kind@ },
        }
    }
}

/// The mathematical form of a list of fields or an error.
pub open spec fn fields_result_view(r: Result<Vec<CacheField>, GenError>) -> Result<Seq<FieldSpec>, GenErrorSpec> {
    match r {
        Ok(v) => Ok(fields_view(v@)),
        Err(e) => Err(e@),
    }
}

/// The contents of an optional vector.
pub open spec fn opt_seq<T>(o: Option<&Vec<T>>) -> Option<Seq<T>> {
    match o {
        Some(v) => Some(v@),
        None => None,
    }
}

/// The message with which resolving the field `ident` fails.
pub open spec fn load_error_message(ident: Seq<char>) -> Seq<char> {
    "failed to load GDExtension function `"@ + ident + "`"@
}

/// The field of kind `names` named by its snake-case name and `suffix`.
pub open spec fn field_spec(names: TypeNamesSpec, suffix: Seq<char>, lookup: LookupSpec) -> FieldSpec {
    FieldSpec {
        ident: names.snake_case + suffix,
        sys_variant_type: names.sys_variant_type,
        variant_tag: names.variant_tag,
        lookup,
    }
}

/// The destructor field, where the kind has a destructor.
pub open spec fn spec_destroy_fields(names: TypeNamesSpec, has_destructor: bool) -> Seq<FieldSpec> {
    if has_destructor {
        seq![field_spec(names, "_destroy"@, LookupSpec::Destructor)]
    } else {
        Seq::empty()
    }
}

/// The field of a method.
pub open spec fn method_field(names: TypeNamesSpec, m: BuiltinMethod) -> FieldSpec {
    field_spec(names, "_"@ + m.name@, LookupSpec::BuiltinMethod { name: m.name@, hash: m.hash })
}

/// One field per method that is not vararg, in the order of the methods.
pub open spec fn spec_method_fields(names: TypeNamesSpec, ms: Seq<BuiltinMethod>) -> Seq<FieldSpec>
    decreases ms.len(),
{
    if ms.len() == 0 {
        Seq::empty()
    } else if ms.last().is_vararg {
        spec_method_fields(names, ms.drop_last())
    } else {
        spec_method_fields(names, ms.drop_last()).push(method_field(names, ms.last()))
    }
}

/// The argument names joined by underscores.
pub open spec fn joined_arg_names(args: Seq<MethodArg>) -> Seq<char>
    decreases args.len(),
{
    if args.len() == 0 {
        Seq::empty()
    } else if args.len() == 1 {
        args[0].name@
    } else {
        joined_arg_names(args.drop_last()) + "_"@ + args.last().name@
    }
}

/// Whether `args` is a single argument named `from`.
pub open spec fn is_single_from(args: Seq<MethodArg>) -> bool {
    args.len() == 1 && args[0].name@ == "from"@
}

/// The suffix that names a constructor that takes `args`.
pub open spec fn ctor_suffix(args: Seq<MethodArg>) -> Seq<char> {
    if is_single_from(args) {
        "_from_"@ + snake_case_of(args[0].type_@)
    } else {
        "_from_"@ + joined_arg_names(args)
    }
}

/// The fields of the constructors from index 2 on that list their arguments.
pub open spec fn spec_typed_ctor_fields(names: TypeNamesSpec, cs: Seq<Constructor>) -> Seq<FieldSpec>
    decreases cs.len(),
{
    if cs.len() <= 2 {
        Seq::empty()
    } else {
        let rest = spec_typed_ctor_fields(names, cs.drop_last());
        match cs.last().arguments {
            Some(args) => rest.push(
                field_spec(names, ctor_suffix(args@), LookupSpec::Constructor { index: (cs.len() - 1) as nat }),
            ),
            None => rest,
        }
    }
}

/// Whether every constructor stands at its own index.
pub open spec fn constructors_in_order(cs: Seq<Constructor>) -> bool {
    forall|i: int| 0 <= i < cs.len() ==> #[trigger] cs[i].index == i
}

/// Whether the copy constructor takes exactly one `from` argument of the kind's own type.
pub open spec fn is_copy_constructor(names: TypeNamesSpec, c: Constructor) -> bool {
    match c.arguments {
        Some(args) => is_single_from(args@) && args@[0].type_@ == names.pascal_case,
        None => false,
    }
}

/// The first fault of a constructor list, if any.
pub open spec fn constructor_fault(names: TypeNamesSpec, cs: Seq<Constructor>) -> Option<GenErrorSpec> {
    if !constructors_in_order(cs) {
        Some(GenErrorSpec::ConstructorOrder { kind: names.pascal_case })
    } else if cs.len() < 1 || cs[0].arguments is Some {
        Some(GenErrorSpec::DefaultConstructor { kind: names.pascal_case })
    } else if cs.len() < 2 || !is_copy_constructor(names, cs[1]) {
        Some(GenErrorSpec::CopyConstructor { kind: names.pascal_case })
    } else {
        None
    }
}

/// The constructor fields: default, copy, then the typed ones.
pub open spec fn spec_construct_fields(names: TypeNamesSpec, cs: Option<Seq<Constructor>>) -> Result<Seq<FieldSpec>, GenErrorSpec> {
    match cs {
        None => Ok(Seq::empty()),
        Some(cs) => match constructor_fault(names, cs) {
            Some(e) => Err(e),
            None => Ok(
                seq![
                    field_spec(names, "_construct_default"@, LookupSpec::Constructor { index: 0 }),
                    field_spec(names, "_construct_copy"@, LookupSpec::Constructor { index: 1 }),
                ] + spec_typed_ctor_fields(names, cs),
            ),
        },
    }
}

/// All fields of one value kind: the two variant converters, the constructors,
/// the destructor, the methods.
pub open spec fn spec_variant_fields(
    names: TypeNamesSpec,
    has_destructor: bool,
    methods: Option<Seq<BuiltinMethod>>,
    constructors: Option<Seq<Constructor>>,
) -> Result<Seq<FieldSpec>, GenErrorSpec> {
    match spec_construct_fields(names, constructors) {
        Err(e) => Err(e),
        Ok(ctors) => Ok(
            seq![
                field_spec(names, "_to_variant"@, LookupSpec::FromTypeConstructor),
                field_spec(names, "_from_variant"@, LookupSpec::ToTypeConstructor),
            ] + ctors + spec_destroy_fields(names, has_destructor) + match methods {
                Some(ms) => spec_method_fields(names, ms),
                None => Seq::empty(),
            },
        ),
    }
}

proof fn lemma_fields_view_push(v: Seq<CacheField>, f: CacheField)
    ensures
        fields_view(v.push(f)) == fields_view(v).push(f@),
{
    assert(fields_view(v.push(f)) =~= fields_view(v).push(f@));
}

proof fn lemma_fields_view_concat(a: Seq<CacheField>, b: Seq<CacheField>)
    ensures
        fields_view(a + b) == fields_view(a) + fields_view(b),
{
    assert(fields_view(a + b) =~= fields_view(a) + fields_view(b));
}

/// The message with which resolving the field `ident` fails.
pub fn format_load_error(ident: &str) -> (r: String)
    ensures
        r@ == load_error_message(ident@),
{
    let s = str_concat("failed to load GDExtension function `", ident);
    str_concat(s.as_str(), "`")
}

fn new_field(names: &TypeNames, suffix: &str, lookup: Lookup) -> (f: CacheField)
    ensures
        f@ == field_spec(names@, suffix@, lookup@),
{
    CacheField {
        ident: str_concat(names.snake_case.as_str(), suffix),
        sys_variant_type: names.sys_variant_type.clone(),
        variant_tag: names.variant_tag,
        lookup,
    }
}

/// The destructor field of a kind, where it has a destructor.
pub fn make_destroy_fns(names: &TypeNames, has_destructor: bool) -> (r: Vec<CacheField>)
    ensures
        fields_view(r@) == spec_destroy_fields(names@, has_destructor),
{
    let mut r: Vec<CacheField> = Vec::new();
    if has_destructor {
        r.push(new_field(names, "_destroy", Lookup::Destructor));
        assert(fields_view(r@) =~= spec_destroy_fields(names@, has_destructor));
    } else {
        assert(fields_view(r@) =~= spec_destroy_fields(names@, has_destructor));
    }
    r
}

/// The method fields of a kind; vararg methods get none.
pub fn make_builtin_methods(names: &TypeNames, methods: Option<&Vec<BuiltinMethod>>) -> (r: Vec<CacheField>)
    ensures
        fields_view(r@) == match methods {
            Some(ms) => spec_method_fields(names@, ms@),
            None => Seq::empty(),
        },
{
    let mut r: Vec<CacheField> = Vec::new();
    let ms = match methods {
        Some(ms) => ms,
        None => {
            assert(fields_view(r@) =~= Seq::<FieldSpec>::empty());
            return r;
        },
    };
    let mut i: usize = 0;
    assert(fields_view(r@) =~= Seq::<FieldSpec>::empty());
    while i < ms.len()
        invariant
            i <= ms@.len(),
            fields_view(r@) == spec_method_fields(names@, ms@.subrange(0, i as int)),
        decreases ms@.len() - i,
    {
        let m = &ms[i];
        assert(ms@.subrange(0, i + 1).drop_last() =~= ms@.subrange(0, i as int));
        if !m.is_vararg {
            let suffix = str_concat("_", m.name.as_str());
            let f = new_field(names, suffix.as_str(), Lookup::BuiltinMethod { name: m.name.clone(), hash: m.hash });
            proof {
                lemma_fields_view_push(r@, f);
            }
            r.push(f);
        }
        i = i + 1;
    }
    assert(ms@.subrange(0, ms@.len() as int) =~= ms@);
    r
}

/// The names of the constructor arguments joined by underscores.
fn join_arg_names(args: &Vec<MethodArg>) -> (r: String)
    ensures
        r@ == joined_arg_names(args@),
{
    let mut r = String::new();
    let mut i: usize = 0;
    while i < args.len()
        invariant
            i <= args@.len(),
            r@ == joined_arg_names(args@.subrange(0, i as int)),
        decreases args@.len() - i,
    {
        let ghost sub = args@.subrange(0, i + 1);
        assert(sub.drop_last() =~= args@.subrange(0, i as int));
        if i == 0 {
            r = args[0].name.clone();
        } else {
            let s = str_concat(r.as_str(), "_");
            r = str_concat(s.as_str(), args[i].name.as_str());
        }
        i = i + 1;
    }
    assert(args@.subrange(0, args@.len() as int) =~= args@);
    r
}

/// Whether `args` is a single argument named `from`.
fn single_from(args: &Vec<MethodArg>) -> (r: bool)
    ensures
        r == is_single_from(args@),
{
    args.len() == 1 && str_eq(args[0].name.as_str(), "from")
}

/// The constructor fields of a kind: default, copy, and one per typed constructor
/// that lists its arguments. Fails where the list breaks the positional layout.
pub fn make_construct_fns(names: &TypeNames, constructors: Option<&Vec<Constructor>>) -> (r: Result<Vec<CacheField>, GenError>)
    ensures
        fields_result_view(r) == spec_construct_fields(names@, opt_seq(constructors)),
{
    let cs = match constructors {
        Some(cs) => cs,
        None => {
            let r: Vec<CacheField> = Vec::new();
            assert(fields_view(r@) =~= Seq::<FieldSpec>::empty());
            return Ok(r);
        },
    };
    let mut i: usize = 0;
    while i < cs.len()
        invariant
            i <= cs@.len(),
            constructors == Some(cs),
            forall|j: int| 0 <= j < i ==> #[trigger] cs@[j].index == j,
        decreases cs@.len() - i,
    {
        if cs[i].index != i {
            assert(cs@[i as int].index != i as int);
            return Err(GenError::ConstructorOrder { kind: names.pascal_case.clone() });
        }
        i = i + 1;
    }
    if cs.len() < 1 || cs[0].arguments.is_some() {
        return Err(GenError::DefaultConstructor { kind: names.pascal_case.clone() });
    }
    let copy_ok = cs.len() >= 2 && match &cs[1].arguments {
        Some(args) => single_from(args) && str_eq(args[0].type_.as_str(), names.pascal_case.as_str()),
        None => false,
    };
    if !copy_ok {
        return Err(GenError::CopyConstructor { kind: names.pascal_case.clone() });
    }
    let mut r: Vec<CacheField> = Vec::new();
    r.push(new_field(names, "_construct_default", Lookup::Constructor { index: 0 }));
    r.push(new_field(names, "_construct_copy", Lookup::Constructor { index: 1 }));
    let ghost head = fields_view(r@);
    assert(head =~= seq![
        field_spec(names@, "_construct_default"@, LookupSpec::Constructor { index: 0 }),
        field_spec(names@, "_construct_copy"@, LookupSpec::Constructor { index: 1 }),
    ]);
    let mut k: usize = 2;
    assert(spec_typed_ctor_fields(names@, cs@.subrange(0, 2)) =~= Seq::<FieldSpec>::empty());
    assert(fields_view(r@) =~= head + spec_typed_ctor_fields(names@, cs@.subrange(0, 2)));
    while k < cs.len()
        invariant
            2 <= k <= cs@.len(),
            constructors == Some(cs),
            fields_view(r@) == head + spec_typed_ctor_fields(names@, cs@.subrange(0, k as int)),
        decreases cs@.len() - k,
    {
        let ghost sub = cs@.subrange(0, k + 1);
        assert(sub.drop_last() =~= cs@.subrange(0, k as int));
        match &cs[k].arguments {
            Some(args) => {
                let suffix = if single_from(args) {
                    let snake = to_snake_case(args[0].type_.as_str());
                    str_concat("_from_", snake.as_str())
                } else {
                    let joined = join_arg_names(args);
                    str_concat("_from_", joined.as_str())
                };
                let f = new_field(names, suffix.as_str(), Lookup::Constructor { index: k });
                proof {
                    lemma_fields_view_push(r@, f);
                }
                r.push(f);
                assert(fields_view(r@) =~= head + spec_typed_ctor_fields(names@, sub));
            },
            None => {},
        }
        k = k + 1;
    }
    assert(cs@.subrange(0, cs@.len() as int) =~= cs@);
    Ok(r)
}

/// All fields of one value kind, in the order converters, constructors,
/// destructor, methods.
pub fn make_variant_fns(
    names: &TypeNames,
    has_destructor: bool,
    methods: Option<&Vec<BuiltinMethod>>,
    constructors: Option<&Vec<Constructor>>,
) -> (r: Result<Vec<CacheField>, GenError>)
    ensures
        fields_result_view(r) == spec_variant_fields(names@, has_destructor, opt_seq(methods), opt_seq(constructors)),
{
    let mut destroy = make_destroy_fns(names, has_destructor);
    let mut construct = match make_construct_fns(names, constructors) {
        Ok(c) => c,
        Err(e) => return Err(e),
    };
    let mut method_fields = make_builtin_methods(names, methods);
    let mut r: Vec<CacheField> = Vec::new();
    r.push(new_field(names, "_to_variant", Lookup::FromTypeConstructor));
    r.push(new_field(names, "_from_variant", Lookup::ToTypeConstructor));
    let ghost r0 = r@;
    let ghost c0 = construct@;
    let ghost d0 = destroy@;
    let ghost m0 = method_fields@;
    r.append(&mut construct);
    r.append(&mut destroy);
    r.append(&mut method_fields);
    proof {
        lemma_fields_view_concat(r0, c0);
        lemma_fields_view_concat(r0 + c0, d0);
        lemma_fields_view_concat(r0 + c0 + d0, m0);
        assert(fields_view(r0) =~= seq![
            field_spec(names@, "_to_variant"@, LookupSpec::FromTypeConstructor),
            field_spec(names@, "_from_variant"@, LookupSpec::ToTypeConstructor),
        ]);
    }
    Ok(r)
}

/// A type alias binding a value kind to an opaque buffer of its byte size.
pub struct OpaqueType {
    pub ident: String,
    pub size: usize,
}

/// The mathematical form of an `OpaqueType`.
pub struct OpaqueTypeSpec {
    pub ident: Seq<char>,
    pub size: usize,
}

impl View for OpaqueType {
    type V = OpaqueTypeSpec;

    open spec fn view(&self) -> OpaqueTypeSpec {
        OpaqueTypeSpec { ident: self.ident@, size: self.size }
    }
}

/// A value-kind enumerator with its tag.
pub struct Enumerator {
    pub ident: String,
    pub value: i32,
}

/// The mathematical form of an `Enumerator`.
pub struct EnumeratorSpec {
    pub ident: Seq<char>,
    pub value: i32,
}

impl View for Enumerator {
    type V = EnumeratorSpec;

    open spec fn view(&self) -> EnumeratorSpec {
        EnumeratorSpec { ident: self.ident@, value: self.value }
    }
}

/// The generated artifacts: opaque aliases, enumerators, cache fields.
pub struct Tokens {
    pub opaque_types: Vec<OpaqueType>,
    pub variant_enumerators: Vec<Enumerator>,
    pub fields: Vec<CacheField>,
}

/// The mathematical form of `Tokens`.
pub struct TokensSpec {
    pub opaque_types: Seq<OpaqueTypeSpec>,
    pub variant_enumerators: Seq<EnumeratorSpec>,
    pub fields: Seq<FieldSpec>,
}

impl View for Tokens {
    type V = TokensSpec;

    open spec fn view(&self) -> TokensSpec {
        TokensSpec {
            opaque_types: opaque_view(self.opaque_types@),
            variant_enumerators: enumerators_view(self.variant_enumerators@),
            fields: fields_view(self.fields@),
        }
    }
}

/// "Opaque" followed by the name with its first character in upper case.
pub open spec fn opaque_ident(name: Seq<char>) -> Seq<char> {
    "Opaque"@ + upper_of(name.subrange(0, 1)) + name.subrange(1, name.len() as int)
}

/// One opaque alias per size entry, in order; an entry without a name fails.
pub open spec fn spec_opaque_list(sizes: Seq<ClassSize>) -> Result<Seq<OpaqueTypeSpec>, GenErrorSpec>
    decreases sizes.len(),
{
    if sizes.len() == 0 {
        Ok(Seq::empty())
    } else {
        match spec_opaque_list(sizes.drop_last()) {
            Err(e) => Err(e),
            Ok(r) => if sizes.last().name@.len() == 0 {
                Err(GenErrorSpec::EmptyTypeName)
            } else {
                Ok(r.push(OpaqueTypeSpec { ident: opaque_ident(sizes.last().name@), size: sizes.last().size }))
            },
        }
    }
}

/// The position of the first size table of configuration `config`.
pub open spec fn find_config(all: Seq<ClassSizes>, config: Seq<char>) -> Option<int>
    decreases all.len(),
{
    if all.len() == 0 {
        None
    } else {
        match find_config(all.drop_last(), config) {
            Some(i) => Some(i),
            None => if all.last().build_configuration@ == config {
                Some(all.len() - 1)
            } else {
                None
            },
        }
    }
}

/// A size table found in a prefix is the one found in the whole list.
proof fn lemma_find_config_prefix(all: Seq<ClassSizes>, config: Seq<char>, n: int)
    requires
        0 <= n <= all.len(),
        find_config(all.subrange(0, n), config) is Some,
    ensures
        find_config(all, config) == find_config(all.subrange(0, n), config),
    decreases all.len() - n,
{
    if n < all.len() {
        assert(all.subrange(0, n + 1).drop_last() =~= all.subrange(0, n));
        lemma_find_config_prefix(all, config, n + 1);
    } else {
        assert(all.subrange(0, n) =~= all);
    }
}

/// A failure in a prefix of the size list is the failure of the whole list.
proof fn lemma_opaque_list_err_extends(sizes: Seq<ClassSize>, n: int)
    requires
        0 <= n <= sizes.len(),
        spec_opaque_list(sizes.subrange(0, n)) is Err,
    ensures
        spec_opaque_list(sizes) == spec_opaque_list(sizes.subrange(0, n)),
    decreases sizes.len() - n,
{
    if n < sizes.len() {
        assert(sizes.subrange(0, n + 1).drop_last() =~= sizes.subrange(0, n));
        lemma_opaque_list_err_extends(sizes, n + 1);
    } else {
        assert(sizes.subrange(0, n) =~= sizes);
    }
}

/// The opaque aliases of configuration `config`: none where it has no size table.
pub open spec fn spec_opaque_types(all: Seq<ClassSizes>, config: Seq<char>) -> Result<Seq<OpaqueTypeSpec>, GenErrorSpec> {
    match find_config(all, config) {
        Some(i) => spec_opaque_list(all[i].sizes@),
        None => Ok(Seq::empty()),
    }
}

proof fn lemma_find_config_in_range(all: Seq<ClassSizes>, config: Seq<char>)
    ensures
        find_config(all, config) matches Some(i) ==> 0 <= i < all.len(),
    decreases all.len(),
{
    if all.len() > 0 {
        lemma_find_config_in_range(all.drop_last(), config);
    }
}

proof fn lemma_find_enum_in_range(all: Seq<GlobalEnum>, name: Seq<char>)
    ensures
        find_enum(all, name) matches Some(i) ==> 0 <= i < all.len(),
    decreases all.len(),
{
    if all.len() > 0 {
        lemma_find_enum_in_range(all.drop_last(), name);
    }
}

/// The position of the first global enumeration named `name`.
pub open spec fn find_enum(all: Seq<GlobalEnum>, name: Seq<char>) -> Option<int>
    decreases all.len(),
{
    if all.len() == 0 {
        None
    } else {
        match find_enum(all.drop_last(), name) {
            Some(i) => Some(i),
            None => if all.last().name@ == name {
                Some(all.len() - 1)
            } else {
                None
            },
        }
    }
}

/// An enumeration found in a prefix is the one found in the whole list.
proof fn lemma_find_enum_prefix(all: Seq<GlobalEnum>, name: Seq<char>, n: int)
    requires
        0 <= n <= all.len(),
        find_enum(all.subrange(0, n), name) is Some,
    ensures
        find_enum(all, name) == find_enum(all.subrange(0, n), name),
    decreases all.len() - n,
{
    if n < all.len() {
        assert(all.subrange(0, n + 1).drop_last() =~= all.subrange(0, n));
        lemma_find_enum_prefix(all, name, n + 1);
    } else {
        assert(all.subrange(0, n) =~= all);
    }
}

/// The key under which a value kind is found: its name in lower case.
pub open spec fn class_key(c: BuiltinClass) -> Seq<char> {
    lower_of(c.name@)
}

/// The position of the last value kind whose key is `key`.
pub open spec fn find_class(classes: Seq<BuiltinClass>, key: Seq<char>) -> Option<int>
    decreases classes.len(),
{
    if classes.len() == 0 {
        None
    } else if class_key(classes.last()) == key {
        Some(classes.len() - 1)
    } else {
        find_class(classes.drop_last(), key)
    }
}

proof fn lemma_find_class_in_range(classes: Seq<BuiltinClass>, key: Seq<char>)
    ensures
        find_class(classes, key) matches Some(j) ==> 0 <= j < classes.len(),
    decreases classes.len(),
{
    if classes.len() > 0 {
        lemma_find_class_in_range(classes.drop_last(), key);
    }
}

/// The spellings of a kind from its type name and its enumerator name.
pub open spec fn type_names_spec(pascal: Seq<char>, shout: Seq<char>, tag: i32) -> TypeNamesSpec {
    TypeNamesSpec {
        pascal_case: pascal,
        snake_case: lower_of(shout),
        shout_case: shout,
        sys_variant_type: "GDNativeVariantType_GDNATIVE_VARIANT_TYPE_"@ + shout,
        variant_tag: tag,
    }
}

/// The enumerator name without its `TYPE_` prefix.
pub open spec fn shout_of(name: Seq<char>) -> Seq<char> {
    name.subrange("TYPE_"@.len() as int, name.len() as int)
}

/// What one value-kind enumerator contributes: nothing for `NIL` and `MAX`, else
/// its enumerator and its fields, taken from the matching value kind or, for
/// `OBJECT`, from no description at all.
pub open spec fn spec_entry(classes: Seq<BuiltinClass>, ty: EnumValue) -> Result<Option<(EnumeratorSpec, Seq<FieldSpec>)>, GenErrorSpec> {
    let name = ty.name@;
    if !has_prefix(name, "TYPE_"@) {
        Err(GenErrorSpec::MissingTypePrefix { name })
    } else {
        let shout = shout_of(name);
        let enumerator = EnumeratorSpec { ident: shout, value: ty.value };
        if shout == "NIL"@ || shout == "MAX"@ {
            Ok(None)
        } else {
            let normalized = without_underscores(lower_of(shout));
            match find_class(classes, normalized) {
                Some(j) => {
                    let c = classes[j];
                    match spec_variant_fields(
                        type_names_spec(c.name@, shout, ty.value),
                        c.has_destructor,
                        match c.methods {
                            Some(ms) => Some(ms@),
                            None => None,
                        },
                        Some(c.constructors@),
                    ) {
                        Ok(fs) => Ok(Some((enumerator, fs))),
                        Err(e) => Err(e),
                    }
                },
                None => if normalized == "object"@ {
                    match spec_variant_fields(type_names_spec("Object"@, shout, ty.value), false, None, None) {
                        Ok(fs) => Ok(Some((enumerator, fs))),
                        Err(e) => Err(e),
                    }
                } else {
                    Err(GenErrorSpec::UnknownVariantType { name: shout })
                },
            }
        }
    }
}

/// The enumerators and fields of all value-kind enumerators, in order; the first
/// failure ends generation.
pub open spec fn spec_entries(classes: Seq<BuiltinClass>, vals: Seq<EnumValue>) -> Result<(Seq<EnumeratorSpec>, Seq<FieldSpec>), GenErrorSpec>
    decreases vals.len(),
{
    if vals.len() == 0 {
        Ok((Seq::empty(), Seq::empty()))
    } else {
        match spec_entries(classes, vals.drop_last()) {
            Err(e) => Err(e),
            Ok((es, fs)) => match spec_entry(classes, vals.last()) {
                Err(e) => Err(e),
                Ok(None) => Ok((es, fs)),
                Ok(Some((en, more))) => Ok((es.push(en), fs + more)),
            },
        }
    }
}

/// The whole generation for configuration `config`.
pub open spec fn spec_load(model: ExtensionApi, config: Seq<char>) -> Result<TokensSpec, GenErrorSpec> {
    match spec_opaque_types(model.builtin_class_sizes@, config) {
        Err(e) => Err(e),
        Ok(ops) => match find_enum(model.global_enums@, "Variant.Type"@) {
            None => Ok(TokensSpec { opaque_types: ops, variant_enumerators: Seq::empty(), fields: Seq::empty() }),
            Some(k) => match spec_entries(model.builtin_classes@, model.global_enums@[k].values@) {
                Err(e) => Err(e),
                Ok((es, fs)) => Ok(TokensSpec { opaque_types: ops, variant_enumerators: es, fields: fs }),
            },
        },
    }
}

/// The mathematical form of a generation result.
pub open spec fn tokens_result_view(r: Result<Tokens, GenError>) -> Result<TokensSpec, GenErrorSpec> {
    match r {
        Ok(t) => Ok(t@),
        Err(e) => Err(e@),
    }
}

/// The opaque alias of one value kind.
pub fn make_opaque_type(name: &str, size: usize) -> (r: Result<OpaqueType, GenError>)
    ensures
        name@.len() == 0 ==> r == Err::<OpaqueType, GenError>(GenError::EmptyTypeName),
        name@.len() > 0 ==> (r matches Ok(o) && o@ == (OpaqueTypeSpec { ident: opaque_ident(name@), size })),
{
    let n = name.unicode_len();
    if n == 0 {
        return Err(GenError::EmptyTypeName);
    }
    let first = to_uppercase(name.substring_char(0, 1));
    let head = str_concat("Opaque", first.as_str());
    Ok(OpaqueType { ident: str_concat(head.as_str(), name.substring_char(1, n)), size })
}

/// The enumerator of one value kind.
pub fn make_enumerator(names: &TypeNames, value: i32) -> (r: Enumerator)
    ensures
        r@ == (EnumeratorSpec { ident: names.shout_case@, value }),
{
    Enumerator { ident: names.shout_case.clone(), value }
}

/// The spellings of a kind from its type name and its enumerator name.
pub fn make_type_names(pascal: &str, shout: &str, tag: i32) -> (r: TypeNames)
    ensures
        r@ == type_names_spec(pascal@, shout@, tag),
{
    TypeNames {
        pascal_case: String::from_str(pascal),
        snake_case: to_lowercase(shout),
        shout_case: String::from_str(shout),
        sys_variant_type: str_concat("GDNativeVariantType_GDNATIVE_VARIANT_TYPE_", shout),
        variant_tag: tag,
    }
}

/// The mathematical form of what one enumerator contributes.
pub open spec fn entry_result_view(r: Result<Option<(Enumerator, Vec<CacheField>)>, GenError>) -> Result<Option<(EnumeratorSpec, Seq<FieldSpec>)>, GenErrorSpec> {
    match r {
        Ok(Some((en, fs))) => Ok(Some((en@, fields_view(fs@)))),
        Ok(None) => Ok(None),
        Err(e) => Err(e@),
    }
}

/// Whether `keys` holds the key of each value kind, in order.
pub open spec fn keys_of(keys: Seq<String>, classes: Seq<BuiltinClass>) -> bool {
    keys.len() == classes.len() && forall|j: int| 0 <= j < keys.len() ==> #[trigger] keys[j]@ == class_key(classes[j])
}

/// The key of every value kind.
fn make_class_keys(classes: &Vec<BuiltinClass>) -> (r: Vec<String>)
    ensures
        keys_of(r@, classes@),
{
    let mut r: Vec<String> = Vec::new();
    let mut i: usize = 0;
    while i < classes.len()
        invariant
            i <= classes@.len(),
            r@.len() == i,
            forall|j: int| 0 <= j < i ==> #[trigger] r@[j]@ == class_key(classes@[j]),
        decreases classes@.len() - i,
    {
        r.push(to_lowercase(classes[i].name.as_str()));
        i = i + 1;
    }
    r
}

/// The position of the last value kind whose key is `key`.
fn find_class_index(classes: &Vec<BuiltinClass>, keys: &Vec<String>, key: &String) -> (r: Option<usize>)
    requires
        keys_of(keys@, classes@),
    ensures
        match r {
            Some(j) => find_class(classes@, key@) == Some(j as int),
            None => find_class(classes@, key@) is None,
        },
{
    let mut j: usize = keys.len();
    assert(classes@.subrange(0, j as int) =~= classes@);
    while j > 0
        invariant
            j <= classes@.len(),
            keys_of(keys@, classes@),
            find_class(classes@, key@) == find_class(classes@.subrange(0, j as int), key@),
        decreases j,
    {
        let ghost sub = classes@.subrange(0, j as int);
        assert(sub.drop_last() =~= classes@.subrange(0, j - 1));
        assert(sub.last() == classes@[j - 1]);
        if keys[j - 1] == *key {
            return Some(j - 1);
        }
        j = j - 1;
    }
    None
}

/// What one value-kind enumerator contributes to the generated code.
pub fn make_variant_entry(classes: &Vec<BuiltinClass>, keys: &Vec<String>, ty: &EnumValue) -> (r: Result<Option<(Enumerator, Vec<CacheField>)>, GenError>)
    requires
        keys_of(keys@, classes@),
    ensures
        entry_result_view(r) == spec_entry(classes@, *ty),
{
    let shout = match strip_prefix(ty.name.as_str(), "TYPE_") {
        Some(s) => s,
        None => return Err(GenError::MissingTypePrefix { name: ty.name.clone() }),
    };
    if str_eq(shout.as_str(), "NIL") || str_eq(shout.as_str(), "MAX") {
        return Ok(None);
    }
    let lower = to_lowercase(shout.as_str());
    let normalized = remove_underscores(lower.as_str());
    match find_class_index(classes, keys, &normalized) {
        Some(j) => {
            proof {
                lemma_find_class_in_range(classes@, normalized@);
            }
            let c = &classes[j];
            let names = make_type_names(c.name.as_str(), shout.as_str(), ty.value);
            let methods = match &c.methods {
                Some(ms) => Some(ms),
                None => None,
            };
            let enumerator = make_enumerator(&names, ty.value);
            match make_variant_fns(&names, c.has_destructor, methods, Some(&c.constructors)) {
                Ok(fs) => Ok(Some((enumerator, fs))),
                Err(e) => Err(e),
            }
        },
        None => {
            if !str_eq(normalized.as_str(), "object") {
                return Err(GenError::UnknownVariantType { name: shout });
            }
            let names = make_type_names("Object", shout.as_str(), ty.value);
            let enumerator = make_enumerator(&names, ty.value);
            match make_variant_fns(&names, false, None, None) {
                Ok(fs) => Ok(Some((enumerator, fs))),
                Err(e) => Err(e),
            }
        },
    }
}

/// The mathematical form of a list of opaque aliases.
pub open spec fn opaque_view(v: Seq<OpaqueType>) -> Seq<OpaqueTypeSpec> {
    v.map_values(|o: OpaqueType| o@)
}

/// The mathematical form of a list of enumerators.
pub open spec fn enumerators_view(v: Seq<Enumerator>) -> Seq<EnumeratorSpec> {
    v.map_values(|e: Enumerator| e@)
}

/// The opaque aliases of configuration `build_config`.
fn make_opaque_types(all: &Vec<ClassSizes>, build_config: &str) -> (r: Result<Vec<OpaqueType>, GenError>)
    ensures
        match r {
            Ok(v) => spec_opaque_types(all@, build_config@) == Ok::<Seq<OpaqueTypeSpec>, GenErrorSpec>(opaque_view(v@)),
            Err(e) => spec_opaque_types(all@, build_config@) == Err::<Seq<OpaqueTypeSpec>, GenErrorSpec>(e@),
        },
{
    let mut out: Vec<OpaqueType> = Vec::new();
    let mut i: usize = 0;
    while i < all.len()
        invariant
            i <= all@.len(),
            out@.len() == 0,
            find_config(all@.subrange(0, i as int), build_config@) is None,
        decreases all@.len() - i,
    {
        let ghost sub = all@.subrange(0, i + 1);
        assert(sub.drop_last() =~= all@.subrange(0, i as int));
        if str_eq(all[i].build_configuration.as_str(), build_config) {
            assert(find_config(sub, build_config@) == Some(i as int));
            proof {
                lemma_find_config_prefix(all@, build_config@, i as int + 1);
            }
            let sizes = &all[i].sizes;
            assert(spec_opaque_types(all@, build_config@) == spec_opaque_list(sizes@));
            let mut k: usize = 0;
            assert(opaque_view(out@) =~= Seq::<OpaqueTypeSpec>::empty());
            while k < sizes.len()
                invariant
                    k <= sizes@.len(),
                    spec_opaque_types(all@, build_config@) == spec_opaque_list(sizes@),
                    spec_opaque_list(sizes@.subrange(0, k as int)) == Ok::<Seq<OpaqueTypeSpec>, GenErrorSpec>(opaque_view(out@)),
                decreases sizes@.len() - k,
            {
                let ghost ssub = sizes@.subrange(0, k + 1);
                assert(ssub.drop_last() =~= sizes@.subrange(0, k as int));
                let entry = &sizes[k];
                match make_opaque_type(entry.name.as_str(), entry.size) {
                    Ok(o) => {
                        assert(opaque_view(out@.push(o)) =~= opaque_view(out@).push(o@));
                        out.push(o);
                    },
                    Err(e) => {
                        proof {
                            lemma_opaque_list_err_extends(sizes@, k as int + 1);
                        }
                        return Err(e);
                    },
                }
                k = k + 1;
            }
            assert(sizes@.subrange(0, sizes@.len() as int) =~= sizes@);
            return Ok(out);
        }
        i = i + 1;
    }
    assert(all@.subrange(0, all@.len() as int) =~= all@);
    assert(opaque_view(out@) =~= Seq::<OpaqueTypeSpec>::empty());
    Ok(out)
}

/// A failure among the first enumerators is the failure of the whole list.
proof fn lemma_entries_err_extends(classes: Seq<BuiltinClass>, vals: Seq<EnumValue>, n: int)
    requires
        0 <= n <= vals.len(),
        spec_entries(classes, vals.subrange(0, n)) is Err,
    ensures
        spec_entries(classes, vals) == spec_entries(classes, vals.subrange(0, n)),
    decreases vals.len() - n,
{
    if n < vals.len() {
        assert(vals.subrange(0, n + 1).drop_last() =~= vals.subrange(0, n));
        lemma_entries_err_extends(classes, vals, n + 1);
    } else {
        assert(vals.subrange(0, n) =~= vals);
    }
}

/// The enumerators and fields of all value-kind enumerators.
fn make_entries(classes: &Vec<BuiltinClass>, vals: &Vec<EnumValue>) -> (r: Result<(Vec<Enumerator>, Vec<CacheField>), GenError>)
    ensures
        match r {
            Ok((es, fs)) => spec_entries(classes@, vals@) == Ok::<(Seq<EnumeratorSpec>, Seq<FieldSpec>), GenErrorSpec>((enumerators_view(es@), fields_view(fs@))),
            Err(e) => spec_entries(classes@, vals@) == Err::<(Seq<EnumeratorSpec>, Seq<FieldSpec>), GenErrorSpec>(e@),
        },
{
    let keys = make_class_keys(classes);
    let mut es: Vec<Enumerator> = Vec::new();
    let mut fs: Vec<CacheField> = Vec::new();
    let mut i: usize = 0;
    assert(enumerators_view(es@) =~= Seq::<EnumeratorSpec>::empty());
    assert(fields_view(fs@) =~= Seq::<FieldSpec>::empty());
    while i < vals.len()
        invariant
            i <= vals@.len(),
            keys_of(keys@, classes@),
            spec_entries(classes@, vals@.subrange(0, i as int)) == Ok::<(Seq<EnumeratorSpec>, Seq<FieldSpec>), GenErrorSpec>((enumerators_view(es@), fields_view(fs@))),
        decreases vals@.len() - i,
    {
        let ghost sub = vals@.subrange(0, i + 1);
        assert(sub.drop_last() =~= vals@.subrange(0, i as int));
        match make_variant_entry(classes, &keys, &vals[i]) {
            Err(e) => {
                proof {
                    lemma_entries_err_extends(classes@, vals@, i + 1);
                }
                return Err(e);
            },
            Ok(None) => {},
            Ok(Some((en, mut more))) => {
                let ghost f0 = fs@;
                let ghost m0 = more@;
                assert(enumerators_view(es@.push(en)) =~= enumerators_view(es@).push(en@));
                es.push(en);
                fs.append(&mut more);
                proof {
                    lemma_fields_view_concat(f0, m0);
                }
            },
        }
        i = i + 1;
    }
    assert(vals@.subrange(0, vals@.len() as int) =~= vals@);
    Ok((es, fs))
}

/// Generates, for build configuration `build_config`, the opaque aliases of its
/// size table, and the enumerator and cache fields of every value kind that the
/// `Variant.Type` enumeration lists. Fails on the first malformed entry.
pub fn load_extension_api(model: &ExtensionApi, build_config: &str) -> (r: Result<Tokens, GenError>)
    ensures
        tokens_result_view(r) == spec_load(*model, build_config@),
{
    let opaque_types = match make_opaque_types(&model.builtin_class_sizes, build_config) {
        Ok(o) => o,
        Err(e) => return Err(e),
    };
    let mut k: usize = 0;
    while k < model.global_enums.len()
        invariant
            k <= model.global_enums@.len(),
            spec_opaque_types(model.builtin_class_sizes@, build_config@) == Ok::<Seq<OpaqueTypeSpec>, GenErrorSpec>(opaque_view(opaque_types@)),
            find_enum(model.global_enums@.subrange(0, k as int), "Variant.Type"@) is None,
        decreases model.global_enums@.len() - k,
    {
        let ghost sub = model.global_enums@.subrange(0, k + 1);
        assert(sub.drop_last() =~= model.global_enums@.subrange(0, k as int));
        if str_eq(model.global_enums[k].name.as_str(), "Variant.Type") {
            assert(find_enum(sub, "Variant.Type"@) == Some(k as int));
            proof {
                lemma_find_enum_prefix(model.global_enums@, "Variant.Type"@, k + 1);
            }
            return match make_entries(&model.builtin_classes, &model.global_enums[k].values) {
                Ok((variant_enumerators, fields)) => Ok(Tokens { opaque_types, variant_enumerators, fields }),
                Err(e) => Err(e),
            };
        }
        k = k + 1;
    }
    assert(model.global_enums@.subrange(0, model.global_enums@.len() as int) =~= model.global_enums@);
    let variant_enumerators: Vec<Enumerator> = Vec::new();
    let fields: Vec<CacheField> = Vec::new();
    let r = Tokens { opaque_types, variant_enumerators, fields };
    assert(r@.variant_enumerators =~= Seq::<EnumeratorSpec>::empty());
    assert(r@.fields =~= Seq::<FieldSpec>::empty());
    Ok(r)
}

/// Vararg methods get no cache field: the method fields of a kind are exactly
/// those of its non-vararg methods, in their order.
pub proof fn lemma_vararg_methods_excluded(names: TypeNamesSpec, ms: Seq<BuiltinMethod>)
    ensures
        spec_method_fields(names, ms) == ms.filter(|m: BuiltinMethod| !m.is_vararg).map_values(
            |m: BuiltinMethod| method_field(names, m),
        ),
    decreases ms.len(),
{
    reveal(Seq::filter);
    let pred = |m: BuiltinMethod| !m.is_vararg;
    let f = |m: BuiltinMethod| method_field(names, m);
    if ms.len() > 0 {
        lemma_vararg_methods_excluded(names, ms.drop_last());
        let rest = ms.drop_last().filter(pred);
        if !ms.last().is_vararg {
            assert(rest.push(ms.last()).map_values(f) =~= rest.map_values(f).push(f(ms.last())));
        }
    } else {
        assert(ms.filter(pred).map_values(f) =~= Seq::<FieldSpec>::empty());
    }
}

/// Every opaque alias of a generated configuration has the byte size that the
/// configuration's size table reports for its value kind, entry for entry.
pub proof fn lemma_opaque_sizes_match(model: ExtensionApi, config: Seq<char>)
    ensures
        spec_load(model, config) matches Ok(t) ==> match find_config(model.builtin_class_sizes@, config) {
            Some(i) => {
                let sizes = model.builtin_class_sizes@[i].sizes@;
                &&& t.opaque_types.len() == sizes.len()
                &&& forall|k: int| 0 <= k < sizes.len() ==> {
                    &&& #[trigger] t.opaque_types[k].size == sizes[k].size
                    &&& t.opaque_types[k].ident == opaque_ident(sizes[k].name@)
                }
            },
            None => t.opaque_types.len() == 0,
        },
{
    lemma_find_config_in_range(model.builtin_class_sizes@, config);
    if let Some(i) = find_config(model.builtin_class_sizes@, config) {
        lemma_opaque_list_sizes(model.builtin_class_sizes@[i].sizes@);
    }
}

proof fn lemma_opaque_list_sizes(sizes: Seq<ClassSize>)
    ensures
        spec_opaque_list(sizes) matches Ok(ops) ==> {
            &&& ops.len() == sizes.len()
            &&& forall|k: int| 0 <= k < sizes.len() ==> {
                &&& #[trigger] ops[k].size == sizes[k].size
                &&& ops[k].ident == opaque_ident(sizes[k].name@)
            }
        },
    decreases sizes.len(),
{
    if sizes.len() > 0 {
        lemma_opaque_list_sizes(sizes.drop_last());
        if let Ok(ops) = spec_opaque_list(sizes) {
            let rest = sizes.drop_last();
            let r = spec_opaque_list(rest)->Ok_0;
            assert(ops == r.push(OpaqueTypeSpec { ident: opaque_ident(sizes.last().name@), size: sizes.last().size }));
            assert forall|k: int| 0 <= k < sizes.len() implies {
                &&& #[trigger] ops[k].size == sizes[k].size
                &&& ops[k].ident == opaque_ident(sizes[k].name@)
            } by {
                if k < sizes.len() - 1 {
                    assert(sizes[k] == rest[k]);
                    assert(ops[k] == r[k]);
                }
            }
        }
    }
}

proof fn lemma_entries_err_at(classes: Seq<BuiltinClass>, vals: Seq<EnumValue>, i: int)
    requires
        0 <= i < vals.len(),
        spec_entry(classes, vals[i]) is Err,
    ensures
        spec_entries(classes, vals) is Err,
{
    let sub = vals.subrange(0, i + 1);
    assert(sub.drop_last() =~= vals.subrange(0, i));
    assert(sub.last() == vals[i]);
    lemma_entries_err_extends(classes, vals, i + 1);
}

/// Generation refuses a model in which a listed value kind's constructor at
/// index 1 does not take exactly one `from` argument of the kind's own type.
pub proof fn lemma_bad_copy_constructor_rejected(model: ExtensionApi, config: Seq<char>, i: int)
    requires
        find_enum(model.global_enums@, "Variant.Type"@) matches Some(k) && 0 <= i < model.global_enums@[k].values@.len() && {
            let name = model.global_enums@[k].values@[i].name@;
            let shout = shout_of(name);
            &&& has_prefix(name, "TYPE_"@)
            &&& shout != "NIL"@
            &&& shout != "MAX"@
            &&& find_class(model.builtin_classes@, without_underscores(lower_of(shout))) matches Some(j) && {
                let c = model.builtin_classes@[j];
                c.constructors@.len() < 2 || !is_copy_constructor(type_names_spec(c.name@, shout, model.global_enums@[k].values@[i].value), c.constructors@[1])
            }
        },
    ensures
        spec_load(model, config) is Err,
{
    lemma_find_enum_in_range(model.global_enums@, "Variant.Type"@);
    let k = find_enum(model.global_enums@, "Variant.Type"@)->Some_0;
    let vals = model.global_enums@[k].values@;
    let shout = shout_of(vals[i].name@);
    lemma_find_class_in_range(model.builtin_classes@, without_underscores(lower_of(shout)));
    lemma_entries_err_at(model.builtin_classes@, vals, i);
}

/// Whether the method lookup of `f`, if it has one, is that of a non-vararg
/// method among `ms`.
pub open spec fn method_lookup_from(ms: Seq<BuiltinMethod>, f: FieldSpec) -> bool {
    f.lookup is BuiltinMethod ==> exists|k: int| {
        &&& 0 <= k < ms.len()
        &&& !(#[trigger] ms[k]).is_vararg
        &&& f.lookup == (LookupSpec::BuiltinMethod { name: ms[k].name@, hash: ms[k].hash })
    }
}

/// Whether the method lookup of `f`, if it has one, is that of a non-vararg
/// method of one of `classes`.
pub open spec fn method_lookup_in(classes: Seq<BuiltinClass>, f: FieldSpec) -> bool {
    f.lookup is BuiltinMethod ==> exists|j: int| {
        &&& 0 <= j < classes.len()
        &&& #[trigger] classes[j].methods matches Some(ms) && method_lookup_from(ms@, f)
    }
}

proof fn lemma_method_fields_from(names: TypeNamesSpec, ms: Seq<BuiltinMethod>)
    ensures
        forall|i: int| 0 <= i < spec_method_fields(names, ms).len() ==> method_lookup_from(ms, #[trigger] spec_method_fields(names, ms)[i]),
    decreases ms.len(),
{
    if ms.len() > 0 {
        let rest = ms.drop_last();
        lemma_method_fields_from(names, rest);
        let fs = spec_method_fields(names, ms);
        let rs = spec_method_fields(names, rest);
        assert forall|i: int| 0 <= i < fs.len() implies method_lookup_from(ms, #[trigger] fs[i]) by {
            if i < rs.len() {
                assert(fs[i] == rs[i]);
                if fs[i].lookup is BuiltinMethod {
                    let k = choose|k: int| {
                        &&& 0 <= k < rest.len()
                        &&& !(#[trigger] rest[k]).is_vararg
                        &&& fs[i].lookup == (LookupSpec::BuiltinMethod { name: rest[k].name@, hash: rest[k].hash })
                    };
                    assert(ms[k] == rest[k]);
                }
            } else {
                let k = ms.len() - 1;
                assert(fs[i].lookup == (LookupSpec::BuiltinMethod { name: ms[k].name@, hash: ms[k].hash }));
            }
        }
    }
}

proof fn lemma_typed_ctor_fields_not_methods(names: TypeNamesSpec, cs: Seq<Constructor>)
    ensures
        forall|i: int| 0 <= i < spec_typed_ctor_fields(names, cs).len() ==> (#[trigger] spec_typed_ctor_fields(names, cs)[i]).lookup is Constructor,
    decreases cs.len(),
{
    if cs.len() > 2 {
        lemma_typed_ctor_fields_not_methods(names, cs.drop_last());
    }
}

proof fn lemma_variant_fields_methods(
    names: TypeNamesSpec,
    has_destructor: bool,
    methods: Option<Seq<BuiltinMethod>>,
    constructors: Option<Seq<Constructor>>,
)
    ensures
        spec_variant_fields(names, has_destructor, methods, constructors) matches Ok(fs) ==> forall|i: int| 0 <= i < fs.len() ==> ({
            let f = #[trigger] fs[i];
            f.lookup is BuiltinMethod ==> (methods matches Some(ms) && method_lookup_from(ms, f))
        }),
{
    if let Ok(fs) = spec_variant_fields(names, has_destructor, methods, constructors) {
        let head = seq![
            field_spec(names, "_to_variant"@, LookupSpec::FromTypeConstructor),
            field_spec(names, "_from_variant"@, LookupSpec::ToTypeConstructor),
        ];
        let ctors = spec_construct_fields(names, constructors)->Ok_0;
        let dtor = spec_destroy_fields(names, has_destructor);
        let ms_fields = match methods {
            Some(ms) => spec_method_fields(names, ms),
            None => Seq::empty(),
        };
        assert(fs == head + ctors + dtor + ms_fields);
        if let Some(cs) = constructors {
            lemma_typed_ctor_fields_not_methods(names, cs);
        }
        if let Some(ms) = methods {
            lemma_method_fields_from(names, ms);
        }
        let n1 = head.len() as int;
        let n2 = n1 + ctors.len();
        let n3 = n2 + dtor.len();
        assert forall|i: int| 0 <= i < fs.len() implies ({
            let f = #[trigger] fs[i];
            f.lookup is BuiltinMethod ==> (methods matches Some(ms) && method_lookup_from(ms, f))
        }) by {
            if i < n1 {
                assert(fs[i] == head[i]);
            } else if i < n2 {
                assert(fs[i] == ctors[i - n1]);
                if let Some(cs) = constructors {
                    let typed = spec_typed_ctor_fields(names, cs);
                    if i - n1 >= 2 {
                        assert(ctors[i - n1] == typed[i - n1 - 2]);
                    }
                }
            } else if i < n3 {
                assert(fs[i] == dtor[i - n2]);
            } else {
                assert(fs[i] == ms_fields[i - n3]);
            }
        }
    }
}

proof fn lemma_entries_methods(classes: Seq<BuiltinClass>, vals: Seq<EnumValue>)
    ensures
        spec_entries(classes, vals) matches Ok((es, fs)) ==> forall|i: int| 0 <= i < fs.len() ==> method_lookup_in(classes, #[trigger] fs[i]),
    decreases vals.len(),
{
    if vals.len() > 0 {
        lemma_entries_methods(classes, vals.drop_last());
        if let Ok((es, fs)) = spec_entries(classes, vals) {
            let (es0, fs0) = spec_entries(classes, vals.drop_last())->Ok_0;
            let ty = vals.last();
            if let Ok(Some((en, more))) = spec_entry(classes, ty) {
                assert(fs == fs0 + more);
                let shout = shout_of(ty.name@);
                let normalized = without_underscores(lower_of(shout));
                lemma_find_class_in_range(classes, normalized);
                match find_class(classes, normalized) {
                    Some(j) => {
                        let c = classes[j];
                        let ms = match c.methods {
                            Some(ms) => Some(ms@),
                            None => None,
                        };
                        lemma_variant_fields_methods(type_names_spec(c.name@, shout, ty.value), c.has_destructor, ms, Some(c.constructors@));
                        assert forall|i: int| 0 <= i < fs.len() implies method_lookup_in(classes, #[trigger] fs[i]) by {
                            if i >= fs0.len() {
                                assert(fs[i] == more[i - fs0.len()]);
                                let f = more[i - fs0.len()];
                                if f.lookup is BuiltinMethod {
                                    assert(classes[j].methods matches Some(v) && method_lookup_from(v@, f));
                                }
                            } else {
                                assert(fs[i] == fs0[i]);
                            }
                        }
                    },
                    None => {
                        lemma_variant_fields_methods(type_names_spec("Object"@, shout, ty.value), false, None, None);
                        assert forall|i: int| 0 <= i < fs.len() implies method_lookup_in(classes, #[trigger] fs[i]) by {
                            if i >= fs0.len() {
                                assert(fs[i] == more[i - fs0.len()]);
                            } else {
                                assert(fs[i] == fs0[i]);
                            }
                        }
                    },
                }
            }
        }
    }
}

/// Vararg methods get no cache field in a whole generation: every generated
/// method field is the lookup of a non-vararg method of a described value kind.
pub proof fn lemma_generated_methods_not_vararg(model: ExtensionApi, config: Seq<char>)
    ensures
        spec_load(model, config) matches Ok(t) ==> forall|i: int| 0 <= i < t.fields.len() ==> method_lookup_in(model.builtin_classes@, #[trigger] t.fields[i]),
{
    lemma_find_enum_in_range(model.global_enums@, "Variant.Type"@);
    if let Some(k) = find_enum(model.global_enums@, "Variant.Type"@) {
        lemma_entries_methods(model.builtin_classes@, model.global_enums@[k].values@);
    }
}

} // verus!
