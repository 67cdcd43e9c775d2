use gdext_builtin::api::{
    BuiltinClass, BuiltinMethod, ClassSize, ClassSizes, Constructor, EnumValue, ExtensionApi,
    GlobalEnum, MethodArg,
};
use gdext_builtin::codegen::{
    format_load_error, load_extension_api, make_builtin_methods, make_construct_fns,
    make_destroy_fns, make_opaque_type, make_type_names, CacheField, GenError, Lookup, Tokens,
};

fn arg(name: &str, ty: &str) -> MethodArg {
    MethodArg { name: name.to_string(), type_: ty.to_string() }
}

fn ctor(index: usize, args: Option<Vec<MethodArg>>) -> Constructor {
    Constructor { index, arguments: args }
}

fn method(name: &str, hash: u32, is_vararg: bool) -> BuiltinMethod {
    BuiltinMethod { name: name.to_string(), hash, is_vararg, arguments: None }
}

fn sizes(config: &str, entries: &[(&str, usize)]) -> ClassSizes {
    ClassSizes {
        build_configuration: config.to_string(),
        sizes: entries
            .iter()
            .map(|(n, s)| ClassSize { name: n.to_string(), size: *s })
            .collect(),
    }
}

fn value(name: &str, v: i32) -> EnumValue {
    EnumValue { name: name.to_string(), value: v }
}

fn string_class() -> BuiltinClass {
    BuiltinClass {
        name: "String".to_string(),
        has_destructor: true,
        constructors: vec![
            ctor(0, None),
            ctor(1, Some(vec![arg("from", "String")])),
            ctor(2, Some(vec![arg("from", "StringName")])),
        ],
        methods: Some(vec![method("length", 3173160232, false), method("format", 77, true)]),
    }
}

fn int_class() -> BuiltinClass {
    BuiltinClass {
        name: "int".to_string(),
        has_destructor: false,
        constructors: vec![
            ctor(0, None),
            ctor(1, Some(vec![arg("from", "int")])),
            ctor(2, Some(vec![arg("from", "float")])),
        ],
        methods: None,
    }
}

fn vector2_class() -> BuiltinClass {
    BuiltinClass {
        name: "Vector2".to_string(),
        has_destructor: false,
        constructors: vec![
            ctor(0, None),
            ctor(1, Some(vec![arg("from", "Vector2")])),
            ctor(2, None),
            ctor(3, Some(vec![arg("x", "float"), arg("y", "float")])),
        ],
        methods: Some(vec![]),
    }
}

fn model(classes: Vec<BuiltinClass>, values: Vec<EnumValue>) -> ExtensionApi {
    ExtensionApi {
        builtin_class_sizes: vec![
            sizes("float_32", &[("bool", 1), ("int", 8), ("Variant", 24)]),
            sizes("double_64", &[("bool", 1), ("int", 8), ("Variant", 40)]),
        ],
        builtin_classes: classes,
        global_enums: vec![
            GlobalEnum { name: "Side".to_string(), values: vec![value("SIDE_LEFT", 0)] },
            GlobalEnum { name: "Variant.Type".to_string(), values },
        ],
    }
}

fn idents(fields: &[CacheField]) -> Vec<String> {
    fields.iter().map(|f| f.ident.clone()).collect()
}

fn generate(m: &ExtensionApi, config: &str) -> Tokens {
    match load_extension_api(m, config) {
        Ok(t) => t,
        Err(_) => panic!("generation failed"),
    }
}

#[test]
fn load_error_message_names_the_field() {
    assert_eq!(
        format_load_error("bool_to_variant"),
        "failed to load GDExtension function `bool_to_variant`"
    );
}

#[test]
fn type_names_spellings() {
    let n = make_type_names("PackedVector2Array", "PACKED_VECTOR2_ARRAY", 35);
    assert_eq!(n.pascal_case, "PackedVector2Array");
    assert_eq!(n.snake_case, "packed_vector2_array");
    assert_eq!(n.shout_case, "PACKED_VECTOR2_ARRAY");
    assert_eq!(n.variant_tag, 35);
    assert_eq!(
        n.sys_variant_type,
        "GDNativeVariantType_GDNATIVE_VARIANT_TYPE_PACKED_VECTOR2_ARRAY"
    );
}

#[test]
fn opaque_type_is_capitalized() {
    match make_opaque_type("int", 8) {
        Ok(o) => {
            assert_eq!(o.ident, "OpaqueInt");
            assert_eq!(o.size, 8);
        }
        Err(_) => panic!("expected an alias"),
    }
    match make_opaque_type("Vector2", 8) {
        Ok(o) => assert_eq!(o.ident, "OpaqueVector2"),
        Err(_) => panic!("expected an alias"),
    }
    assert!(matches!(make_opaque_type("", 4), Err(GenError::EmptyTypeName)));
}

#[test]
fn destroy_field_only_with_destructor() {
    let n = make_type_names("String", "STRING", 4);
    let with = make_destroy_fns(&n, true);
    assert_eq!(idents(&with), vec!["string_destroy".to_string()]);
    assert!(matches!(with[0].lookup, Lookup::Destructor));
    assert!(make_destroy_fns(&n, false).is_empty());
}

#[test]
fn vararg_methods_get_no_field() {
    let n = make_type_names("String", "STRING", 4);
    let ms = vec![method("length", 11, false), method("format", 12, true), method("find", 13, false)];
    let fields = make_builtin_methods(&n, Some(&ms));
    assert_eq!(idents(&fields), vec!["string_length".to_string(), "string_find".to_string()]);
    match &fields[1].lookup {
        Lookup::BuiltinMethod { name, hash } => {
            assert_eq!(name, "find");
            assert_eq!(*hash, 13);
        }
        _ => panic!("expected a method lookup"),
    }
    assert!(make_builtin_methods(&n, None).is_empty());
    let only_vararg = vec![method("format", 12, true)];
    assert!(make_builtin_methods(&n, Some(&only_vararg)).is_empty());
}

#[test]
fn constructor_fields_follow_positions() {
    let n = make_type_names("Vector2", "VECTOR2", 5);
    let cs = vector2_class().constructors;
    let fields = match make_construct_fns(&n, Some(&cs)) {
        Ok(f) => f,
        Err(_) => panic!("expected constructors"),
    };
    assert_eq!(
        idents(&fields),
        vec![
            "vector2_construct_default".to_string(),
            "vector2_construct_copy".to_string(),
            "vector2_from_x_y".to_string(),
        ]
    );
    assert!(matches!(fields[2].lookup, Lookup::Constructor { index: 3 }));
}

#[test]
fn typed_constructor_uses_snake_case_of_source_type() {
    let n = make_type_names("Array", "ARRAY", 28);
    let cs = vec![
        ctor(0, None),
        ctor(1, Some(vec![arg("from", "Array")])),
        ctor(2, Some(vec![arg("from", "PackedFloat32Array")])),
    ];
    let fields = match make_construct_fns(&n, Some(&cs)) {
        Ok(f) => f,
        Err(_) => panic!("expected constructors"),
    };
    assert_eq!(fields[2].ident, "array_from_packed_float_32_array");
}

#[test]
fn copy_constructor_of_other_type_is_rejected() {
    let n = make_type_names("Vector2", "VECTOR2", 5);
    let cs = vec![ctor(0, None), ctor(1, Some(vec![arg("from", "Vector3")]))];
    match make_construct_fns(&n, Some(&cs)) {
        Err(GenError::CopyConstructor { kind }) => assert_eq!(kind, "Vector2"),
        _ => panic!("expected a copy-constructor error"),
    }
    let two_args = vec![ctor(0, None), ctor(1, Some(vec![arg("from", "Vector2"), arg("y", "float")]))];
    assert!(matches!(make_construct_fns(&n, Some(&two_args)), Err(GenError::CopyConstructor { .. })));
    let no_args = vec![ctor(0, None), ctor(1, None)];
    assert!(matches!(make_construct_fns(&n, Some(&no_args)), Err(GenError::CopyConstructor { .. })));
    let wrong_name = vec![ctor(0, None), ctor(1, Some(vec![arg("other", "Vector2")]))];
    assert!(matches!(make_construct_fns(&n, Some(&wrong_name)), Err(GenError::CopyConstructor { .. })));
    let only_default = vec![ctor(0, None)];
    assert!(matches!(make_construct_fns(&n, Some(&only_default)), Err(GenError::CopyConstructor { .. })));
}

#[test]
fn constructor_layout_errors() {
    let n = make_type_names("Vector2", "VECTOR2", 5);
    let out_of_order = vec![ctor(1, None), ctor(0, Some(vec![arg("from", "Vector2")]))];
    assert!(matches!(make_construct_fns(&n, Some(&out_of_order)), Err(GenError::ConstructorOrder { .. })));
    let default_with_args = vec![ctor(0, Some(vec![arg("x", "float")])), ctor(1, Some(vec![arg("from", "Vector2")]))];
    assert!(matches!(make_construct_fns(&n, Some(&default_with_args)), Err(GenError::DefaultConstructor { .. })));
    let empty: Vec<Constructor> = vec![];
    assert!(matches!(make_construct_fns(&n, Some(&empty)), Err(GenError::DefaultConstructor { .. })));
    assert!(matches!(make_construct_fns(&n, None), Ok(v) if v.is_empty()));
}

#[test]
fn whole_model_generates_in_order() {
    let m = model(
        vec![int_class(), string_class(), vector2_class()],
        vec![
            value("TYPE_NIL", 0),
            value("TYPE_INT", 2),
            value("TYPE_STRING", 4),
            value("TYPE_VECTOR2", 5),
            value("TYPE_OBJECT", 24),
            value("TYPE_MAX", 38),
        ],
    );
    let t = generate(&m, "float_32");
    let enums: Vec<(String, i32)> = t.variant_enumerators.iter().map(|e| (e.ident.clone(), e.value)).collect();
    assert_eq!(
        enums,
        vec![
            ("INT".to_string(), 2),
            ("STRING".to_string(), 4),
            ("VECTOR2".to_string(), 5),
            ("OBJECT".to_string(), 24),
        ]
    );
    let expected: Vec<String> = [
        "int_to_variant",
        "int_from_variant",
        "int_construct_default",
        "int_construct_copy",
        "int_from_float",
        "string_to_variant",
        "string_from_variant",
        "string_construct_default",
        "string_construct_copy",
        "string_from_string_name",
        "string_destroy",
        "string_length",
        "vector2_to_variant",
        "vector2_from_variant",
        "vector2_construct_default",
        "vector2_construct_copy",
        "vector2_from_x_y",
        "object_to_variant",
        "object_from_variant",
    ]
    .iter()
    .map(|s| s.to_string())
    .collect();
    assert_eq!(idents(&t.fields), expected);
    assert_eq!(t.fields[0].sys_variant_type, "GDNativeVariantType_GDNATIVE_VARIANT_TYPE_INT");
    assert_eq!(t.fields[0].variant_tag, 2);
    assert_eq!(t.fields[18].variant_tag, 24);
    assert!(matches!(t.fields[0].lookup, Lookup::FromTypeConstructor));
    assert!(matches!(t.fields[1].lookup, Lookup::ToTypeConstructor));
    assert!(t.fields.iter().all(|f| f.ident != "string_format"));
}

#[test]
fn generation_is_deterministic() {
    let m = model(vec![int_class(), string_class()], vec![value("TYPE_INT", 2), value("TYPE_STRING", 4)]);
    let a = generate(&m, "float_32");
    let b = generate(&m, "float_32");
    assert_eq!(idents(&a.fields), idents(&b.fields));
    let oa: Vec<(String, usize)> = a.opaque_types.iter().map(|o| (o.ident.clone(), o.size)).collect();
    let ob: Vec<(String, usize)> = b.opaque_types.iter().map(|o| (o.ident.clone(), o.size)).collect();
    assert_eq!(oa, ob);
}

#[test]
fn opaque_sizes_follow_configuration() {
    let m = model(vec![int_class()], vec![value("TYPE_INT", 2)]);
    let single = generate(&m, "float_32");
    let double = generate(&m, "double_64");
    let s: Vec<(String, usize)> = single.opaque_types.iter().map(|o| (o.ident.clone(), o.size)).collect();
    let d: Vec<(String, usize)> = double.opaque_types.iter().map(|o| (o.ident.clone(), o.size)).collect();
    assert_eq!(
        s,
        vec![("OpaqueBool".to_string(), 1), ("OpaqueInt".to_string(), 8), ("OpaqueVariant".to_string(), 24)]
    );
    assert_eq!(
        d,
        vec![("OpaqueBool".to_string(), 1), ("OpaqueInt".to_string(), 8), ("OpaqueVariant".to_string(), 40)]
    );
    assert!(generate(&m, "float_64").opaque_types.is_empty());
}

#[test]
fn model_with_bad_copy_constructor_is_rejected() {
    let mut bad = vector2_class();
    bad.constructors[1] = ctor(1, Some(vec![arg("from", "Vector3")]));
    let m = model(vec![int_class(), bad], vec![value("TYPE_INT", 2), value("TYPE_VECTOR2", 5)]);
    match load_extension_api(&m, "float_32") {
        Err(GenError::CopyConstructor { kind }) => assert_eq!(kind, "Vector2"),
        _ => panic!("expected the model to be rejected"),
    }
}

#[test]
fn unknown_value_kind_is_rejected() {
    let m = model(vec![int_class()], vec![value("TYPE_INT", 2), value("TYPE_QUATERNION", 15)]);
    match load_extension_api(&m, "float_32") {
        Err(GenError::UnknownVariantType { name }) => assert_eq!(name, "QUATERNION"),
        _ => panic!("expected an unknown-kind error"),
    }
}

#[test]
fn enumerator_without_prefix_is_rejected() {
    let m = model(vec![int_class()], vec![value("INT", 2)]);
    match load_extension_api(&m, "float_32") {
        Err(GenError::MissingTypePrefix { name }) => assert_eq!(name, "INT"),
        _ => panic!("expected a prefix error"),
    }
}

#[test]
fn separators_are_ignored_when_joining_kinds() {
    let class = BuiltinClass {
        name: "PackedByteArray".to_string(),
        has_destructor: true,
        constructors: vec![ctor(0, None), ctor(1, Some(vec![arg("from", "PackedByteArray")]))],
        methods: None,
    };
    let m = model(vec![class], vec![value("TYPE_PACKED_BYTE_ARRAY", 29)]);
    let t = generate(&m, "float_32");
    assert_eq!(
        idents(&t.fields),
        vec![
            "packed_byte_array_to_variant".to_string(),
            "packed_byte_array_from_variant".to_string(),
            "packed_byte_array_construct_default".to_string(),
            "packed_byte_array_construct_copy".to_string(),
            "packed_byte_array_destroy".to_string(),
        ]
    );
}

#[test]
fn model_without_variant_enum_gives_only_aliases() {
    let mut m = model(vec![int_class()], vec![value("TYPE_INT", 2)]);
    m.global_enums.remove(1);
    let t = generate(&m, "float_32");
    assert_eq!(t.opaque_types.len(), 3);
    assert!(t.fields.is_empty());
    assert!(t.variant_enumerators.is_empty());
}
