use gdext_builtin::cache::InterfaceCache;
use gdext_builtin::codegen::{CacheField, Lookup};
use gdext_builtin::config::BuildConfig;
use gdext_builtin::ffi::{from_sys_init, write_sys, GodotFfi, IntFunnel};
use gdext_builtin::init::{InitLevel, InitOptions};
use gdext_builtin::names::{str_concat, remove_underscores, str_eq, strip_prefix};
use gdext_builtin::opaque::Opaque;
use gdext_builtin::variant::{from_type_converter, to_type_converter, Variant};
use gdext_builtin::vector::Vector2i;

fn field(ident: &str) -> CacheField {
    CacheField {
        ident: ident.to_string(),
        sys_variant_type: "GDNativeVariantType_GDNATIVE_VARIANT_TYPE_BOOL".to_string(),
        variant_tag: 1,
        lookup: Lookup::FromTypeConstructor,
    }
}

fn plan() -> Vec<CacheField> {
    vec![field("bool_to_variant"), field("bool_from_variant"), field("int_to_variant")]
}

#[test]
fn cache_resolves_every_field() {
    let cache = match InterfaceCache::new(BuildConfig::Float64, &plan(), &vec![Some(10), Some(20), Some(30)]) {
        Ok(c) => c,
        Err(_) => panic!("all fields were resolved"),
    };
    assert_eq!(cache.config(), BuildConfig::Float64);
    assert_eq!(cache.get("bool_from_variant"), Some(20));
    assert_eq!(cache.get("int_to_variant"), Some(30));
    assert_eq!(cache.get("string_to_variant"), None);
    assert_eq!(from_type_converter(&cache, "bool"), Some(10));
    assert_eq!(to_type_converter(&cache, "bool"), Some(20));
    assert_eq!(to_type_converter(&cache, "int"), None);
}

#[test]
fn cache_with_one_missing_function_fails() {
    match InterfaceCache::new(BuildConfig::Float64, &plan(), &vec![Some(10), None, Some(30)]) {
        Err(e) => {
            assert_eq!(e.ident, "bool_from_variant");
            assert_eq!(e.message(), "failed to load GDExtension function `bool_from_variant`");
        }
        Ok(_) => panic!("a missing function must fail the cache"),
    }
    match InterfaceCache::new(BuildConfig::Float64, &plan(), &vec![Some(10), Some(20)]) {
        Err(e) => assert_eq!(e.ident, "int_to_variant"),
        Ok(_) => panic!("an unanswered field must fail the cache"),
    }
    match InterfaceCache::new(BuildConfig::Float64, &plan(), &vec![None, None, None]) {
        Err(e) => assert_eq!(e.ident, "bool_to_variant"),
        Ok(_) => panic!("missing functions must fail the cache"),
    }
}

#[test]
fn bool_round_trip() {
    for b in [false, true] {
        let bytes = b.to_sys();
        assert_eq!(bytes, vec![b as u8]);
        assert_eq!(bool::from_sys(&bytes), b);
    }
    assert!(bool::from_sys(&[7]));
    assert_eq!(bool::sys_size(), 1);
}

#[test]
fn i64_round_trip() {
    assert_eq!(1i64.to_sys(), vec![1, 0, 0, 0, 0, 0, 0, 0]);
    assert_eq!((-1i64).to_sys(), vec![255; 8]);
    assert_eq!(0x0102030405060708i64.to_sys(), vec![8, 7, 6, 5, 4, 3, 2, 1]);
    for v in [0i64, 1, -1, 42, i64::MIN, i64::MAX] {
        assert_eq!(i64::from_sys(&v.to_sys()), v);
    }
}

#[test]
fn narrow_integers_round_trip_through_i64() {
    for v in [0u8, 1, 200, u8::MAX] {
        assert_eq!(u8::narrow(i64::from_sys(&v.widen().to_sys())), v);
    }
    for v in [0u16, 65535] {
        assert_eq!(u16::narrow(v.widen()), v);
    }
    for v in [0u32, u32::MAX] {
        assert_eq!(u32::narrow(v.widen()), v);
    }
    for v in [0u64, u64::MAX, 1 << 63] {
        assert_eq!(u64::narrow(i64::from_sys(&v.widen().to_sys())), v);
    }
    for v in [i8::MIN, -1, i8::MAX] {
        assert_eq!(i8::narrow(v.widen()), v);
    }
    for v in [i16::MIN, i16::MAX] {
        assert_eq!(i16::narrow(v.widen()), v);
    }
    for v in [i32::MIN, -5, i32::MAX] {
        assert_eq!(i32::narrow(v.widen()), v);
    }
    assert_eq!(u64::MAX.widen(), -1);
}

#[test]
fn narrowing_wraps_without_check() {
    assert_eq!(u8::narrow(300), 44);
    assert_eq!(i8::narrow(128), -128);
    assert_eq!(u32::narrow(-1), u32::MAX);
}

#[test]
fn vector2i_round_trip() {
    let v = Vector2i::new(-3, 70000);
    let bytes = v.to_sys();
    assert_eq!(bytes.len(), 8);
    assert_eq!(&bytes[0..4], &(-3i32).to_le_bytes());
    assert_eq!(&bytes[4..8], &70000i32.to_le_bytes());
    assert_eq!(Vector2i::from_sys(&bytes), v);
    let mut dst = vec![0u8; 8];
    write_sys(&Vector2i::new(1, 2), &mut dst);
    assert_eq!(dst, vec![1, 0, 0, 0, 2, 0, 0, 0]);
}

#[test]
fn from_sys_init_reads_what_init_wrote() {
    let v: i64 = from_sys_init(|b: &mut [u8]| {
        b[0] = 5;
        b[1] = 1;
    });
    assert_eq!(v, 261);
}

#[test]
fn opaque_holds_exactly_its_size() {
    let a: Opaque<24> = Opaque::zeroed();
    assert_eq!(a.size(), 24);
    assert_eq!(a.as_bytes().len(), 24);
    let b: Opaque<40> = Opaque::with_init(|bytes: &mut [u8]| {
        assert_eq!(bytes.len(), 40);
        bytes[39] = 9;
    });
    assert_eq!(b.as_bytes()[39], 9);
    assert_eq!(b.to_sys().len(), 40);
    assert_eq!(std::mem::size_of::<Opaque<24>>(), 24);
    assert_eq!(std::mem::size_of::<Opaque<40>>(), 40);
}

#[test]
fn opaque_copies_bytes() {
    let src: Vec<u8> = (0..16).collect();
    let o: Opaque<16> = Opaque::from_sys(&src);
    assert_eq!(o.to_sys(), src);
    let mut o2: Opaque<16> = Opaque::zeroed();
    o2.as_bytes_mut()[3] = 77;
    assert_eq!(o2.as_bytes()[3], 77);
}

#[test]
fn variant_size_follows_configuration() {
    assert_eq!(Variant::uninit(BuildConfig::Float32).size(), 24);
    assert_eq!(Variant::uninit(BuildConfig::Float64).size(), 24);
    assert_eq!(Variant::uninit(BuildConfig::Double32).size(), 40);
    assert_eq!(Variant::uninit(BuildConfig::Double64).size(), 40);
    assert_eq!(BuildConfig::Float32.variant_size(), 24);
    assert_eq!(BuildConfig::Double64.variant_size(), 40);
    assert_eq!(BuildConfig::Float32.name(), "float_32");
    assert_eq!(BuildConfig::Double64.name(), "double_64");
}

#[test]
fn variant_is_not_linked_across_configurations() {
    let fields = plan();
    let single = match InterfaceCache::new(BuildConfig::Float64, &fields, &vec![Some(1), Some(2), Some(3)]) {
        Ok(c) => c,
        Err(_) => panic!("resolved"),
    };
    let double = match InterfaceCache::new(BuildConfig::Double64, &fields, &vec![Some(1), Some(2), Some(3)]) {
        Ok(c) => c,
        Err(_) => panic!("resolved"),
    };
    let v = Variant::uninit_for(&single);
    assert_eq!(v.size(), 24);
    assert!(v.matches_cache(&single));
    assert!(!v.matches_cache(&double));
    let w = Variant::uninit_for(&double);
    assert_eq!(w.size(), 40);
    assert!(w.matches_cache(&double));
    assert!(!w.matches_cache(&single));
}

#[test]
fn variant_bytes_copy_in_and_out() {
    let src: Vec<u8> = (100..124).collect();
    let v = Variant::clone_from_sys(BuildConfig::Float32, &src);
    assert_eq!(v.as_bytes(), &src[..]);
    let mut dst = vec![0u8; 24];
    v.clone_into_sys(&mut dst);
    assert_eq!(dst, src);
    let mut w = Variant::uninit(BuildConfig::Float32);
    w.as_bytes_mut()[0] = 1;
    assert_eq!(w.as_bytes()[0], 1);
    assert_eq!(w.config(), BuildConfig::Float32);
}

#[test]
fn init_level_host_values() {
    assert_eq!(InitLevel::from_sys(0), InitLevel::Core);
    assert_eq!(InitLevel::from_sys(1), InitLevel::Servers);
    assert_eq!(InitLevel::from_sys(2), InitLevel::Scene);
    assert_eq!(InitLevel::from_sys(3), InitLevel::Editor);
    assert_eq!(InitLevel::from_sys(99), InitLevel::Scene);
    assert_eq!(InitLevel::Editor.to_sys(), 3);
    assert_eq!(InitLevel::default(), InitLevel::Scene);
    assert_eq!(InitLevel::Core.earlier(InitLevel::Scene), InitLevel::Core);
}

#[test]
fn init_options_track_lowest_level() {
    let mut o: InitOptions<u32> = InitOptions::new();
    assert_eq!(o.lowest_init_level(), InitLevel::Scene);
    assert!(!o.register_init_function(InitLevel::Editor, 1));
    assert_eq!(o.lowest_init_level(), InitLevel::Scene);
    assert!(!o.register_deinit_function(InitLevel::Servers, 2));
    assert_eq!(o.lowest_init_level(), InitLevel::Servers);
    assert!(o.register_init_function(InitLevel::Editor, 3));
    assert_eq!(o.init_function(InitLevel::Editor), Some(&3));
    assert_eq!(o.init_function(InitLevel::Core), None);
    assert_eq!(o.deinit_function(InitLevel::Servers), Some(&2));
    assert_eq!(o.deinit_function(InitLevel::Editor), None);
    let d: InitOptions<u32> = InitOptions::default();
    assert_eq!(d.lowest_init_level(), InitLevel::Scene);
    assert_eq!(d.init_function(InitLevel::Scene), None);
}

#[test]
fn text_helpers() {
    assert_eq!(remove_underscores("PACKED_BYTE_ARRAY"), "PACKEDBYTEARRAY");
    assert_eq!(remove_underscores(""), "");
    assert_eq!(strip_prefix("TYPE_INT", "TYPE_"), Some("INT".to_string()));
    assert_eq!(strip_prefix("TYPE", "TYPE_"), None);
    assert_eq!(strip_prefix("♥TYPE_", "TYPE_"), None);
    assert!(str_eq("héllo", "héllo"));
    assert!(!str_eq("a", "b"));
    assert_eq!(str_concat("a♥", "b"), "a♥b");
}
