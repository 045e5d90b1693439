use rsbind::ast::parser::ParseContext;
use rsbind::ast::types::{AstBaseType, AstType};
use rsbind::config::android::Android;
use rsbind::config::arch::Arch;
use rsbind::config::ios::Ios;
use rsbind::config::jar::Jar;
use rsbind::text::{join_strings, replace_chars, split_chars};

fn ctx() -> ParseContext {
    ParseContext {
        crate_name: "demo".to_string(),
        mod_name: "m".to_string(),
        mod_path: "contract::m".to_string(),
    }
}

#[test]
fn android_defaults() {
    let a = Android::default();
    assert_eq!(a.namespace(), "com.afoxer.xxx.ffi");
    assert_eq!(a.so_name(), "ffi");
    assert_eq!(a.rustc_param(), "");
    assert!(a.is_release());
    assert_eq!(
        a.archs(),
        vec![
            "armv7-linux-androideabi",
            "arm-linux-androideabi",
            "aarch64-linux-android",
            "i686-linux-android"
        ]
    );
    assert_eq!(a.ext_libs(), "");
    assert!(a.features().is_empty());
}

#[test]
fn android_configured_values() {
    let a = Android {
        ndk_stand_alone: None,
        rustc_param: Some("-v".to_string()),
        arch: Some(vec!["x86_64-linux-android".to_string()]),
        release: Some(false),
        namespace: Some("com.example".to_string()),
        so_name: Some("demo".to_string()),
        ext_lib: Some(vec!["a".to_string(), "b".to_string()]),
        features_def: Some(vec!["f1".to_string()]),
    };
    assert_eq!(a.namespace(), "com.example");
    assert_eq!(a.so_name(), "demo");
    assert_eq!(a.rustc_param(), "-v");
    assert!(!a.is_release());
    assert_eq!(a.archs(), vec!["x86_64-linux-android"]);
    assert_eq!(a.ext_libs(), "a,b");
    assert_eq!(a.features(), vec!["f1"]);
}

#[test]
fn android_release_unset_means_release() {
    let mut a = Android::default();
    a.release = None;
    assert!(a.is_release());
}

#[test]
fn ios_defaults_and_release_str() {
    let i = Ios::default();
    assert_eq!(i.iphoneos_archs(), vec!["aarch64-apple-ios", "armv7-apple-ios"]);
    assert_eq!(i.simulator_archs(), vec!["i386-apple-ios", "x86_64-apple-ios"]);
    assert_eq!(i.release_str(), "--release");
    let debug = Ios {
        rustc_param: None,
        arch_phone: None,
        arch_simu: None,
        release: Some(false),
        features_def: None,
    };
    assert_eq!(debug.release_str(), "");
    assert_eq!(debug.iphoneos_archs(), vec!["aarch64-apple-ios", "armv7-apple-ios"]);
}

#[test]
fn jar_defaults() {
    let j = Jar::default();
    assert_eq!(j.namespace(), "com.afoxer.xxx.ffi");
    assert_eq!(j.dylib_name(), "ffi");
    assert_eq!(j.release_str(), "--release");
    assert_eq!(j.ext_libs(), "");
    let mut k = Jar::default();
    k.ext_lib = Some(vec!["x".to_string(), "".to_string(), "y".to_string()]);
    assert_eq!(k.ext_libs(), "x,,y");
}

#[test]
fn arch_names() {
    assert_eq!(Arch::from_target("linux", "x86_64").as_string(), "linux_64");
    assert_eq!(Arch::from_target("macos", "aarch64").as_string(), "osx_arm64");
    assert_eq!(Arch::from_target("windows", "x86").as_string(), "windows_32");
    assert_eq!(Arch::from_target("freebsd", "x86_64").as_string(), "unknown");
}

#[test]
fn type_origins() {
    let c = ctx();
    assert_eq!(AstType::new("i32", "", &c), AstType::Int("i32".to_string()));
    assert_eq!(AstType::new("i32", "", &c).origin(), "i32");
    assert_eq!(AstType::new("str", "", &c), AstType::String);
    assert_eq!(AstType::new("str", "", &c).origin(), "String");
    assert_eq!(AstType::new("bool", "", &c).origin(), "bool");
    assert_eq!(AstType::new("Box", "Cb", &c), AstType::Callback("Cb".to_string()));
    assert_eq!(AstType::new("Foo", "Foo", &c), AstType::Struct("Foo".to_string()));
    assert_eq!(AstType::Vec(AstBaseType::new("u16", "", &c)).origin(), "Vec<u16>");
    assert_eq!(AstBaseType::new("f64", "", &c).origin(), "f64");
}

#[test]
fn java_signatures() {
    assert_eq!(AstType::Boolean.to_java_sig(), "I");
    assert_eq!(AstType::Long("i64".to_string()).to_java_sig(), "J");
    assert_eq!(AstType::Vec(AstBaseType::Byte("u8".to_string())).to_java_sig(), "[B");
    assert_eq!(AstType::Vec(AstBaseType::Int("i32".to_string())).to_java_sig(), "Ljava/lang/String;");
    assert_eq!(AstType::Void.to_java_sig(), "V");
}

#[test]
fn split_and_join() {
    let parts = split_chars("a,,b", ',');
    assert_eq!(parts, vec!["a", "", "b"]);
    assert_eq!(join_strings(&parts, ","), "a,,b");
    assert_eq!(split_chars("", ','), vec![""]);
    assert_eq!(replace_chars("my-crate-x", '-', '_'), "my_crate_x");
}
