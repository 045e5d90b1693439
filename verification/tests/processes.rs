use rsbind::ast::desc::TraitDesc;
use rsbind::ast::handler::{AstHandler, AstResult};
use rsbind::config::android::Android;
use rsbind::config::arch::Arch;
use rsbind::config::ios::Ios;
use rsbind::config::jar::Jar;
use rsbind::config::{Common, Config};
use rsbind::process::{AndroidProcess, IosProcess, JarProcess};

#[test]
fn ios_bridge_command_builds_and_merges_every_target() {
    let ast = AstResult::empty();
    let p = IosProcess::new("/o", "/a", "/b", "/h", "my-crate", &ast, None);
    assert_eq!(p.lib_name(), "libmy_crate_ios_bridge_prj.a");
    let lib = "libmy_crate_ios_bridge_prj.a";
    let mut expected = "true".to_string();
    let archs = ["aarch64-apple-ios", "armv7-apple-ios", "i386-apple-ios", "x86_64-apple-ios"];
    for a in archs.iter() {
        expected.push_str(&format!(
            " && cargo rustc --target {}  --lib --release --target-dir target ",
            a
        ));
    }
    expected.push_str(&format!(" && lipo -create -output target/universal/release/{}", lib));
    for a in archs.iter() {
        expected.push_str(&format!(" target/{}/release/{}", a, lib));
    }
    assert_eq!(p.bridge_build_cmd(), expected);
    assert_eq!(p.universal_lib(), vec!["target", "universal", "release", lib]);
}

#[test]
fn ios_debug_build_with_one_target() {
    let ast = AstResult::empty();
    let config = Ios {
        rustc_param: Some("-v".to_string()),
        arch_phone: Some(vec!["aarch64-apple-ios".to_string()]),
        arch_simu: Some(vec![]),
        release: Some(false),
        features_def: None,
    };
    let p = IosProcess::new("/o", "/a", "/b", "/h", "c", &ast, Some(config));
    assert_eq!(
        p.bridge_build_cmd(),
        "true && cargo rustc --target aarch64-apple-ios  --lib  --target-dir target -v && lipo -create -output target/universal/debug/libc_ios_bridge_prj.a target/aarch64-apple-ios/debug/libc_ios_bridge_prj.a"
    );
    assert_eq!(
        p.artifact_build_cmd("P", "S", "I", "U"),
        "xcodebuild -scheme rustlib -project P -sdk iphonesimulator  -configuration Release CONFIGURATION_BUILD_DIR=S clean build && xcodebuild -scheme rustlib -project P -sdk iphoneos -configuration Release CONFIGURATION_BUILD_DIR=I clean build && cp -R S/rustlib.framework U && lipo -create \"S/rustlib.framework/rustlib\" \"I/rustlib.framework/rustlib\" -output \"U/rustlib.framework/rustlib\""
    );
}

#[test]
fn android_build_plan() {
    let ast = AstResult::empty();
    let p = AndroidProcess::new("/o", "/a", "/bridge", "my-crate", &ast, None);
    assert_eq!(p.lib_name(), "libmy_crate_android_bridge_prj.so");
    let c = p.build_config();
    assert_eq!(c.lib_name, "libmy_crate_android_bridge_prj.so");
    assert_eq!(c.arch_list.len(), 4);
    assert!(c.is_release);
    assert_eq!(c.target_dir, "target");
    assert_eq!(c.project_dir, "/bridge");
    assert_eq!(c.sdk_version, 21);
    assert_eq!(
        c.cargo_args("aarch64-linux-android", 7272597),
        vec!["rustc", "--target", "aarch64-linux-android", "--lib", "--target-dir", "target", "--release"]
    );
    assert_eq!(
        c.cargo_args("x", 8000000),
        vec![
            "rustc",
            "--target",
            "x",
            "--lib",
            "--target-dir",
            "target",
            "--release",
            "--",
            "-L",
            "target/cargo-apk-temp-extra-link-libraries"
        ]
    );
    assert_eq!(c.strip_target("x"), "target/x/release/libmy_crate_android_bridge_prj.so");
    assert_eq!(p.abi_dirs().len(), 5);
    assert_eq!(
        p.built_lib("i686-linux-android"),
        vec!["target", "i686-linux-android", "release", "libmy_crate_android_bridge_prj.so"]
    );
    assert_eq!(p.renamed_lib(), "libffi.so");
    assert_eq!(p.java_src_dir(), vec!["rustlib", "src", "main", "java", "com", "afoxer", "xxx", "ffi"]);
    assert_eq!(
        p.fill_manifest("<manifest package=\"$(*521%-namespace)\"/>"),
        "<manifest package=\"com.afoxer.xxx.ffi\"/>"
    );
    assert_eq!(p.artifact_build_cmd(), "chmod a+x ./gradlew && ./gradlew aR");
}

#[test]
fn manifest_placeholder_replaced_everywhere() {
    let ast = AstResult::empty();
    let mut config = Android::default();
    config.namespace = Some("x.y".to_string());
    let p = AndroidProcess::new("/o", "/a", "/b", "c", &ast, Some(config));
    assert_eq!(
        p.fill_manifest("$(*521%-namespace)|$(*521%-namespace|$(*521%-namespace)"),
        "x.y|$(*521%-namespace|x.y"
    );
}

#[test]
fn manifest_placeholders_side_by_side() {
    let ast = AstResult::empty();
    let mut config = Android::default();
    config.namespace = Some("ü.v".to_string());
    let p = AndroidProcess::new("/o", "/a", "/b", "c", &ast, Some(config));
    assert_eq!(p.fill_manifest("é$(*521%-namespace)$(*521%-namespace)$(*521"), "éü.vü.v$(*521");
    assert_eq!(p.fill_manifest(""), "");
}

#[test]
fn android_configured_so_name() {
    let ast = AstResult::empty();
    let mut config = Android::default();
    config.so_name = Some("demo".to_string());
    config.namespace = Some("a.b".to_string());
    let p = AndroidProcess::new("/o", "/a", "/b", "c", &ast, Some(config));
    assert_eq!(p.renamed_lib(), "libdemo.so");
    assert_eq!(p.jni_libs_dir("x86"), vec!["rustlib", "src", "main", "jniLibs", "x86"]);
    assert_eq!(p.java_src_dir(), vec!["rustlib", "src", "main", "java", "a", "b"]);
}

#[test]
fn jar_build_plan() {
    let ast = AstResult::empty();
    let p = JarProcess::new("/o", "/a", "/b", "my-crate", &ast, None);
    assert_eq!(p.lib_extension_name("windows"), "dll");
    assert_eq!(p.lib_extension_name("macos"), "dylib");
    assert_eq!(p.lib_extension_name("linux"), "so");
    assert_eq!(p.lib_name("linux"), "libmy_crate_jar_bridge_prj.so");
    assert_eq!(p.bridge_build_cmd(), "cargo build --lib --release --target-dir target ");
    assert_eq!(p.renamed_lib("macos"), "libffi.dylib");
    assert_eq!(
        p.natives_dir(&Arch::from_target("linux", "x86_64")),
        vec!["rustlib", "src", "main", "resources", "natives", "linux_64"]
    );
    assert_eq!(p.built_lib("linux"), vec!["target", "release", "libmy_crate_jar_bridge_prj.so"]);
    assert_eq!(p.artifact_build_cmd(), "chmod a+x ./gradlew && ./gradlew assemble");
}

#[test]
fn jar_command_with_features_and_rustc_param() {
    let ast = AstResult::empty();
    let mut config = Jar::default();
    config.rustc_param = Some("-Z x".to_string());
    config.features_def = Some(vec!["a".to_string(), "b".to_string()]);
    config.release = Some(false);
    let p = JarProcess::new("/o", "/a", "/b", "c", &ast, Some(config));
    assert_eq!(
        p.bridge_build_cmd(),
        "cargo build --lib  --target-dir target -Z x --features a,b -Z x"
    );
}

fn named_trait(name: &str, is_callback: bool) -> TraitDesc {
    TraitDesc {
        name: name.to_string(),
        ty: "trait".to_string(),
        mod_name: "m".to_string(),
        mod_path: "contract::m".to_string(),
        crate_name: "c".to_string(),
        is_callback,
        methods: vec![],
    }
}

#[test]
fn ast_result_modules_and_callbacks() {
    let mut ast = AstResult::empty();
    ast.insert_module("m1".to_string(), vec![named_trait("A", false), named_trait("Cb", true)], vec![]);
    ast.insert_module("m2".to_string(), vec![named_trait("Cb2", true)], vec![]);
    ast.insert_module("m1".to_string(), vec![named_trait("Cb3", true)], vec![]);
    assert_eq!(ast.traits.len(), 2);
    assert_eq!(ast.traits[0].0, "m1");
    let names: Vec<String> = ast.callbacks().into_iter().map(|t| t.name).collect();
    assert_eq!(names, vec!["Cb3", "Cb2"]);
    assert!(ast.structs_of("m2").is_some());
    assert!(ast.structs_of("m3").is_none());
    assert_eq!(ast.ast_file_name("m1", "A"), "m1_A.json");
}

#[test]
fn source_layout_defaults_and_configured() {
    let handler = AstHandler::new("c".to_string());
    let layout = handler.source_layout(&None);
    assert_eq!(layout.contract_dir, "src/contract");
    assert_eq!(layout.imp_file, "src/imp.rs");
    assert_eq!(layout.rsbind_file, "src/rsbind.rs");
    let config = Config {
        android: None,
        ios: None,
        jar: None,
        common: Some(Common { contract_name: Some("api".to_string()), imp_name: Some("".to_string()) }),
    };
    let layout = handler.source_layout(&Some(config));
    assert_eq!(layout.contract_dir, "src/api");
    assert_eq!(layout.contract_file, "src/api.rs");
    assert_eq!(layout.imp_dir, "src/imp");
    assert_eq!(handler.mod_path("api", "user"), "api::user");
    assert!(!handler.reads_contract_file("mod.rs"));
    assert!(handler.reads_contract_file("user.rs"));
}
