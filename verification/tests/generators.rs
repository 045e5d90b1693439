use rsbind::ast::desc::{ArgDesc, ImpDesc, MethodDesc, StructDesc, TraitDesc};
use rsbind::ast::types::{AstBaseType, AstType};
use rsbind::errors::RsbindError;
use rsbind::gen::bridge::{
    bridge_file_names, bridge_mod_names, bridge_services, callback_enum, find_imp, gen_common_code,
    quote_free_rust_array, quote_method_imp_call, quote_use_part,
};
use rsbind::gen::c_bridge::{
    quote_arg_convert, quote_for_structures, quote_method_sig, quote_return_convert, type_debug_text,
    CArgConvert,
};
use rsbind::gen::java::{
    fill_global_block, java_type, select_callbacks, to_transfer, trait_class, JavaModifier,
};
use rsbind::gen::jni::{contains_i8, JavaCallbackStrategy};
use rsbind::gen::mapping::{callback_method_java_sig, map_sig_arg_type, swift_type};
use rsbind::gen::swift::method_body;

use rsbind::ast::handler::AstResult;
use rsbind::gen::native::NativeFileKind;
use rsbind::gen::bridge::{gen_bridge_mod_code, gen_mode_code};
use rsbind::ast::imp::parse_imps_from_str;
use rsbind::gen::bridge::imps_are_unique;
use rsbind::gen::c_bridge::{has_plain_fields, knows_callbacks};
use rsbind::gen::swift::{count_named, try_method_body};

fn arg(name: &str, ty: AstType) -> ArgDesc {
    ArgDesc { name: name.to_string(), ty }
}

fn method(name: &str, args: Vec<ArgDesc>, ret: AstType) -> MethodDesc {
    MethodDesc { name: name.to_string(), return_type: ret, args, swallow_self: false }
}

fn trait_desc(name: &str, is_callback: bool, methods: Vec<MethodDesc>) -> TraitDesc {
    TraitDesc {
        name: name.to_string(),
        ty: "trait".to_string(),
        mod_name: "m".to_string(),
        mod_path: "contract::m".to_string(),
        crate_name: "my-crate".to_string(),
        is_callback,
        methods,
    }
}

fn int_ty(o: &str) -> AstType {
    AstType::Int(o.to_string())
}

fn cb(name: &str) -> AstType {
    AstType::Callback(name.to_string())
}

fn bytes() -> AstType {
    AstType::Vec(AstBaseType::Byte("u8".to_string()))
}

#[test]
fn java_loads_so_then_non_empty_ext_libs() {
    assert_eq!(
        fill_global_block("demo", "a,,b"),
        vec![
            "System.loadLibrary(\"demo\");",
            "System.loadLibrary(\"a\");",
            "System.loadLibrary(\"b\");"
        ]
    );
    assert_eq!(fill_global_block("demo", ""), vec!["System.loadLibrary(\"demo\");"]);
}

#[test]
fn java_type_names() {
    assert_eq!(java_type(&AstType::Boolean), "boolean");
    assert_eq!(java_type(&bytes()), "byte[]");
    assert_eq!(java_type(&AstType::Vec(AstBaseType::Int("i32".to_string()))), "Integer[]");
    assert_eq!(java_type(&AstType::Vec(AstBaseType::Struct("Foo".to_string()))), "Foo[]");
    assert_eq!(java_type(&AstType::Vec(AstBaseType::String)), "String[]");
    assert_eq!(to_transfer(&AstType::Boolean), "int");
    assert_eq!(to_transfer(&cb("Cb")), "long");
    assert_eq!(to_transfer(&AstType::Struct("Foo".to_string())), "String");
}

fn login_contract() -> (TraitDesc, Vec<TraitDesc>) {
    let callback = trait_desc(
        "Cb",
        true,
        vec![method("on_result", vec![arg("ok", AstType::Boolean)], AstType::Void)],
    );
    let service = trait_desc(
        "Svc",
        false,
        vec![method(
            "login",
            vec![arg("name", AstType::String), arg("cb", cb("Cb"))],
            AstType::Boolean,
        )],
    );
    (service, vec![callback])
}

#[test]
fn java_wrapper_class() {
    let (service, callbacks) = login_contract();
    let class = trait_class(&service, "demo", "", &callbacks);
    assert_eq!(class.name, "Svc");
    assert_eq!(class.static_block, vec!["System.loadLibrary(\"demo\");"]);
    assert_eq!(class.methods.len(), 4);

    let login = &class.methods[0];
    assert_eq!(login.name, "login");
    assert_eq!(login.modifiers, vec![JavaModifier::Public, JavaModifier::Static]);
    assert_eq!(login.result_type, "boolean");
    assert_eq!(login.args[1].ty, "Cb");
    assert_eq!(
        login.body,
        vec![
            "String r_name = name;",
            "long cb_callback_index = globalIndex.incrementAndGet();",
            "globalCallbacks.put(cb_callback_index,cb);",
            "long r_cb = cb_callback_index;",
            "int ret = native_login(r_name, r_cb);",
            "return ret > 0 ? true : false;"
        ]
    );

    assert_eq!(class.methods[1].name, "free_callback");
    assert_eq!(class.methods[1].body, vec!["globalCallbacks.remove(index);"]);

    let invoke = &class.methods[2];
    assert_eq!(invoke.name, "invoke_Cb_on_result");
    assert_eq!(invoke.result_type, "void");
    assert_eq!(invoke.args[0].ty, "long");
    assert_eq!(invoke.args[1].ty, "int");
    assert_eq!(
        invoke.body,
        vec![
            "boolean j_ok = ok > 0 ? true : false;",
            "Cb callback = (Cb) globalCallbacks.get(index);",
            "callback.on_result(j_ok);"
        ]
    );

    let native = &class.methods[3];
    assert_eq!(native.name, "native_login");
    assert_eq!(
        native.modifiers,
        vec![JavaModifier::Private, JavaModifier::Static, JavaModifier::Native]
    );
    assert_eq!(native.result_type, "int");
    assert_eq!(native.args[0].ty, "String");
    assert_eq!(native.args[1].ty, "long");
}

#[test]
fn java_wrapper_class_fields_and_imports() {
    let (service, callbacks) = login_contract();
    let class = trait_class(&service, "demo", "", &callbacks);
    assert_eq!(class.fields.len(), 2);
    assert_eq!(class.fields[0].name, "globalIndex");
    assert_eq!(class.fields[0].ty, "AtomicLong");
    assert_eq!(class.fields[0].init, "new AtomicLong(0)");
    assert_eq!(class.fields[0].modifiers, vec![JavaModifier::Private, JavaModifier::Static]);
    assert_eq!(class.fields[1].name, "globalCallbacks");
    assert_eq!(class.fields[1].ty, "ConcurrentHashMap<Long, Object>");
    assert_eq!(class.fields[1].init, "new ConcurrentHashMap<>()");
    let names: Vec<&str> = class.imports.iter().map(|i| i.name.as_str()).collect();
    assert_eq!(names, vec!["Serializable", "AtomicLong", "ConcurrentHashMap"]);
    assert_eq!(class.imports[2].package, "java.util.concurrent");

    let json = trait_desc(
        "Js",
        false,
        vec![method("list", vec![], AstType::Vec(AstBaseType::String))],
    );
    let class = trait_class(&json, "demo", "", &vec![]);
    assert!(class.methods[0].body.iter().any(|l| l.contains("Gson")));
    assert_eq!(class.imports.len(), 4);
    assert_eq!(class.imports[3].package, "com.google.gson");
    assert_eq!(class.imports[3].name, "Gson");
}

#[test]
fn java_selects_each_callback_once() {
    let callback = trait_desc("Cb", true, vec![]);
    let other = trait_desc("Other", true, vec![]);
    let service = trait_desc(
        "Svc",
        false,
        vec![
            method("a", vec![arg("x", cb("Cb"))], AstType::Void),
            method("b", vec![arg("y", cb("Missing")), arg("z", cb("Cb"))], AstType::Void),
            method("c", vec![arg("w", cb("Other"))], AstType::Void),
        ],
    );
    assert_eq!(select_callbacks(&service, &vec![other, callback]), vec![1, 0]);
}

#[test]
fn jni_callback_struct() {
    let (service, callbacks) = login_contract();
    let strategy = JavaCallbackStrategy { java_namespace: "com.x".to_string() };
    let lines = strategy.arg_convert(&arg("cb", cb("Cb")), &service, &callbacks);
    let expected = vec![
        "#[derive(Serialize, Deserialize)]",
        "struct cb_struct {",
        "index: i64,",
        "}",
        "impl Cb for cb_struct {",
        "fn on_result(&self, ok: bool) -> () {",
        "let ptr_jvm = JVM.read().unwrap();",
        "let jvm = (*ptr_jvm).as_ref().unwrap();",
        "let env = jvm.attach_current_thread_permanently().unwrap();",
        "let j_ok = if ok {1} else {0};",
        "let result = env.call_static_method(",
        "\"com/x/Svc\",",
        "\"invoke_Cb_on_result\",",
        "\"(JI)V\",",
        "&[",
        "JValue::Long(self.index),",
        "JValue::Int(j_ok),",
        "],",
        ");",
        "}",
        "}",
        "impl Drop for cb_struct {",
        "fn drop(&mut self) {",
        "let ptr_jvm = JVM.read().unwrap();",
        "let jvm = (*ptr_jvm).as_ref().unwrap();",
        "let env = jvm.attach_current_thread_permanently().unwrap();",
        "let _method_result = env.call_static_method(",
        "\"com/x/Svc\",",
        "\"free_callback\",",
        "\"(J)V\",",
        "&[JValue::Long(self.index as jlong)],",
        ");",
        "}",
        "}",
        "let r_cb: Box<cb_struct> = Box::new(cb_struct{index: cb});",
    ];
    assert_eq!(lines, expected);
}

#[test]
fn jni_types_and_signatures() {
    let strategy = JavaCallbackStrategy { java_namespace: "n".to_string() };
    let t = strategy
        .ty_to_tokens(&AstType::String, rsbind::gen::mapping::TypeDirection::Return)
        .unwrap();
    assert_eq!(t, "jstring");
    let m = method("f", vec![arg("a", int_ty("i32")), arg("b", bytes())], AstType::String);
    assert_eq!(callback_method_java_sig(&m), "(JI[B)Ljava/lang/String;");
    assert!(contains_i8("i8"));
    assert!(!contains_i8("u8"));
}

#[test]
fn c_bridge_signature_and_conversions() {
    let callback = trait_desc("Cb", true, vec![]);
    let service = trait_desc("Svc", false, vec![]);
    let m = method("add", vec![arg("a", int_ty("i32")), arg("cb", cb("Cb"))], AstType::String);
    assert_eq!(
        quote_method_sig(&service, &m, &vec![callback]),
        vec!["#[no_mangle]", "pub extern \"C\" fn m_add(a: i32, cb: m_Cb_Model) -> * mut c_char"]
    );
    let void = method("ping", vec![], AstType::Void);
    assert_eq!(quote_method_sig(&service, &void, &vec![])[1], "pub extern \"C\" fn m_ping()");

    match quote_arg_convert(&arg("data", AstType::Vec(AstBaseType::Byte("i8".to_string())))).unwrap()
    {
        CArgConvert::Lines(lines) => assert_eq!(
            lines,
            vec!["let r_data = unsafe { std::slice::from_raw_parts(data.ptr as (*const i8), data.len as usize).to_vec() };"]
        ),
        CArgConvert::Callback => panic!("not a callback"),
    }
    match quote_arg_convert(&arg("flag", AstType::Boolean)).unwrap() {
        CArgConvert::Lines(lines) => {
            assert_eq!(lines, vec!["let r_flag = if flag > 0 {true} else {false};"])
        }
        CArgConvert::Callback => panic!("not a callback"),
    }
    assert!(matches!(quote_arg_convert(&arg("cb", cb("Cb"))), Ok(CArgConvert::Callback)));
    assert_eq!(
        quote_arg_convert(&arg("s", AstType::Struct("Foo".to_string()))).unwrap_err(),
        RsbindError::GenerateError("find unsupported type in arg, Struct(\"Foo\")".to_string())
    );
    match quote_arg_convert(&arg("x", AstType::Short("i16".to_string()))).unwrap() {
        CArgConvert::Lines(lines) => assert_eq!(lines, vec!["let r_x = x as i16;"]),
        CArgConvert::Callback => panic!("not a callback"),
    }
    assert_eq!(quote_return_convert(&AstType::Boolean, "result"), vec!["if result {1} else {0}"]);
    assert_eq!(quote_return_convert(&int_ty("i32"), "result"), vec!["result as i32"]);
    assert!(quote_return_convert(&AstType::Void, "result").is_empty());
}

#[test]
fn c_bridge_debug_text_matches_debug() {
    let types = vec![
        AstType::Void,
        AstType::Short("i16".to_string()),
        AstType::Struct("Foo".to_string()),
        AstType::Vec(AstBaseType::Int("i32".to_string())),
        AstType::Boolean,
    ];
    for t in types.iter() {
        assert_eq!(type_debug_text(t), format!("{:?}", t));
    }
}

#[test]
fn c_bridge_struct_copy() {
    let s = StructDesc {
        name: "S".to_string(),
        ty: "struct".to_string(),
        mod_name: "m".to_string(),
        mod_path: "contract::m".to_string(),
        crate_name: "c".to_string(),
        fields: vec![arg("a", int_ty("i32")), arg("b", AstType::String)],
    };
    assert_eq!(
        quote_for_structures(&s),
        vec![
            "#[repr(C)]",
            "#[derive(Serialize, Deserialize)]",
            "pub struct Struct_S {",
            "pub a: i32, pub b: String",
            "}",
            "impl From<S> for Struct_S {",
            "fn from(origin: S) -> Self {",
            "Struct_S{a: origin.a, b: origin.b}",
            "}",
            "}"
        ]
    );
}

fn imp(name: &str, contract: &str, path: &str) -> ImpDesc {
    ImpDesc { name: name.to_string(), contract: contract.to_string(), mod_path: path.to_string() }
}

#[test]
fn bridge_finds_implementations() {
    let svc = trait_desc("Svc", false, vec![]);
    let imps = vec![imp("Other", "X", "imp::x"), imp("SvcImp", "Svc", "imp::m")];
    assert_eq!(find_imp(&svc, &imps), Ok(1));
    assert_eq!(
        find_imp(&svc, &vec![]),
        Err(RsbindError::GenerateError("No impl found for trait Svc".to_string()))
    );
}

#[test]
fn bridge_files_and_modules() {
    let mods = vec!["m1".to_string(), "m2".to_string()];
    assert_eq!(bridge_file_names("c", &mods), vec!["c_m1.rs", "c_m2.rs", "lib.rs", "common.rs"]);
    assert_eq!(bridge_mod_names("c", &mods), vec!["c_m1", "c_m2", "common"]);
}

#[test]
fn bridge_use_part_and_services() {
    let mut a = trait_desc("A", false, vec![]);
    a.mod_path = "contract::a".to_string();
    let callback = trait_desc("Cb", true, vec![]);
    let mut b = trait_desc("B", false, vec![]);
    b.mod_path = "contract::b".to_string();
    let lonely = trait_desc("NoImp", false, vec![]);
    let traits = vec![a, callback, b, lonely];
    let imps = vec![imp("BImp", "B", "imp::b"), imp("AImp", "A", "imp::a")];
    assert_eq!(
        quote_use_part("my-crate", &traits, &imps),
        vec![
            "use my_crate::contract::b::*;",
            "use my_crate::imp::b::*;",
            "use my_crate::contract::a::*;",
            "use my_crate::imp::a::*;"
        ]
    );
    assert_eq!(bridge_services(&traits, &imps), vec![(0, 1), (2, 0)]);
    assert_eq!(
        callback_enum(&traits),
        vec!["enum CallbackEnum {", "Cb(Box<dyn Cb>)", "}"]
    );
}

#[test]
fn bridge_imp_call_and_common_code() {
    let m = method("add", vec![arg("a", int_ty("i32")), arg("b", int_ty("i32"))], int_ty("i32"));
    assert_eq!(quote_method_imp_call("Imp", &m), "let result = Imp::add(r_a, r_b);");
    let free = quote_free_rust_array("free_i8_array", "i8");
    assert_eq!(free[1], "pub extern \"C\" fn free_i8_array(ptr: *mut i8, length: i32) {");
    let common = gen_common_code();
    assert_eq!(common[0], "use std::panic::*;");
    assert_eq!(common.len(), 4 + 4 * 7 + 4 * 11 + 14);
    assert_eq!(common[6], "pub struct CInt8Array {");
}

#[test]
fn swift_method_body_with_bytes() {
    let svc = trait_desc("Svc", false, vec![]);
    let m = method("send", vec![arg("a", int_ty("i32")), arg("data", bytes())], int_ty("i32"));
    assert_eq!(
        method_body(&svc, &m, &vec![]),
        vec![
            "data.withUnsafeBufferPointer { data_buffer in",
            "let s_a = Int32(a)",
            "let s_data = CInt8Array(ptr: data_buffer.baseAddress, len: Int32(data_buffer.count))",
            "let result = m_send(s_a, s_data)",
            "let s_result = Int32(result)",
            "return s_result",
            "}"
        ]
    );
}

#[test]
fn swift_void_method_passes_every_argument() {
    let svc = trait_desc("Svc", false, vec![]);
    let m = method("login", vec![arg("user", AstType::String), arg("pwd", AstType::String)], AstType::Void);
    let body = method_body(&svc, &m, &vec![]);
    assert!(body.iter().any(|l| l == "m_login(s_user, s_pwd)"));
}

#[test]
fn swift_and_c_type_names() {
    assert_eq!(swift_type(&AstType::Vec(AstBaseType::String)), "[String]");
    assert_eq!(swift_type(&AstType::Boolean), "Bool");
    assert_eq!(map_sig_arg_type(&AstType::String), "* const c_char");
}

#[test]
fn native_artifact_files() {
    let mut ast = AstResult::empty();
    ast.insert_module(
        "m".to_string(),
        vec![trait_desc("Svc", false, vec![]), trait_desc("Cb", true, vec![])],
        vec![StructDesc {
            name: "S".to_string(),
            ty: "struct".to_string(),
            mod_name: "m".to_string(),
            mod_path: "contract::m".to_string(),
            crate_name: "c".to_string(),
            fields: vec![],
        }],
    );
    let files = ast.native_files("swift");
    let names: Vec<String> = files.iter().map(|f| f.name.clone()).collect();
    assert_eq!(
        names,
        vec![
            "Cb.swift",
            "InternalCb.swift",
            "InternalSvc.swift",
            "RustSvc.swift",
            "Svc.swift",
            "S.swift",
            "RustLib.swift"
        ]
    );
    assert_eq!(files[2].kind, NativeFileKind::BridgeTrait);
    assert_eq!(files[5].kind, NativeFileKind::Struct);
    assert_eq!(files[6].kind, NativeFileKind::Manager);
}

#[test]
fn bridge_directory_modules() {
    assert_eq!(
        gen_bridge_mod_code(&vec!["c_m".to_string()]),
        vec!["pub mod c_m;", "pub mod sdk;", "pub mod common;"]
    );
    assert_eq!(gen_mode_code(), vec!["pub mod bridge;"]);
}

#[test]
fn implementations_are_read() {
    let src = "pub struct SvcImp {} impl Svc for SvcImp { fn f() {} } impl SvcImp { fn g() {} } impl crate::contract::Other for my::Imp2 {}";
    let imps = parse_imps_from_str(src, "imp::m").unwrap();
    assert_eq!(imps, vec![imp("SvcImp", "Svc", "imp::m"), imp("Imp2", "Other", "imp::m")]);
    assert!(matches!(parse_imps_from_str("impl {", "imp::m"), Err(RsbindError::ParseError(_))));
}

#[test]
fn checks_before_generation() {
    let svc = trait_desc("Svc", false, vec![]);
    let twice = vec![imp("A", "Svc", "imp::a"), imp("B", "Svc", "imp::b")];
    assert!(!imps_are_unique(&vec![svc.clone()], &twice));
    assert!(imps_are_unique(&vec![svc.clone()], &twice[..1].to_vec()));
    let args = vec![arg("cb", cb("Missing"))];
    assert!(!knows_callbacks(&args, &vec![]));
    assert_eq!(count_named("Cb", &vec![trait_desc("Cb", true, vec![]), trait_desc("Cb", true, vec![])]), 2);
    let m = method("f", args, AstType::Void);
    assert!(try_method_body(&svc, &m, &vec![]).is_none());
    let s = StructDesc {
        name: "S".to_string(),
        ty: "struct".to_string(),
        mod_name: "m".to_string(),
        mod_path: "p".to_string(),
        crate_name: "c".to_string(),
        fields: vec![arg("v", bytes())],
    };
    assert!(!has_plain_fields(&s));
}
