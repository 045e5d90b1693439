use rsbind::ast::desc::{ArgDesc, ImpDesc, MethodDesc, StructDesc, TraitDesc};
use rsbind::ast::handler::AstResult;
use rsbind::ast::types::AstType;
use rsbind::errors::RsbindError;
use rsbind::gen::c_file::{
    gen_c_bridge_files, quote_args_convert, quote_for_one_trait, quote_for_one_trait_method,
    quote_one_bridge_file,
};

fn arg(name: &str, ty: AstType) -> ArgDesc {
    ArgDesc { name: name.to_string(), ty }
}

fn method(name: &str, args: Vec<ArgDesc>, ret: AstType) -> MethodDesc {
    MethodDesc { name: name.to_string(), return_type: ret, args, swallow_self: false }
}

fn service(name: &str, methods: Vec<MethodDesc>) -> TraitDesc {
    TraitDesc {
        name: name.to_string(),
        ty: "trait".to_string(),
        mod_name: "m".to_string(),
        mod_path: "contract::m".to_string(),
        crate_name: "my-crate".to_string(),
        is_callback: false,
        methods,
    }
}

fn imp(name: &str, contract: &str) -> ImpDesc {
    ImpDesc { name: name.to_string(), contract: contract.to_string(), mod_path: "imp::m".to_string() }
}

fn add_method() -> MethodDesc {
    method(
        "add",
        vec![arg("a", AstType::Int("i32".to_string())), arg("ok", AstType::Boolean)],
        AstType::Int("i32".to_string()),
    )
}

fn add_lines() -> Vec<&'static str> {
    vec![
        "#[no_mangle]",
        "pub extern \"C\" fn m_add(a: i32, ok: i32) -> i32",
        "{",
        "let r_a = a as i32;",
        "let r_ok = if ok > 0 {true} else {false};",
        "let result = SvcImp::add(r_a, r_ok);",
        "result as i32",
        "}",
    ]
}

#[test]
fn c_method_function_lines() {
    let svc = service("Svc", vec![]);
    assert_eq!(quote_for_one_trait_method(&svc, "SvcImp", &add_method(), &vec![]).unwrap(), add_lines());
}

#[test]
fn c_method_first_failing_argument() {
    let svc = service("Svc", vec![]);
    let m = method(
        "f",
        vec![
            arg("a", AstType::Int("i32".to_string())),
            arg("s", AstType::Short("i16".to_string())),
            arg("t", AstType::Struct("Foo".to_string())),
            arg("v", AstType::Void),
        ],
        AstType::Void,
    );
    assert_eq!(
        quote_for_one_trait_method(&svc, "SvcImp", &m, &vec![]),
        Err(RsbindError::GenerateError("find unsupported type in arg, Struct(\"Foo\")".to_string()))
    );
    assert_eq!(
        quote_args_convert(&vec![arg("s", AstType::Short("i16".to_string())), arg("v", AstType::Void)]),
        Err(RsbindError::GenerateError("find unsupported type in arg, Void".to_string()))
    );
    assert_eq!(
        quote_args_convert(&vec![arg("s", AstType::Short("i16".to_string()))]).unwrap(),
        vec!["let r_s = s as i16;"]
    );
    let mut cb = service("Cb", vec![]);
    cb.is_callback = true;
    let with_cb = method("g", vec![arg("c", AstType::Callback("Cb".to_string()))], AstType::Void);
    assert_eq!(
        quote_for_one_trait_method(&svc, "SvcImp", &with_cb, &vec![cb]),
        Err(RsbindError::GenerateError("no C conversion for callback argument c".to_string()))
    );
}

#[test]
fn c_trait_functions_in_order() {
    let ping = method("ping", vec![], AstType::Void);
    let svc = service("Svc", vec![add_method(), ping]);
    let mut expected = add_lines();
    expected.extend(vec!["#[no_mangle]", "pub extern \"C\" fn m_ping()", "{", "let result = SvcImp::ping();", "}"]);
    assert_eq!(quote_for_one_trait(&svc, "SvcImp", &vec![]).unwrap(), expected);
    assert!(quote_for_one_trait(&service("Empty", vec![]), "E", &vec![]).unwrap().is_empty());
}

#[test]
fn c_bridge_file_skips_failing_trait() {
    let good = service("Svc", vec![add_method()]);
    let bad = service(
        "Bad",
        vec![method("b", vec![arg("v", AstType::Void)], AstType::Void)],
    );
    let traits = vec![good, bad];
    let imps = vec![imp("SvcImp", "Svc"), imp("BadImp", "Bad")];
    let s = StructDesc {
        name: "S".to_string(),
        ty: "struct".to_string(),
        mod_name: "m".to_string(),
        mod_path: "contract::m".to_string(),
        crate_name: "c".to_string(),
        fields: vec![arg("a", AstType::Int("i32".to_string()))],
    };
    let lines = quote_one_bridge_file("my-crate", &traits, &vec![s], &imps, &vec![]);
    let mut expected = vec![
        "use my_crate::contract::m::*;",
        "use my_crate::imp::m::*;",
        "use my_crate::contract::m::*;",
        "use my_crate::imp::m::*;",
        "use std::ffi::CStr;",
        "use std::os::raw::c_char;",
        "use std::ffi::CString;",
        "use c::bridge::common::*;",
    ];
    expected.extend(add_lines());
    expected.extend(vec!["enum CallbackEnum {", "", "}", "#[repr(C)]"]);
    assert_eq!(lines[..expected.len()].to_vec(), expected);
    assert_eq!(lines.len(), expected.len() + 9);
    assert_eq!(lines[lines.len() - 3], "Struct_S{a: origin.a}");
}

#[test]
fn c_bridge_crate_files() {
    let mut ast = AstResult::empty();
    ast.insert_module("m1".to_string(), vec![service("Svc", vec![add_method()])], vec![]);
    ast.insert_module("m2".to_string(), vec![], vec![]);
    ast.imps.push(imp("SvcImp", "Svc"));
    let files = gen_c_bridge_files("my-crate", "c", &ast);
    let names: Vec<&str> = files.iter().map(|(f, _)| f.as_str()).collect();
    assert_eq!(names, vec!["c_m1.rs", "c_m2.rs", "lib.rs", "common.rs"]);
    assert_eq!(files[2].1, vec!["pub mod c_m1;", "pub mod c_m2;", "pub mod common;"]);
    assert!(files[0].1.iter().any(|l| l == "let result = SvcImp::add(r_a, r_ok);"));
    assert_eq!(files[1].1.len(), 4 + 3);
    assert_eq!(files[3].1[0], "use std::panic::*;");
}
