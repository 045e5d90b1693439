use rsbind::ast::handler::{choose_source, SourceKind};
use rsbind::ast::parser::{parse_from_str, try_parse_from_str};
use rsbind::ast::types::AstType;
use rsbind::errors::RsbindError;

#[test]
fn no_trait_or_struct_is_an_error() {
    let r = parse_from_str("c", "m", "fn free() {}", "contract::m");
    assert_eq!(
        r.unwrap_err(),
        RsbindError::ParseError("Can't find invalid trait and struct.".to_string())
    );
}

#[test]
fn syntax_error_is_a_parse_error() {
    let r = parse_from_str("c", "m", "pub trait {", "contract::m");
    assert!(matches!(r, Err(RsbindError::ParseError(_))));
}

#[test]
fn trait_without_send_sync_stops() {
    let r = try_parse_from_str("c", "m", "pub trait A { fn f(); }", "contract::m");
    assert_eq!(
        r.unwrap_err(),
        "Please derive 'Sync' and 'Send' for your trait 'A', Like: trait A : Send + Sync { .. }"
    );
    let ok = try_parse_from_str("c", "m", "pub trait A : Send + Sync { fn f(); }", "contract::m");
    assert!(ok.unwrap().is_ok());
}

#[test]
fn context_is_carried() {
    let src = "pub trait A : Send + Sync { fn f(x: i64) -> String; } pub struct S { pub a: bool }";
    let (traits, structs) = parse_from_str("krate", "md", src, "contract::md").unwrap();
    assert_eq!(traits[0].crate_name, "krate");
    assert_eq!(traits[0].mod_name, "md");
    assert_eq!(traits[0].mod_path, "contract::md");
    assert_eq!(structs[0].mod_path, "contract::md");
    assert_eq!(traits[0].methods[0].args[0].ty, AstType::Long("i64".to_string()));
    assert_eq!(traits[0].methods[0].return_type, AstType::String);
    assert!(!traits[0].is_callback);
}

#[test]
fn self_method_marks_a_callback() {
    let src = "pub trait Cb : Send + Sync { fn on(&self, v: u8); }";
    let (traits, _) = parse_from_str("c", "m", src, "contract::m").unwrap();
    assert!(traits[0].is_callback);
    assert!(!traits[0].methods[0].swallow_self);
}

#[test]
fn source_is_first_that_exists() {
    assert_eq!(choose_source(true, true, true), SourceKind::Dir);
    assert_eq!(choose_source(false, true, true), SourceKind::File);
    assert_eq!(choose_source(false, false, true), SourceKind::RsbindFile);
    assert_eq!(choose_source(false, false, false), SourceKind::Missing);
}
