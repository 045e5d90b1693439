//! The Rust source of the C bridge that the iOS artifact calls: the
//! `extern "C"` signature of each contract method, the conversion of its
//! arguments and result, and the `#[repr(C)]` copy of each contract
//! struct.
//!
//! The source comes as lines of Rust text; spacing within a line carries
//! no meaning once the lines are tokenized.

use vstd::prelude::*;

use crate::ast::desc::{args_view, traits_view, ArgDesc, ArgDescView, MethodDesc, MethodDescView, StructDesc, StructDescView, TraitDesc, TraitDescView};
use crate::ast::types::{type_origin, AstBaseType, AstType, BaseTypeView, TypeView};
use crate::errors::RsbindError;
use crate::gen::jni::{contains_i8, has_i8};
use crate::gen::mapping::{c_arg_str, c_return_str, map_sig_arg_type, map_sig_return_type};
use crate::gen::swift::{cat2, cat3, named, no_lines, one_line};
use crate::text::{join, join_strings, strings_view};

verus! {

/// The name of the `#[repr(C)]` struct of function pointers through which
/// C hands Rust callback `cb` of module `m`.
pub open spec fn callback_model(m: Seq<char>, cb: Seq<char>) -> Seq<char> {
    m + "_"@ + cb + "_Model"@
}

/// The C-side Rust type of an argument; a callback is passed as the model
/// struct of the first callback with its name.
pub open spec fn c_param_type(t: TypeView, cbs: Seq<TraitDescView>) -> Seq<char> {
    match t {
        TypeView::Callback(o) => {
            let cb = cbs[named(cbs, o)[0]];
            callback_model(cb.mod_name, cb.name)
        },
        _ => c_arg_str(t),
    }
}

/// The parameters of the bridge function: the arguments that are not
/// `Void`, as `name: type`.
pub open spec fn c_params(args: Seq<ArgDescView>, cbs: Seq<TraitDescView>) -> Seq<Seq<char>>
    decreases args.len(),
{
    if args.len() == 0 {
        Seq::empty()
    } else if args.last().ty == TypeView::Void {
        c_params(args.drop_last(), cbs)
    } else {
        c_params(args.drop_last(), cbs).push(
            args.last().name + ": "@ + c_param_type(args.last().ty, cbs),
        )
    }
}

/// Whether every callback argument names a callback of `cbs`.
pub open spec fn callbacks_known(args: Seq<ArgDescView>, cbs: Seq<TraitDescView>) -> bool {
    forall|i: int|
        0 <= i < args.len() ==> (#[trigger] args[i].ty matches TypeView::Callback(o) ==> named(
            cbs,
            o,
        ).len() > 0)
}

/// The signature of the `extern "C"` function of method `m` of contract
/// trait `t`.
pub open spec fn c_method_sig(t: TraitDescView, m: MethodDescView, cbs: Seq<TraitDescView>) -> Seq<
    Seq<char>,
> {
    seq![
        "#[no_mangle]"@,
        "pub extern \"C\" fn "@ + t.mod_name + "_"@ + m.name + "("@ + join(c_params(m.args, cbs), ", "@)
            + ")"@ + if m.return_type == TypeView::Void {
            Seq::empty()
        } else {
            " -> "@ + c_return_str(m.return_type)
        },
    ]
}

/// The lines that read C string `a` into `&str` `c_str_<a>`.
pub open spec fn c_str_lines(a: Seq<char>) -> Seq<Seq<char>> {
    let c = "c_str_"@ + a;
    seq!["let "@ + c + ": &CStr = unsafe{CStr::from_ptr("@ + a + ")};"@, "let "@ + c
        + ": &str = "@ + c + ".to_str().unwrap();"@]
}

/// `name("o")`, as `Debug` writes a variant holding one string.
pub open spec fn debug_variant(name: Seq<char>, o: Seq<char>) -> Seq<char> {
    name + "(\""@ + o + "\")"@
}

/// The `Debug` text of a vector's element type.
pub open spec fn base_debug(b: BaseTypeView) -> Seq<char> {
    match b {
        BaseTypeView::Void => "Void"@,
        BaseTypeView::Byte(o) => debug_variant("Byte"@, o),
        BaseTypeView::Short(o) => debug_variant("Short"@, o),
        BaseTypeView::Int(o) => debug_variant("Int"@, o),
        BaseTypeView::Long(o) => debug_variant("Long"@, o),
        BaseTypeView::Float(o) => debug_variant("Float"@, o),
        BaseTypeView::Double(o) => debug_variant("Double"@, o),
        BaseTypeView::Boolean => "Boolean"@,
        BaseTypeView::String => "String"@,
        BaseTypeView::Callback(o) => debug_variant("Callback"@, o),
        BaseTypeView::Struct(o) => debug_variant("Struct"@, o),
    }
}

/// The `Debug` text of a contract type, for types whose origin holds no
/// character that `Debug` escapes.
pub open spec fn type_debug(t: TypeView) -> Seq<char> {
    match t {
        TypeView::Void => "Void"@,
        TypeView::Byte(o) => debug_variant("Byte"@, o),
        TypeView::Short(o) => debug_variant("Short"@, o),
        TypeView::Int(o) => debug_variant("Int"@, o),
        TypeView::Long(o) => debug_variant("Long"@, o),
        TypeView::Float(o) => debug_variant("Float"@, o),
        TypeView::Double(o) => debug_variant("Double"@, o),
        TypeView::Boolean => "Boolean"@,
        TypeView::String => "String"@,
        TypeView::Vec(b) => "Vec("@ + base_debug(b) + ")"@,
        TypeView::Callback(o) => debug_variant("Callback"@, o),
        TypeView::Struct(o) => debug_variant("Struct"@, o),
    }
}

/// How an argument of a bridge function becomes its Rust value: lines of
/// Rust, or the callback strategy's conversion for a callback argument.
#[derive(Debug)]
pub enum CArgConvert {
    Lines(Vec<String>),
    Callback,
}

/// The view of a [`CArgConvert`].
pub ghost enum CArgConvertView {
    Lines(Seq<Seq<char>>),
    Callback,
}

impl View for CArgConvert {
    type V = CArgConvertView;

    open spec fn view(&self) -> CArgConvertView {
        match self {
            CArgConvert::Lines(v) => CArgConvertView::Lines(strings_view(v@)),
            CArgConvert::Callback => CArgConvertView::Callback,
        }
    }
}

/// `let r_<n> = <n> as <o>;`.
pub open spec fn cast_arg_line(n: Seq<char>, o: Seq<char>) -> Seq<char> {
    "let "@ + ("r_"@ + n) + " = "@ + n + " as "@ + o + ";"@
}

/// How argument `a` becomes the Rust value `r_<a>`;
/// `None` for the types that the bridge refuses.
pub open spec fn c_arg_convert(a: ArgDescView) -> Option<CArgConvertView> {
    let n = a.name;
    let r = "r_"@ + n;
    match a.ty {
        TypeView::Byte(o) => Some(CArgConvertView::Lines(seq![cast_arg_line(n, o)])),
        TypeView::Short(o) => Some(CArgConvertView::Lines(seq![cast_arg_line(n, o)])),
        TypeView::Int(o) => Some(CArgConvertView::Lines(seq![cast_arg_line(n, o)])),
        TypeView::Long(o) => Some(CArgConvertView::Lines(seq![cast_arg_line(n, o)])),
        TypeView::Float(o) => Some(CArgConvertView::Lines(seq![cast_arg_line(n, o)])),
        TypeView::Double(o) => Some(CArgConvertView::Lines(seq![cast_arg_line(n, o)])),
        TypeView::Boolean => Some(
            CArgConvertView::Lines(seq!["let "@ + r + " = if "@ + n + " > 0 {true} else {false};"@]),
        ),
        TypeView::String => Some(
            CArgConvertView::Lines(c_str_lines(n) + seq![
                "let "@ + r + ": String = c_str_"@ + n + ".to_owned();"@,
            ]),
        ),
        TypeView::Vec(BaseTypeView::Byte(o)) => Some(
            CArgConvertView::Lines(
                seq![
                    "let "@ + r + " = unsafe { std::slice::from_raw_parts("@ + n + ".ptr as (*const "@
                        + (if has_i8(o) {
                        "i8"@
                    } else {
                        "u8"@
                    }) + "), "@ + n + ".len as usize).to_vec() };"@,
                ],
            ),
        ),
        TypeView::Vec(_) => Some(
            CArgConvertView::Lines(c_str_lines(n) + seq![
                "let "@ + r + " = serde_json::from_str(&c_str_"@ + n + ".to_owned()).unwrap();"@,
            ]),
        ),
        TypeView::Callback(_) => Some(CArgConvertView::Callback),
        _ => None,
    }
}

/// The lines that turn the result `ret` of the implementation into what the
/// bridge function returns.
pub open spec fn c_return_lines(t: TypeView, ret: Seq<char>) -> Seq<Seq<char>> {
    let to_c = seq![
        "let json_ret = serde_json::to_string(&ret_value);"@,
        "CString::new(json_ret.unwrap()).unwrap().into_raw()"@,
    ];
    match t {
        TypeView::Void => Seq::empty(),
        TypeView::Boolean => seq!["if "@ + ret + " {1} else {0}"@],
        TypeView::String => seq!["CString::new("@ + ret + ").unwrap().into_raw()"@],
        TypeView::Vec(BaseTypeView::Struct(s)) => seq![
            "let ret_value = ret_value.into_iter().map(|each| Struct_"@ + s
                + "::from(each)).collect::<Vec<Struct_"@ + s + ">>();"@,
        ] + to_c,
        TypeView::Vec(_) => to_c,
        TypeView::Struct(o) => seq![
            "let json_ret = serde_json::to_string(&Struct_"@ + o + "::from(ret_value));"@,
            "CString::new(json_ret.unwrap()).unwrap().into_raw()"@,
        ],
        _ => seq![ret + " as "@ + c_return_str(t)],
    }
}

/// Whether every field of a struct has a type that names one Rust
/// identifier (the bridge struct spells each field's type by its origin).
pub open spec fn plain_fields(s: StructDescView) -> bool {
    forall|i: int|
        0 <= i < s.fields.len() ==> !(#[trigger] s.fields[i].ty is Vec) && s.fields[i].ty
            != TypeView::Void
}

/// The `#[repr(C)]` copy `Struct_<name>` of contract struct `s`, and its
/// `From`.
pub open spec fn c_struct_lines(s: StructDescView) -> Seq<Seq<char>> {
    let c = "Struct_"@ + s.name;
    seq![
        "#[repr(C)]"@,
        "#[derive(Serialize, Deserialize)]"@,
        "pub struct "@ + c + " {"@,
        join(
            Seq::new(
                s.fields.len(),
                |i: int| "pub "@ + s.fields[i].name + ": "@ + type_origin(s.fields[i].ty),
            ),
            ", "@,
        ),
        "}"@,
        "impl From<"@ + s.name + "> for "@ + c + " {"@,
        "fn from(origin: "@ + s.name + ") -> Self {"@,
        c + "{"@ + join(
            Seq::new(s.fields.len(), |i: int| s.fields[i].name + ": origin."@ + s.fields[i].name),
            ", "@,
        ) + "}"@,
        "}"@,
        "}"@,
    ]
}

/// The `use` lines at the head of each C bridge file.
pub open spec fn c_common_use_lines() -> Seq<Seq<char>> {
    seq![
        "use std::ffi::CStr;"@,
        "use std::os::raw::c_char;"@,
        "use std::ffi::CString;"@,
        "use c::bridge::common::*;"@,
    ]
}

/// The C-side Rust type of an argument.
fn c_param_type_text(ty: &AstType, callbacks: &Vec<TraitDesc>) -> (r: String)
    requires
        ty@ matches TypeView::Callback(o) ==> named(traits_view(callbacks@), o).len() > 0,
    ensures
        r@ == c_param_type(ty@, traits_view(callbacks@)),
{
    match ty {
        AstType::Callback(o) => {
            match crate::gen::java::find_first_callback(o.as_str(), callbacks) {
                Some(k) => {
                    proof {
                        crate::gen::jni::lemma_named_in_range(traits_view(callbacks@), o@);
                    }
                    let cb = &callbacks[k];
                    assert(traits_view(callbacks@)[k as int] == cb@);
                    let mut t = cat3(cb.mod_name.as_str(), "_", cb.name.as_str());
                    t.append("_Model");
                    t
                },
                None => String::new(),
            }
        },
        _ => map_sig_arg_type(ty),
    }
}

/// The signature of the `extern "C"` function of method `method` of
/// contract trait `trait_desc`. The generator stops on
/// a callback argument that names no callback; such inputs are left out.
pub fn quote_method_sig(trait_desc: &TraitDesc, method: &MethodDesc, callbacks: &Vec<TraitDesc>) -> (r:
    Vec<String>)
    requires
        callbacks_known(method@.args, traits_view(callbacks@)),
    ensures
        strings_view(r@) == c_method_sig(trait_desc@, method@, traits_view(callbacks@)),
{
    let ghost cbs = traits_view(callbacks@);
    let mut params: Vec<String> = Vec::new();
    let n = method.args.len();
    let mut i: usize = 0;
    while i < n
        invariant
            n == method.args@.len(),
            i <= n,
            cbs == traits_view(callbacks@),
            callbacks_known(method@.args, cbs),
            strings_view(params@) == c_params(args_view(method.args@).take(i as int), cbs),
        decreases n - i,
    {
        proof {
            assert(args_view(method.args@).take(i + 1).drop_last() =~= args_view(method.args@).take(
                i as int,
            ));
            assert(args_view(method.args@).take(i + 1).last() == method.args@[i as int]@);
            assert(method@.args[i as int] == method.args@[i as int]@);
            assert(method@.args[i as int].ty matches TypeView::Callback(o) ==> named(cbs, o).len()
                > 0);
        }
        let a = &method.args[i];
        let ghost before = strings_view(params@);
        match &a.ty {
            AstType::Void => {},
            _ => {
                let t = c_param_type_text(&a.ty, callbacks);
                let p = cat3(a.name.as_str(), ": ", t.as_str());
                let ghost pv = p@;
                params.push(p);
                assert(strings_view(params@) =~= before.push(pv));
            },
        }
        i = i + 1;
    }
    assert(args_view(method.args@).take(n as int) =~= method@.args);
    let joined = join_strings(&params, ", ");
    assert(joined@ == join(c_params(method@.args, cbs), ", "@));
    let mut head = cat3("pub extern \"C\" fn ", trait_desc.mod_name.as_str(), "_");
    head.append(method.name.as_str());
    head.append("(");
    head.append(joined.as_str());
    head.append(")");
    let ghost base = head@;
    assert(base == "pub extern \"C\" fn "@ + trait_desc@.mod_name + "_"@ + method@.name + "("@ + join(
        c_params(method@.args, cbs),
        ", "@,
    ) + ")"@);
    match &method.return_type {
        AstType::Void => {
            assert(head@ =~= base + Seq::<char>::empty());
        },
        _ => {
            let ret = map_sig_return_type(&method.return_type);
            head.append(" -> ");
            head.append(ret.as_str());
            assert(head@ =~= base + (" -> "@ + c_return_str(method@.return_type)));
        },
    }
    let mut r: Vec<String> = Vec::new();
    r.push("#[no_mangle]".to_owned());
    r.push(head);
    assert(strings_view(r@) =~= c_method_sig(trait_desc@, method@, cbs));
    r
}

/// `name("o")`.
fn debug_wrap(name: &str, o: &String) -> (r: String)
    ensures
        r@ == debug_variant(name@, o@),
{
    let mut t = cat2(name, "(\"");
    t.append(o.as_str());
    t.append("\")");
    t
}

/// The `Debug` text of a contract type.
pub fn type_debug_text(ty: &AstType) -> (r: String)
    ensures
        r@ == type_debug(ty@),
{
    match ty {
        AstType::Void => "Void".to_owned(),
        AstType::Byte(o) => debug_wrap("Byte", o),
        AstType::Short(o) => debug_wrap("Short", o),
        AstType::Int(o) => debug_wrap("Int", o),
        AstType::Long(o) => debug_wrap("Long", o),
        AstType::Float(o) => debug_wrap("Float", o),
        AstType::Double(o) => debug_wrap("Double", o),
        AstType::Boolean => "Boolean".to_owned(),
        AstType::String => "String".to_owned(),
        AstType::Vec(b) => {
            let inner = match b {
                AstBaseType::Void => "Void".to_owned(),
                AstBaseType::Byte(o) => debug_wrap("Byte", o),
                AstBaseType::Short(o) => debug_wrap("Short", o),
                AstBaseType::Int(o) => debug_wrap("Int", o),
                AstBaseType::Long(o) => debug_wrap("Long", o),
                AstBaseType::Float(o) => debug_wrap("Float", o),
                AstBaseType::Double(o) => debug_wrap("Double", o),
                AstBaseType::Boolean => "Boolean".to_owned(),
                AstBaseType::String => "String".to_owned(),
                AstBaseType::Callback(o) => debug_wrap("Callback", o),
                AstBaseType::Struct(o) => debug_wrap("Struct", o),
            };
            cat3("Vec(", inner.as_str(), ")")
        },
        AstType::Callback(o) => debug_wrap("Callback", o),
        AstType::Struct(o) => debug_wrap("Struct", o),
    }
}

/// The lines that read C string `a` into `c_str_<a>`.
fn c_str_of(a: &str) -> (r: Vec<String>)
    ensures
        strings_view(r@) == c_str_lines(a@),
{
    let c = cat2("c_str_", a);
    let mut l1 = cat3("let ", c.as_str(), ": &CStr = unsafe{CStr::from_ptr(");
    l1.append(a);
    l1.append(")};");
    let mut l2 = cat3("let ", c.as_str(), ": &str = ");
    l2.append(c.as_str());
    l2.append(".to_str().unwrap();");
    let mut r: Vec<String> = Vec::new();
    r.push(l1);
    r.push(l2);
    assert(strings_view(r@) =~= c_str_lines(a@));
    r
}

/// `let r_<n> = <n> as <o>;`.
fn cast_arg(n: &str, o: &str) -> (r: String)
    ensures
        r@ == cast_arg_line(n@, o@),
{
    let rn = cat2("r_", n);
    let mut l = cat3("let ", rn.as_str(), " = ");
    l.append(n);
    l.append(" as ");
    l.append(o);
    l.append(";");
    l
}

/// How argument `arg` becomes the Rust value `r_<arg>`
///. `Void`, `i16`/`u16` and struct arguments are
/// refused with a `GenerateError`.
pub fn quote_arg_convert(arg: &ArgDesc) -> (r: Result<CArgConvert, RsbindError>)
    ensures
        match c_arg_convert(arg@) {
            Some(v) => r matches Ok(c) && c@ == v,
            None => r matches Err(RsbindError::GenerateError(m)) && m@ == "find unsupported type in arg, "@
                + type_debug(arg@.ty),
        },
{
    let n = arg.name.as_str();
    let rn = cat2("r_", n);
    match &arg.ty {
        AstType::Byte(o) => Ok(CArgConvert::Lines(one_line(cast_arg(n, o.as_str())))),
        AstType::Short(o) => Ok(CArgConvert::Lines(one_line(cast_arg(n, o.as_str())))),
        AstType::Int(o) => Ok(CArgConvert::Lines(one_line(cast_arg(n, o.as_str())))),
        AstType::Long(o) => Ok(CArgConvert::Lines(one_line(cast_arg(n, o.as_str())))),
        AstType::Float(o) => Ok(CArgConvert::Lines(one_line(cast_arg(n, o.as_str())))),
        AstType::Double(o) => Ok(CArgConvert::Lines(one_line(cast_arg(n, o.as_str())))),
        AstType::Boolean => {
            let mut l = cat3("let ", rn.as_str(), " = if ");
            l.append(n);
            l.append(" > 0 {true} else {false};");
            assert(l@ =~= "let "@ + ("r_"@ + n@) + " = if "@ + n@ + " > 0 {true} else {false};"@);
            Ok(CArgConvert::Lines(one_line(l)))
        },
        AstType::String => {
            let mut lines = c_str_of(n);
            let mut l = cat3("let ", rn.as_str(), ": String = c_str_");
            l.append(n);
            l.append(".to_owned();");
            assert(l@ =~= "let "@ + ("r_"@ + n@) + ": String = c_str_"@ + n@ + ".to_owned();"@);
            let ghost before = strings_view(lines@);
            let ghost lv = l@;
            lines.push(l);
            assert(strings_view(lines@) =~= c_str_lines(n@) + seq![
                "let "@ + ("r_"@ + n@) + ": String = c_str_"@ + n@ + ".to_owned();"@,
            ]);
            Ok(CArgConvert::Lines(lines))
        },
        AstType::Vec(AstBaseType::Byte(o)) => {
            let elem = if contains_i8(o.as_str()) {
                "i8"
            } else {
                "u8"
            };
            let mut l = cat3("let ", rn.as_str(), " = unsafe { std::slice::from_raw_parts(");
            l.append(n);
            l.append(".ptr as (*const ");
            l.append(elem);
            l.append("), ");
            l.append(n);
            l.append(".len as usize).to_vec() };");
            assert(elem@ == (if has_i8(o@) {
                "i8"@
            } else {
                "u8"@
            }));
            assert(l@ =~= "let "@ + ("r_"@ + n@) + " = unsafe { std::slice::from_raw_parts("@ + n@
                + ".ptr as (*const "@ + elem@ + "), "@ + n@ + ".len as usize).to_vec() };"@);
            Ok(CArgConvert::Lines(one_line(l)))
        },
        AstType::Vec(_) => {
            let mut lines = c_str_of(n);
            let mut l = cat3("let ", rn.as_str(), " = serde_json::from_str(&c_str_");
            l.append(n);
            l.append(".to_owned()).unwrap();");
            assert(l@ =~= "let "@ + ("r_"@ + n@) + " = serde_json::from_str(&c_str_"@ + n@
                + ".to_owned()).unwrap();"@);
            let ghost before = strings_view(lines@);
            let ghost lv = l@;
            lines.push(l);
            assert(strings_view(lines@) =~= c_str_lines(n@) + seq![
                "let "@ + ("r_"@ + n@) + " = serde_json::from_str(&c_str_"@ + n@
                    + ".to_owned()).unwrap();"@,
            ]);
            Ok(CArgConvert::Lines(lines))
        },
        AstType::Callback(_) => Ok(CArgConvert::Callback),
        _ => {
            let d = type_debug_text(&arg.ty);
            Err(RsbindError::GenerateError(cat2("find unsupported type in arg, ", d.as_str())))
        },
    }
}

/// The lines that turn the result `ret_name` of the implementation into
/// what the bridge function returns.
pub fn quote_return_convert(ty: &AstType, ret_name: &str) -> (r: Vec<String>)
    ensures
        strings_view(r@) == c_return_lines(ty@, ret_name@),
{
    match ty {
        AstType::Void => no_lines(),
        AstType::Boolean => one_line(cat3("if ", ret_name, " {1} else {0}")),
        AstType::String => one_line(cat3("CString::new(", ret_name, ").unwrap().into_raw()")),
        AstType::Vec(b) => {
            let mut r: Vec<String> = Vec::new();
            if let AstBaseType::Struct(st) = b {
                let mut l = cat3(
                    "let ret_value = ret_value.into_iter().map(|each| Struct_",
                    st.as_str(),
                    "::from(each)).collect::<Vec<Struct_",
                );
                l.append(st.as_str());
                l.append(">>();");
                r.push(l);
            }
            r.push("let json_ret = serde_json::to_string(&ret_value);".to_owned());
            r.push("CString::new(json_ret.unwrap()).unwrap().into_raw()".to_owned());
            assert(strings_view(r@) =~= c_return_lines(ty@, ret_name@));
            r
        },
        AstType::Struct(o) => {
            let mut r: Vec<String> = Vec::new();
            r.push(cat3("let json_ret = serde_json::to_string(&Struct_", o.as_str(), "::from(ret_value));"));
            r.push("CString::new(json_ret.unwrap()).unwrap().into_raw()".to_owned());
            assert(strings_view(r@) =~= c_return_lines(ty@, ret_name@));
            r
        },
        _ => {
            let t = map_sig_return_type(ty);
            one_line(cat3(ret_name, " as ", t.as_str()))
        },
    }
}

/// The `#[repr(C)]` copy of contract struct `desc` and its `From`
///. The generator stops on a field whose type is a
/// vector or `Void` (it spells each field's type as one identifier); such
/// structs are left out.
pub fn quote_for_structures(desc: &StructDesc) -> (r: Vec<String>)
    requires
        plain_fields(desc@),
    ensures
        strings_view(r@) == c_struct_lines(desc@),
{
    let mut decl: Vec<String> = Vec::new();
    let mut init: Vec<String> = Vec::new();
    let n = desc.fields.len();
    let mut i: usize = 0;
    while i < n
        invariant
            n == desc.fields@.len(),
            i <= n,
            decl@.len() == i,
            init@.len() == i,
            forall|k: int| 0 <= k < i ==> #[trigger] decl@[k]@ == "pub "@ + desc.fields@[k].name@
                + ": "@ + type_origin(desc.fields@[k].ty@),
            forall|k: int| 0 <= k < i ==> #[trigger] init@[k]@ == desc.fields@[k].name@
                + ": origin."@ + desc.fields@[k].name@,
        decreases n - i,
    {
        let f = &desc.fields[i];
        let o = f.ty.origin();
        let mut d = cat3("pub ", f.name.as_str(), ": ");
        d.append(o.as_str());
        decl.push(d);
        init.push(cat3(f.name.as_str(), ": origin.", f.name.as_str()));
        i = i + 1;
    }
    assert(strings_view(decl@) =~= Seq::new(
        desc@.fields.len(),
        |k: int| "pub "@ + desc@.fields[k].name + ": "@ + type_origin(desc@.fields[k].ty),
    ));
    assert(strings_view(init@) =~= Seq::new(
        desc@.fields.len(),
        |k: int| desc@.fields[k].name + ": origin."@ + desc@.fields[k].name,
    ));
    let c = cat2("Struct_", desc.name.as_str());
    let mut r: Vec<String> = Vec::new();
    r.push("#[repr(C)]".to_owned());
    r.push("#[derive(Serialize, Deserialize)]".to_owned());
    r.push(cat3("pub struct ", c.as_str(), " {"));
    r.push(join_strings(&decl, ", "));
    r.push("}".to_owned());
    let mut l = cat3("impl From<", desc.name.as_str(), "> for ");
    l.append(c.as_str());
    l.append(" {");
    r.push(l);
    r.push(cat3("fn from(origin: ", desc.name.as_str(), ") -> Self {"));
    let joined = join_strings(&init, ", ");
    let mut l2 = cat2(c.as_str(), "{");
    l2.append(joined.as_str());
    l2.append("}");
    r.push(l2);
    r.push("}".to_owned());
    r.push("}".to_owned());
    assert(strings_view(r@) =~= c_struct_lines(desc@));
    r
}

/// The `use` lines at the head of each C bridge file.
pub fn quote_common_use_part() -> (r: Vec<String>)
    ensures
        strings_view(r@) == c_common_use_lines(),
{
    let mut r: Vec<String> = Vec::new();
    r.push("use std::ffi::CStr;".to_owned());
    r.push("use std::os::raw::c_char;".to_owned());
    r.push("use std::ffi::CString;".to_owned());
    r.push("use c::bridge::common::*;".to_owned());
    assert(strings_view(r@) =~= c_common_use_lines());
    r
}

/// Whether every callback argument of `args` names a callback of
/// `callbacks` (what `quote_method_sig` needs).
pub fn knows_callbacks(args: &Vec<ArgDesc>, callbacks: &Vec<TraitDesc>) -> (r: bool)
    ensures
        r == callbacks_known(args_view(args@), traits_view(callbacks@)),
{
    let n = args.len();
    let mut i: usize = 0;
    while i < n
        invariant
            n == args@.len(),
            i <= n,
            forall|j: int|
                0 <= j < i ==> (#[trigger] args_view(args@)[j].ty matches TypeView::Callback(o)
                    ==> named(traits_view(callbacks@), o).len() > 0),
        decreases n - i,
    {
        assert(args_view(args@)[i as int] == args@[i as int]@);
        if let AstType::Callback(o) = &args[i].ty {
            if crate::gen::swift::count_named(o.as_str(), callbacks) == 0 {
                assert(args_view(args@)[i as int].ty == TypeView::Callback(o@));
                return false;
            }
        }
        i = i + 1;
    }
    true
}

/// Whether every field of `desc` has a type that names one identifier
/// (what `quote_for_structures` needs).
pub fn has_plain_fields(desc: &StructDesc) -> (r: bool)
    ensures
        r == plain_fields(desc@),
{
    let n = desc.fields.len();
    let mut i: usize = 0;
    while i < n
        invariant
            n == desc.fields@.len(),
            i <= n,
            forall|j: int|
                0 <= j < i ==> !(#[trigger] desc@.fields[j].ty is Vec) && desc@.fields[j].ty
                    != TypeView::Void,
        decreases n - i,
    {
        assert(desc@.fields[i as int] == desc.fields@[i as int]@);
        match &desc.fields[i].ty {
            AstType::Vec(_) | AstType::Void => {
                assert((desc@.fields[i as int].ty is Vec) || desc@.fields[i as int].ty
                    == TypeView::Void);
                return false;
            },
            _ => {},
        }
        i = i + 1;
    }
    true
}

} // verus!
