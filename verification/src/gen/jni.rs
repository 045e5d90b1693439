//! The Rust source that the JNI bridge holds for a callback argument: a
//! struct that stands for the Java callback object and forwards each
//! callback method to a static Java method through the JVM.
//!
//! Every function here yields the source as lines of Rust text; the lines
//! are tokenized as they are, so spacing within a line carries no meaning.

use vstd::prelude::*;

use crate::ast::desc::{args_view, methods_view, traits_view, ArgDesc, ArgDescView, MethodDesc, MethodDescView, TraitDesc, TraitDescView};
use crate::ast::types::{base_origin, type_origin, AstBaseType, AstType, BaseTypeView, TypeView};
use crate::gen::mapping::{callback_java_sig, callback_method_java_sig, jni_str, jni_type, TypeDirection};
use crate::gen::swift::{cat2, cat3, named, no_lines, one_line, push_lines};
use crate::text::{join, join_strings, replace_char, replace_chars, strings_view};

verus! {

/// Whether `s` holds the text `i8`.
pub open spec fn has_i8(s: Seq<char>) -> bool {
    exists|i: int| 0 <= i && i + 1 < s.len() && #[trigger] s[i] == 'i' && s[i + 1] == '8'
}

/// Whether `s` holds the text `i8` (`str::contains("i8")`).
pub fn contains_i8(s: &str) -> (r: bool)
    ensures
        r == has_i8(s@),
{
    let n = s.unicode_len();
    if n < 2 {
        return false;
    }
    let mut i: usize = 0;
    while i < n - 1
        invariant
            n == s@.len(),
            n >= 2,
            forall|j: int| 0 <= j < i && j + 1 < n ==> !(#[trigger] s@[j] == 'i' && s@[j + 1] == '8'),
        decreases n - i,
    {
        if s.get_char(i) == 'i' && s.get_char(i + 1) == '8' {
            return true;
        }
        i = i + 1;
    }
    false
}

/// A Rust string literal holding `s` (as `Literal::string` writes a text
/// without quotes, backslashes or control characters).
pub open spec fn str_lit(s: Seq<char>) -> Seq<char> {
    "\""@ + s + "\""@
}

/// The Java class, as a JNI path, that the callback methods of contract
/// trait `trait_name` are invoked through.
pub open spec fn jni_class(namespace: Seq<char>, trait_name: Seq<char>) -> Seq<char> {
    replace_char(namespace + "."@ + trait_name, '.', '/')
}

/// The lines that turn callback argument `a` into the JNI value `j_<name>`.
pub open spec fn jni_arg_lines(a: ArgDescView) -> Seq<Seq<char>> {
    let n = a.name;
    let j = "j_"@ + n;
    match a.ty {
        TypeView::Boolean => seq!["let "@ + j + " = if "@ + n + " {1} else {0};"@],
        TypeView::String => seq!["let "@ + j + " = env.new_string("@ + n + ").unwrap().into();"@],
        TypeView::Vec(BaseTypeView::Struct(s)) => seq![
            "let j_tmp_vec_"@ + n + " = "@ + n + ".into_iter().map(|each| Struct_"@ + s
                + "::from(each)).collect::<Vec<Struct_"@ + s + ">>();"@,
            "let j_tmp_"@ + n + " = serde_json::to_string(&j_tmp_vec_"@ + n + ");"@,
            "let "@ + j + " = env.new_string(j_tmp_"@ + n + ".unwrap()).unwrap().into();"@,
        ],
        TypeView::Vec(BaseTypeView::Byte(o)) => if has_i8(o) {
            seq![
                "let tmp_"@ + n + " = "@ + n + ".as_slice();"@,
                "let tmp_converted_"@ + n + " = unsafe { std::mem::transmute::<&[i8], &[u8]>(tmp_"@
                    + n + ") };"@,
                "let "@ + j + " = env.byte_array_from_slice(tmp_converted_"@ + n + ").unwrap();"@,
            ]
        } else {
            seq!["let "@ + j + " = env.byte_array_from_slice("@ + n + ".as_slice()).unwrap();"@]
        },
        TypeView::Vec(_) => seq![
            "let j_tmp_"@ + n + " = serde_json::to_string(&"@ + n + ");"@,
            "let "@ + j + " = env.new_string(j_tmp_"@ + n + ".unwrap()).unwrap().into();"@,
        ],
        TypeView::Struct(s) => seq![
            "let r_tmp_"@ + n + " = serde_json::to_string(&Struct_"@ + s + "::from("@ + n + "));"@,
            "let "@ + j + " = env.new_string(r_tmp_"@ + n + ".unwrap()).unwrap().into();"@,
        ],
        _ => seq!["let "@ + j + " = "@ + n + " as "@ + jni_str(a.ty, TypeDirection::Argument) + ";"@],
    }
}

/// The `JValue` that callback argument `a` is passed to Java as.
pub open spec fn jvalue_line(a: ArgDescView) -> Seq<char> {
    let j = "j_"@ + a.name;
    match a.ty {
        TypeView::Byte(_) => "JValue::Byte("@ + j + "),"@,
        TypeView::Boolean | TypeView::Int(_) => "JValue::Int("@ + j + "),"@,
        TypeView::Long(_) => "JValue::Long("@ + j + "),"@,
        TypeView::Float(_) => "JValue::Float("@ + j + "),"@,
        TypeView::Double(_) => "JValue::Double("@ + j + "),"@,
        TypeView::Vec(BaseTypeView::Byte(_)) => "JValue::Object(JObject::from("@ + j + ")),"@,
        _ => "JValue::Object("@ + j + "),"@,
    }
}

/// The conversion lines of all the arguments, one argument after the other.
pub open spec fn jni_args_lines(args: Seq<ArgDescView>) -> Seq<Seq<char>>
    decreases args.len(),
{
    if args.len() == 0 {
        Seq::empty()
    } else {
        jni_args_lines(args.drop_last()) + jni_arg_lines(args.last())
    }
}

/// The `JValue`s of all the arguments.
pub open spec fn jvalue_lines(args: Seq<ArgDescView>) -> Seq<Seq<char>> {
    Seq::new(args.len(), |i: int| jvalue_line(args[i]))
}

/// The Rust type of a callback method's parameter.
pub open spec fn cb_param_type(t: TypeView) -> Seq<char> {
    match t {
        TypeView::Vec(b) => "Vec<"@ + base_origin(b) + ">"@,
        _ => type_origin(t),
    }
}

/// The parameters of a callback method, after `&self`.
pub open spec fn cb_params(args: Seq<ArgDescView>) -> Seq<char> {
    join(Seq::new(args.len(), |i: int| args[i].name + ": "@ + cb_param_type(args[i].ty)), ", "@)
}

/// The result type of a callback method.
pub open spec fn cb_result_type(t: TypeView) -> Seq<char> {
    match t {
        TypeView::Void => "()"@,
        _ => type_origin(t),
    }
}

/// The lines that read a `JValue` of variant `variant` into `s_result`,
/// cast to `target`.
pub open spec fn jvalue_result_lines(variant: Seq<char>, last: Seq<char>) -> Seq<Seq<char>> {
    seq![
        "let mut r_result = None;"@,
        "match result.unwrap() {"@,
        "JValue::"@ + variant + "(value) => r_result = Some(value),"@,
        "_ => assert!(false)"@,
        "}"@,
        last,
    ]
}

/// `let s_result = r_result.unwrap() as <o>;`.
pub open spec fn cast_text(o: Seq<char>) -> Seq<char> {
    "let s_result = r_result.unwrap() as "@ + o + ";"@
}

/// The lines that turn what the Java method returned into the callback
/// method's result `s_result`.
pub open spec fn jni_return_lines(t: TypeView) -> Seq<Seq<char>> {
    match t {
        TypeView::Void => Seq::empty(),
        TypeView::Boolean => jvalue_result_lines(
            "Int"@,
            "let s_result = if r_result.unwrap() > 0 {true} else {false};"@,
        ),
        TypeView::Byte(o) => jvalue_result_lines("Byte"@, cast_text(o)),
        TypeView::Int(o) => jvalue_result_lines("Int"@, cast_text(o)),
        TypeView::Long(o) => jvalue_result_lines("Long"@, cast_text(o)),
        TypeView::Float(o) => jvalue_result_lines("Float"@, cast_text(o)),
        TypeView::Double(o) => jvalue_result_lines("Double"@, cast_text(o)),
        TypeView::String => jvalue_result_lines("Object"@, cast_text("String"@)),
        _ => seq!["let s_result = result as "@ + cb_result_type(t) + ";"@],
    }
}

/// The lines that attach the current thread to the JVM as `env`.
pub open spec fn attach_lines() -> Seq<Seq<char>> {
    seq![
        "let ptr_jvm = JVM.read().unwrap();"@,
        "let jvm = (*ptr_jvm).as_ref().unwrap();"@,
        "let env = jvm.attach_current_thread_permanently().unwrap();"@,
    ]
}

/// The name of the static Java method that callback method `m` of callback
/// `cb` is invoked through.
pub open spec fn invoke_name(cb: Seq<char>, m: Seq<char>) -> Seq<char> {
    "invoke_"@ + cb + "_"@ + m
}

/// The Rust implementation of callback method `m` of callback `cb`, whose
/// Java side is class `class`.
pub open spec fn jni_method_lines(class: Seq<char>, cb: Seq<char>, m: MethodDescView) -> Seq<Seq<char>> {
    seq![
        "fn "@ + m.name + "(&self, "@ + cb_params(m.args) + ") -> "@ + cb_result_type(m.return_type)
            + " {"@,
    ] + attach_lines() + jni_args_lines(m.args) + seq![
        "let result = env.call_static_method("@,
        str_lit(class) + ","@,
        str_lit(invoke_name(cb, m.name)) + ","@,
        str_lit(callback_java_sig(m)) + ","@,
        "&["@,
        "JValue::Long(self.index),"@,
    ] + jvalue_lines(m.args) + seq!["],"@, ");"@] + jni_return_lines(m.return_type) + (
    if m.return_type == TypeView::Void {
        Seq::empty()
    } else {
        seq!["s_result"@]
    }) + seq!["}"@]
}

/// The implementations of all the callback's methods.
pub open spec fn jni_methods_lines(class: Seq<char>, cb: Seq<char>, ms: Seq<MethodDescView>) -> Seq<
    Seq<char>,
>
    decreases ms.len(),
{
    if ms.len() == 0 {
        Seq::empty()
    } else {
        jni_methods_lines(class, cb, ms.drop_last()) + jni_method_lines(class, cb, ms.last())
    }
}

/// The struct that stands for the Java callback object of argument `arg`,
/// its `Drop`, which frees the Java object, and the boxed value `r_<arg>`
/// made from the index that Java passed.
pub open spec fn jni_callback_arg_lines(
    namespace: Seq<char>,
    a: ArgDescView,
    owner: TraitDescView,
    cb: TraitDescView,
) -> Seq<Seq<char>> {
    let s = a.name + "_struct"@;
    let class = jni_class(namespace, owner.name);
    seq![
        "#[derive(Serialize, Deserialize)]"@,
        "struct "@ + s + " {"@,
        "index: i64,"@,
        "}"@,
        "impl "@ + cb.name + " for "@ + s + " {"@,
    ] + jni_methods_lines(class, cb.name, cb.methods) + seq![
        "}"@,
        "impl Drop for "@ + s + " {"@,
        "fn drop(&mut self) {"@,
    ] + attach_lines() + seq![
        "let _method_result = env.call_static_method("@,
        str_lit(class) + ","@,
        "\"free_callback\","@,
        "\"(J)V\","@,
        "&[JValue::Long(self.index as jlong)],"@,
        ");"@,
        "}"@,
        "}"@,
        "let r_"@ + a.name + ": Box<"@ + s + "> = Box::new("@ + s + "{index: "@ + a.name + "});"@,
    ]
}

/// The lines that read the callback's result from the `JValue` that Java
/// returned.
fn jvalue_result(variant: &str, last: String) -> (r: Vec<String>)
    ensures
        strings_view(r@) == jvalue_result_lines(variant@, last@),
{
    let mut r: Vec<String> = Vec::new();
    r.push("let mut r_result = None;".to_owned());
    r.push("match result.unwrap() {".to_owned());
    r.push(cat3("JValue::", variant, "(value) => r_result = Some(value),"));
    r.push("_ => assert!(false)".to_owned());
    r.push("}".to_owned());
    r.push(last);
    assert(strings_view(r@) =~= jvalue_result_lines(variant@, last@));
    r
}

/// `let s_result = r_result.unwrap() as <o>;`.
fn cast_line(o: &str) -> (r: String)
    ensures
        r@ == cast_text(o@),
{
    cat3("let s_result = r_result.unwrap() as ", o, ";")
}

/// The Rust result type of a callback method.
fn cb_result_type_text(t: &AstType) -> (r: String)
    ensures
        r@ == cb_result_type(t@),
{
    match t {
        AstType::Void => "()".to_owned(),
        _ => t.origin(),
    }
}

/// The lines that turn the Java result into `s_result`.
pub fn jni_return_convert(t: &AstType) -> (r: Vec<String>)
    ensures
        strings_view(r@) == jni_return_lines(t@),
{
    match t {
        AstType::Void => no_lines(),
        AstType::Boolean => jvalue_result(
            "Int",
            "let s_result = if r_result.unwrap() > 0 {true} else {false};".to_owned(),
        ),
        AstType::Byte(o) => jvalue_result("Byte", cast_line(o.as_str())),
        AstType::Int(o) => jvalue_result("Int", cast_line(o.as_str())),
        AstType::Long(o) => jvalue_result("Long", cast_line(o.as_str())),
        AstType::Float(o) => jvalue_result("Float", cast_line(o.as_str())),
        AstType::Double(o) => jvalue_result("Double", cast_line(o.as_str())),
        AstType::String => jvalue_result("Object", cast_line("String")),
        _ => {
            let ty = cb_result_type_text(t);
            one_line(cat3("let s_result = result as ", ty.as_str(), ";"))
        },
    }
}

/// The lines that turn callback argument `arg` into its JNI value.
pub fn jni_arg_convert(arg: &ArgDesc) -> (r: Vec<String>)
    ensures
        strings_view(r@) == jni_arg_lines(arg@),
{
    let n = arg.name.as_str();
    let j = cat2("j_", n);
    match &arg.ty {
        AstType::Boolean => {
            let mut l = cat3("let ", j.as_str(), " = if ");
            l.append(n);
            l.append(" {1} else {0};");
            one_line(l)
        },
        AstType::String => {
            let mut l = cat3("let ", j.as_str(), " = env.new_string(");
            l.append(n);
            l.append(").unwrap().into();");
            one_line(l)
        },
        AstType::Vec(AstBaseType::Struct(st)) => {
            let mut l1 = cat3("let j_tmp_vec_", n, " = ");
            l1.append(n);
            l1.append(".into_iter().map(|each| Struct_");
            l1.append(st.as_str());
            l1.append("::from(each)).collect::<Vec<Struct_");
            l1.append(st.as_str());
            l1.append(">>();");
            let mut l2 = cat3("let j_tmp_", n, " = serde_json::to_string(&j_tmp_vec_");
            l2.append(n);
            l2.append(");");
            let mut l3 = cat3("let ", j.as_str(), " = env.new_string(j_tmp_");
            l3.append(n);
            l3.append(".unwrap()).unwrap().into();");
            let mut r: Vec<String> = Vec::new();
            r.push(l1);
            r.push(l2);
            r.push(l3);
            assert(strings_view(r@) =~= jni_arg_lines(arg@));
            r
        },
        AstType::Vec(AstBaseType::Byte(o)) => {
            if contains_i8(o.as_str()) {
                let mut l1 = cat3("let tmp_", n, " = ");
                l1.append(n);
                l1.append(".as_slice();");
                let mut l2 = cat3(
                    "let tmp_converted_",
                    n,
                    " = unsafe { std::mem::transmute::<&[i8], &[u8]>(tmp_",
                );
                l2.append(n);
                l2.append(") };");
                let mut l3 = cat3("let ", j.as_str(), " = env.byte_array_from_slice(tmp_converted_");
                l3.append(n);
                l3.append(").unwrap();");
                let mut r: Vec<String> = Vec::new();
                r.push(l1);
                r.push(l2);
                r.push(l3);
                assert(strings_view(r@) =~= jni_arg_lines(arg@));
                r
            } else {
                let mut l = cat3("let ", j.as_str(), " = env.byte_array_from_slice(");
                l.append(n);
                l.append(".as_slice()).unwrap();");
                one_line(l)
            }
        },
        AstType::Vec(_) => {
            let mut l1 = cat3("let j_tmp_", n, " = serde_json::to_string(&");
            l1.append(n);
            l1.append(");");
            let mut l2 = cat3("let ", j.as_str(), " = env.new_string(j_tmp_");
            l2.append(n);
            l2.append(".unwrap()).unwrap().into();");
            let mut r: Vec<String> = Vec::new();
            r.push(l1);
            r.push(l2);
            assert(strings_view(r@) =~= jni_arg_lines(arg@));
            r
        },
        AstType::Struct(st) => {
            let mut l1 = cat3("let r_tmp_", n, " = serde_json::to_string(&Struct_");
            l1.append(st.as_str());
            l1.append("::from(");
            l1.append(n);
            l1.append("));");
            let mut l2 = cat3("let ", j.as_str(), " = env.new_string(r_tmp_");
            l2.append(n);
            l2.append(".unwrap()).unwrap().into();");
            let mut r: Vec<String> = Vec::new();
            r.push(l1);
            r.push(l2);
            assert(strings_view(r@) =~= jni_arg_lines(arg@));
            r
        },
        _ => {
            let mut l = cat3("let ", j.as_str(), " = ");
            l.append(n);
            l.append(" as ");
            let ty = jni_type(&arg.ty, TypeDirection::Argument);
            l.append(ty.as_str());
            l.append(";");
            one_line(l)
        },
    }
}

/// The `JValue` that callback argument `arg` is passed to Java as.
pub fn jvalue(arg: &ArgDesc) -> (r: String)
    ensures
        r@ == jvalue_line(arg@),
{
    let j = cat2("j_", arg.name.as_str());
    match &arg.ty {
        AstType::Byte(_) => cat3("JValue::Byte(", j.as_str(), "),"),
        AstType::Boolean | AstType::Int(_) => cat3("JValue::Int(", j.as_str(), "),"),
        AstType::Long(_) => cat3("JValue::Long(", j.as_str(), "),"),
        AstType::Float(_) => cat3("JValue::Float(", j.as_str(), "),"),
        AstType::Double(_) => cat3("JValue::Double(", j.as_str(), "),"),
        AstType::Vec(AstBaseType::Byte(_)) => cat3(
            "JValue::Object(JObject::from(",
            j.as_str(),
            ")),",
        ),
        _ => cat3("JValue::Object(", j.as_str(), "),"),
    }
}

/// The parameters of a callback method, after `&self`.
fn cb_params_text(args: &Vec<ArgDesc>) -> (r: String)
    ensures
        r@ == cb_params(args_view(args@)),
{
    let mut parts: Vec<String> = Vec::new();
    let n = args.len();
    let mut i: usize = 0;
    while i < n
        invariant
            n == args@.len(),
            i <= n,
            parts@.len() == i,
            forall|k: int|
                0 <= k < i ==> #[trigger] parts@[k]@ == args@[k].name@ + ": "@ + cb_param_type(
                    args@[k].ty@,
                ),
        decreases n - i,
    {
        let a = &args[i];
        let ty = match &a.ty {
            AstType::Vec(b) => {
                let o = b.origin();
                cat3("Vec<", o.as_str(), ">")
            },
            _ => a.ty.origin(),
        };
        parts.push(cat3(a.name.as_str(), ": ", ty.as_str()));
        i = i + 1;
    }
    let r = join_strings(&parts, ", ");
    assert(strings_view(parts@) =~= Seq::new(
        args_view(args@).len(),
        |k: int| args_view(args@)[k].name + ": "@ + cb_param_type(args_view(args@)[k].ty),
    ));
    r
}

/// The lines that attach the current thread to the JVM.
fn attach() -> (r: Vec<String>)
    ensures
        strings_view(r@) == attach_lines(),
{
    let mut r: Vec<String> = Vec::new();
    r.push("let ptr_jvm = JVM.read().unwrap();".to_owned());
    r.push("let jvm = (*ptr_jvm).as_ref().unwrap();".to_owned());
    r.push("let env = jvm.attach_current_thread_permanently().unwrap();".to_owned());
    assert(strings_view(r@) =~= attach_lines());
    r
}

/// A Rust string literal holding `s`, followed by a comma.
fn lit_arg(s: &str) -> (r: String)
    ensures
        r@ == str_lit(s@) + ","@,
{
    let mut r = cat3("\"", s, "\"");
    r.append(",");
    r
}

/// The Rust implementation of callback method `m` of callback `cb`.
pub fn jni_method(class: &str, cb: &str, m: &MethodDesc) -> (r: Vec<String>)
    ensures
        strings_view(r@) == jni_method_lines(class@, cb@, m@),
{
    let params = cb_params_text(&m.args);
    let ret = cb_result_type_text(&m.return_type);
    let mut head = cat3("fn ", m.name.as_str(), "(&self, ");
    head.append(params.as_str());
    head.append(") -> ");
    head.append(ret.as_str());
    head.append(" {");
    let mut r = one_line(head);
    push_lines(&mut r, attach());
    let ghost before_args = r@;
    let n = m.args.len();
    let mut i: usize = 0;
    while i < n
        invariant
            n == m.args@.len(),
            i <= n,
            strings_view(r@) == strings_view(before_args) + jni_args_lines(
                args_view(m.args@).take(i as int),
            ),
        decreases n - i,
    {
        proof {
            assert(args_view(m.args@).take(i + 1).drop_last() =~= args_view(m.args@).take(i as int));
            assert(args_view(m.args@).take(i + 1).last() == m.args@[i as int]@);
        }
        push_lines(&mut r, jni_arg_convert(&m.args[i]));
        i = i + 1;
        assert(strings_view(r@) =~= strings_view(before_args) + jni_args_lines(
            args_view(m.args@).take(i as int),
        ));
    }
    assert(args_view(m.args@).take(n as int) =~= m@.args);
    let mut call: Vec<String> = Vec::new();
    call.push("let result = env.call_static_method(".to_owned());
    call.push(lit_arg(class));
    let mut inv = cat3("invoke_", cb, "_");
    inv.append(m.name.as_str());
    call.push(lit_arg(inv.as_str()));
    let sig = callback_method_java_sig(m);
    call.push(lit_arg(sig.as_str()));
    call.push("&[".to_owned());
    call.push("JValue::Long(self.index),".to_owned());
    let ghost before_values = call@;
    assert(strings_view(before_values) =~= seq![
        "let result = env.call_static_method("@,
        str_lit(class@) + ","@,
        str_lit(invoke_name(cb@, m@.name)) + ","@,
        str_lit(callback_java_sig(m@)) + ","@,
        "&["@,
        "JValue::Long(self.index),"@,
    ]);
    let mut k: usize = 0;
    while k < n
        invariant
            n == m.args@.len(),
            k <= n,
            call@.len() == before_values.len() + k,
            forall|q: int| 0 <= q < before_values.len() ==> #[trigger] call@[q] == before_values[q],
            forall|q: int| 0 <= q < k ==> #[trigger] call@[before_values.len() + q]@ == jvalue_line(m.args@[q]@),
        decreases n - k,
    {
        call.push(jvalue(&m.args[k]));
        k = k + 1;
    }
    assert(strings_view(call@) =~= strings_view(before_values) + jvalue_lines(m@.args)) by {
        assert forall|q: int| 0 <= q < n implies #[trigger] jvalue_lines(m@.args)[q]
            == call@[before_values.len() + q]@ by {
            assert(m@.args[q] == m.args@[q]@);
        }
    }
    let ghost mid = call@;
    call.push("],".to_owned());
    call.push(");".to_owned());
    assert(strings_view(call@) =~= strings_view(mid) + seq!["],"@, ");"@]);
    assert(strings_view(call@) =~= seq![
        "let result = env.call_static_method("@,
        str_lit(class@) + ","@,
        str_lit(invoke_name(cb@, m@.name)) + ","@,
        str_lit(callback_java_sig(m@)) + ","@,
        "&["@,
        "JValue::Long(self.index),"@,
    ] + jvalue_lines(m@.args) + seq!["],"@, ");"@]);
    let ghost call_lines = strings_view(call@);
    push_lines(&mut r, call);
    push_lines(&mut r, jni_return_convert(&m.return_type));
    let ghost before_tail = strings_view(r@);
    let ghost tail: Seq<Seq<char>> = if m@.return_type == TypeView::Void {
        Seq::empty()
    } else {
        seq!["s_result"@]
    };
    match &m.return_type {
        AstType::Void => {
            assert(strings_view(r@) =~= before_tail + tail);
        },
        _ => {
            r.push("s_result".to_owned());
            assert(strings_view(r@) =~= before_tail + tail);
        },
    }
    let ghost before_close = strings_view(r@);
    r.push("}".to_owned());
    assert(strings_view(r@) =~= before_close + seq!["}"@]);
    assert(strings_view(r@) =~= jni_method_lines(class@, cb@, m@));
    r
}

/// The position of the last callback of `callbacks` named `name`; the
/// generator stops when there is none.
pub fn find_last_callback(name: &str, callbacks: &Vec<TraitDesc>) -> (r: usize)
    requires
        named(traits_view(callbacks@), name@).len() > 0,
    ensures
        r as int == named(traits_view(callbacks@), name@).last(),
        r < callbacks@.len(),
        callbacks@[r as int].name@ == name@,
{
    let n = callbacks.len();
    let mut found: Option<usize> = None;
    let mut i: usize = 0;
    while i < n
        invariant
            n == callbacks@.len(),
            i <= n,
            match found {
                Some(k) => named(traits_view(callbacks@).take(i as int), name@).len() > 0 && k as int
                    == named(traits_view(callbacks@).take(i as int), name@).last(),
                None => named(traits_view(callbacks@).take(i as int), name@).len() == 0,
            },
        decreases n - i,
    {
        proof {
            assert(traits_view(callbacks@).take(i + 1).drop_last() =~= traits_view(callbacks@).take(
                i as int,
            ));
            assert(traits_view(callbacks@).take(i + 1).last() == callbacks@[i as int]@);
        }
        if crate::text::str_eq(callbacks[i].name.as_str(), name) {
            found = Some(i);
        }
        i = i + 1;
    }
    assert(traits_view(callbacks@).take(n as int) =~= traits_view(callbacks@));
    proof {
        lemma_named_in_range(traits_view(callbacks@), name@);
    }
    match found {
        Some(k) => k,
        None => 0,
    }
}

/// Every position that `named` gives is that of a callback with the name.
pub proof fn lemma_named_in_range(cbs: Seq<TraitDescView>, name: Seq<char>)
    ensures
        forall|q: int|
            0 <= q < named(cbs, name).len() ==> 0 <= #[trigger] named(cbs, name)[q] < cbs.len()
                && cbs[named(cbs, name)[q]].name == name,
    decreases cbs.len(),
{
    if cbs.len() > 0 {
        let prev = cbs.drop_last();
        lemma_named_in_range(prev, name);
        assert forall|q: int| 0 <= q < named(cbs, name).len() implies 0 <= #[trigger] named(
            cbs,
            name,
        )[q] < cbs.len() && cbs[named(cbs, name)[q]].name == name by {
            if q < named(prev, name).len() {
                assert(named(cbs, name)[q] == named(prev, name)[q]);
                assert(cbs[named(prev, name)[q]] == prev[named(prev, name)[q]]);
            }
        }
    }
}

/// The implementations of all the methods of callback `cb`.
pub fn jni_methods(class: &str, cb: &TraitDesc) -> (r: Vec<String>)
    ensures
        strings_view(r@) == jni_methods_lines(class@, cb.name@, cb@.methods),
{
    let mut r = no_lines();
    let n = cb.methods.len();
    let mut i: usize = 0;
    while i < n
        invariant
            n == cb.methods@.len(),
            i <= n,
            strings_view(r@) == jni_methods_lines(
                class@,
                cb.name@,
                methods_view(cb.methods@).take(i as int),
            ),
        decreases n - i,
    {
        proof {
            assert(methods_view(cb.methods@).take(i + 1).drop_last() =~= methods_view(
                cb.methods@,
            ).take(i as int));
            assert(methods_view(cb.methods@).take(i + 1).last() == cb.methods@[i as int]@);
        }
        push_lines(&mut r, jni_method(class, cb.name.as_str(), &cb.methods[i]));
        i = i + 1;
    }
    assert(methods_view(cb.methods@).take(n as int) =~= cb@.methods);
    r
}

/// How the JNI bridge turns a callback argument into a Rust value.
pub struct JavaCallbackStrategy {
    pub java_namespace: String,
}

impl JavaCallbackStrategy {
    /// The Rust source that turns callback argument `arg` of a method of
    /// contract trait `trait_desc` into a boxed Rust value `r_<arg>`: a
    /// struct for the Java object that implements the last callback of
    /// `callbacks` named after the argument's type. The generator stops when
    /// no callback has that name; such inputs are left out.
    pub fn arg_convert(&self, arg: &ArgDesc, trait_desc: &TraitDesc, callbacks: &Vec<TraitDesc>) -> (r:
        Vec<String>)
        requires
            named(traits_view(callbacks@), type_origin(arg.ty@)).len() > 0,
        ensures
            strings_view(r@) == jni_callback_arg_lines(
                self.java_namespace@,
                arg@,
                trait_desc@,
                traits_view(callbacks@)[named(traits_view(callbacks@), type_origin(arg.ty@)).last()],
            ),
    {
        let origin = arg.ty.origin();
        let k = find_last_callback(origin.as_str(), callbacks);
        let cb = &callbacks[k];
        assert(traits_view(callbacks@)[k as int] == cb@);
        let path = cat3(self.java_namespace.as_str(), ".", trait_desc.name.as_str());
        let class = replace_chars(path.as_str(), '.', '/');
        let s = cat2(arg.name.as_str(), "_struct");
        let mut r: Vec<String> = Vec::new();
        r.push("#[derive(Serialize, Deserialize)]".to_owned());
        r.push(cat3("struct ", s.as_str(), " {"));
        r.push("index: i64,".to_owned());
        r.push("}".to_owned());
        let mut imp = cat3("impl ", cb.name.as_str(), " for ");
        imp.append(s.as_str());
        imp.append(" {");
        r.push(imp);
        let ghost head = strings_view(r@);
        assert(head =~= seq![
            "#[derive(Serialize, Deserialize)]"@,
            "struct "@ + s@ + " {"@,
            "index: i64,"@,
            "}"@,
            "impl "@ + cb@.name + " for "@ + s@ + " {"@,
        ]);
        assert(class@ == jni_class(self.java_namespace@, trait_desc@.name));
        push_lines(&mut r, jni_methods(class.as_str(), cb));
        let ghost with_methods = strings_view(r@);
        let mut tail: Vec<String> = Vec::new();
        tail.push("}".to_owned());
        tail.push(cat3("impl Drop for ", s.as_str(), " {"));
        tail.push("fn drop(&mut self) {".to_owned());
        let ghost t0 = strings_view(tail@);
        assert(t0 =~= seq!["}"@, "impl Drop for "@ + s@ + " {"@, "fn drop(&mut self) {"@]);
        push_lines(&mut tail, attach());
        let ghost t1 = strings_view(tail@);
        tail.push("let _method_result = env.call_static_method(".to_owned());
        tail.push(lit_arg(class.as_str()));
        tail.push("\"free_callback\",".to_owned());
        tail.push("\"(J)V\",".to_owned());
        tail.push("&[JValue::Long(self.index as jlong)],".to_owned());
        tail.push(");".to_owned());
        tail.push("}".to_owned());
        tail.push("}".to_owned());
        let mut last = cat3("let r_", arg.name.as_str(), ": Box<");
        last.append(s.as_str());
        last.append("> = Box::new(");
        last.append(s.as_str());
        last.append("{index: ");
        last.append(arg.name.as_str());
        last.append("});");
        let ghost last_line = last@;
        tail.push(last);
        let ghost tail_lines = strings_view(tail@);
        assert(tail_lines =~= t1 + seq![
            "let _method_result = env.call_static_method("@,
            str_lit(class@) + ","@,
            "\"free_callback\","@,
            "\"(J)V\","@,
            "&[JValue::Long(self.index as jlong)],"@,
            ");"@,
            "}"@,
            "}"@,
            last_line,
        ]);
        push_lines(&mut r, tail);
        assert(strings_view(r@) =~= head + jni_methods_lines(class@, cb.name@, cb@.methods)
            + tail_lines);
        r
    }

    /// The JNI Rust type of a value (always given).
    pub fn ty_to_tokens(&self, ast_type: &AstType, direction: TypeDirection) -> (r: Result<
        String,
        crate::errors::RsbindError,
    >)
        ensures
            r == Ok::<String, crate::errors::RsbindError>(r->Ok_0),
            r->Ok_0@ == jni_str(ast_type@, direction),
    {
        Ok(jni_type(ast_type, direction))
    }
}

} // verus!
