//! The lines of the Swift wrapper that the iOS artifact holds for each
//! contract trait (the bodies of its static methods).

use vstd::prelude::*;

use crate::ast::desc::{args_view, traits_view, ArgDesc, ArgDescView, MethodDesc, MethodDescView, TraitDesc, TraitDescView};
use crate::ast::types::{AstBaseType, AstType, BaseTypeView, TypeView};
use crate::gen::mapping::{map_cb_closure_sig_type, swift_closure_str, swift_str, swift_type};
use crate::text::{replace_char, replace_chars, strings_view};

verus! {

/// `a + b`.
pub fn cat2(a: &str, b: &str) -> (r: String)
    ensures
        r@ == a@ + b@,
{
    let mut r = a.to_owned();
    r.append(b);
    r
}

/// `a + b + c`.
pub fn cat3(a: &str, b: &str, c: &str) -> (r: String)
    ensures
        r@ == a@ + b@ + c@,
{
    let mut r = a.to_owned();
    r.append(b);
    r.append(c);
    r
}

/// Appends every line of `more` to `lines`.
pub fn push_lines(lines: &mut Vec<String>, more: Vec<String>)
    ensures
        strings_view(final(lines)@) == strings_view(old(lines)@) + strings_view(more@),
{
    let ghost start = lines@;
    let n = more.len();
    let mut i: usize = 0;
    while i < n
        invariant
            n == more@.len(),
            i <= n,
            strings_view(lines@) == strings_view(start) + strings_view(more@.take(i as int)),
        decreases n - i,
    {
        let ghost before = lines@;
        lines.push(more[i].clone());
        i = i + 1;
        assert(strings_view(lines@) =~= strings_view(before).push(more@[i - 1]@));
        assert(strings_view(more@.take(i as int)) =~= strings_view(more@.take(i - 1)).push(
            more@[i - 1]@,
        ));
    }
    assert(more@.take(n as int) =~= more@);
}

/// A single line.
pub fn one_line(s: String) -> (r: Vec<String>)
    ensures
        strings_view(r@) == seq![s@],
{
    let mut r: Vec<String> = Vec::new();
    r.push(s);
    assert(strings_view(r@) =~= seq![s@]);
    r
}

/// No lines.
pub fn no_lines() -> (r: Vec<String>)
    ensures
        strings_view(r@) == Seq::<Seq<char>>::empty(),
{
    let r: Vec<String> = Vec::new();
    assert(strings_view(r@) =~= Seq::<Seq<char>>::empty());
    r
}

/// The lines that register a callback argument `a` in the global table.
pub open spec fn callback_index_lines(a: Seq<char>) -> Seq<Seq<char>> {
    seq![
        "let "@ + (a + "_index"@) + " = globalIndex + 1"@,
        "globalIndex = "@ + (a + "_index"@),
        "globalCallbacks["@ + (a + "_index"@) + "] = "@ + a,
    ]
}

/// The lines that register a callback argument in the global table.
pub fn fill_callback_index(arg: &ArgDesc) -> (r: Vec<String>)
    ensures
        strings_view(r@) == callback_index_lines(arg.name@),
{
    let index_name = cat2(arg.name.as_str(), "_index");
    let mut r: Vec<String> = Vec::new();
    r.push(cat3("let ", index_name.as_str(), " = globalIndex + 1"));
    r.push(cat2("globalIndex = ", index_name.as_str()));
    let mut l = cat3("globalCallbacks[", index_name.as_str(), "] = ");
    l.append(arg.name.as_str());
    r.push(l);
    assert(strings_view(r@) =~= callback_index_lines(arg.name@));
    r
}

/// The callbacks among `callbacks` named `name`.
pub open spec fn named(callbacks: Seq<TraitDescView>, name: Seq<char>) -> Seq<int>
    decreases callbacks.len(),
{
    if callbacks.len() == 0 {
        Seq::empty()
    } else if callbacks.last().name == name {
        named(callbacks.drop_last(), name).push(callbacks.len() - 1)
    } else {
        named(callbacks.drop_last(), name)
    }
}

/// The position of the only callback of `callbacks` named after the type
/// of a callback argument. The generator stops when there
/// is none or more than one; such inputs are left out.
pub fn find_callback(name: &String, callbacks: &Vec<TraitDesc>) -> (r: usize)
    requires
        named(traits_view(callbacks@), name@).len() == 1,
    ensures
        r < callbacks@.len(),
        callbacks@[r as int].name@ == name@,
        named(traits_view(callbacks@), name@) == seq![r as int],
{
    let n = callbacks.len();
    let mut found: Option<usize> = None;
    let mut i: usize = 0;
    while i < n
        invariant
            n == callbacks@.len(),
            i <= n,
            named(traits_view(callbacks@), name@).len() == 1,
            match found {
                Some(k) => named(traits_view(callbacks@).take(i as int), name@) == seq![k as int]
                    && k < i && callbacks@[k as int].name@ == name@,
                None => named(traits_view(callbacks@).take(i as int), name@).len() == 0,
            },
        decreases n - i,
    {
        proof {
            assert(traits_view(callbacks@).take(i + 1).drop_last() =~= traits_view(callbacks@).take(
                i as int,
            ));
            lemma_named_prefix(traits_view(callbacks@), name@, i + 1);
        }
        if callbacks[i].name == *name {
            assert(named(traits_view(callbacks@).take(i + 1), name@) =~= named(
                traits_view(callbacks@).take(i as int),
                name@,
            ).push(i as int));
            if found.is_none() {
                found = Some(i);
            }
        } else {
            assert(named(traits_view(callbacks@).take(i + 1), name@) =~= named(
                traits_view(callbacks@).take(i as int),
                name@,
            ));
        }
        i = i + 1;
    }
    assert(traits_view(callbacks@).take(n as int) =~= traits_view(callbacks@));
    match found {
        Some(k) => k,
        None => 0,
    }
}

/// Matches never shrink as more callbacks are read.
proof fn lemma_named_prefix(cbs: Seq<TraitDescView>, name: Seq<char>, k: int)
    requires
        0 <= k <= cbs.len(),
    ensures
        named(cbs.take(k), name).len() <= named(cbs, name).len(),
    decreases cbs.len() - k,
{
    if k < cbs.len() {
        lemma_named_prefix(cbs, name, k + 1);
        assert(cbs.take(k + 1).drop_last() =~= cbs.take(k));
    } else {
        assert(cbs.take(k) =~= cbs);
    }
}


/// `(index, a, b` for the closure's parameters `a`, `b`.
pub open spec fn closure_params(args: Seq<ArgDescView>) -> Seq<char>
    decreases args.len(),
{
    if args.len() == 0 {
        "(index"@
    } else {
        closure_params(args.drop_last()) + ", "@ + args.last().name
    }
}

/// `(Int64, A, B` for the C types of the closure's parameters.
pub open spec fn closure_types(args: Seq<ArgDescView>) -> Seq<char>
    decreases args.len(),
{
    if args.len() == 0 {
        "(Int64"@
    } else {
        closure_types(args.drop_last()) + ", "@ + swift_closure_str(args.last().ty)
    }
}

/// The two lines that open the C closure through which Rust calls the
/// callback method `m` of argument `a`.
pub open spec fn closure_sig_lines(m: MethodDescView, a: Seq<char>) -> Seq<Seq<char>> {
    let ret = swift_closure_str(m.return_type);
    seq![
        "let "@ + a + "_"@ + m.name + ": @convention(c) "@ + closure_types(m.args) + ")"@
            + " -> "@ + ret + " = {"@,
        closure_params(m.args) + ")"@ + " -> "@ + ret + " in\n"@,
    ]
}

/// The lines that open the C closure of a callback method.
pub fn fill_cb_closure_method_sig(cb_method: &MethodDesc, arg: &ArgDesc) -> (r: Vec<String>)
    ensures
        strings_view(r@) == closure_sig_lines(cb_method@, arg.name@),
{
    let mut arg_params = "(index".to_owned();
    let mut args_str = "(Int64".to_owned();
    let n = cb_method.args.len();
    let mut i: usize = 0;
    while i < n
        invariant
            n == cb_method.args@.len(),
            i <= n,
            arg_params@ == closure_params(args_view(cb_method.args@).take(i as int)),
            args_str@ == closure_types(args_view(cb_method.args@).take(i as int)),
        decreases n - i,
    {
        proof {
            assert(args_view(cb_method.args@).take(i + 1).drop_last() =~= args_view(
                cb_method.args@,
            ).take(i as int));
        }
        let cb_arg = &cb_method.args[i];
        let cb_arg_ty = map_cb_closure_sig_type(&cb_arg.ty);
        arg_params.append(", ");
        arg_params.append(cb_arg.name.as_str());
        args_str.append(", ");
        args_str.append(cb_arg_ty.as_str());
        i = i + 1;
    }
    assert(args_view(cb_method.args@).take(n as int) =~= args_view(cb_method.args@));
    let cb_return_ty = map_cb_closure_sig_type(&cb_method.return_type);
    let mut first = cat3("let ", arg.name.as_str(), "_");
    first.append(cb_method.name.as_str());
    first.append(": @convention(c) ");
    first.append(args_str.as_str());
    first.append(")");
    first.append(" -> ");
    first.append(cb_return_ty.as_str());
    first.append(" = {");
    arg_params.append(")");
    arg_params.append(" -> ");
    arg_params.append(cb_return_ty.as_str());
    arg_params.append(" in\n");
    let mut r: Vec<String> = Vec::new();
    r.push(first);
    r.push(arg_params);
    assert(strings_view(r@) =~= closure_sig_lines(cb_method@, arg.name@));
    r
}

/// The Swift text that decodes the JSON in C string `n` into `c_<n>` of
/// Swift type `t`.
pub open spec fn json_decode_text(n: Seq<char>, t: Seq<char>) -> Seq<char> {
    "let "@ + "c_tmp_"@ + n + " = String(cString:"@ + n + "!)\n"@ + "var "@ + "c_option_"@ + n
        + " : "@ + t + "?\n"@ + "autoreleasepool {\n"@ + "let "@ + "c_tmp_json_"@ + n + " = "@
        + "c_tmp_"@ + n + ".data(using: .utf8)!\n"@ + "let decoder = JSONDecoder()\n"@
        + "c_option_"@ + n + " = try! decoder.decode("@ + t + ".self, from: "@ + "c_tmp_json_"@
        + n + ")\n"@ + "}\n"@ + "let "@ + "c_"@ + n + " = "@ + "c_option_"@ + n + "!"@
}

/// `let c_<n> = <f>(<n>)`.
pub open spec fn wrap_line(prefix: Seq<char>, n: Seq<char>, f: Seq<char>) -> Seq<char> {
    "let "@ + prefix + n + " = "@ + f + "("@ + n + ")"@
}

/// Whether a type may be an argument of a callback method.
pub open spec fn cb_arg_supported(t: TypeView) -> bool {
    !(t is Callback)
}

/// The lines that turn the C value of callback argument `a` into Swift.
pub open spec fn cb_arg_convert_lines(a: ArgDescView) -> Seq<Seq<char>> {
    let n = a.name;
    match a.ty {
        TypeView::Void => Seq::empty(),
        TypeView::Byte(_) => seq![wrap_line("c_"@, n, "Int8"@)],
        TypeView::Short(_) => seq![wrap_line("c_"@, n, "Int16"@)],
        TypeView::Int(_) => seq![wrap_line("c_"@, n, "Int32"@)],
        TypeView::Long(_) => seq![wrap_line("c_"@, n, "Int64"@)],
        TypeView::Float(_) => seq![wrap_line("c_"@, n, "Float"@)],
        TypeView::Double(_) => seq![wrap_line("c_"@, n, "Double"@)],
        TypeView::Boolean => seq!["let "@ + "c_"@ + n + " : Bool = "@ + n + " > 0 ? true : false"@],
        TypeView::String => seq!["let "@ + "c_"@ + n + " = String(cString: "@ + n + "!)"@],
        TypeView::Callback(_) => Seq::empty(),
        TypeView::Vec(BaseTypeView::Byte(_)) => seq![
            "let "@ + "c_"@ + n + " = Array<Int8>(UnsafeBufferPointer(start: "@ + n
                + ".ptr, count: Int("@ + n + ".len)))"@,
        ],
        TypeView::Vec(_) => seq![json_decode_text(n, swift_str(a.ty))],
        TypeView::Struct(_) => seq![json_decode_text(n, swift_str(a.ty))],
    }
}

/// `let <prefix><n> = <f>(<n>)`.
fn wrap(prefix: &str, n: &str, f: &str) -> (r: String)
    ensures
        r@ == wrap_line(prefix@, n@, f@),
{
    let mut r = cat3("let ", prefix, n);
    r.append(" = ");
    r.append(f);
    r.append("(");
    r.append(n);
    r.append(")");
    r
}

/// The JSON-decoding text for callback argument `n` of Swift type `t`.
fn json_decode(n: &str, t: &str) -> (r: String)
    ensures
        r@ == json_decode_text(n@, t@),
{
    let mut r = cat3("let ", "c_tmp_", n);
    r.append(" = String(cString:");
    r.append(n);
    r.append("!)\n");
    r.append("var ");
    r.append("c_option_");
    r.append(n);
    r.append(" : ");
    r.append(t);
    r.append("?\n");
    r.append("autoreleasepool {\n");
    r.append("let ");
    r.append("c_tmp_json_");
    r.append(n);
    r.append(" = ");
    r.append("c_tmp_");
    r.append(n);
    r.append(".data(using: .utf8)!\n");
    r.append("let decoder = JSONDecoder()\n");
    r.append("c_option_");
    r.append(n);
    r.append(" = try! decoder.decode(");
    r.append(t);
    r.append(".self, from: ");
    r.append("c_tmp_json_");
    r.append(n);
    r.append(")\n");
    r.append("}\n");
    r.append("let ");
    r.append("c_");
    r.append(n);
    r.append(" = ");
    r.append("c_option_");
    r.append(n);
    r.append("!");
    r
}

/// The lines that turn the C value of a callback argument into Swift
///. The generator stops on a callback
/// argument of a callback; such inputs are left out.
pub fn fill_cb_closure_arg_convert(cb_arg: &ArgDesc) -> (r: Vec<String>)
    requires
        cb_arg_supported(cb_arg.ty@),
    ensures
        strings_view(r@) == cb_arg_convert_lines(cb_arg@),
{
    let n = cb_arg.name.as_str();
    match &cb_arg.ty {
        AstType::Void => no_lines(),
        AstType::Byte(_) => one_line(wrap("c_", n, "Int8")),
        AstType::Short(_) => one_line(wrap("c_", n, "Int16")),
        AstType::Int(_) => one_line(wrap("c_", n, "Int32")),
        AstType::Long(_) => one_line(wrap("c_", n, "Int64")),
        AstType::Float(_) => one_line(wrap("c_", n, "Float")),
        AstType::Double(_) => one_line(wrap("c_", n, "Double")),
        AstType::Boolean => {
            let mut l = cat3("let ", "c_", n);
            l.append(" : Bool = ");
            l.append(n);
            l.append(" > 0 ? true : false");
            one_line(l)
        },
        AstType::String => {
            let mut l = cat3("let ", "c_", n);
            l.append(" = String(cString: ");
            l.append(n);
            l.append("!)");
            one_line(l)
        },
        AstType::Callback(_) => no_lines(),
        AstType::Vec(AstBaseType::Byte(_)) => {
            let mut l = cat3("let ", "c_", n);
            l.append(" = Array<Int8>(UnsafeBufferPointer(start: ");
            l.append(n);
            l.append(".ptr, count: Int(");
            l.append(n);
            l.append(".len)))");
            one_line(l)
        },
        AstType::Vec(_) | AstType::Struct(_) => {
            let t = swift_type(&cb_arg.ty);
            one_line(json_decode(n, t.as_str()))
        },
    }
}

/// `(a: c_a, b: c_b)` for the arguments `a`, `b`.
pub open spec fn call_args(args: Seq<ArgDescView>) -> Seq<char>
    decreases args.len(),
{
    if args.len() == 0 {
        "("@
    } else if args.len() == 1 {
        "("@ + args[0].name + ": c_"@ + args[0].name
    } else {
        call_args(args.drop_last()) + ", "@ + args.last().name + ": c_"@ + args.last().name
    }
}

/// The line that calls callback method `m` of argument `a`.
pub open spec fn cb_call_line(m: MethodDescView, a: Seq<char>) -> Seq<char> {
    match m.return_type {
        TypeView::Void => a + "_callback"@ + "."@ + m.name + call_args(m.args) + ")"@,
        _ => "let result = "@ + a + "_callback"@ + "."@ + m.name + call_args(m.args) + ")"@,
    }
}

/// The line that calls a callback method.
pub fn fill_cb_closure_call(cb_method: &MethodDesc, arg: &ArgDesc) -> (r: Vec<String>)
    ensures
        strings_view(r@) == seq![cb_call_line(cb_method@, arg.name@)],
{
    let mut call = "(".to_owned();
    let n = cb_method.args.len();
    let mut i: usize = 0;
    while i < n
        invariant
            n == cb_method.args@.len(),
            i <= n,
            call@ == call_args(args_view(cb_method.args@).take(i as int)),
        decreases n - i,
    {
        proof {
            assert(args_view(cb_method.args@).take(i + 1).drop_last() =~= args_view(
                cb_method.args@,
            ).take(i as int));
        }
        let a = cb_method.args[i].name.as_str();
        if i != 0 {
            call.append(", ");
        }
        call.append(a);
        call.append(": c_");
        call.append(a);
        i = i + 1;
        proof {
            if i == 1 {
                assert(args_view(cb_method.args@).take(1)[0] == cb_method.args@[0]@);
            }
        }
    }
    assert(args_view(cb_method.args@).take(n as int) =~= args_view(cb_method.args@));
    call.append(")");
    let mut line = match &cb_method.return_type {
        AstType::Void => String::new(),
        _ => "let result = ".to_owned(),
    };
    line.append(arg.name.as_str());
    line.append("_callback");
    line.append(".");
    line.append(cb_method.name.as_str());
    line.append(call.as_str());
    proof {
        reveal_strlit("");
    }
    assert(line@ =~= cb_call_line(cb_method@, arg.name@));
    one_line(line)
}

/// Whether a type may be returned by a callback method.
pub open spec fn cb_return_supported(t: TypeView) -> bool {
    !(t is Vec) && !(t is Callback) && !(t is Struct)
}

/// The line that hands the callback's result back to C.
pub open spec fn cb_return_lines(t: TypeView) -> Seq<Seq<char>> {
    match t {
        TypeView::Void => Seq::empty(),
        TypeView::Byte(_) => seq!["return Int8(result)"@],
        TypeView::Short(_) => seq!["return Int16(result)"@],
        TypeView::Int(_) => seq!["return Int32(result)"@],
        TypeView::Long(_) => seq!["return Int64(result)"@],
        TypeView::Float(_) => seq!["return Float(result)"@],
        TypeView::Double(_) => seq!["return Double(result)"@],
        TypeView::Boolean => seq!["return result ? 1 : 0"@],
        TypeView::String => seq!["return result"@],
        _ => Seq::empty(),
    }
}

/// The line that hands the callback's result back to C
///. The generator stops on a callback
/// method returning a vector, a callback or a struct; such inputs are left out.
pub fn fill_cb_closure_return_convert(cb_method: &MethodDesc) -> (r: Vec<String>)
    requires
        cb_return_supported(cb_method.return_type@),
    ensures
        strings_view(r@) == cb_return_lines(cb_method.return_type@),
{
    match &cb_method.return_type {
        AstType::Void => no_lines(),
        AstType::Byte(_) => one_line("return Int8(result)".to_owned()),
        AstType::Short(_) => one_line("return Int16(result)".to_owned()),
        AstType::Int(_) => one_line("return Int32(result)".to_owned()),
        AstType::Long(_) => one_line("return Int64(result)".to_owned()),
        AstType::Float(_) => one_line("return Float(result)".to_owned()),
        AstType::Double(_) => one_line("return Double(result)".to_owned()),
        AstType::Boolean => one_line("return result ? 1 : 0".to_owned()),
        AstType::String => one_line("return result".to_owned()),
        _ => no_lines(),
    }
}

/// The closure that drops callback argument `a` from the global table.
pub open spec fn cb_free_line(a: Seq<char>) -> Seq<char> {
    "let "@ + a + "_callback_free"@ + " : @convention(c)(Int64) -> () = {\n"@ + "(index) in\n"@
        + "globalCallbacks.removeValue(forKey: index)\n"@ + "}\n"@
}

/// The closure that drops a callback from the global table.
pub fn fill_cb_closure_free_fn(arg: &ArgDesc) -> (r: Vec<String>)
    ensures
        strings_view(r@) == seq![cb_free_line(arg.name@)],
{
    let mut l = cat3("let ", arg.name.as_str(), "_callback_free");
    l.append(" : @convention(c)(Int64) -> () = {\n");
    l.append("(index) in\n");
    l.append("globalCallbacks.removeValue(forKey: index)\n");
    l.append("}\n");
    one_line(l)
}

/// The conversion lines of the arguments of a callback method, in order.
pub open spec fn cb_args_lines(args: Seq<ArgDescView>) -> Seq<Seq<char>>
    decreases args.len(),
{
    if args.len() == 0 {
        Seq::empty()
    } else {
        cb_args_lines(args.drop_last()) + cb_arg_convert_lines(args.last())
    }
}

/// The lines of the C closure for callback method `m` of argument `a`,
/// whose callback trait is named `cb`.
pub open spec fn cb_method_lines(m: MethodDescView, a: Seq<char>, cb: Seq<char>) -> Seq<Seq<char>> {
    closure_sig_lines(m, a) + seq![
        "let "@ + a + "_callback"@ + " = globalCallbacks[index] as! "@ + cb,
    ] + cb_args_lines(m.args) + seq![cb_call_line(m, a)] + cb_return_lines(m.return_type)
        + seq!["}"@]
}

/// The closures for every method of the callback trait `cb`, in order.
pub open spec fn cb_methods_lines(ms: Seq<MethodDescView>, a: Seq<char>, cb: Seq<char>) -> Seq<
    Seq<char>,
>
    decreases ms.len(),
{
    if ms.len() == 0 {
        Seq::empty()
    } else {
        cb_methods_lines(ms.drop_last(), a, cb) + cb_method_lines(ms.last(), a, cb)
    }
}

/// `m1:a_m1,m2:a_m2,` for the methods of a callback trait.
pub open spec fn cb_model_args(ms: Seq<MethodDescView>, a: Seq<char>) -> Seq<char>
    decreases ms.len(),
{
    if ms.len() == 0 {
        Seq::empty()
    } else {
        cb_model_args(ms.drop_last(), a) + ms.last().name + ":"@ + a + "_"@ + ms.last().name + ","@
    }
}

/// Whether every method of a callback trait has arguments and a result
/// that the generator handles.
pub open spec fn callback_supported(cb: TraitDescView) -> bool {
    forall|k: int|
        0 <= k < cb.methods.len() ==> {
            &&& cb_return_supported(#[trigger] cb.methods[k].return_type)
            &&& forall|j: int|
                0 <= j < cb.methods[k].args.len() ==> cb_arg_supported(
                    #[trigger] cb.methods[k].args[j].ty,
                )
        }
}

/// The lines that pass callback argument `a` of a method of module `module`
/// to C as the model struct of callback trait `cb`.
pub open spec fn callback_arg_lines(module: Seq<char>, a: Seq<char>, cb: TraitDescView) -> Seq<
    Seq<char>,
> {
    callback_index_lines(a) + cb_methods_lines(cb.methods, a, cb.name) + seq![cb_free_line(a)]
        + seq![
        "let s_"@ + a + " = "@ + module + "_"@ + cb.name + "_Model("@ + cb_model_args(cb.methods, a)
            + "free_callback: "@ + a + "_callback_free"@ + ", index: "@ + a + "_index"@ + ")\n"@,
    ]
}

/// The conversion lines of every argument of a callback method.
fn cb_args_convert(args: &Vec<ArgDesc>) -> (r: Vec<String>)
    requires
        forall|j: int| 0 <= j < args@.len() ==> cb_arg_supported(#[trigger] args@[j].ty@),
    ensures
        strings_view(r@) == cb_args_lines(args_view(args@)),
{
    let mut r = no_lines();
    let n = args.len();
    let mut i: usize = 0;
    while i < n
        invariant
            n == args@.len(),
            i <= n,
            forall|j: int| 0 <= j < args@.len() ==> cb_arg_supported(#[trigger] args@[j].ty@),
            strings_view(r@) == cb_args_lines(args_view(args@).take(i as int)),
        decreases n - i,
    {
        proof {
            assert(args_view(args@).take(i + 1).drop_last() =~= args_view(args@).take(i as int));
        }
        let more = fill_cb_closure_arg_convert(&args[i]);
        push_lines(&mut r, more);
        i = i + 1;
    }
    assert(args_view(args@).take(n as int) =~= args_view(args@));
    r
}

/// The C closure for one callback method.
fn callback_method_lines(cb_method: &MethodDesc, arg: &ArgDesc, cb_name: &String) -> (r: Vec<String>)
    requires
        cb_return_supported(cb_method.return_type@),
        forall|j: int|
            0 <= j < cb_method.args@.len() ==> cb_arg_supported(#[trigger] cb_method.args@[j].ty@),
    ensures
        strings_view(r@) == cb_method_lines(cb_method@, arg.name@, cb_name@),
{
    let mut r = fill_cb_closure_method_sig(cb_method, arg);
    let mut l = cat3("let ", arg.name.as_str(), "_callback");
    l.append(" = globalCallbacks[index] as! ");
    l.append(cb_name.as_str());
    push_lines(&mut r, one_line(l));
    push_lines(&mut r, cb_args_convert(&cb_method.args));
    push_lines(&mut r, fill_cb_closure_call(cb_method, arg));
    push_lines(&mut r, fill_cb_closure_return_convert(cb_method));
    push_lines(&mut r, one_line("}".to_owned()));
    r
}

/// The lines that pass a callback argument to C: a model struct of
/// closures, one per callback method.
pub fn callback_arg_convert(module: &String, arg: &ArgDesc, cb: &TraitDesc) -> (r: Vec<String>)
    requires
        callback_supported(cb@),
    ensures
        strings_view(r@) == callback_arg_lines(module@, arg.name@, cb@),
{
    let mut r = fill_callback_index(arg);
    let mut model = String::new();
    let n = cb.methods.len();
    let mut i: usize = 0;
    let ghost start = r@;
    while i < n
        invariant
            n == cb.methods@.len(),
            i <= n,
            callback_supported(cb@),
            strings_view(r@) == strings_view(start) + cb_methods_lines(
                cb@.methods.take(i as int),
                arg.name@,
                cb.name@,
            ),
            model@ == cb_model_args(cb@.methods.take(i as int), arg.name@),
        decreases n - i,
    {
        proof {
            assert(cb@.methods.take(i + 1).drop_last() =~= cb@.methods.take(i as int));
            assert(cb@.methods[i as int] == cb.methods@[i as int]@);
            assert(cb_return_supported(cb@.methods[i as int].return_type));
            assert forall|j: int|
                0 <= j < cb.methods@[i as int].args@.len() implies cb_arg_supported(
                #[trigger] cb.methods@[i as int].args@[j].ty@,
            ) by {
                assert(cb_return_supported(cb@.methods[i as int].return_type));
                assert(cb@.methods[i as int].args.len() == cb.methods@[i as int].args@.len());
                assert(cb@.methods[i as int].args[j] == cb.methods@[i as int].args@[j]@);
                assert(cb_arg_supported(cb@.methods[i as int].args[j].ty));
            }
        }
        let m = &cb.methods[i];
        let more = callback_method_lines(m, arg, &cb.name);
        let ghost before = r@;
        push_lines(&mut r, more);
        assert(strings_view(r@) =~= strings_view(start) + cb_methods_lines(
            cb@.methods.take(i + 1),
            arg.name@,
            cb.name@,
        ));
        model.append(m.name.as_str());
        model.append(":");
        model.append(arg.name.as_str());
        model.append("_");
        model.append(m.name.as_str());
        model.append(",");
        i = i + 1;
    }
    assert(cb@.methods.take(n as int) =~= cb@.methods);
    push_lines(&mut r, fill_cb_closure_free_fn(arg));
    let mut l = cat3("let s_", arg.name.as_str(), " = ");
    l.append(module.as_str());
    l.append("_");
    l.append(cb.name.as_str());
    l.append("_Model(");
    l.append(model.as_str());
    l.append("free_callback: ");
    l.append(arg.name.as_str());
    l.append("_callback_free");
    l.append(", index: ");
    l.append(arg.name.as_str());
    l.append("_index");
    l.append(")\n");
    push_lines(&mut r, one_line(l));
    r
}

/// Whether every callback argument among `args` names exactly one callback
/// of `cbs`, and that callback is one the generator handles.
pub open spec fn callbacks_resolved(args: Seq<ArgDescView>, cbs: Seq<TraitDescView>) -> bool {
    forall|j: int|
        0 <= j < args.len() ==> (#[trigger] args[j].ty matches TypeView::Callback(o) ==> {
            &&& named(cbs, o).len() == 1
            &&& callback_supported(cbs[named(cbs, o)[0]])
        })
}

/// The lines that turn argument `a` of a method of module `module` into the
/// value passed to C.
pub open spec fn arg_convert_lines(module: Seq<char>, a: ArgDescView, cbs: Seq<TraitDescView>) -> Seq<
    Seq<char>,
> {
    let n = a.name;
    match a.ty {
        TypeView::Void => Seq::empty(),
        TypeView::Boolean => seq!["let "@ + "s_"@ + n + ": Int32 = "@ + n + " ? 1 : 0"@],
        TypeView::Byte(_) => seq![wrap_line("s_"@, n, "Int8"@)],
        TypeView::Short(_) => seq![wrap_line("s_"@, n, "Int16"@)],
        TypeView::Int(_) => seq![wrap_line("s_"@, n, "Int32"@)],
        TypeView::Long(_) => seq![wrap_line("s_"@, n, "Int64"@)],
        TypeView::Float(_) => seq![wrap_line("s_"@, n, "Float32"@)],
        TypeView::Double(_) => seq![wrap_line("s_"@, n, "Float64"@)],
        TypeView::String => seq!["let "@ + "s_"@ + n + " = "@ + n],
        TypeView::Vec(BaseTypeView::Byte(_)) => seq![
            "let "@ + "s_"@ + n + " = CInt8Array(ptr: "@ + n + "_buffer"@ + ".baseAddress, len: Int32("@
                + n + "_buffer"@ + ".count))"@,
        ],
        TypeView::Vec(_) => seq![
            "let "@ + n + "_encoder"@ + " = JSONEncoder()"@,
            "let "@ + "data_"@ + n + " = try! "@ + n + "_encoder"@ + ".encode("@ + n + ")"@,
            "let "@ + "s_"@ + n + " = String(data: "@ + "data_"@ + n + ", encoding: .utf8)!"@,
        ],
        TypeView::Struct(_) => Seq::empty(),
        TypeView::Callback(o) => callback_arg_lines(module, n, cbs[named(cbs, o)[0]]),
    }
}

/// The conversion lines of every argument, in order.
pub open spec fn args_convert_lines(module: Seq<char>, args: Seq<ArgDescView>, cbs: Seq<TraitDescView>) -> Seq<
    Seq<char>,
>
    decreases args.len(),
{
    if args.len() == 0 {
        Seq::empty()
    } else {
        args_convert_lines(module, args.drop_last(), cbs) + arg_convert_lines(module, args.last(), cbs)
    }
}

/// The lines that open a buffer for every byte-vector argument, and how many.
pub open spec fn buffer_lines(args: Seq<ArgDescView>) -> Seq<Seq<char>>
    decreases args.len(),
{
    if args.len() == 0 {
        Seq::empty()
    } else if args.last().ty matches TypeView::Vec(BaseTypeView::Byte(_)) {
        buffer_lines(args.drop_last()).push(
            args.last().name + ".withUnsafeBufferPointer { "@ + args.last().name + "_buffer in"@,
        )
    } else {
        buffer_lines(args.drop_last())
    }
}

/// `s_a, s_b` for the arguments `a`, `b`.
pub open spec fn native_args(args: Seq<ArgDescView>) -> Seq<char>
    decreases args.len(),
{
    if args.len() == 0 {
        Seq::empty()
    } else if args.len() == 1 {
        "s_"@ + args[0].name
    } else {
        native_args(args.drop_last()) + ", "@ + "s_"@ + args.last().name
    }
}

/// The line that calls the C function of method `m` of module `module`
/// with every converted argument; a result is kept as `result`.
pub open spec fn native_call_line(module: Seq<char>, m: MethodDescView) -> Seq<char> {
    match m.return_type {
        TypeView::Void => module + "_"@ + m.name + "("@ + native_args(m.args) + ")"@,
        _ => "let result = "@ + module + "_"@ + m.name + "("@ + native_args(m.args) + ")"@,
    }
}

/// The Swift text that decodes the JSON string returned by C into
/// `s_result` of Swift type `t`; `krate` frees the C string.
pub open spec fn json_result_text(krate: Seq<char>, sep: Seq<char>, t: Seq<char>, tail: Seq<char>) -> Seq<char> {
    "let ret_str = String(cString:result!)\n"@ + krate + "_free_str(result!)\n"@ + "var s_tmp_result:"@
        + sep + t + "?\n"@ + "autoreleasepool {\n"@ + "let ret_str_json = ret_str.data(using: .utf8)!\n"@
        + "let decoder = JSONDecoder()\n"@ + "s_tmp_result = try! decoder.decode("@ + t
        + ".self, from: ret_str_json)\n"@ + "}\n"@ + "let s_result = s_tmp_result!"@ + tail
}

/// The lines that turn the C result into the Swift result; `krate` is the
/// host crate name with `-` written `_`.
pub open spec fn return_convert_lines(krate: Seq<char>, t: TypeView) -> Seq<Seq<char>> {
    let conv = match t {
        TypeView::Void => Seq::empty(),
        TypeView::Byte(_) => seq!["let s_result = Int8(result)"@],
        TypeView::Short(_) => seq!["let s_result = Int16(result)"@],
        TypeView::Int(_) => seq!["let s_result = Int32(result)"@],
        TypeView::Long(_) => seq!["let s_result = Int64(result)"@],
        TypeView::Float(_) => seq!["let s_result = Float(result)"@],
        TypeView::Double(_) => seq!["let s_result = Double(result)"@],
        TypeView::Boolean => seq!["let s_result = result > 0 ? true : false"@],
        TypeView::String => seq![
            "let s_result = String(cString:result!)"@,
            krate + "_free_str(result!)"@,
        ],
        TypeView::Vec(_) => seq![json_result_text(krate, Seq::empty(), swift_str(t), Seq::empty())],
        TypeView::Callback(_) => Seq::empty(),
        TypeView::Struct(name) => seq![json_result_text(krate, " "@, name, "\n"@)],
    };
    match t {
        TypeView::Void => conv,
        _ => conv.push("return s_result"@),
    }
}

/// The number of byte-vector arguments.
pub open spec fn byte_vec_count(args: Seq<ArgDescView>) -> nat {
    buffer_lines(args).len()
}

/// The body of the Swift static method for method `m` of contract trait
/// `desc`, whose callback arguments name callbacks of `cbs`.
pub open spec fn method_body_lines(desc: TraitDescView, m: MethodDescView, cbs: Seq<TraitDescView>) -> Seq<
    Seq<char>,
> {
    buffer_lines(m.args) + args_convert_lines(desc.mod_name, m.args, cbs) + seq![
        native_call_line(desc.mod_name, m),
    ] + return_convert_lines(replace_char(desc.crate_name, '-', '_'), m.return_type)
        + Seq::new(byte_vec_count(m.args), |k: int| "}"@)
}

/// The conversion lines of one argument of a wrapper method.
fn arg_convert(module: &String, arg: &ArgDesc, callbacks: &Vec<TraitDesc>) -> (r: Vec<String>)
    requires
        arg.ty@ matches TypeView::Callback(o) ==> {
            &&& named(traits_view(callbacks@), o).len() == 1
            &&& callback_supported(traits_view(callbacks@)[named(traits_view(callbacks@), o)[0]])
        },
    ensures
        strings_view(r@) == arg_convert_lines(module@, arg@, traits_view(callbacks@)),
{
    let n = arg.name.as_str();
    match &arg.ty {
        AstType::Void => no_lines(),
        AstType::Boolean => {
            let mut l = cat3("let ", "s_", n);
            l.append(": Int32 = ");
            l.append(n);
            l.append(" ? 1 : 0");
            one_line(l)
        },
        AstType::Byte(_) => one_line(wrap("s_", n, "Int8")),
        AstType::Short(_) => one_line(wrap("s_", n, "Int16")),
        AstType::Int(_) => one_line(wrap("s_", n, "Int32")),
        AstType::Long(_) => one_line(wrap("s_", n, "Int64")),
        AstType::Float(_) => one_line(wrap("s_", n, "Float32")),
        AstType::Double(_) => one_line(wrap("s_", n, "Float64")),
        AstType::String => {
            let mut l = cat3("let ", "s_", n);
            l.append(" = ");
            l.append(n);
            one_line(l)
        },
        AstType::Vec(AstBaseType::Byte(_)) => {
            let mut l = cat3("let ", "s_", n);
            l.append(" = CInt8Array(ptr: ");
            l.append(n);
            l.append("_buffer");
            l.append(".baseAddress, len: Int32(");
            l.append(n);
            l.append("_buffer");
            l.append(".count))");
            one_line(l)
        },
        AstType::Vec(_) => {
            let mut r: Vec<String> = Vec::new();
            let mut l1 = cat3("let ", n, "_encoder");
            l1.append(" = JSONEncoder()");
            let mut l2 = cat3("let ", "data_", n);
            l2.append(" = try! ");
            l2.append(n);
            l2.append("_encoder");
            l2.append(".encode(");
            l2.append(n);
            l2.append(")");
            let mut l3 = cat3("let ", "s_", n);
            l3.append(" = String(data: ");
            l3.append("data_");
            l3.append(n);
            l3.append(", encoding: .utf8)!");
            r.push(l1);
            r.push(l2);
            r.push(l3);
            assert(strings_view(r@) =~= arg_convert_lines(module@, arg@, traits_view(callbacks@)));
            r
        },
        AstType::Struct(_) => no_lines(),
        AstType::Callback(o) => {
            let k = find_callback(o, callbacks);
            assert(traits_view(callbacks@)[k as int] == callbacks@[k as int]@);
            callback_arg_convert(module, arg, &callbacks[k])
        },
    }
}

/// The line that calls the C function of a method.
pub fn fill_call_native_method(module: &String, method: &MethodDesc) -> (r: Vec<String>)
    ensures
        strings_view(r@) == seq![native_call_line(module@, method@)],
{
    let mut line = match &method.return_type {
        AstType::Void => String::new(),
        _ => "let result = ".to_owned(),
    };
    line.append(module.as_str());
    line.append("_");
    line.append(method.name.as_str());
    line.append("(");
    let n = method.args.len();
    let mut i: usize = 0;
    let ghost start = line@;
    while i < n
        invariant
            n == method.args@.len(),
            i <= n,
            line@ == start + native_args(args_view(method.args@).take(i as int)),
        decreases n - i,
    {
        proof {
            assert(args_view(method.args@).take(i + 1).drop_last() =~= args_view(method.args@).take(
                i as int,
            ));
            if i == 0 {
                assert(args_view(method.args@).take(1)[0] == method.args@[0]@);
            }
        }
        if i != 0 {
            line.append(", ");
        }
        line.append("s_");
        line.append(method.args[i].name.as_str());
        i = i + 1;
        assert(line@ =~= start + native_args(args_view(method.args@).take(i as int)));
    }
    assert(args_view(method.args@).take(n as int) =~= args_view(method.args@));
    line.append(")");
    assert(line@ =~= native_call_line(module@, method@));
    one_line(line)
}

/// The JSON-decoding text of a returned vector or struct.
fn json_result(krate: &str, sep: &str, t: &str, tail: &str) -> (r: String)
    ensures
        r@ == json_result_text(krate@, sep@, t@, tail@),
{
    let mut r = "let ret_str = String(cString:result!)\n".to_owned();
    r.append(krate);
    r.append("_free_str(result!)\n");
    r.append("var s_tmp_result:");
    r.append(sep);
    r.append(t);
    r.append("?\n");
    r.append("autoreleasepool {\n");
    r.append("let ret_str_json = ret_str.data(using: .utf8)!\n");
    r.append("let decoder = JSONDecoder()\n");
    r.append("s_tmp_result = try! decoder.decode(");
    r.append(t);
    r.append(".self, from: ret_str_json)\n");
    r.append("}\n");
    r.append("let s_result = s_tmp_result!");
    r.append(tail);
    r
}

/// The lines that turn the C result into the Swift result.
pub fn fill_return_type_convert(crate_name: &String, method: &MethodDesc) -> (r: Vec<String>)
    ensures
        strings_view(r@) == return_convert_lines(
            replace_char(crate_name@, '-', '_'),
            method.return_type@,
        ),
{
    let krate = replace_chars(crate_name.as_str(), '-', '_');
    let mut r = match &method.return_type {
        AstType::Void => no_lines(),
        AstType::Byte(_) => one_line("let s_result = Int8(result)".to_owned()),
        AstType::Short(_) => one_line("let s_result = Int16(result)".to_owned()),
        AstType::Int(_) => one_line("let s_result = Int32(result)".to_owned()),
        AstType::Long(_) => one_line("let s_result = Int64(result)".to_owned()),
        AstType::Float(_) => one_line("let s_result = Float(result)".to_owned()),
        AstType::Double(_) => one_line("let s_result = Double(result)".to_owned()),
        AstType::Boolean => one_line("let s_result = result > 0 ? true : false".to_owned()),
        AstType::String => {
            let mut v = one_line("let s_result = String(cString:result!)".to_owned());
            push_lines(&mut v, one_line(cat2(krate.as_str(), "_free_str(result!)")));
            v
        },
        AstType::Vec(_) => {
            let t = swift_type(&method.return_type);
            proof {
                reveal_strlit("");
            }
            one_line(json_result(krate.as_str(), "", t.as_str(), ""))
        },
        AstType::Callback(_) => no_lines(),
        AstType::Struct(name) => one_line(json_result(krate.as_str(), " ", name.as_str(), "\n")),
    };
    match &method.return_type {
        AstType::Void => {},
        _ => {
            let ghost before = r@;
            r.push("return s_result".to_owned());
            assert(strings_view(r@) =~= strings_view(before).push("return s_result"@));
        },
    }
    r
}

/// The body of the Swift static method for a method of a contract trait:
/// the byte buffers opened, the arguments converted, the C call, the result
/// converted and the buffers closed.
pub fn method_body(desc: &TraitDesc, method: &MethodDesc, callbacks: &Vec<TraitDesc>) -> (r: Vec<
    String,
>)
    requires
        callbacks_resolved(method@.args, traits_view(callbacks@)),
    ensures
        strings_view(r@) == method_body_lines(desc@, method@, traits_view(callbacks@)),
{
    let mut r = no_lines();
    let n = method.args.len();
    let mut byte_count: usize = 0;
    let mut i: usize = 0;
    while i < n
        invariant
            n == method.args@.len(),
            i <= n,
            strings_view(r@) == buffer_lines(args_view(method.args@).take(i as int)),
            byte_count == buffer_lines(args_view(method.args@).take(i as int)).len(),
            byte_count <= i,
        decreases n - i,
    {
        proof {
            assert(args_view(method.args@).take(i + 1).drop_last() =~= args_view(method.args@).take(
                i as int,
            ));
        }
        let arg = &method.args[i];
        if let AstType::Vec(AstBaseType::Byte(_)) = &arg.ty {
            byte_count = byte_count + 1;
            let mut l = arg.name.clone();
            l.append(".withUnsafeBufferPointer { ");
            l.append(arg.name.as_str());
            l.append("_buffer in");
            let ghost before = r@;
            r.push(l);
            assert(strings_view(r@) =~= strings_view(before).push(l@));
        }
        i = i + 1;
    }
    assert(args_view(method.args@).take(n as int) =~= args_view(method.args@));
    let mut k: usize = 0;
    let ghost after_buffers = r@;
    while k < n
        invariant
            n == method.args@.len(),
            k <= n,
            callbacks_resolved(method@.args, traits_view(callbacks@)),
            strings_view(r@) == strings_view(after_buffers) + args_convert_lines(
                desc.mod_name@,
                args_view(method.args@).take(k as int),
                traits_view(callbacks@),
            ),
        decreases n - k,
    {
        proof {
            assert(args_view(method.args@).take(k + 1).drop_last() =~= args_view(method.args@).take(
                k as int,
            ));
            assert(method@.args[k as int] == method.args@[k as int]@);
            assert(method@.args[k as int].ty == method.args@[k as int].ty@);
            assert(method@.args[k as int].ty matches TypeView::Callback(o) ==> {
                &&& named(traits_view(callbacks@), o).len() == 1
                &&& callback_supported(traits_view(callbacks@)[named(traits_view(callbacks@), o)[0]])
            });
        }
        let more = arg_convert(&desc.mod_name, &method.args[k], callbacks);
        push_lines(&mut r, more);
        k = k + 1;
        assert(strings_view(r@) =~= strings_view(after_buffers) + args_convert_lines(
            desc.mod_name@,
            args_view(method.args@).take(k as int),
            traits_view(callbacks@),
        ));
    }
    push_lines(&mut r, fill_call_native_method(&desc.mod_name, method));
    push_lines(&mut r, fill_return_type_convert(&desc.crate_name, method));
    let ghost before_close = r@;
    let mut c: usize = 0;
    while c < byte_count
        invariant
            c <= byte_count,
            strings_view(r@) == strings_view(before_close) + Seq::new(c as nat, |j: int| "}"@),
        decreases byte_count - c,
    {
        let ghost prev = r@;
        let close = "}".to_owned();
        let ghost cl = close@;
        r.push(close);
        assert(strings_view(r@) =~= strings_view(prev).push(cl));
        assert(Seq::new((c + 1) as nat, |j: int| "}"@) =~= Seq::new(c as nat, |j: int| "}"@).push(
            "}"@,
        ));
        c = c + 1;
        assert(strings_view(r@) =~= strings_view(before_close) + Seq::new(c as nat, |j: int| "}"@));
    }
    assert(args_view(method.args@).take(n as int) =~= method@.args);
    assert(strings_view(r@) =~= method_body_lines(desc@, method@, traits_view(callbacks@)));
    r
}
/// The parameters of a wrapper method: every argument by its Swift
/// signature type.
pub fn swift_method_params(method: &MethodDesc) -> (r: Vec<crate::gen::java::Param>)
    ensures
        crate::gen::java::params_view(r@) == Seq::new(
            method@.args.len(),
            |i: int| crate::gen::java::jarg(crate::gen::mapping::swift_sig_str(method@.args[i].ty), method@.args[i].name),
        ),
{
    let mut r: Vec<crate::gen::java::Param> = Vec::new();
    let n = method.args.len();
    let mut i: usize = 0;
    while i < n
        invariant
            n == method.args@.len(),
            i <= n,
            r@.len() == i,
            forall|k: int| 0 <= k < i ==> #[trigger] r@[k]@ == crate::gen::java::jarg(
                crate::gen::mapping::swift_sig_str(method.args@[k].ty@),
                method.args@[k].name@,
            ),
        decreases n - i,
    {
        let a = &method.args[i];
        r.push(crate::gen::java::param(crate::gen::mapping::map_sig_type(&a.ty), a.name.clone()));
        i = i + 1;
    }
    assert(crate::gen::java::params_view(r@) =~= Seq::new(
        method@.args.len(),
        |i: int| crate::gen::java::jarg(crate::gen::mapping::swift_sig_str(method@.args[i].ty), method@.args[i].name),
    ));
    r
}

/// Typed names by their Swift types: the parameters of a callback
/// protocol's method or the fields of a struct.
pub fn swift_typed(args: &Vec<ArgDesc>) -> (r: Vec<crate::gen::java::Param>)
    ensures
        crate::gen::java::params_view(r@) == Seq::new(
            args@.len(),
            |i: int| crate::gen::java::jarg(swift_str(args@[i].ty@), args@[i].name@),
        ),
{
    let mut r: Vec<crate::gen::java::Param> = Vec::new();
    let n = args.len();
    let mut i: usize = 0;
    while i < n
        invariant
            n == args@.len(),
            i <= n,
            r@.len() == i,
            forall|k: int| 0 <= k < i ==> #[trigger] r@[k]@ == crate::gen::java::jarg(
                swift_str(args@[k].ty@),
                args@[k].name@,
            ),
        decreases n - i,
    {
        r.push(crate::gen::java::param(swift_type(&args[i].ty), args[i].name.clone()));
        i = i + 1;
    }
    assert(crate::gen::java::params_view(r@) =~= Seq::new(
        args@.len(),
        |i: int| crate::gen::java::jarg(swift_str(args@[i].ty@), args@[i].name@),
    ));
    r
}

/// The file-level variables of a Swift wrapper: the callback counter and
/// table.
pub open spec fn swift_global_lines() -> Seq<Seq<char>> {
    seq![
        "private  var globalIndex : Int64 = 0"@,
        "private  var globalCallbacks : [Int64: Any] = [Int64: Any]()"@,
    ]
}

/// The file-level variables of a Swift wrapper.
pub fn swift_global_block() -> (r: Vec<String>)
    ensures
        strings_view(r@) == swift_global_lines(),
{
    let mut r: Vec<String> = Vec::new();
    r.push("private  var globalIndex : Int64 = 0".to_owned());
    r.push("private  var globalCallbacks : [Int64: Any] = [Int64: Any]()".to_owned());
    assert(strings_view(r@) =~= swift_global_lines());
    r
}

/// How many callbacks of `callbacks` are named `name`.
pub fn count_named(name: &str, callbacks: &Vec<TraitDesc>) -> (r: usize)
    ensures
        r as int == named(traits_view(callbacks@), name@).len(),
{
    let n = callbacks.len();
    let mut c: usize = 0;
    let mut i: usize = 0;
    while i < n
        invariant
            n == callbacks@.len(),
            i <= n,
            c as int == named(traits_view(callbacks@).take(i as int), name@).len(),
            c <= i,
        decreases n - i,
    {
        proof {
            assert(traits_view(callbacks@).take(i + 1).drop_last() =~= traits_view(callbacks@).take(
                i as int,
            ));
            assert(traits_view(callbacks@).take(i + 1).last() == callbacks@[i as int]@);
        }
        if crate::text::str_eq(callbacks[i].name.as_str(), name) {
            c = c + 1;
        }
        i = i + 1;
    }
    assert(traits_view(callbacks@).take(n as int) =~= traits_view(callbacks@));
    c
}

/// Whether the generator handles every method of callback `cb`.
pub fn is_callback_supported(cb: &TraitDesc) -> (r: bool)
    ensures
        r == callback_supported(cb@),
{
    let n = cb.methods.len();
    let mut k: usize = 0;
    while k < n
        invariant
            n == cb.methods@.len(),
            k <= n,
            forall|q: int|
                0 <= q < k ==> {
                    &&& cb_return_supported(#[trigger] cb@.methods[q].return_type)
                    &&& forall|j: int|
                        0 <= j < cb@.methods[q].args.len() ==> cb_arg_supported(
                            #[trigger] cb@.methods[q].args[j].ty,
                        )
                },
        decreases n - k,
    {
        let m = &cb.methods[k];
        assert(cb@.methods[k as int] == m@);
        match &m.return_type {
            AstType::Vec(_) | AstType::Callback(_) | AstType::Struct(_) => {
                assert(!cb_return_supported(cb@.methods[k as int].return_type));
                return false;
            },
            _ => {},
        }
        let na = m.args.len();
        let mut j: usize = 0;
        while j < na
            invariant
                na == m.args@.len(),
                j <= na,
                n == cb.methods@.len(),
                k < n,
                cb@.methods[k as int] == m@,
                cb_return_supported(cb@.methods[k as int].return_type),
                forall|t: int| 0 <= t < j ==> cb_arg_supported(#[trigger] m@.args[t].ty),
                forall|q: int|
                    0 <= q < k ==> {
                        &&& cb_return_supported(#[trigger] cb@.methods[q].return_type)
                        &&& forall|j: int|
                            0 <= j < cb@.methods[q].args.len() ==> cb_arg_supported(
                                #[trigger] cb@.methods[q].args[j].ty,
                            )
                    },
            decreases na - j,
        {
            assert(m@.args[j as int] == m.args@[j as int]@);
            if let AstType::Callback(_) = &m.args[j].ty {
                assert(!cb_arg_supported(cb@.methods[k as int].args[j as int].ty));
                return false;
            }
            j = j + 1;
        }
        k = k + 1;
    }
    true
}

/// Whether every callback argument of `args` names exactly one callback of
/// `callbacks`, and one that the generator handles.
pub fn resolves_callbacks(args: &Vec<ArgDesc>, callbacks: &Vec<TraitDesc>) -> (r: bool)
    ensures
        r == callbacks_resolved(args_view(args@), traits_view(callbacks@)),
{
    let ghost cbs = traits_view(callbacks@);
    let n = args.len();
    let mut i: usize = 0;
    while i < n
        invariant
            n == args@.len(),
            i <= n,
            cbs == traits_view(callbacks@),
            forall|j: int|
                0 <= j < i ==> (#[trigger] args_view(args@)[j].ty matches TypeView::Callback(o) ==> {
                    &&& named(cbs, o).len() == 1
                    &&& callback_supported(cbs[named(cbs, o)[0]])
                }),
        decreases n - i,
    {
        assert(args_view(args@)[i as int] == args@[i as int]@);
        if let AstType::Callback(o) = &args[i].ty {
            assert(args_view(args@)[i as int].ty == TypeView::Callback(o@));
            if count_named(o.as_str(), callbacks) != 1 {
                return false;
            }
            let k = find_callback(o, callbacks);
            assert(cbs[k as int] == callbacks@[k as int]@);
            if !is_callback_supported(&callbacks[k]) {
                assert(named(cbs, o@)[0] == k as int);
                return false;
            }
        }
        i = i + 1;
    }
    true
}

/// The body of the Swift static method of `method`, or `None` when a
/// callback argument names no callback, several, or one the generator does
/// not handle (where the generator stops).
pub fn try_method_body(desc: &TraitDesc, method: &MethodDesc, callbacks: &Vec<TraitDesc>) -> (r:
    Option<Vec<String>>)
    ensures
        match r {
            Some(v) => callbacks_resolved(method@.args, traits_view(callbacks@)) && strings_view(v@)
                == method_body_lines(desc@, method@, traits_view(callbacks@)),
            None => !callbacks_resolved(method@.args, traits_view(callbacks@)),
        },
{
    if resolves_callbacks(&method.args, callbacks) {
        Some(method_body(desc, method, callbacks))
    } else {
        None
    }
}

} // verus!
