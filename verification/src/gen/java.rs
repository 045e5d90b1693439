//! The Java side of the Android and JAR artifacts: the Java type of each
//! contract type, and the methods, fields and lines of the Java class that
//! wraps each contract trait.

use vstd::prelude::*;

use crate::ast::desc::{args_view, methods_view, traits_view, ArgDesc, ArgDescView, MethodDesc, MethodDescView, TraitDesc, TraitDescView};
use crate::ast::types::{widen, AstBaseType, AstType, BaseTypeView, TypeView};
use crate::gen::swift::{cat2, cat3, named, no_lines, one_line, push_lines};
use crate::text::{contains_text, holds_text, join, join_strings, non_empty, split, split_chars, strings_view};

verus! {

/// A Java type on its own, for a type that is not a vector.
pub open spec fn java_plain(t: TypeView) -> Seq<char> {
    match t {
        TypeView::Void => "void"@,
        TypeView::Boolean => "boolean"@,
        TypeView::Byte(_) => "byte"@,
        TypeView::Short(_) => "short"@,
        TypeView::Int(_) => "int"@,
        TypeView::Long(_) => "long"@,
        TypeView::Float(_) => "float"@,
        TypeView::Double(_) => "double"@,
        TypeView::String => "String"@,
        TypeView::Vec(_) => "String"@,
        TypeView::Callback(o) => o,
        TypeView::Struct(o) => o,
    }
}

/// The boxed form of a Java type that is not a vector.
pub open spec fn java_boxed(t: TypeView) -> Seq<char> {
    match t {
        TypeView::Void => "Void"@,
        TypeView::Boolean => "Boolean"@,
        TypeView::Byte(_) => "Byte"@,
        TypeView::Short(_) => "Short"@,
        TypeView::Int(_) => "Integer"@,
        TypeView::Long(_) => "Long"@,
        TypeView::Float(_) => "Float"@,
        TypeView::Double(_) => "Double"@,
        _ => java_plain(t),
    }
}

/// The Java type of a contract type. A byte vector is a `byte[]`; other
/// vectors travel as JSON and are arrays of boxed elements.
pub open spec fn java_name(t: TypeView) -> Seq<char> {
    match t {
        TypeView::Vec(BaseTypeView::Byte(_)) => "byte[]"@,
        TypeView::Vec(b) => java_boxed(widen(b)) + "[]"@,
        _ => java_plain(t),
    }
}

/// The Java type a value crosses JNI as.
pub open spec fn java_transfer(t: TypeView) -> Seq<char> {
    match t {
        TypeView::Boolean => "int"@,
        TypeView::Vec(BaseTypeView::Byte(_)) => java_name(t),
        TypeView::Vec(_) => "String"@,
        TypeView::Struct(_) => "String"@,
        TypeView::Callback(_) => "long"@,
        _ => java_name(t),
    }
}

/// The element type of a vector, the type itself otherwise.
pub open spec fn java_base(t: TypeView) -> Seq<char> {
    match t {
        TypeView::Vec(b) => java_plain(widen(b)),
        _ => java_name(t),
    }
}

/// The boxed element type of a vector.
pub open spec fn java_base_boxed(t: TypeView) -> Seq<char> {
    match t {
        TypeView::Vec(b) => java_boxed(widen(b)),
        _ => java_name(t),
    }
}

/// The Java modifiers that the generated members carry.
#[derive(Clone, Copy, Debug, PartialEq, Eq)]
pub enum JavaModifier {
    Public,
    Private,
    Static,
    Native,
}

/// A typed parameter (or field) of a generated method (or class).
#[derive(Clone, Debug)]
pub struct Param {
    pub ty: String,
    pub name: String,
}

/// The view of a [`Param`].
pub ghost struct ParamView {
    pub ty: Seq<char>,
    pub name: Seq<char>,
}

impl View for Param {
    type V = ParamView;

    open spec fn view(&self) -> ParamView {
        ParamView { ty: self.ty@, name: self.name@ }
    }
}

/// A generated Java method: its name, modifiers, result type, parameters
/// and the lines of its body.
#[derive(Clone, Debug)]
pub struct JavaMethod {
    pub name: String,
    pub modifiers: Vec<JavaModifier>,
    pub result_type: String,
    pub args: Vec<Param>,
    pub body: Vec<String>,
}

/// The view of a [`JavaMethod`].
pub ghost struct JavaMethodView {
    pub name: Seq<char>,
    pub modifiers: Seq<JavaModifier>,
    pub result_type: Seq<char>,
    pub args: Seq<ParamView>,
    pub body: Seq<Seq<char>>,
}

impl View for JavaMethod {
    type V = JavaMethodView;

    open spec fn view(&self) -> JavaMethodView {
        JavaMethodView {
            name: self.name@,
            modifiers: self.modifiers@,
            result_type: self.result_type@,
            args: Seq::new(self.args@.len(), |i: int| self.args@[i]@),
            body: strings_view(self.body@),
        }
    }
}

/// The views of a sequence of methods.
pub open spec fn java_methods_view(v: Seq<JavaMethod>) -> Seq<JavaMethodView> {
    Seq::new(v.len(), |i: int| v[i]@)
}

/// A parameter.
pub open spec fn jarg(ty: Seq<char>, name: Seq<char>) -> ParamView {
    ParamView { ty, name }
}

/// The Java type of a contract type.
pub fn java_type(ty: &AstType) -> (r: String)
    ensures
        r@ == java_name(ty@),
{
    match ty {
        AstType::Void => "void".to_owned(),
        AstType::Boolean => "boolean".to_owned(),
        AstType::Byte(_) => "byte".to_owned(),
        AstType::Short(_) => "short".to_owned(),
        AstType::Int(_) => "int".to_owned(),
        AstType::Long(_) => "long".to_owned(),
        AstType::Float(_) => "float".to_owned(),
        AstType::Double(_) => "double".to_owned(),
        AstType::String => "String".to_owned(),
        AstType::Vec(AstBaseType::Byte(_)) => "byte[]".to_owned(),
        AstType::Vec(b) => {
            let e = boxed_base(b);
            cat2(e.as_str(), "[]")
        },
        AstType::Callback(o) => o.clone(),
        AstType::Struct(o) => o.clone(),
    }
}

/// The boxed Java type of a vector's element.
fn boxed_base(b: &AstBaseType) -> (r: String)
    ensures
        r@ == java_boxed(widen(b@)),
{
    match b {
        AstBaseType::Void => "Void".to_owned(),
        AstBaseType::Boolean => "Boolean".to_owned(),
        AstBaseType::Byte(_) => "Byte".to_owned(),
        AstBaseType::Short(_) => "Short".to_owned(),
        AstBaseType::Int(_) => "Integer".to_owned(),
        AstBaseType::Long(_) => "Long".to_owned(),
        AstBaseType::Float(_) => "Float".to_owned(),
        AstBaseType::Double(_) => "Double".to_owned(),
        AstBaseType::String => "String".to_owned(),
        AstBaseType::Callback(o) => o.clone(),
        AstBaseType::Struct(o) => o.clone(),
    }
}

/// The unboxed Java type of a vector's element.
fn plain_base(b: &AstBaseType) -> (r: String)
    ensures
        r@ == java_plain(widen(b@)),
{
    match b {
        AstBaseType::Void => "void".to_owned(),
        AstBaseType::Boolean => "boolean".to_owned(),
        AstBaseType::Byte(_) => "byte".to_owned(),
        AstBaseType::Short(_) => "short".to_owned(),
        AstBaseType::Int(_) => "int".to_owned(),
        AstBaseType::Long(_) => "long".to_owned(),
        AstBaseType::Float(_) => "float".to_owned(),
        AstBaseType::Double(_) => "double".to_owned(),
        AstBaseType::String => "String".to_owned(),
        AstBaseType::Callback(o) => o.clone(),
        AstBaseType::Struct(o) => o.clone(),
    }
}

/// The Java type a value crosses JNI as.
pub fn to_transfer(ty: &AstType) -> (r: String)
    ensures
        r@ == java_transfer(ty@),
{
    match ty {
        AstType::Boolean => "int".to_owned(),
        AstType::Vec(AstBaseType::Byte(_)) => java_type(ty),
        AstType::Vec(_) => "String".to_owned(),
        AstType::Struct(_) => "String".to_owned(),
        AstType::Callback(_) => "long".to_owned(),
        _ => java_type(ty),
    }
}

/// The element type of a vector, the type itself otherwise.
pub fn get_base_ty(ty: &AstType) -> (r: String)
    ensures
        r@ == java_base(ty@),
{
    match ty {
        AstType::Vec(b) => plain_base(b),
        _ => java_type(ty),
    }
}

/// The boxed element type of a vector, the type itself otherwise.
pub fn get_boxed_base_ty(ty: &AstType) -> (r: String)
    ensures
        r@ == java_base_boxed(ty@),
{
    match ty {
        AstType::Vec(b) => boxed_base(b),
        _ => java_type(ty),
    }
}

/// The line that loads native library `lib`.
pub open spec fn load_lib_line(lib: Seq<char>) -> Seq<char> {
    "System.loadLibrary(\""@ + lib + "\");"@
}

/// The lines that load each of `libs`.
pub open spec fn load_lines(libs: Seq<Seq<char>>) -> Seq<Seq<char>> {
    Seq::new(libs.len(), |i: int| load_lib_line(libs[i]))
}

/// The lines of the class's static block: the shared library `so`, then
/// each non-empty name of the comma-separated list `ext`.
pub open spec fn load_library_lines(so: Seq<char>, ext: Seq<char>) -> Seq<Seq<char>> {
    seq![load_lib_line(so)] + load_lines(non_empty(split(ext, ',')))
}

/// The lines inside the class's `static { }` block.
pub fn fill_global_block(so_name: &str, ext_libs: &str) -> (r: Vec<String>)
    ensures
        strings_view(r@) == load_library_lines(so_name@, ext_libs@),
{
    let mut r = one_line(cat3("System.loadLibrary(\"", so_name, "\");"));
    let pieces = split_chars(ext_libs, ',');
    let n = pieces.len();
    let mut i: usize = 0;
    while i < n
        invariant
            n == pieces@.len(),
            i <= n,
            strings_view(pieces@) == split(ext_libs@, ','),
            strings_view(r@) == seq![load_lib_line(so_name@)] + load_lines(
                non_empty(strings_view(pieces@).take(i as int)),
            ),
        decreases n - i,
    {
        proof {
            assert(strings_view(pieces@).take(i + 1).drop_last() =~= strings_view(pieces@).take(
                i as int,
            ));
            assert(strings_view(pieces@).take(i + 1).last() == pieces@[i as int]@);
        }
        let ghost before = strings_view(r@);
        let ghost prev = non_empty(strings_view(pieces@).take(i as int));
        assert(non_empty(strings_view(pieces@).take(i + 1)) == (if pieces@[i as int]@.len() == 0 {
            prev
        } else {
            prev.push(pieces@[i as int]@)
        }));
        if pieces[i].unicode_len() != 0 {
            r.push(cat3("System.loadLibrary(\"", pieces[i].as_str(), "\");"));
            assert(strings_view(r@) =~= before.push(load_lib_line(pieces@[i as int]@)));
            assert(load_lines(prev.push(pieces@[i as int]@)) =~= load_lines(prev).push(
                load_lib_line(pieces@[i as int]@),
            ));
        }
        i = i + 1;
        assert(strings_view(r@) =~= seq![load_lib_line(so_name@)] + load_lines(
            non_empty(strings_view(pieces@).take(i as int)),
        ));
    }
    assert(strings_view(pieces@).take(n as int) =~= strings_view(pieces@));
    r
}

/// Law: the generated class loads the shared library `so`, then every
/// non-empty extra library of `ext`, in order, provided that no library
/// name holds a comma (the extra libraries reach the generator as one
/// comma-joined text, as `ext_libs` of the Android and JAR settings give
/// it).
pub proof fn law_loaded_libraries(so: Seq<char>, ext: Seq<Seq<char>>)
    requires
        forall|i: int| 0 <= i < ext.len() ==> !crate::text::has_char(#[trigger] ext[i], ','),
    ensures
        load_library_lines(so, join(ext, ","@)) == seq![load_lib_line(so)] + load_lines(
            non_empty(ext),
        ),
{
    reveal_strlit(",");
    assert(","@ =~= seq![',']);
    if ext.len() == 0 {
        assert(join(ext, ","@) =~= Seq::<char>::empty());
        assert(split(Seq::<char>::empty(), ',') =~= seq![Seq::<char>::empty()]);
        let one = seq![Seq::<char>::empty()];
        assert(one.last().len() == 0);
        assert(one.drop_last() =~= Seq::<Seq<char>>::empty());
        assert(non_empty(one.drop_last()) =~= Seq::<Seq<char>>::empty());
        assert(non_empty(one) =~= Seq::<Seq<char>>::empty());
        assert(non_empty(ext) =~= Seq::<Seq<char>>::empty());
    } else {
        crate::text::lemma_split_join(ext, ',');
    }
}

/// The parameters of a wrapper method: the arguments that are not `Void`,
/// by their Java types.
pub open spec fn sig_args(args: Seq<ArgDescView>) -> Seq<ParamView>
    decreases args.len(),
{
    if args.len() == 0 {
        Seq::empty()
    } else if args.last().ty == TypeView::Void {
        sig_args(args.drop_last())
    } else {
        sig_args(args.drop_last()).push(jarg(java_name(args.last().ty), args.last().name))
    }
}

/// The parameters of a native method: the arguments that are not `Void`,
/// by the types they cross JNI as.
pub open spec fn native_args(args: Seq<ArgDescView>) -> Seq<ParamView>
    decreases args.len(),
{
    if args.len() == 0 {
        Seq::empty()
    } else if args.last().ty == TypeView::Void {
        native_args(args.drop_last())
    } else {
        native_args(args.drop_last()).push(jarg(java_transfer(args.last().ty), args.last().name))
    }
}

/// A method without body lines.
pub open spec fn jmethod(
    name: Seq<char>,
    modifiers: Seq<JavaModifier>,
    result_type: Seq<char>,
    args: Seq<ParamView>,
) -> JavaMethodView {
    JavaMethodView { name, modifiers, result_type, args, body: Seq::empty() }
}

/// The public static wrapper of method `m`.
pub open spec fn method_sig(m: MethodDescView) -> JavaMethodView {
    jmethod(
        m.name,
        seq![JavaModifier::Public, JavaModifier::Static],
        java_name(m.return_type),
        sig_args(m.args),
    )
}

/// The lines that turn argument `a` into the value `r_<name>` handed to the
/// native method.
pub open spec fn java_arg_lines(a: ArgDescView) -> Seq<Seq<char>> {
    let n = a.name;
    let r = "r_"@ + n;
    match a.ty {
        TypeView::Void => Seq::empty(),
        TypeView::Callback(_) => {
            let idx = n + "_callback_index"@;
            seq![
                "long "@ + idx + " = globalIndex.incrementAndGet();"@,
                "globalCallbacks.put("@ + idx + ","@ + n + ");"@,
                "long "@ + r + " = "@ + idx + ";"@,
            ]
        },
        TypeView::Boolean => seq!["int "@ + r + " = "@ + n + " ? 1 : 0;"@],
        TypeView::Vec(BaseTypeView::Byte(_)) => seq![java_name(a.ty) + " "@ + r + " = "@ + n + ";"@],
        TypeView::Vec(_) => seq!["String "@ + r + " = new Gson().toJson("@ + n + ");"@],
        _ => seq![java_name(a.ty) + " "@ + r + " = "@ + n + ";"@],
    }
}

/// The conversion lines of all the arguments.
pub open spec fn java_args_lines(args: Seq<ArgDescView>) -> Seq<Seq<char>>
    decreases args.len(),
{
    if args.len() == 0 {
        Seq::empty()
    } else {
        java_args_lines(args.drop_last()) + java_arg_lines(args.last())
    }
}

/// The names `<prefix><name>` of all the arguments, separated by commas.
pub open spec fn prefixed_names(prefix: Seq<char>, args: Seq<ArgDescView>) -> Seq<char> {
    join(Seq::new(args.len(), |i: int| prefix + args[i].name), ", "@)
}

/// The line that calls the native method of `m`.
pub open spec fn java_native_call_line(m: MethodDescView) -> Seq<char> {
    (if m.return_type == TypeView::Void {
        "native_"@ + m.name + "("@
    } else {
        java_transfer(m.return_type) + " ret = native_"@ + m.name + "("@
    }) + prefixed_names("r_"@, m.args) + ");"@
}

/// The lines that turn what the native method returned into the result.
pub open spec fn java_return_lines(t: TypeView) -> Seq<Seq<char>> {
    match t {
        TypeView::Void => Seq::empty(),
        TypeView::Vec(BaseTypeView::Byte(_)) => seq!["return ret;"@],
        TypeView::Vec(_) => seq!["return new Gson().fromJson(ret, "@ + java_base_boxed(t) + "[].class);"@],
        TypeView::Boolean => seq!["return ret > 0 ? true : false;"@],
        TypeView::Struct(o) => seq!["return new Gson().fromJson(ret,"@ + o + ".class);"@],
        _ => seq!["return ret;"@],
    }
}

/// The body of the wrapper of method `m`.
pub open spec fn java_method_body(m: MethodDescView) -> Seq<Seq<char>> {
    java_args_lines(m.args) + seq![java_native_call_line(m)] + java_return_lines(m.return_type)
}

/// The parameters of a Java method that Rust calls back through.
pub open spec fn transfer_args(args: Seq<ArgDescView>) -> Seq<ParamView> {
    Seq::new(args.len(), |i: int| jarg(java_transfer(args[i].ty), args[i].name))
}

/// The name of the static Java method that callback method `m` of callback
/// `cb` is invoked through.
pub open spec fn java_invoke_name(cb: Seq<char>, m: Seq<char>) -> Seq<char> {
    "invoke_"@ + cb + "_"@ + m
}

/// The signature of that method.
pub open spec fn cb_method_sig(cb: TraitDescView, m: MethodDescView) -> JavaMethodView {
    jmethod(
        java_invoke_name(cb.name, m.name),
        seq![JavaModifier::Public, JavaModifier::Static],
        if m.return_type == TypeView::Void {
            "void"@
        } else {
            java_transfer(m.return_type)
        },
        seq![jarg("long"@, "index"@)] + transfer_args(m.args),
    )
}

/// The line that turns what Rust passed for callback argument `a` into the
/// Java value `j_<name>`.
pub open spec fn java_cb_arg_line(a: ArgDescView) -> Seq<char> {
    let n = a.name;
    match a.ty {
        TypeView::Boolean => "boolean j_"@ + n + " = "@ + n + " > 0 ? true : false;"@,
        TypeView::Struct(sub) => sub + " j_"@ + n + " = new Gson().fromJson("@ + n + ", "@ + sub
            + ".class);"@,
        TypeView::Vec(BaseTypeView::Byte(_)) => java_base(a.ty) + "[] j_"@ + n + " = "@ + n + ";"@,
        TypeView::Vec(_) => java_base_boxed(a.ty) + "[] j_"@ + n + " = new Gson().fromJson("@ + n
            + ", "@ + java_base_boxed(a.ty) + "[].class);"@,
        _ => java_name(a.ty) + " j_"@ + n + " = "@ + n + ";"@,
    }
}

/// The lines that look the callback up and call method `m` on it.
pub open spec fn java_cb_invoke_lines(cb: Seq<char>, m: MethodDescView) -> Seq<Seq<char>> {
    let call = "callback."@ + m.name + "("@ + prefixed_names("j_"@, m.args) + ");"@;
    seq![
        cb + " callback = ("@ + cb + ") globalCallbacks.get(index);"@,
        if m.return_type == TypeView::Void {
            call
        } else {
            java_name(m.return_type) + " result = "@ + call
        },
    ]
}

/// The lines that hand the callback's result back to Rust.
pub open spec fn java_cb_return_lines(t: TypeView) -> Seq<Seq<char>> {
    match t {
        TypeView::Boolean => seq!["return result ? 1 : 0;"@],
        TypeView::Void => Seq::empty(),
        _ => seq!["return result;"@],
    }
}

/// The method that Rust invokes callback method `m` of `cb` through.
pub open spec fn cb_invoke_method(cb: TraitDescView, m: MethodDescView) -> JavaMethodView {
    JavaMethodView {
        body: Seq::new(m.args.len(), |i: int| java_cb_arg_line(m.args[i])) + java_cb_invoke_lines(
            cb.name,
            m,
        ) + java_cb_return_lines(m.return_type),
        ..cb_method_sig(cb, m)
    }
}

/// The native method that the wrapper of `m` calls.
pub open spec fn native_method(m: MethodDescView) -> JavaMethodView {
    jmethod(
        "native_"@ + m.name,
        seq![JavaModifier::Private, JavaModifier::Static, JavaModifier::Native],
        if m.return_type == TypeView::Void {
            "void"@
        } else {
            java_transfer(m.return_type)
        },
        native_args(m.args),
    )
}

/// The method that frees a callback.
pub open spec fn free_callback_method() -> JavaMethodView {
    JavaMethodView {
        body: seq!["globalCallbacks.remove(index);"@],
        ..jmethod(
            "free_callback"@,
            seq![JavaModifier::Public, JavaModifier::Static],
            "void"@,
            seq![jarg("long"@, "index"@)],
        )
    }
}

/// A parameter from its type and name.
pub fn param(ty: String, name: String) -> (r: Param)
    ensures
        r@ == jarg(ty@, name@),
{
    Param { ty, name }
}

/// The views of a sequence of parameters.
pub open spec fn params_view(v: Seq<Param>) -> Seq<ParamView> {
    Seq::new(v.len(), |i: int| v[i]@)
}

/// The parameters of the wrapper of a method (all its non-`Void`
/// arguments), typed by `transfer` when it holds, by `java_name` otherwise.
fn non_void_args(args: &Vec<ArgDesc>, transfer: bool) -> (r: Vec<Param>)
    ensures
        params_view(r@) == if transfer {
            native_args(args_view(args@))
        } else {
            sig_args(args_view(args@))
        },
{
    let mut r: Vec<Param> = Vec::new();
    let n = args.len();
    let mut i: usize = 0;
    while i < n
        invariant
            n == args@.len(),
            i <= n,
            params_view(r@) == if transfer {
                native_args(args_view(args@).take(i as int))
            } else {
                sig_args(args_view(args@).take(i as int))
            },
        decreases n - i,
    {
        proof {
            assert(args_view(args@).take(i + 1).drop_last() =~= args_view(args@).take(i as int));
            assert(args_view(args@).take(i + 1).last() == args@[i as int]@);
        }
        let a = &args[i];
        let ghost before = params_view(r@);
        match &a.ty {
            AstType::Void => {},
            _ => {
                let ty = if transfer {
                    to_transfer(&a.ty)
                } else {
                    java_type(&a.ty)
                };
                let ghost t = ty@;
                r.push(param(ty, a.name.clone()));
                assert(params_view(r@) =~= before.push(jarg(t, a.name@)));
            },
        }
        i = i + 1;
        assert(params_view(r@) =~= if transfer {
            native_args(args_view(args@).take(i as int))
        } else {
            sig_args(args_view(args@).take(i as int))
        });
    }
    assert(args_view(args@).take(n as int) =~= args_view(args@));
    r
}

/// The modifiers `public static`.
fn public_static() -> (r: Vec<JavaModifier>)
    ensures
        r@ == seq![JavaModifier::Public, JavaModifier::Static],
{
    let mut r: Vec<JavaModifier> = Vec::new();
    r.push(JavaModifier::Public);
    r.push(JavaModifier::Static);
    assert(r@ =~= seq![JavaModifier::Public, JavaModifier::Static]);
    r
}

/// The public static wrapper of method `m`, without its body.
pub fn fill_method_sig(method: &MethodDesc) -> (r: JavaMethod)
    ensures
        r@ == method_sig(method@),
{
    let args = non_void_args(&method.args, false);
    let r = JavaMethod {
        name: method.name.clone(),
        modifiers: public_static(),
        result_type: java_type(&method.return_type),
        args,
        body: no_lines(),
    };
    assert(r@.args =~= sig_args(method@.args));
    r
}

/// The lines that turn argument `arg` into the value handed to the native
/// method.
pub fn java_arg_convert(arg: &ArgDesc) -> (r: Vec<String>)
    ensures
        strings_view(r@) == java_arg_lines(arg@),
{
    let n = arg.name.as_str();
    let conv = cat2("r_", n);
    match &arg.ty {
        AstType::Void => no_lines(),
        AstType::Callback(_) => {
            let idx = cat2(n, "_callback_index");
            let mut r: Vec<String> = Vec::new();
            r.push(cat3("long ", idx.as_str(), " = globalIndex.incrementAndGet();"));
            let mut l2 = cat3("globalCallbacks.put(", idx.as_str(), ",");
            l2.append(n);
            l2.append(");");
            r.push(l2);
            let mut l3 = cat3("long ", conv.as_str(), " = ");
            l3.append(idx.as_str());
            l3.append(";");
            r.push(l3);
            assert(strings_view(r@) =~= java_arg_lines(arg@));
            r
        },
        AstType::Boolean => {
            let mut l = cat3("int ", conv.as_str(), " = ");
            l.append(n);
            l.append(" ? 1 : 0;");
            one_line(l)
        },
        AstType::Vec(AstBaseType::Byte(_)) => {
            let t = java_type(&arg.ty);
            let mut l = cat3(t.as_str(), " ", conv.as_str());
            l.append(" = ");
            l.append(n);
            l.append(";");
            one_line(l)
        },
        AstType::Vec(_) => {
            let mut l = cat3("String ", conv.as_str(), " = new Gson().toJson(");
            l.append(n);
            l.append(");");
            one_line(l)
        },
        _ => {
            let t = java_type(&arg.ty);
            let mut l = cat3(t.as_str(), " ", conv.as_str());
            l.append(" = ");
            l.append(n);
            l.append(";");
            one_line(l)
        },
    }
}

/// The names `<prefix><name>` of the arguments, separated by commas.
fn prefixed_names_text(prefix: &str, args: &Vec<ArgDesc>) -> (r: String)
    ensures
        r@ == prefixed_names(prefix@, args_view(args@)),
{
    let mut parts: Vec<String> = Vec::new();
    let n = args.len();
    let mut i: usize = 0;
    while i < n
        invariant
            n == args@.len(),
            i <= n,
            parts@.len() == i,
            forall|k: int| 0 <= k < i ==> #[trigger] parts@[k]@ == prefix@ + args@[k].name@,
        decreases n - i,
    {
        parts.push(cat2(prefix, args[i].name.as_str()));
        i = i + 1;
    }
    assert(strings_view(parts@) =~= Seq::new(
        args_view(args@).len(),
        |k: int| prefix@ + args_view(args@)[k].name,
    ));
    join_strings(&parts, ", ")
}

/// The line that calls the native method.
pub fn java_call_native_method(method: &MethodDesc) -> (r: Vec<String>)
    ensures
        strings_view(r@) == seq![java_native_call_line(method@)],
{
    let mut line = match &method.return_type {
        AstType::Void => cat3("native_", method.name.as_str(), "("),
        _ => {
            let t = to_transfer(&method.return_type);
            let mut l = cat3(t.as_str(), " ret = native_", method.name.as_str());
            l.append("(");
            l
        },
    };
    let names = prefixed_names_text("r_", &method.args);
    line.append(names.as_str());
    line.append(");");
    one_line(line)
}

/// The lines that turn the native result into the wrapper's result.
pub fn java_return_convert(ty: &AstType) -> (r: Vec<String>)
    ensures
        strings_view(r@) == java_return_lines(ty@),
{
    match ty {
        AstType::Void => no_lines(),
        AstType::Vec(AstBaseType::Byte(_)) => one_line("return ret;".to_owned()),
        AstType::Vec(_) => {
            let b = get_boxed_base_ty(ty);
            one_line(cat3("return new Gson().fromJson(ret, ", b.as_str(), "[].class);"))
        },
        AstType::Boolean => one_line("return ret > 0 ? true : false;".to_owned()),
        AstType::Struct(o) => one_line(cat3("return new Gson().fromJson(ret,", o.as_str(), ".class);")),
        _ => one_line("return ret;".to_owned()),
    }
}

/// The body of the wrapper of method `m`: argument conversions, the native
/// call and the result conversion.
pub fn java_method_body_of(method: &MethodDesc) -> (r: Vec<String>)
    ensures
        strings_view(r@) == java_method_body(method@),
{
    let mut r = no_lines();
    let n = method.args.len();
    let mut i: usize = 0;
    while i < n
        invariant
            n == method.args@.len(),
            i <= n,
            strings_view(r@) == java_args_lines(args_view(method.args@).take(i as int)),
        decreases n - i,
    {
        proof {
            assert(args_view(method.args@).take(i + 1).drop_last() =~= args_view(method.args@).take(
                i as int,
            ));
            assert(args_view(method.args@).take(i + 1).last() == method.args@[i as int]@);
        }
        push_lines(&mut r, java_arg_convert(&method.args[i]));
        i = i + 1;
    }
    assert(args_view(method.args@).take(n as int) =~= method@.args);
    push_lines(&mut r, java_call_native_method(method));
    push_lines(&mut r, java_return_convert(&method.return_type));
    r
}

/// The signature of the method that Rust invokes callback method `m` of
/// `callback` through.
pub fn fill_cb_method_sig(cb_method: &MethodDesc, callback: &TraitDesc) -> (r: JavaMethod)
    ensures
        r@ == cb_method_sig(callback@, cb_method@),
{
    let mut name = cat3("invoke_", callback.name.as_str(), "_");
    name.append(cb_method.name.as_str());
    let ret = match &cb_method.return_type {
        AstType::Void => "void".to_owned(),
        _ => to_transfer(&cb_method.return_type),
    };
    let mut args: Vec<Param> = Vec::new();
    args.push(param("long".to_owned(), "index".to_owned()));
    let n = cb_method.args.len();
    let mut i: usize = 0;
    while i < n
        invariant
            n == cb_method.args@.len(),
            i <= n,
            args@.len() == i + 1,
            args@[0]@ == jarg("long"@, "index"@),
            forall|k: int| 0 <= k < i ==> #[trigger] args@[k + 1]@ == jarg(
                java_transfer(cb_method.args@[k].ty@),
                cb_method.args@[k].name@,
            ),
        decreases n - i,
    {
        let a = &cb_method.args[i];
        args.push(param(to_transfer(&a.ty), a.name.clone()));
        i = i + 1;
    }
    let r = JavaMethod {
        name,
        modifiers: public_static(),
        result_type: ret,
        args,
        body: no_lines(),
    };
    assert(r@.args =~= seq![jarg("long"@, "index"@)] + transfer_args(cb_method@.args)) by {
        assert forall|k: int| 0 <= k < r@.args.len() implies #[trigger] r@.args[k] == (seq![
            jarg("long"@, "index"@),
        ] + transfer_args(cb_method@.args))[k] by {
            if k > 0 {
                assert(args@[(k - 1) + 1]@ == jarg(
                    java_transfer(cb_method.args@[k - 1].ty@),
                    cb_method.args@[k - 1].name@,
                ));
            }
        }
    }
    r
}

/// The line that turns callback argument `arg` into its Java value.
pub fn java_cb_arg_convert(arg: &ArgDesc) -> (r: String)
    ensures
        r@ == java_cb_arg_line(arg@),
{
    let n = arg.name.as_str();
    match &arg.ty {
        AstType::Boolean => {
            let mut l = cat3("boolean j_", n, " = ");
            l.append(n);
            l.append(" > 0 ? true : false;");
            l
        },
        AstType::Struct(sub) => {
            let mut l = cat3(sub.as_str(), " j_", n);
            l.append(" = new Gson().fromJson(");
            l.append(n);
            l.append(", ");
            l.append(sub.as_str());
            l.append(".class);");
            l
        },
        AstType::Vec(AstBaseType::Byte(_)) => {
            let b = get_base_ty(&arg.ty);
            let mut l = cat3(b.as_str(), "[] j_", n);
            l.append(" = ");
            l.append(n);
            l.append(";");
            l
        },
        AstType::Vec(_) => {
            let b = get_boxed_base_ty(&arg.ty);
            let mut l = cat3(b.as_str(), "[] j_", n);
            l.append(" = new Gson().fromJson(");
            l.append(n);
            l.append(", ");
            l.append(b.as_str());
            l.append("[].class);");
            l
        },
        _ => {
            let t = java_type(&arg.ty);
            let mut l = cat3(t.as_str(), " j_", n);
            l.append(" = ");
            l.append(n);
            l.append(";");
            l
        },
    }
}

/// The lines that look the callback up and call it.
pub fn java_cb_invoke(cb_method: &MethodDesc, callback: &TraitDesc) -> (r: Vec<String>)
    ensures
        strings_view(r@) == java_cb_invoke_lines(callback.name@, cb_method@),
{
    let cb = callback.name.as_str();
    let mut first = cat3(cb, " callback = (", cb);
    first.append(") globalCallbacks.get(index);");
    let names = prefixed_names_text("j_", &cb_method.args);
    let mut call = cat3("callback.", cb_method.name.as_str(), "(");
    call.append(names.as_str());
    call.append(");");
    let second = match &cb_method.return_type {
        AstType::Void => call,
        _ => {
            let t = java_type(&cb_method.return_type);
            let mut l = cat2(t.as_str(), " result = ");
            l.append(call.as_str());
            l
        },
    };
    let mut r: Vec<String> = Vec::new();
    r.push(first);
    r.push(second);
    assert(strings_view(r@) =~= java_cb_invoke_lines(callback.name@, cb_method@));
    r
}

/// The lines that hand the callback's result back.
pub fn java_cb_return_convert(ty: &AstType) -> (r: Vec<String>)
    ensures
        strings_view(r@) == java_cb_return_lines(ty@),
{
    match ty {
        AstType::Boolean => one_line("return result ? 1 : 0;".to_owned()),
        AstType::Void => no_lines(),
        _ => one_line("return result;".to_owned()),
    }
}

/// The whole method that Rust invokes callback method `m` of `callback`
/// through.
pub fn cb_invoke_method_of(cb_method: &MethodDesc, callback: &TraitDesc) -> (r: JavaMethod)
    ensures
        r@ == cb_invoke_method(callback@, cb_method@),
{
    let mut m = fill_cb_method_sig(cb_method, callback);
    let mut body: Vec<String> = Vec::new();
    let n = cb_method.args.len();
    let mut i: usize = 0;
    while i < n
        invariant
            n == cb_method.args@.len(),
            i <= n,
            body@.len() == i,
            forall|k: int| 0 <= k < i ==> #[trigger] body@[k]@ == java_cb_arg_line(
                cb_method.args@[k]@,
            ),
        decreases n - i,
    {
        body.push(java_cb_arg_convert(&cb_method.args[i]));
        i = i + 1;
    }
    assert(strings_view(body@) =~= Seq::new(
        cb_method@.args.len(),
        |k: int| java_cb_arg_line(cb_method@.args[k]),
    ));
    push_lines(&mut body, java_cb_invoke(cb_method, callback));
    push_lines(&mut body, java_cb_return_convert(&cb_method.return_type));
    m.body = body;
    m
}

/// The native method that the wrapper of `m` calls.
pub fn native_method_of(method: &MethodDesc) -> (r: JavaMethod)
    ensures
        r@ == native_method(method@),
{
    let mut modifiers: Vec<JavaModifier> = Vec::new();
    modifiers.push(JavaModifier::Private);
    modifiers.push(JavaModifier::Static);
    modifiers.push(JavaModifier::Native);
    assert(modifiers@ =~= seq![JavaModifier::Private, JavaModifier::Static, JavaModifier::Native]);
    let ret = match &method.return_type {
        AstType::Void => "void".to_owned(),
        _ => to_transfer(&method.return_type),
    };
    let r = JavaMethod {
        name: cat2("native_", method.name.as_str()),
        modifiers,
        result_type: ret,
        args: non_void_args(&method.args, true),
        body: no_lines(),
    };
    assert(r@.args =~= native_args(method@.args));
    r
}

/// The method that frees a callback.
pub fn free_callback_method_of() -> (r: JavaMethod)
    ensures
        r@ == free_callback_method(),
{
    let mut args: Vec<Param> = Vec::new();
    args.push(param("long".to_owned(), "index".to_owned()));
    let r = JavaMethod {
        name: "free_callback".to_owned(),
        modifiers: public_static(),
        result_type: "void".to_owned(),
        args,
        body: one_line("globalCallbacks.remove(index);".to_owned()),
    };
    assert(r@.args =~= seq![jarg("long"@, "index"@)]);
    r
}

/// The callbacks that `sel` holds, with the callback of argument `a` added
/// when it names one not yet held: the first callback with that name.
pub open spec fn select_step(sel: Seq<int>, a: ArgDescView, cbs: Seq<TraitDescView>) -> Seq<int> {
    match a.ty {
        TypeView::Callback(o) => if named(cbs, o).len() > 0 && !sel.contains(named(cbs, o)[0]) {
            sel.push(named(cbs, o)[0])
        } else {
            sel
        },
        _ => sel,
    }
}

/// `select_step` over the arguments, one after the other.
pub open spec fn select_in_args(sel: Seq<int>, args: Seq<ArgDescView>, cbs: Seq<TraitDescView>) -> Seq<
    int,
>
    decreases args.len(),
{
    if args.len() == 0 {
        sel
    } else {
        select_step(select_in_args(sel, args.drop_last(), cbs), args.last(), cbs)
    }
}

/// The positions in `cbs` of the callbacks that the methods take, each
/// once, in the order the methods first name them.
pub open spec fn select_in_methods(ms: Seq<MethodDescView>, cbs: Seq<TraitDescView>) -> Seq<int>
    decreases ms.len(),
{
    if ms.len() == 0 {
        Seq::empty()
    } else {
        select_in_args(select_in_methods(ms.drop_last(), cbs), ms.last().args, cbs)
    }
}

/// Where the first callback named `name` is the one at `i`.
proof fn lemma_named_first(cbs: Seq<TraitDescView>, name: Seq<char>, i: int)
    requires
        0 <= i < cbs.len(),
        named(cbs.take(i), name).len() == 0,
        cbs[i].name == name,
    ensures
        named(cbs, name).len() > 0,
        named(cbs, name)[0] == i,
    decreases cbs.len(),
{
    if cbs.len() == i + 1 {
        assert(cbs.drop_last() =~= cbs.take(i));
    } else {
        let prev = cbs.drop_last();
        assert(prev.take(i) =~= cbs.take(i));
        lemma_named_first(prev, name, i);
    }
}

/// The position of the first callback named `name`, if any.
pub fn find_first_callback(name: &str, callbacks: &Vec<TraitDesc>) -> (r: Option<usize>)
    ensures
        match r {
            Some(k) => named(traits_view(callbacks@), name@).len() > 0 && k as int == named(
                traits_view(callbacks@),
                name@,
            )[0],
            None => named(traits_view(callbacks@), name@).len() == 0,
        },
{
    let n = callbacks.len();
    let mut i: usize = 0;
    while i < n
        invariant
            n == callbacks@.len(),
            i <= n,
            named(traits_view(callbacks@).take(i as int), name@).len() == 0,
        decreases n - i,
    {
        proof {
            assert(traits_view(callbacks@).take(i + 1).drop_last() =~= traits_view(callbacks@).take(
                i as int,
            ));
            assert(traits_view(callbacks@).take(i + 1).last() == callbacks@[i as int]@);
        }
        if crate::text::str_eq(callbacks[i].name.as_str(), name) {
            proof {
                lemma_named_first(traits_view(callbacks@), name@, i as int);
            }
            return Some(i);
        }
        i = i + 1;
    }
    assert(traits_view(callbacks@).take(n as int) =~= traits_view(callbacks@));
    None
}

/// Whether `v` holds `k`.
fn holds(v: &Vec<usize>, k: usize) -> (r: bool)
    ensures
        r == v@.map_values(|x: usize| x as int).contains(k as int),
{
    let n = v.len();
    let mut i: usize = 0;
    while i < n
        invariant
            n == v@.len(),
            i <= n,
            forall|j: int| 0 <= j < i ==> v@[j] != k,
        decreases n - i,
    {
        if v[i] == k {
            assert(v@.map_values(|x: usize| x as int)[i as int] == k as int);
            return true;
        }
        i = i + 1;
    }
    false
}

/// The positions in `callbacks` of the callbacks that the methods of `desc`
/// take, each once, in the order they are first named.
pub fn select_callbacks(desc: &TraitDesc, callbacks: &Vec<TraitDesc>) -> (r: Vec<usize>)
    ensures
        r@.map_values(|x: usize| x as int) == select_in_methods(desc@.methods, traits_view(callbacks@)),
        forall|q: int| 0 <= q < r@.len() ==> #[trigger] r@[q] < callbacks@.len(),
{
    let ghost cbs = traits_view(callbacks@);
    let mut sel: Vec<usize> = Vec::new();
    let n = desc.methods.len();
    let mut i: usize = 0;
    while i < n
        invariant
            n == desc.methods@.len(),
            i <= n,
            cbs == traits_view(callbacks@),
            sel@.map_values(|x: usize| x as int) == select_in_methods(
                methods_view(desc.methods@).take(i as int),
                cbs,
            ),
            forall|q: int| 0 <= q < sel@.len() ==> #[trigger] sel@[q] < callbacks@.len(),
        decreases n - i,
    {
        proof {
            assert(methods_view(desc.methods@).take(i + 1).drop_last() =~= methods_view(
                desc.methods@,
            ).take(i as int));
            assert(methods_view(desc.methods@).take(i + 1).last() == desc.methods@[i as int]@);
        }
        let m = &desc.methods[i];
        let ghost start = sel@.map_values(|x: usize| x as int);
        let na = m.args.len();
        let mut j: usize = 0;
        while j < na
            invariant
                na == m.args@.len(),
                j <= na,
                cbs == traits_view(callbacks@),
                sel@.map_values(|x: usize| x as int) == select_in_args(
                    start,
                    args_view(m.args@).take(j as int),
                    cbs,
                ),
                forall|q: int| 0 <= q < sel@.len() ==> #[trigger] sel@[q] < callbacks@.len(),
            decreases na - j,
        {
            proof {
                assert(args_view(m.args@).take(j + 1).drop_last() =~= args_view(m.args@).take(
                    j as int,
                ));
                assert(args_view(m.args@).take(j + 1).last() == m.args@[j as int]@);
            }
            let ghost before = sel@.map_values(|x: usize| x as int);
            if let AstType::Callback(o) = &m.args[j].ty {
                match find_first_callback(o.as_str(), callbacks) {
                    Some(k) => {
                        proof {
                            crate::gen::jni::lemma_named_in_range(cbs, o@);
                            assert(0 <= named(cbs, o@)[0] < cbs.len());
                        }
                        if !holds(&sel, k) {
                            sel.push(k);
                            assert(sel@.map_values(|x: usize| x as int) =~= before.push(k as int));
                        }
                    },
                    None => {},
                }
            }
            j = j + 1;
        }
        assert(args_view(m.args@).take(na as int) =~= m@.args);
        i = i + 1;
    }
    assert(methods_view(desc.methods@).take(n as int) =~= desc@.methods);
    sel
}

/// A field of a generated class: modifiers, type, name and initial value.
#[derive(Clone, Debug)]
pub struct JavaField {
    pub modifiers: Vec<JavaModifier>,
    pub ty: String,
    pub name: String,
    pub init: String,
}

/// The view of a [`JavaField`].
pub ghost struct JavaFieldView {
    pub modifiers: Seq<JavaModifier>,
    pub ty: Seq<char>,
    pub name: Seq<char>,
    pub init: Seq<char>,
}

impl View for JavaField {
    type V = JavaFieldView;

    open spec fn view(&self) -> JavaFieldView {
        JavaFieldView { modifiers: self.modifiers@, ty: self.ty@, name: self.name@, init: self.init@ }
    }
}

/// A class that a generated Java file imports: its package and name.
#[derive(Clone, Debug)]
pub struct JavaImport {
    pub package: String,
    pub name: String,
}

/// The view of a [`JavaImport`].
pub ghost struct JavaImportView {
    pub package: Seq<char>,
    pub name: Seq<char>,
}

impl View for JavaImport {
    type V = JavaImportView;

    open spec fn view(&self) -> JavaImportView {
        JavaImportView { package: self.package@, name: self.name@ }
    }
}

/// The Java class that wraps a contract trait: its name, the classes it
/// imports, its fields, the lines of its `static { }` block and its
/// methods.
#[derive(Clone, Debug)]
pub struct JavaClass {
    pub name: String,
    pub imports: Vec<JavaImport>,
    pub fields: Vec<JavaField>,
    pub static_block: Vec<String>,
    pub methods: Vec<JavaMethod>,
}

/// The view of a [`JavaClass`].
pub ghost struct JavaClassView {
    pub name: Seq<char>,
    pub imports: Seq<JavaImportView>,
    pub fields: Seq<JavaFieldView>,
    pub static_block: Seq<Seq<char>>,
    pub methods: Seq<JavaMethodView>,
}

impl View for JavaClass {
    type V = JavaClassView;

    open spec fn view(&self) -> JavaClassView {
        JavaClassView {
            name: self.name@,
            imports: Seq::new(self.imports@.len(), |i: int| self.imports@[i]@),
            fields: Seq::new(self.fields@.len(), |i: int| self.fields@[i]@),
            static_block: strings_view(self.static_block@),
            methods: java_methods_view(self.methods@),
        }
    }
}

/// The two fields of every wrapper class: the counter `globalIndex` that
/// numbers the callbacks handed to Rust, and the table `globalCallbacks`
/// that holds them by number.
pub open spec fn wrapper_fields() -> Seq<JavaFieldView> {
    seq![
        JavaFieldView {
            modifiers: seq![JavaModifier::Private, JavaModifier::Static],
            ty: "AtomicLong"@,
            name: "globalIndex"@,
            init: "new AtomicLong(0)"@,
        },
        JavaFieldView {
            modifiers: seq![JavaModifier::Private, JavaModifier::Static],
            ty: "ConcurrentHashMap<Long, Object>"@,
            name: "globalCallbacks"@,
            init: "new ConcurrentHashMap<>()"@,
        },
    ]
}

/// The fields of a wrapper class.
pub fn wrapper_class_fields() -> (r: Vec<JavaField>)
    ensures
        Seq::new(r@.len(), |i: int| r@[i]@) == wrapper_fields(),
{
    let mut m1: Vec<JavaModifier> = Vec::new();
    m1.push(JavaModifier::Private);
    m1.push(JavaModifier::Static);
    let mut m2: Vec<JavaModifier> = Vec::new();
    m2.push(JavaModifier::Private);
    m2.push(JavaModifier::Static);
    let mut r: Vec<JavaField> = Vec::new();
    r.push(
        JavaField {
            modifiers: m1,
            ty: "AtomicLong".to_owned(),
            name: "globalIndex".to_owned(),
            init: "new AtomicLong(0)".to_owned(),
        },
    );
    r.push(
        JavaField {
            modifiers: m2,
            ty: "ConcurrentHashMap<Long, Object>".to_owned(),
            name: "globalCallbacks".to_owned(),
            init: "new ConcurrentHashMap<>()".to_owned(),
        },
    );
    assert(r@[0]@.modifiers =~= seq![JavaModifier::Private, JavaModifier::Static]);
    assert(r@[1]@.modifiers =~= seq![JavaModifier::Private, JavaModifier::Static]);
    assert(Seq::new(r@.len(), |i: int| r@[i]@) =~= wrapper_fields());
    r
}

/// Whether some line of the bodies of `ms` uses Gson.
pub open spec fn uses_gson(ms: Seq<JavaMethodView>) -> bool {
    exists|i: int, j: int|
        0 <= i < ms.len() && 0 <= j < ms[i].body.len() && holds_text(#[trigger] ms[i].body[j], "Gson"@)
}

/// An imported class.
pub open spec fn jimport(package: Seq<char>, name: Seq<char>) -> JavaImportView {
    JavaImportView { package, name }
}

/// The imports of a wrapper class with methods `ms`: `Serializable`, which
/// it implements, the types of its fields, and Gson when a line uses it.
pub open spec fn class_imports(ms: Seq<JavaMethodView>) -> Seq<JavaImportView> {
    seq![
        jimport("java.io"@, "Serializable"@),
        jimport("java.util.concurrent.atomic"@, "AtomicLong"@),
        jimport("java.util.concurrent"@, "ConcurrentHashMap"@),
    ] + if uses_gson(ms) {
        seq![jimport("com.google.gson"@, "Gson"@)]
    } else {
        Seq::empty()
    }
}

/// Whether some line of the methods' bodies uses Gson.
fn methods_use_gson(ms: &Vec<JavaMethod>) -> (r: bool)
    ensures
        r == uses_gson(java_methods_view(ms@)),
{
    let ghost v = java_methods_view(ms@);
    let n = ms.len();
    let mut i: usize = 0;
    while i < n
        invariant
            n == ms@.len(),
            i <= n,
            v == java_methods_view(ms@),
            forall|a: int, b: int|
                0 <= a < i && 0 <= b < v[a].body.len() ==> !holds_text(#[trigger] v[a].body[b], "Gson"@),
        decreases n - i,
    {
        let body = &ms[i].body;
        let nb = body.len();
        let mut j: usize = 0;
        while j < nb
            invariant
                n == ms@.len(),
                i < n,
                nb == body@.len(),
                body == ms@[i as int].body,
                j <= nb,
                v == java_methods_view(ms@),
                forall|a: int, b: int|
                    0 <= a < i && 0 <= b < v[a].body.len() ==> !holds_text(#[trigger] v[a].body[b], "Gson"@),
                forall|b: int| 0 <= b < j ==> !holds_text(#[trigger] v[i as int].body[b], "Gson"@),
            decreases nb - j,
        {
            assert(v[i as int].body[j as int] == body@[j as int]@);
            if contains_text(body[j].as_str(), "Gson") {
                return true;
            }
            j = j + 1;
        }
        i = i + 1;
    }
    false
}

/// The imports of a wrapper class with methods `ms`.
fn class_imports_of(ms: &Vec<JavaMethod>) -> (r: Vec<JavaImport>)
    ensures
        Seq::new(r@.len(), |i: int| r@[i]@) == class_imports(java_methods_view(ms@)),
{
    let mut r: Vec<JavaImport> = Vec::new();
    r.push(JavaImport { package: "java.io".to_owned(), name: "Serializable".to_owned() });
    r.push(
        JavaImport { package: "java.util.concurrent.atomic".to_owned(), name: "AtomicLong".to_owned() },
    );
    r.push(
        JavaImport { package: "java.util.concurrent".to_owned(), name: "ConcurrentHashMap".to_owned() },
    );
    if methods_use_gson(ms) {
        r.push(JavaImport { package: "com.google.gson".to_owned(), name: "Gson".to_owned() });
    }
    assert(Seq::new(r@.len(), |i: int| r@[i]@) =~= class_imports(java_methods_view(ms@)));
    r
}

/// The wrapper of method `m`, with its body.
pub open spec fn wrapper_method(m: MethodDescView) -> JavaMethodView {
    JavaMethodView { body: java_method_body(m), ..method_sig(m) }
}

/// The methods that Rust invokes the callbacks at positions `sel` through.
pub open spec fn sel_invoke_methods(sel: Seq<int>, cbs: Seq<TraitDescView>) -> Seq<JavaMethodView>
    decreases sel.len(),
{
    if sel.len() == 0 {
        Seq::empty()
    } else {
        let cb = cbs[sel.last()];
        sel_invoke_methods(sel.drop_last(), cbs) + Seq::new(
            cb.methods.len(),
            |j: int| cb_invoke_method(cb, cb.methods[j]),
        )
    }
}

/// The methods of the wrapper class of contract trait `desc`: a wrapper per
/// method, `free_callback`, the invoke methods of the callbacks that the
/// methods take, and a native method per method.
pub open spec fn trait_class_methods(desc: TraitDescView, cbs: Seq<TraitDescView>) -> Seq<
    JavaMethodView,
> {
    Seq::new(desc.methods.len(), |i: int| wrapper_method(desc.methods[i])) + seq![
        free_callback_method(),
    ] + sel_invoke_methods(select_in_methods(desc.methods, cbs), cbs) + Seq::new(
        desc.methods.len(),
        |i: int| native_method(desc.methods[i]),
    )
}

/// The wrapper class of contract trait `desc`, which loads `so_name` and
/// the comma-separated `ext_libs` and may take the callbacks `callbacks`.
pub fn trait_class(desc: &TraitDesc, so_name: &str, ext_libs: &str, callbacks: &Vec<TraitDesc>) -> (r:
    JavaClass)
    ensures
        r@ == (JavaClassView {
            name: desc.name@,
            imports: class_imports(trait_class_methods(desc@, traits_view(callbacks@))),
            fields: wrapper_fields(),
            static_block: load_library_lines(so_name@, ext_libs@),
            methods: trait_class_methods(desc@, traits_view(callbacks@)),
        }),
{
    let ghost cbs = traits_view(callbacks@);
    let mut methods: Vec<JavaMethod> = Vec::new();
    let n = desc.methods.len();
    let mut i: usize = 0;
    while i < n
        invariant
            n == desc.methods@.len(),
            i <= n,
            methods@.len() == i,
            forall|k: int| 0 <= k < i ==> #[trigger] methods@[k]@ == wrapper_method(
                desc.methods@[k]@,
            ),
        decreases n - i,
    {
        let mut m = fill_method_sig(&desc.methods[i]);
        m.body = java_method_body_of(&desc.methods[i]);
        methods.push(m);
        i = i + 1;
    }
    assert(java_methods_view(methods@) =~= Seq::new(
        desc@.methods.len(),
        |k: int| wrapper_method(desc@.methods[k]),
    ));
    let ghost part1 = java_methods_view(methods@);
    methods.push(free_callback_method_of());
    assert(java_methods_view(methods@) =~= part1 + seq![free_callback_method()]);
    let ghost part2 = java_methods_view(methods@);
    let sel = select_callbacks(desc, callbacks);
    let ns = sel.len();
    let mut q: usize = 0;
    while q < ns
        invariant
            ns == sel@.len(),
            q <= ns,
            cbs == traits_view(callbacks@),
            forall|t: int| 0 <= t < sel@.len() ==> #[trigger] sel@[t] < callbacks@.len(),
            java_methods_view(methods@) == part2 + sel_invoke_methods(
                sel@.map_values(|x: usize| x as int).take(q as int),
                cbs,
            ),
        decreases ns - q,
    {
        let k = sel[q];
        let cb = &callbacks[k];
        proof {
            let sq = sel@.map_values(|x: usize| x as int);
            assert(sq.take(q + 1).drop_last() =~= sq.take(q as int));
            assert(sq.take(q + 1).last() == k as int);
            assert(cbs[k as int] == cb@);
        }
        let ghost before = java_methods_view(methods@);
        let nm = cb.methods.len();
        let mut j: usize = 0;
        while j < nm
            invariant
                nm == cb.methods@.len(),
                j <= nm,
                methods@.len() == before.len() + j,
                forall|t: int| 0 <= t < before.len() ==> #[trigger] methods@[t]@ == before[t],
                forall|t: int| 0 <= t < j ==> #[trigger] methods@[before.len() + t]@
                    == cb_invoke_method(cb@, cb.methods@[t]@),
            decreases nm - j,
        {
            methods.push(cb_invoke_method_of(&cb.methods[j], cb));
            j = j + 1;
        }
        assert(java_methods_view(methods@) =~= before + Seq::new(
            cb@.methods.len(),
            |t: int| cb_invoke_method(cb@, cb@.methods[t]),
        )) by {
            assert forall|t: int| before.len() <= t < methods@.len() implies java_methods_view(
                methods@,
            )[t] == (before + Seq::new(
                cb@.methods.len(),
                |t: int| cb_invoke_method(cb@, cb@.methods[t]),
            ))[t] by {
                assert(methods@[before.len() + (t - before.len())]@ == cb_invoke_method(
                    cb@,
                    cb.methods@[t - before.len()]@,
                ));
            }
        }
        q = q + 1;
    }
    assert(sel@.map_values(|x: usize| x as int).take(ns as int) =~= sel@.map_values(
        |x: usize| x as int,
    ));
    let ghost part3 = java_methods_view(methods@);
    let mut i2: usize = 0;
    while i2 < n
        invariant
            n == desc.methods@.len(),
            i2 <= n,
            methods@.len() == part3.len() + i2,
            forall|t: int| 0 <= t < part3.len() ==> #[trigger] methods@[t]@ == part3[t],
            forall|k: int| 0 <= k < i2 ==> #[trigger] methods@[part3.len() + k]@ == native_method(
                desc.methods@[k]@,
            ),
        decreases n - i2,
    {
        methods.push(native_method_of(&desc.methods[i2]));
        i2 = i2 + 1;
    }
    assert(java_methods_view(methods@) =~= part3 + Seq::new(
        desc@.methods.len(),
        |k: int| native_method(desc@.methods[k]),
    )) by {
        assert forall|t: int| part3.len() <= t < methods@.len() implies java_methods_view(
            methods@,
        )[t] == (part3 + Seq::new(
            desc@.methods.len(),
            |k: int| native_method(desc@.methods[k]),
        ))[t] by {
            assert(methods@[part3.len() + (t - part3.len())]@ == native_method(
                desc.methods@[t - part3.len()]@,
            ));
        }
    }
    let imports = class_imports_of(&methods);
    JavaClass {
        name: desc.name.clone(),
        imports,
        fields: wrapper_class_fields(),
        static_block: fill_global_block(so_name, ext_libs),
        methods,
    }
}

/// A method of the Java interface of a callback: no modifiers, the Java
/// types of the result and of every argument.
pub open spec fn interface_method(m: MethodDescView) -> JavaMethodView {
    jmethod(
        m.name,
        Seq::empty(),
        java_name(m.return_type),
        Seq::new(m.args.len(), |i: int| jarg(java_name(m.args[i].ty), m.args[i].name)),
    )
}

/// The methods of the Java interface of callback `desc`.
pub fn callback_interface(desc: &TraitDesc) -> (r: Vec<JavaMethod>)
    ensures
        java_methods_view(r@) == Seq::new(
            desc@.methods.len(),
            |i: int| interface_method(desc@.methods[i]),
        ),
{
    let mut r: Vec<JavaMethod> = Vec::new();
    let n = desc.methods.len();
    let mut i: usize = 0;
    while i < n
        invariant
            n == desc.methods@.len(),
            i <= n,
            r@.len() == i,
            forall|k: int| 0 <= k < i ==> #[trigger] r@[k]@ == interface_method(desc.methods@[k]@),
        decreases n - i,
    {
        let m = &desc.methods[i];
        let mut args: Vec<Param> = Vec::new();
        let na = m.args.len();
        let mut j: usize = 0;
        while j < na
            invariant
                na == m.args@.len(),
                j <= na,
                args@.len() == j,
                forall|k: int| 0 <= k < j ==> #[trigger] args@[k]@ == jarg(
                    java_name(m.args@[k].ty@),
                    m.args@[k].name@,
                ),
            decreases na - j,
        {
            args.push(param(java_type(&m.args[j].ty), m.args[j].name.clone()));
            j = j + 1;
        }
        let jm = JavaMethod {
            name: m.name.clone(),
            modifiers: Vec::new(),
            result_type: java_type(&m.return_type),
            args,
            body: no_lines(),
        };
        assert(jm@.args =~= interface_method(m@).args);
        assert(jm@.modifiers =~= Seq::<JavaModifier>::empty());
        r.push(jm);
        i = i + 1;
    }
    assert(java_methods_view(r@) =~= Seq::new(
        desc@.methods.len(),
        |i: int| interface_method(desc@.methods[i]),
    ));
    r
}

/// The public fields of the Java class of a contract struct
///: the Java type and name of each field.
pub fn struct_fields(desc: &crate::ast::desc::StructDesc) -> (r: Vec<Param>)
    ensures
        params_view(r@) == Seq::new(
            desc@.fields.len(),
            |i: int| jarg(java_name(desc@.fields[i].ty), desc@.fields[i].name),
        ),
{
    let mut r: Vec<Param> = Vec::new();
    let n = desc.fields.len();
    let mut i: usize = 0;
    while i < n
        invariant
            n == desc.fields@.len(),
            i <= n,
            r@.len() == i,
            forall|k: int| 0 <= k < i ==> #[trigger] r@[k]@ == jarg(
                java_name(desc.fields@[k].ty@),
                desc.fields@[k].name@,
            ),
        decreases n - i,
    {
        r.push(param(java_type(&desc.fields[i].ty), desc.fields[i].name.clone()));
        i = i + 1;
    }
    assert(params_view(r@) =~= Seq::new(
        desc@.fields.len(),
        |i: int| jarg(java_name(desc@.fields[i].ty), desc@.fields[i].name),
    ));
    r
}

/// The JNI descriptor of a Java type named as the generator names it.
pub open spec fn jni_descriptor(java: Seq<char>) -> Seq<char> {
    if java == "void"@ {
        "V"@
    } else if java == "boolean"@ {
        "Z"@
    } else if java == "byte"@ {
        "B"@
    } else if java == "short"@ {
        "S"@
    } else if java == "int"@ {
        "I"@
    } else if java == "long"@ {
        "J"@
    } else if java == "float"@ {
        "F"@
    } else if java == "double"@ {
        "D"@
    } else if java == "String"@ {
        "Ljava/lang/String;"@
    } else if java == "byte[]"@ {
        "[B"@
    } else {
        "L"@ + java + ";"@
    }
}

/// The descriptors of parameters, one after the other.
pub open spec fn params_descriptor(args: Seq<ParamView>) -> Seq<char>
    decreases args.len(),
{
    if args.len() == 0 {
        Seq::empty()
    } else {
        params_descriptor(args.drop_last()) + jni_descriptor(args.last().ty)
    }
}

/// The JNI signature of a generated Java method.
pub open spec fn method_descriptor(m: JavaMethodView) -> Seq<char> {
    "("@ + params_descriptor(m.args) + ")"@ + jni_descriptor(m.result_type)
}

/// The descriptors of the Java types the generator names.
proof fn lemma_descriptors()
    ensures
        jni_descriptor("void"@) == "V"@,
        jni_descriptor("byte"@) == "B"@,
        jni_descriptor("short"@) == "S"@,
        jni_descriptor("int"@) == "I"@,
        jni_descriptor("long"@) == "J"@,
        jni_descriptor("float"@) == "F"@,
        jni_descriptor("double"@) == "D"@,
        jni_descriptor("String"@) == "Ljava/lang/String;"@,
        jni_descriptor("byte[]"@) == "[B"@,
{
    reveal_strlit("void");
    reveal_strlit("boolean");
    reveal_strlit("byte");
    reveal_strlit("short");
    reveal_strlit("int");
    reveal_strlit("long");
    reveal_strlit("float");
    reveal_strlit("double");
    reveal_strlit("String");
    reveal_strlit("byte[]");
    assert("void"@.len() == 4 && "void"@[0] == 'v');
    assert("boolean"@.len() == 7 && "boolean"@[0] == 'b');
    assert("byte"@.len() == 4 && "byte"@[0] == 'b');
    assert("short"@.len() == 5 && "short"@[0] == 's');
    assert("int"@.len() == 3 && "int"@[0] == 'i');
    assert("long"@.len() == 4 && "long"@[0] == 'l');
    assert("float"@.len() == 5 && "float"@[0] == 'f');
    assert("double"@.len() == 6 && "double"@[0] == 'd');
    assert("String"@.len() == 6 && "String"@[0] == 'S');
    assert("byte[]"@.len() == 6 && "byte[]"@[0] == 'b');
}

/// The Java type that a value crosses JNI as has the JNI descriptor that
/// the Rust side writes for it, for every type but a callback.
proof fn lemma_transfer_descriptor(t: TypeView)
    requires
        !(t is Callback),
    ensures
        jni_descriptor(java_transfer(t)) == crate::ast::types::java_sig_of(t),
{
    lemma_descriptors();
    match t {
        TypeView::Vec(b) => {
            match b {
                BaseTypeView::Byte(_) => {
                    assert(java_transfer(t) == "byte[]"@);
                },
                _ => {
                    assert(java_transfer(t) == "String"@);
                },
            }
        },
        _ => {},
    }
}

/// The descriptors of the transfer types of arguments without callbacks.
proof fn lemma_transfer_args_descriptor(args: Seq<ArgDescView>)
    requires
        forall|i: int| 0 <= i < args.len() ==> !(#[trigger] args[i].ty is Callback),
    ensures
        params_descriptor(transfer_args(args)) == crate::gen::mapping::args_java_sig(args),
    decreases args.len(),
{
    if args.len() > 0 {
        let prev = args.drop_last();
        assert(transfer_args(args).drop_last() =~= transfer_args(prev));
        lemma_transfer_args_descriptor(prev);
        assert(!(args[args.len() - 1].ty is Callback));
        lemma_transfer_descriptor(args.last().ty);
    } else {
        assert(transfer_args(args) =~= Seq::<ParamView>::empty());
    }
}

/// Law: the Java method that Rust invokes a callback method through has
/// the JNI signature that the Rust side calls it with, whenever the
/// callback method takes and returns no callback (the kinds a callback
/// supports).
pub proof fn law_callback_signature_agrees(cb: TraitDescView, m: MethodDescView)
    requires
        forall|i: int| 0 <= i < m.args.len() ==> !(#[trigger] m.args[i].ty is Callback),
        !(m.return_type is Callback),
    ensures
        method_descriptor(cb_method_sig(cb, m)) == crate::gen::mapping::callback_java_sig(m),
{
    lemma_descriptors();
    lemma_transfer_args_descriptor(m.args);
    lemma_descriptor_prepend(jarg("long"@, "index"@), transfer_args(m.args));
    lemma_transfer_descriptor(m.return_type);
    assert("("@ + ("J"@ + crate::gen::mapping::args_java_sig(m.args)) =~= "(J"@
        + crate::gen::mapping::args_java_sig(m.args)) by {
        reveal_strlit("(");
        reveal_strlit("J");
        reveal_strlit("(J");
    }
}

/// The descriptor of a parameter list with one more parameter in front.
proof fn lemma_descriptor_prepend(p: ParamView, rest: Seq<ParamView>)
    ensures
        params_descriptor(seq![p] + rest) == jni_descriptor(p.ty) + params_descriptor(rest),
    decreases rest.len(),
{
    if rest.len() == 0 {
        assert(seq![p] + rest =~= seq![p]);
        assert(seq![p].drop_last() =~= Seq::<ParamView>::empty());
        assert(seq![p].last() == p);
        assert(params_descriptor(Seq::<ParamView>::empty()) == Seq::<char>::empty());
        assert(params_descriptor(seq![p]) == params_descriptor(seq![p].drop_last()) + jni_descriptor(
            p.ty,
        ));
        assert(params_descriptor(seq![p]) =~= jni_descriptor(p.ty) + params_descriptor(rest));
    } else {
        lemma_descriptor_prepend(p, rest.drop_last());
        assert((seq![p] + rest).drop_last() =~= seq![p] + rest.drop_last());
        assert((seq![p] + rest).last() == rest.last());
        assert(params_descriptor(seq![p] + rest) =~= jni_descriptor(p.ty) + params_descriptor(
            rest,
        ));
    }
}

/// Whether `sel` holds positions of `cbs` each at most once, each the
/// first callback of `cbs` with its name.
pub open spec fn well_selected(sel: Seq<int>, cbs: Seq<TraitDescView>) -> bool {
    &&& sel.no_duplicates()
    &&& forall|q: int|
        0 <= q < sel.len() ==> 0 <= #[trigger] sel[q] < cbs.len() && named(cbs, cbs[sel[q]].name).len()
            > 0 && named(cbs, cbs[sel[q]].name)[0] == sel[q]
}

/// One selection step keeps the selection well formed.
proof fn lemma_select_step(sel: Seq<int>, a: ArgDescView, cbs: Seq<TraitDescView>)
    requires
        well_selected(sel, cbs),
    ensures
        well_selected(select_step(sel, a, cbs), cbs),
{
    match a.ty {
        TypeView::Callback(o) => {
            if named(cbs, o).len() > 0 && !sel.contains(named(cbs, o)[0]) {
                crate::gen::jni::lemma_named_in_range(cbs, o);
                let k = named(cbs, o)[0];
                assert(cbs[k].name == o);
                let next = sel.push(k);
                assert forall|x: int, y: int| 0 <= x < y < next.len() implies next[x] != next[y] by {
                    if y == next.len() - 1 {
                        assert(sel[x] == next[x]);
                    }
                }
                assert forall|q: int| 0 <= q < next.len() implies 0 <= #[trigger] next[q] < cbs.len()
                    && named(cbs, cbs[next[q]].name).len() > 0 && named(cbs, cbs[next[q]].name)[0]
                    == next[q] by {
                    if q < sel.len() {
                        assert(next[q] == sel[q]);
                    }
                }
            }
        },
        _ => {},
    }
}

/// Selecting over arguments keeps the selection well formed.
proof fn lemma_select_args(sel: Seq<int>, args: Seq<ArgDescView>, cbs: Seq<TraitDescView>)
    requires
        well_selected(sel, cbs),
    ensures
        well_selected(select_in_args(sel, args, cbs), cbs),
    decreases args.len(),
{
    if args.len() > 0 {
        lemma_select_args(sel, args.drop_last(), cbs);
        lemma_select_step(select_in_args(sel, args.drop_last(), cbs), args.last(), cbs);
    }
}

/// Law: the callbacks whose invoke methods a wrapper class holds are each
/// held once, and each is the first callback of the list with its name.
pub proof fn law_selected_callbacks(ms: Seq<MethodDescView>, cbs: Seq<TraitDescView>)
    ensures
        well_selected(select_in_methods(ms, cbs), cbs),
    decreases ms.len(),
{
    if ms.len() == 0 {
        assert(Seq::<int>::empty().no_duplicates());
    } else {
        law_selected_callbacks(ms.drop_last(), cbs);
        lemma_select_args(select_in_methods(ms.drop_last(), cbs), ms.last().args, cbs);
    }
}

} // verus!
