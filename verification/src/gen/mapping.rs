//! How contract types are written in Swift, in the C bridge's Rust and in
//! the JNI bridge.

use vstd::prelude::*;

use crate::ast::desc::{args_view, ArgDescView, MethodDesc, MethodDescView};
use crate::ast::types::{java_sig_of, widen, AstBaseType, AstType, BaseTypeView, TypeView};

verus! {

/// The Swift type of a contract type.
pub open spec fn swift_str(t: TypeView) -> Seq<char> {
    match t {
        TypeView::Void => "Void"@,
        TypeView::Byte(_) => "Int8"@,
        TypeView::Short(_) => "Int16"@,
        TypeView::Int(_) => "Int32"@,
        TypeView::Long(_) => "Int64"@,
        TypeView::Float(_) => "Float"@,
        TypeView::Double(_) => "Double"@,
        TypeView::Boolean => "Bool"@,
        TypeView::String => "String"@,
        TypeView::Vec(b) => "["@ + swift_base_str(b) + "]"@,
        TypeView::Callback(o) => o,
        TypeView::Struct(o) => o,
    }
}

/// The Swift type of a `Vec` element type.
pub open spec fn swift_base_str(b: BaseTypeView) -> Seq<char> {
    match b {
        BaseTypeView::Void => "Void"@,
        BaseTypeView::Byte(_) => "Int8"@,
        BaseTypeView::Short(_) => "Int16"@,
        BaseTypeView::Int(_) => "Int32"@,
        BaseTypeView::Long(_) => "Int64"@,
        BaseTypeView::Float(_) => "Float"@,
        BaseTypeView::Double(_) => "Double"@,
        BaseTypeView::Boolean => "Bool"@,
        BaseTypeView::String => "String"@,
        BaseTypeView::Callback(o) => o,
        BaseTypeView::Struct(o) => o,
    }
}

/// The Swift type of a `Vec` element is the Swift type of that element on
/// its own.
pub proof fn lemma_swift_base(b: BaseTypeView)
    ensures
        swift_base_str(b) == swift_str(widen(b)),
{
}

/// The Swift type in a method signature: `Void` is written `()`.
pub open spec fn swift_sig_str(t: TypeView) -> Seq<char> {
    match t {
        TypeView::Void => "()"@,
        _ => swift_str(t),
    }
}

/// The type of a callback closure's parameter or result, as C sees it.
pub open spec fn swift_closure_str(t: TypeView) -> Seq<char> {
    match t {
        TypeView::Void => "()"@,
        TypeView::Byte(_) => "Int8"@,
        TypeView::Short(_) => "Int16"@,
        TypeView::Int(_) => "Int32"@,
        TypeView::Long(_) => "Int64"@,
        TypeView::Float(_) => "Float"@,
        TypeView::Double(_) => "Double"@,
        TypeView::Boolean => "Int32"@,
        TypeView::String => "UnsafePointer<Int8>?"@,
        TypeView::Vec(BaseTypeView::Byte(_)) => "CInt8Array"@,
        TypeView::Vec(_) => "UnsafePointer<Int8>?"@,
        TypeView::Callback(o) => o,
        TypeView::Struct(_) => "UnsafePointer<Int8>?"@,
    }
}

/// The Rust type of an argument of an `extern "C"` bridge function.
pub open spec fn c_arg_str(t: TypeView) -> Seq<char> {
    match t {
        TypeView::Void => "()"@,
        TypeView::Byte(_) => "i8"@,
        TypeView::Short(_) => "i16"@,
        TypeView::Int(_) => "i32"@,
        TypeView::Long(_) => "i64"@,
        TypeView::Float(_) => "f32"@,
        TypeView::Double(_) => "f64"@,
        TypeView::Boolean => "i32"@,
        TypeView::String => "* const c_char"@,
        TypeView::Vec(BaseTypeView::Byte(_)) => "CInt8Array"@,
        TypeView::Vec(_) => "* const c_char"@,
        TypeView::Callback(_) => "()"@,
        TypeView::Struct(_) => "* const c_char"@,
    }
}

/// The Rust type of the result of an `extern "C"` bridge function.
pub open spec fn c_return_str(t: TypeView) -> Seq<char> {
    match t {
        TypeView::Void => "()"@,
        TypeView::Byte(_) => "i8"@,
        TypeView::Short(_) => "i16"@,
        TypeView::Int(_) => "i32"@,
        TypeView::Long(_) => "i64"@,
        TypeView::Float(_) => "f32"@,
        TypeView::Double(_) => "f64"@,
        TypeView::Boolean => "i32"@,
        TypeView::String => "* mut c_char"@,
        TypeView::Vec(_) => "* mut c_char"@,
        TypeView::Callback(_) => "()"@,
        TypeView::Struct(_) => "* mut c_char"@,
    }
}

/// Whether a JNI value travels into Rust as an argument or out as a result.
#[derive(Clone, Copy, Debug, PartialEq, Eq)]
pub enum TypeDirection {
    Argument,
    Return,
}

/// The JNI Rust type of a value in the given direction; empty for types
/// that have none.
pub open spec fn jni_str(t: TypeView, d: TypeDirection) -> Seq<char> {
    match t {
        TypeView::Byte(_) => "i8"@,
        TypeView::Int(_) => "i32"@,
        TypeView::Long(_) => "i64"@,
        TypeView::Float(_) => "f32"@,
        TypeView::Double(_) => "f64"@,
        TypeView::Boolean => "u8"@,
        TypeView::String | TypeView::Vec(_) | TypeView::Struct(_) => match d {
            TypeDirection::Argument => "JString"@,
            TypeDirection::Return => "jstring"@,
        },
        TypeView::Callback(_) => "i64"@,
        _ => Seq::empty(),
    }
}

/// The JNI signatures of the arguments, one after the other.
pub open spec fn args_java_sig(args: Seq<ArgDescView>) -> Seq<char>
    decreases args.len(),
{
    if args.len() == 0 {
        Seq::empty()
    } else {
        args_java_sig(args.drop_last()) + java_sig_of(args.last().ty)
    }
}

/// The JNI signature of the static Java method that a callback method is
/// invoked through: the callback's index (`J`), then the arguments.
pub open spec fn callback_java_sig(m: MethodDescView) -> Seq<char> {
    "(J"@ + args_java_sig(m.args) + ")"@ + java_sig_of(m.return_type)
}

/// The Swift text of a base type.
fn swift_base_type(b: &AstBaseType) -> (r: String)
    ensures
        r@ == swift_base_str(b@),
{
    match b {
        AstBaseType::Void => "Void".to_owned(),
        AstBaseType::Byte(_) => "Int8".to_owned(),
        AstBaseType::Short(_) => "Int16".to_owned(),
        AstBaseType::Int(_) => "Int32".to_owned(),
        AstBaseType::Long(_) => "Int64".to_owned(),
        AstBaseType::Float(_) => "Float".to_owned(),
        AstBaseType::Double(_) => "Double".to_owned(),
        AstBaseType::Boolean => "Bool".to_owned(),
        AstBaseType::String => "String".to_owned(),
        AstBaseType::Callback(o) => o.clone(),
        AstBaseType::Struct(o) => o.clone(),
    }
}

/// The Swift type of a contract type.
pub fn swift_type(ty: &AstType) -> (r: String)
    ensures
        r@ == swift_str(ty@),
{
    match ty {
        AstType::Void => "Void".to_owned(),
        AstType::Byte(_) => "Int8".to_owned(),
        AstType::Short(_) => "Int16".to_owned(),
        AstType::Int(_) => "Int32".to_owned(),
        AstType::Long(_) => "Int64".to_owned(),
        AstType::Float(_) => "Float".to_owned(),
        AstType::Double(_) => "Double".to_owned(),
        AstType::Boolean => "Bool".to_owned(),
        AstType::String => "String".to_owned(),
        AstType::Vec(b) => {
            let mut r = "[".to_owned();
            let inner = swift_base_type(b);
            r.append(inner.as_str());
            r.append("]");
            r
        },
        AstType::Callback(o) => o.clone(),
        AstType::Struct(o) => o.clone(),
    }
}

/// The Swift type in a method signature.
pub fn map_sig_type(ty: &AstType) -> (r: String)
    ensures
        r@ == swift_sig_str(ty@),
{
    match ty {
        AstType::Void => "()".to_owned(),
        _ => swift_type(ty),
    }
}

/// The type of a callback closure's parameter or result.
pub fn map_cb_closure_sig_type(ty: &AstType) -> (r: String)
    ensures
        r@ == swift_closure_str(ty@),
{
    match ty {
        AstType::Void => "()".to_owned(),
        AstType::Byte(_) => "Int8".to_owned(),
        AstType::Short(_) => "Int16".to_owned(),
        AstType::Int(_) => "Int32".to_owned(),
        AstType::Long(_) => "Int64".to_owned(),
        AstType::Float(_) => "Float".to_owned(),
        AstType::Double(_) => "Double".to_owned(),
        AstType::Boolean => "Int32".to_owned(),
        AstType::String => "UnsafePointer<Int8>?".to_owned(),
        AstType::Vec(AstBaseType::Byte(_)) => "CInt8Array".to_owned(),
        AstType::Vec(_) => "UnsafePointer<Int8>?".to_owned(),
        AstType::Callback(o) => o.clone(),
        AstType::Struct(_) => "UnsafePointer<Int8>?".to_owned(),
    }
}

/// The Rust type of a bridge function's argument.
pub fn map_sig_arg_type(ty: &AstType) -> (r: String)
    ensures
        r@ == c_arg_str(ty@),
{
    match ty {
        AstType::Void => "()".to_owned(),
        AstType::Byte(_) => "i8".to_owned(),
        AstType::Short(_) => "i16".to_owned(),
        AstType::Int(_) => "i32".to_owned(),
        AstType::Long(_) => "i64".to_owned(),
        AstType::Float(_) => "f32".to_owned(),
        AstType::Double(_) => "f64".to_owned(),
        AstType::Boolean => "i32".to_owned(),
        AstType::String => "* const c_char".to_owned(),
        AstType::Vec(AstBaseType::Byte(_)) => "CInt8Array".to_owned(),
        AstType::Vec(_) => "* const c_char".to_owned(),
        AstType::Callback(_) => "()".to_owned(),
        AstType::Struct(_) => "* const c_char".to_owned(),
    }
}

/// The Rust type of a bridge function's result.
pub fn map_sig_return_type(ty: &AstType) -> (r: String)
    ensures
        r@ == c_return_str(ty@),
{
    match ty {
        AstType::Void => "()".to_owned(),
        AstType::Byte(_) => "i8".to_owned(),
        AstType::Short(_) => "i16".to_owned(),
        AstType::Int(_) => "i32".to_owned(),
        AstType::Long(_) => "i64".to_owned(),
        AstType::Float(_) => "f32".to_owned(),
        AstType::Double(_) => "f64".to_owned(),
        AstType::Boolean => "i32".to_owned(),
        AstType::String => "* mut c_char".to_owned(),
        AstType::Vec(_) => "* mut c_char".to_owned(),
        AstType::Callback(_) => "()".to_owned(),
        AstType::Struct(_) => "* mut c_char".to_owned(),
    }
}

/// The JNI Rust type of a value (`JavaCallbackStrategy::ty_to_tokens`).
pub fn jni_type(ty: &AstType, direction: TypeDirection) -> (r: String)
    ensures
        r@ == jni_str(ty@, direction),
{
    match ty {
        AstType::Byte(_) => "i8".to_owned(),
        AstType::Int(_) => "i32".to_owned(),
        AstType::Long(_) => "i64".to_owned(),
        AstType::Float(_) => "f32".to_owned(),
        AstType::Double(_) => "f64".to_owned(),
        AstType::Boolean => "u8".to_owned(),
        AstType::String | AstType::Vec(_) | AstType::Struct(_) => match direction {
            TypeDirection::Argument => "JString".to_owned(),
            TypeDirection::Return => "jstring".to_owned(),
        },
        AstType::Callback(_) => "i64".to_owned(),
        _ => String::new(),
    }
}

/// The JNI signature that a callback method is invoked through from Rust.
pub fn callback_method_java_sig(method: &MethodDesc) -> (r: String)
    ensures
        r@ == callback_java_sig(method@),
{
    let mut sig = "(J".to_owned();
    let n = method.args.len();
    let mut i: usize = 0;
    while i < n
        invariant
            n == method.args@.len(),
            i <= n,
            sig@ == "(J"@ + args_java_sig(args_view(method.args@).take(i as int)),
        decreases n - i,
    {
        proof {
            assert(args_view(method.args@).take(i + 1).drop_last() =~= args_view(method.args@).take(
                i as int,
            ));
        }
        let s = method.args[i].ty.to_java_sig();
        sig.append(s.as_str());
        i = i + 1;
        assert(sig@ =~= "(J"@ + args_java_sig(args_view(method.args@).take(i as int)));
    }
    assert(args_view(method.args@).take(n as int) =~= args_view(method.args@));
    sig.append(")");
    let ret = method.return_type.to_java_sig();
    sig.append(ret.as_str());
    sig
}

} // verus!
