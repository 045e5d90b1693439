//! What the two sides of a binding must agree on: an integer keeps its
//! width from the Rust name through every language it is written in, a
//! `JValue` has the kind of the JNI signature it is passed under, and a
//! boolean encoded as an integer on one side is decoded to the same truth
//! value on the other.

use vstd::prelude::*;

use crate::ast::desc::{ArgDescView, TraitDescView};
use crate::ast::types::{base_type_of, java_sig_of, type_of, widen, BaseTypeView, TypeView};
use crate::gen::c_bridge::{c_arg_convert, c_return_lines, CArgConvertView};
use crate::gen::java::{java_arg_lines, java_cb_arg_line};
use crate::gen::jni::{jni_arg_lines, jvalue_line};
use crate::gen::mapping::{c_arg_str, c_return_str, swift_str};
use crate::gen::swift::{arg_convert_lines, return_convert_lines};

verus! {

/// The width in bits of a fixed-width Rust integer type name; 0 for any
/// other name.
pub open spec fn int_name_width(name: Seq<char>) -> int {
    if name == "i8"@ || name == "u8"@ {
        8
    } else if name == "i16"@ || name == "u16"@ {
        16
    } else if name == "i32"@ || name == "u32"@ {
        32
    } else if name == "i64"@ || name == "u64"@ {
        64
    } else {
        0
    }
}

/// The width in bits that an integer contract type carries; 0 for the
/// other types.
pub open spec fn type_width(t: TypeView) -> int {
    match t {
        TypeView::Byte(_) => 8,
        TypeView::Short(_) => 16,
        TypeView::Int(_) => 32,
        TypeView::Long(_) => 64,
        _ => 0,
    }
}

/// The width in bits of a Swift integer type name; 0 for any other name.
pub open spec fn swift_int_width(name: Seq<char>) -> int {
    if name == "Int8"@ {
        8
    } else if name == "Int16"@ {
        16
    } else if name == "Int32"@ {
        32
    } else if name == "Int64"@ {
        64
    } else {
        0
    }
}

/// The width in bits of a JNI integer type signature; 0 for any other.
pub open spec fn jni_int_width(sig: Seq<char>) -> int {
    if sig == "B"@ {
        8
    } else if sig == "S"@ {
        16
    } else if sig == "I"@ {
        32
    } else if sig == "J"@ {
        64
    } else {
        0
    }
}

/// Law: a fixed-width Rust integer name is read as a contract type of the
/// same width, on its own and as a vector element; so a 64-bit name is a
/// 64-bit type, never one that truncates it.
pub proof fn law_integer_width_read(ident: Seq<char>, sub: Seq<char>)
    requires
        int_name_width(ident) > 0,
    ensures
        type_width(type_of(ident, sub)) == int_name_width(ident),
        type_width(widen(base_type_of(ident, sub))) == int_name_width(ident),
{
    reveal_strlit("i8");
    reveal_strlit("u8");
    reveal_strlit("i16");
    reveal_strlit("u16");
    reveal_strlit("i32");
    reveal_strlit("u32");
    reveal_strlit("i64");
    reveal_strlit("u64");
    reveal_strlit("isize");
    reveal_strlit("usize");
    reveal_strlit("f32");
    reveal_strlit("f64");
    assert("i8"@.len() == 2 && "u8"@.len() == 2);
    assert("isize"@.len() == 5 && "usize"@.len() == 5);
    if ident == "i16"@ || ident == "u16"@ {
        assert(ident[1] == '1');
        assert(ident != "i8"@ && ident != "u8"@);
    } else if ident == "i32"@ || ident == "u32"@ {
        assert(ident[1] == '3');
        assert(ident != "i8"@ && ident != "u8"@ && ident != "i16"@ && ident != "u16"@);
    } else if ident == "i64"@ || ident == "u64"@ {
        assert(ident[1] == '6');
        assert(ident != "i8"@ && ident != "u8"@ && ident != "i16"@ && ident != "u16"@);
        assert(ident != "i32"@ && ident != "u32"@ && ident != "isize"@ && ident != "usize"@);
        assert(ident[0] == "i64"@[0] || ident[0] == "u64"@[0]);
        assert("f32"@[0] == 'f' && "f64"@[0] == 'f' && "i64"@[0] == 'i' && "u64"@[0] == 'u');
        assert(ident != "f32"@ && ident != "f64"@);
    }
}

/// Law: every integer contract type keeps its width in the C bridge (as
/// argument and as result, the same Rust integer type), in Swift and in its
/// JNI signature.
pub proof fn law_integer_width_written(t: TypeView)
    requires
        type_width(t) > 0,
    ensures
        int_name_width(c_arg_str(t)) == type_width(t),
        c_arg_str(t) == c_return_str(t),
        swift_int_width(swift_str(t)) == type_width(t),
        jni_int_width(java_sig_of(t)) == type_width(t),
{
    reveal_strlit("i8");
    reveal_strlit("u8");
    reveal_strlit("i16");
    reveal_strlit("u16");
    reveal_strlit("i32");
    reveal_strlit("u32");
    reveal_strlit("i64");
    reveal_strlit("Int8");
    reveal_strlit("Int16");
    reveal_strlit("Int32");
    reveal_strlit("Int64");
    reveal_strlit("B");
    reveal_strlit("S");
    reveal_strlit("I");
    reveal_strlit("J");
    assert("i8"@.len() == 2 && "u8"@.len() == 2);
    assert("i16"@[1] == '1' && "u16"@[1] == '1' && "i32"@[1] == '3' && "u32"@[1] == '3');
    assert("i64"@[1] == '6' && "i16"@.len() == 3 && "i32"@.len() == 3 && "i64"@.len() == 3);
    assert("Int8"@.len() == 4 && "Int16"@.len() == 5 && "Int32"@.len() == 5 && "Int64"@.len() == 5);
    assert("Int16"@[3] == '1' && "Int32"@[3] == '3' && "Int64"@[3] == '6');
    assert("B"@[0] == 'B' && "S"@[0] == 'S' && "I"@[0] == 'I' && "J"@[0] == 'J');
}

/// Law: from the Rust name of a contract argument to the type of its C
/// bridge parameter, an integer keeps its width.
pub proof fn law_c_parameter_width(ident: Seq<char>)
    requires
        int_name_width(ident) > 0,
    ensures
        int_name_width(c_arg_str(type_of(ident, ident))) == int_name_width(ident),
        int_name_width(c_return_str(type_of(ident, ident))) == int_name_width(ident),
{
    law_integer_width_read(ident, ident);
    law_integer_width_written(type_of(ident, ident));
}

/// The JNI type signature letter that a `JValue` variant carries; `L` for
/// an object.
pub open spec fn jvalue_kind(variant: Seq<char>) -> Seq<char> {
    if variant == "Bool"@ {
        "Z"@
    } else if variant == "Byte"@ {
        "B"@
    } else if variant == "Char"@ {
        "C"@
    } else if variant == "Short"@ {
        "S"@
    } else if variant == "Int"@ {
        "I"@
    } else if variant == "Long"@ {
        "J"@
    } else if variant == "Float"@ {
        "F"@
    } else if variant == "Double"@ {
        "D"@
    } else if variant == "Object"@ {
        "L"@
    } else {
        Seq::empty()
    }
}

/// Whether a value of `JValue` variant `variant` may be passed where the
/// JNI signature `sig` is declared: an object for a class or an array, the
/// variant of the same letter for a primitive.
pub open spec fn jvalue_fits(variant: Seq<char>, sig: Seq<char>) -> bool {
    &&& sig.len() > 0
    &&& if sig[0] == 'L' || sig[0] == '[' {
        variant == "Object"@
    } else {
        jvalue_kind(variant) == sig
    }
}

/// Whether `line` passes a `JValue` of variant `variant`, followed by
/// `rest`.
pub open spec fn passes_jvalue(line: Seq<char>, variant: Seq<char>, rest: Seq<char>) -> bool {
    line == "JValue::"@ + variant + "("@ + rest
}

/// Law: each argument of a callback is passed to Java as the `JValue` that
/// the JNI signature of its type declares (a `long` as `Long`, a `String`
/// as an object), for every argument type that a callback takes but `i16`,
/// which is passed as an object.
pub proof fn law_jvalue_fits_signature(a: ArgDescView)
    requires
        !(a.ty is Void),
        !(a.ty is Callback),
        !(a.ty is Short),
    ensures
        exists|v: Seq<char>, rest: Seq<char>|
            #[trigger] passes_jvalue(jvalue_line(a), v, rest) && jvalue_fits(v, java_sig_of(a.ty)),
{
    reveal_strlit("JValue::");
    reveal_strlit("(");
    reveal_strlit("),");
    reveal_strlit("JValue::Byte(");
    reveal_strlit("JValue::Int(");
    reveal_strlit("JValue::Long(");
    reveal_strlit("JValue::Float(");
    reveal_strlit("JValue::Double(");
    reveal_strlit("JValue::Object(JObject::from(");
    reveal_strlit("JValue::Object(");
    reveal_strlit("JObject::from(");
    reveal_strlit("Bool");
    reveal_strlit("Byte");
    reveal_strlit("Char");
    reveal_strlit("Short");
    reveal_strlit("Int");
    reveal_strlit("Long");
    reveal_strlit("Float");
    reveal_strlit("Double");
    reveal_strlit("Object");
    reveal_strlit("Z");
    reveal_strlit("B");
    reveal_strlit("C");
    reveal_strlit("S");
    reveal_strlit("I");
    reveal_strlit("J");
    reveal_strlit("F");
    reveal_strlit("D");
    reveal_strlit("L");
    reveal_strlit("[B");
    reveal_strlit("Ljava/lang/String;");
    assert("Bool"@ =~= seq!['B', 'o', 'o', 'l']);
    assert("Byte"@ =~= seq!['B', 'y', 't', 'e']);
    assert("Char"@ =~= seq!['C', 'h', 'a', 'r']);
    assert("Short"@ =~= seq!['S', 'h', 'o', 'r', 't']);
    assert("Int"@ =~= seq!['I', 'n', 't']);
    assert("Long"@ =~= seq!['L', 'o', 'n', 'g']);
    assert("Float"@ =~= seq!['F', 'l', 'o', 'a', 't']);
    assert("Double"@ =~= seq!['D', 'o', 'u', 'b', 'l', 'e']);
    assert("Object"@ =~= seq!['O', 'b', 'j', 'e', 'c', 't']);
    assert("Ljava/lang/String;"@[0] == 'L');
    assert("[B"@[0] == '[');
    assert("B"@ =~= seq!['B']);
    assert("I"@ =~= seq!['I']);
    assert("J"@ =~= seq!['J']);
    assert("F"@ =~= seq!['F']);
    assert("D"@ =~= seq!['D']);
    let j = "j_"@ + a.name;
    match a.ty {
        TypeView::Byte(_) => {
            assert(jvalue_line(a) =~= "JValue::"@ + "Byte"@ + "("@ + (j + "),"@));
            assert(jvalue_fits("Byte"@, java_sig_of(a.ty)));
            assert(passes_jvalue(jvalue_line(a), "Byte"@, j + "),"@));
        },
        TypeView::Boolean | TypeView::Int(_) => {
            assert(jvalue_line(a) =~= "JValue::"@ + "Int"@ + "("@ + (j + "),"@));
            assert(jvalue_fits("Int"@, java_sig_of(a.ty)));
            assert(passes_jvalue(jvalue_line(a), "Int"@, j + "),"@));
        },
        TypeView::Long(_) => {
            assert(jvalue_line(a) =~= "JValue::"@ + "Long"@ + "("@ + (j + "),"@));
            assert(jvalue_fits("Long"@, java_sig_of(a.ty)));
            assert(passes_jvalue(jvalue_line(a), "Long"@, j + "),"@));
        },
        TypeView::Float(_) => {
            assert(jvalue_line(a) =~= "JValue::"@ + "Float"@ + "("@ + (j + "),"@));
            assert(jvalue_fits("Float"@, java_sig_of(a.ty)));
            assert(passes_jvalue(jvalue_line(a), "Float"@, j + "),"@));
        },
        TypeView::Double(_) => {
            assert(jvalue_line(a) =~= "JValue::"@ + "Double"@ + "("@ + (j + "),"@));
            assert(jvalue_fits("Double"@, java_sig_of(a.ty)));
            assert(passes_jvalue(jvalue_line(a), "Double"@, j + "),"@));
        },
        TypeView::Vec(BaseTypeView::Byte(_)) => {
            let rest = "JObject::from("@ + j + ")),"@;
            assert(jvalue_line(a) =~= "JValue::"@ + "Object"@ + "("@ + rest);
            assert(jvalue_fits("Object"@, java_sig_of(a.ty)));
            assert(passes_jvalue(jvalue_line(a), "Object"@, rest));
        },
        _ => {
            assert(jvalue_line(a) =~= "JValue::"@ + "Object"@ + "("@ + (j + "),"@));
            assert(jvalue_fits("Object"@, java_sig_of(a.ty)));
            assert(passes_jvalue(jvalue_line(a), "Object"@, j + "),"@));
        },
    }
}

/// The value of a one-digit numeral: `0` and `1`; any other text is -1.
pub open spec fn numeral(s: Seq<char>) -> int {
    if s == "0"@ {
        0
    } else if s == "1"@ {
        1
    } else {
        -1
    }
}

/// The truth value of a boolean literal, written alike in Rust, Java and
/// Swift.
pub open spec fn truth(s: Seq<char>) -> Option<bool> {
    if s == "true"@ {
        Some(true)
    } else if s == "false"@ {
        Some(false)
    } else {
        None
    }
}

/// The literal that a test `value > 0 ? pos : other` gives for the
/// integer written `numeral`.
pub open spec fn decoded(numeral_text: Seq<char>, pos: Seq<char>, other: Seq<char>) -> Seq<char> {
    if numeral(numeral_text) > 0 {
        pos
    } else {
        other
    }
}

/// Whether a boolean result `ret` that the C bridge returns as the integer
/// of `c_line` (`t` for true, `f` for false) is read back by the Swift line
/// `s_line` (`result > 0 ? a : b`) as the same truth value.
pub open spec fn bool_result_round_trip(
    ret: Seq<char>,
    c_line: Seq<char>,
    s_line: Seq<char>,
    t: Seq<char>,
    f: Seq<char>,
    a: Seq<char>,
    b: Seq<char>,
) -> bool {
    &&& c_line == "if "@ + ret + " {"@ + t + "} else {"@ + f + "}"@
    &&& s_line == "let s_result = result > 0 ? "@ + a + " : "@ + b
    &&& truth(decoded(t, a, b)) == Some(true)
    &&& truth(decoded(f, a, b)) == Some(false)
}

/// Law: a boolean that a contract method returns reaches Swift unchanged:
/// the C bridge encodes it as an integer, and the Swift wrapper's reading
/// of that integer gives true for true and false for false.
pub proof fn law_bool_result_reaches_swift(krate: Seq<char>, ret: Seq<char>)
    ensures
        exists|t: Seq<char>, f: Seq<char>, a: Seq<char>, b: Seq<char>|
            #[trigger] bool_result_round_trip(
                ret,
                c_return_lines(TypeView::Boolean, ret)[0],
                return_convert_lines(krate, TypeView::Boolean)[0],
                t,
                f,
                a,
                b,
            ),
{
    reveal_strlit("if ");
    reveal_strlit(" {");
    reveal_strlit(" {1} else {0}");
    reveal_strlit("} else {");
    reveal_strlit("}");
    reveal_strlit("1");
    reveal_strlit("0");
    reveal_strlit("true");
    reveal_strlit("false");
    reveal_strlit("let s_result = result > 0 ? ");
    reveal_strlit(" : ");
    reveal_strlit("let s_result = result > 0 ? true : false");
    let c_line = c_return_lines(TypeView::Boolean, ret)[0];
    let s_line = return_convert_lines(krate, TypeView::Boolean)[0];
    assert(c_line =~= "if "@ + ret + " {"@ + "1"@ + "} else {"@ + "0"@ + "}"@);
    assert(s_line =~= "let s_result = result > 0 ? "@ + "true"@ + " : "@ + "false"@);
    assert("1"@ =~= seq!['1'] && "0"@ =~= seq!['0']);
    assert("true"@.len() == 4 && "false"@.len() == 5);
    assert("1"@[0] == '1' && "0"@[0] == '0');
    assert("1"@ != "0"@);
    assert(numeral("1"@) == 1);
    assert(numeral("0"@) == 0);
    assert(truth("true"@) == Some(true));
    assert(truth("false"@) == Some(false));
    assert(decoded("1"@, "true"@, "false"@) == "true"@);
    assert(decoded("0"@, "true"@, "false"@) == "false"@);
    assert(bool_result_round_trip(ret, c_line, s_line, "1"@, "0"@, "true"@, "false"@));
}

/// Whether a boolean argument `n`, that Java hands on as the integer of
/// `j_line` (`n ? t : f`), is read back by the bridge line `r_line`
/// (`if n > 0 {a} else {b}`) as the same truth value.
pub open spec fn bool_arg_round_trip(
    n: Seq<char>,
    j_line: Seq<char>,
    r_line: Seq<char>,
    t: Seq<char>,
    f: Seq<char>,
    a: Seq<char>,
    b: Seq<char>,
) -> bool {
    &&& j_line == "int r_"@ + n + " = "@ + n + " ? "@ + t + " : "@ + f + ";"@
    &&& r_line == "let r_"@ + n + " = if "@ + n + " > 0 {"@ + a + "} else {"@ + b + "};"@
    &&& truth(decoded(t, a, b)) == Some(true)
    &&& truth(decoded(f, a, b)) == Some(false)
}

/// The one line that the bridge reads argument `a` with, if it reads it
/// with one line.
pub open spec fn bridge_arg_line(a: ArgDescView) -> Seq<char> {
    match c_arg_convert(a) {
        Some(CArgConvertView::Lines(l)) => l[0],
        _ => Seq::empty(),
    }
}

/// Law: a boolean argument of a wrapper method reaches Rust unchanged: the
/// Java wrapper hands it on as an integer, and the bridge's reading of that
/// integer (`> 0` is true) gives true for true and false for false.
pub proof fn law_bool_argument_reaches_rust(a: ArgDescView)
    requires
        a.ty == TypeView::Boolean,
    ensures
        exists|t: Seq<char>, f: Seq<char>, x: Seq<char>, y: Seq<char>|
            #[trigger] bool_arg_round_trip(
                a.name,
                java_arg_lines(a)[0],
                bridge_arg_line(a),
                t,
                f,
                x,
                y,
            ),
{
    reveal_strlit("int r_");
    reveal_strlit("let r_");
    reveal_strlit(" = ");
    reveal_strlit(" ? ");
    reveal_strlit(" : ");
    reveal_strlit(";");
    reveal_strlit("1");
    reveal_strlit("0");
    reveal_strlit(" ? 1 : 0;");
    reveal_strlit("let ");
    reveal_strlit("r_");
    reveal_strlit(" = if ");
    reveal_strlit(" > 0 {true} else {false};");
    reveal_strlit(" > 0 {");
    reveal_strlit("} else {");
    reveal_strlit("};");
    reveal_strlit("true");
    reveal_strlit("false");
    reveal_strlit("int ");
    let n = a.name;
    let j_line = java_arg_lines(a)[0];
    let r_line = bridge_arg_line(a);
    assert(j_line =~= "int r_"@ + n + " = "@ + n + " ? "@ + "1"@ + " : "@ + "0"@ + ";"@);
    assert(r_line =~= "let r_"@ + n + " = if "@ + n + " > 0 {"@ + "true"@ + "} else {"@ + "false"@
        + "};"@);
    assert("1"@ =~= seq!['1'] && "0"@ =~= seq!['0']);
    assert("true"@.len() == 4 && "false"@.len() == 5);
    assert("1"@[0] == '1' && "0"@[0] == '0');
    assert("1"@ != "0"@);
    assert(numeral("1"@) == 1);
    assert(numeral("0"@) == 0);
    assert(truth("true"@) == Some(true));
    assert(truth("false"@) == Some(false));
    assert(decoded("1"@, "true"@, "false"@) == "true"@);
    assert(decoded("0"@, "true"@, "false"@) == "false"@);
    assert(bool_arg_round_trip(n, j_line, r_line, "1"@, "0"@, "true"@, "false"@));
}

/// The numerals and literals that the boolean encodings use.
proof fn lemma_bool_literals()
    ensures
        numeral("1"@) == 1,
        numeral("0"@) == 0,
        truth("true"@) == Some(true),
        truth("false"@) == Some(false),
{
    reveal_strlit("1");
    reveal_strlit("0");
    reveal_strlit("true");
    reveal_strlit("false");
    assert("1"@ =~= seq!['1'] && "0"@ =~= seq!['0']);
    assert("1"@[0] == '1' && "0"@[0] == '0');
    assert("1"@ != "0"@);
    assert("true"@.len() == 4 && "false"@.len() == 5);
}

/// Whether a boolean argument `n`, that the Swift wrapper hands to C as the
/// integer of `s_line` (`n ? t : f`), is read back by the C bridge line
/// `c_line` (`if n > 0 {a} else {b}`) as the same truth value.
pub open spec fn swift_bool_arg_round_trip(
    n: Seq<char>,
    s_line: Seq<char>,
    c_line: Seq<char>,
    t: Seq<char>,
    f: Seq<char>,
    a: Seq<char>,
    b: Seq<char>,
) -> bool {
    &&& s_line == "let s_"@ + n + ": Int32 = "@ + n + " ? "@ + t + " : "@ + f
    &&& c_line == "let r_"@ + n + " = if "@ + n + " > 0 {"@ + a + "} else {"@ + b + "};"@
    &&& truth(decoded(t, a, b)) == Some(true)
    &&& truth(decoded(f, a, b)) == Some(false)
}

/// Law: a boolean argument of a Swift wrapper method reaches Rust
/// unchanged through the C bridge.
pub proof fn law_bool_argument_from_swift(module: Seq<char>, a: ArgDescView, cbs: Seq<TraitDescView>)
    requires
        a.ty == TypeView::Boolean,
    ensures
        exists|t: Seq<char>, f: Seq<char>, x: Seq<char>, y: Seq<char>|
            #[trigger] swift_bool_arg_round_trip(
                a.name,
                arg_convert_lines(module, a, cbs)[0],
                bridge_arg_line(a),
                t,
                f,
                x,
                y,
            ),
{
    reveal_strlit("let ");
    reveal_strlit("s_");
    reveal_strlit("let s_");
    reveal_strlit(": Int32 = ");
    reveal_strlit(" ? ");
    reveal_strlit(" : ");
    reveal_strlit(" ? 1 : 0");
    reveal_strlit("1");
    reveal_strlit("0");
    reveal_strlit("r_");
    reveal_strlit("let r_");
    reveal_strlit(" = if ");
    reveal_strlit(" > 0 {true} else {false};");
    reveal_strlit(" > 0 {");
    reveal_strlit("} else {");
    reveal_strlit("};");
    reveal_strlit("true");
    reveal_strlit("false");
    lemma_bool_literals();
    let n = a.name;
    let s_line = arg_convert_lines(module, a, cbs)[0];
    let c_line = bridge_arg_line(a);
    assert(s_line =~= "let s_"@ + n + ": Int32 = "@ + n + " ? "@ + "1"@ + " : "@ + "0"@);
    assert(c_line =~= "let r_"@ + n + " = if "@ + n + " > 0 {"@ + "true"@ + "} else {"@ + "false"@
        + "};"@);
    assert(swift_bool_arg_round_trip(n, s_line, c_line, "1"@, "0"@, "true"@, "false"@));
}

/// Whether a boolean callback argument `n`, that the JNI bridge hands to
/// Java as the integer of `r_line` (`if n {t} else {f}`), is read back by
/// the Java line `j_line` (`n > 0 ? a : b`) as the same truth value.
pub open spec fn callback_bool_arg_round_trip(
    n: Seq<char>,
    r_line: Seq<char>,
    j_line: Seq<char>,
    t: Seq<char>,
    f: Seq<char>,
    a: Seq<char>,
    b: Seq<char>,
) -> bool {
    &&& r_line == "let j_"@ + n + " = if "@ + n + " {"@ + t + "} else {"@ + f + "};"@
    &&& j_line == "boolean j_"@ + n + " = "@ + n + " > 0 ? "@ + a + " : "@ + b + ";"@
    &&& truth(decoded(t, a, b)) == Some(true)
    &&& truth(decoded(f, a, b)) == Some(false)
}

/// Law: a boolean that Rust passes to a Java callback arrives unchanged:
/// the JNI bridge encodes it as an integer and the Java invoke method reads
/// that integer back to the same truth value.
pub proof fn law_bool_callback_argument_reaches_java(a: ArgDescView)
    requires
        a.ty == TypeView::Boolean,
    ensures
        exists|t: Seq<char>, f: Seq<char>, x: Seq<char>, y: Seq<char>|
            #[trigger] callback_bool_arg_round_trip(
                a.name,
                jni_arg_lines(a)[0],
                java_cb_arg_line(a),
                t,
                f,
                x,
                y,
            ),
{
    reveal_strlit("let ");
    reveal_strlit("j_");
    reveal_strlit("let j_");
    reveal_strlit(" = if ");
    reveal_strlit(" {1} else {0};");
    reveal_strlit(" {");
    reveal_strlit("} else {");
    reveal_strlit("};");
    reveal_strlit("boolean j_");
    reveal_strlit(" = ");
    reveal_strlit(" > 0 ? true : false;");
    reveal_strlit(" > 0 ? ");
    reveal_strlit(" : ");
    reveal_strlit(";");
    reveal_strlit("1");
    reveal_strlit("0");
    reveal_strlit("true");
    reveal_strlit("false");
    lemma_bool_literals();
    let n = a.name;
    let r_line = jni_arg_lines(a)[0];
    let j_line = java_cb_arg_line(a);
    assert(r_line =~= "let j_"@ + n + " = if "@ + n + " {"@ + "1"@ + "} else {"@ + "0"@ + "};"@);
    assert(j_line =~= "boolean j_"@ + n + " = "@ + n + " > 0 ? "@ + "true"@ + " : "@ + "false"@
        + ";"@);
    assert(callback_bool_arg_round_trip(n, r_line, j_line, "1"@, "0"@, "true"@, "false"@));
}

} // verus!
