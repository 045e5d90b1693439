//! What the bridge crate generator decides for every target language: which
//! implementation serves each contract trait, which files and modules the
//! bridge crate has, and the language-neutral lines of each bridge file.

use vstd::prelude::*;

use crate::ast::desc::{args_view, traits_view, ArgDescView, ImpDesc, MethodDesc, MethodDescView, TraitDesc, TraitDescView};
use crate::errors::RsbindError;
use crate::gen::swift::{cat2, cat3, no_lines, one_line, push_lines};
use crate::text::{join, join_strings, replace_char, replace_chars, strings_view};

verus! {

/// The positions of the implementations of contract trait `name`.
pub open spec fn imps_for(imps: Seq<ImpDesc>, name: Seq<char>) -> Seq<int>
    decreases imps.len(),
{
    if imps.len() == 0 {
        Seq::empty()
    } else if imps.last().contract@ == name {
        imps_for(imps.drop_last(), name).push(imps.len() - 1)
    } else {
        imps_for(imps.drop_last(), name)
    }
}

/// Every position that `imps_for` gives is that of an implementation of
/// the trait.
pub proof fn lemma_imps_for_in_range(imps: Seq<ImpDesc>, name: Seq<char>)
    ensures
        forall|q: int|
            0 <= q < imps_for(imps, name).len() ==> 0 <= #[trigger] imps_for(imps, name)[q]
                < imps.len() && imps[imps_for(imps, name)[q]].contract@ == name,
    decreases imps.len(),
{
    if imps.len() > 0 {
        let prev = imps.drop_last();
        lemma_imps_for_in_range(prev, name);
        assert forall|q: int| 0 <= q < imps_for(imps, name).len() implies 0 <= #[trigger] imps_for(
            imps,
            name,
        )[q] < imps.len() && imps[imps_for(imps, name)[q]].contract@ == name by {
            if q < imps_for(prev, name).len() {
                assert(imps_for(imps, name)[q] == imps_for(prev, name)[q]);
                assert(imps[imps_for(prev, name)[q]] == prev[imps_for(prev, name)[q]]);
            }
        }
    }
}

/// The implementation of contract trait `trait_` among `imps`
///: its position when there is one, a `GenerateError` when
/// there is none. The generator stops when there are several; such inputs
/// are left out.
pub fn find_imp(trait_: &TraitDesc, imps: &Vec<ImpDesc>) -> (r: Result<usize, RsbindError>)
    requires
        imps_for(imps@, trait_.name@).len() <= 1,
    ensures
        imps_for(imps@, trait_.name@).len() == 1 ==> (r matches Ok(k) && k as int == imps_for(
            imps@,
            trait_.name@,
        )[0]),
        imps_for(imps@, trait_.name@).len() == 0 ==> (r matches Err(RsbindError::GenerateError(m))
            && m@ == "No impl found for trait "@ + trait_.name@),
        r matches Ok(k) ==> k < imps@.len(),
{
    let n = imps.len();
    let mut found: Option<usize> = None;
    let mut i: usize = 0;
    while i < n
        invariant
            n == imps@.len(),
            i <= n,
            match found {
                Some(k) => imps_for(imps@.take(i as int), trait_.name@) == seq![k as int],
                None => imps_for(imps@.take(i as int), trait_.name@).len() == 0,
            },
            found matches Some(k) ==> k < i,
            imps_for(imps@, trait_.name@).len() <= 1,
        decreases n - i,
    {
        let ghost prev = imps_for(imps@.take(i as int), trait_.name@);
        proof {
            assert(imps@.take(i + 1).drop_last() =~= imps@.take(i as int));
            assert(imps@.take(i + 1).last() == imps@[i as int]);
            lemma_imps_prefix(imps@, trait_.name@, i as int + 1);
        }
        if crate::text::str_eq(imps[i].contract.as_str(), trait_.name.as_str()) {
            assert(imps_for(imps@.take(i + 1), trait_.name@) == prev.push(i as int));
            assert(prev.len() == 0);
            found = Some(i);
            assert(imps_for(imps@.take(i + 1), trait_.name@) =~= seq![i as int]);
        } else {
            assert(imps_for(imps@.take(i + 1), trait_.name@) == prev);
        }
        i = i + 1;
    }
    assert(imps@.take(n as int) =~= imps@);
    match found {
        Some(k) => Ok(k),
        None => Err(RsbindError::GenerateError(cat2("No impl found for trait ", trait_.name.as_str()))),
    }
}

/// Matches never shrink as more implementations are read.
proof fn lemma_imps_prefix(imps: Seq<ImpDesc>, name: Seq<char>, k: int)
    requires
        0 <= k <= imps.len(),
    ensures
        imps_for(imps.take(k), name).len() <= imps_for(imps, name).len(),
    decreases imps.len() - k,
{
    if k < imps.len() {
        lemma_imps_prefix(imps, name, k + 1);
        assert(imps.take(k + 1).drop_last() =~= imps.take(k));
    } else {
        assert(imps.take(k) =~= imps);
    }
}

/// The bridge module of module `m` for language `lang`.
pub open spec fn bridge_mod(lang: Seq<char>, m: Seq<char>) -> Seq<char> {
    lang + "_"@ + m
}

/// The modules of the bridge crate: one per contract module, then `common`.
pub open spec fn bridge_mods(lang: Seq<char>, mods: Seq<Seq<char>>) -> Seq<Seq<char>> {
    Seq::new(mods.len(), |i: int| bridge_mod(lang, mods[i])).push("common"@)
}

/// The files of the bridge crate, in the order they are written: one per
/// contract module, then `lib.rs` and `common.rs`.
pub open spec fn bridge_files(lang: Seq<char>, mods: Seq<Seq<char>>) -> Seq<Seq<char>> {
    Seq::new(mods.len(), |i: int| bridge_mod(lang, mods[i]) + ".rs"@) + seq![
        "lib.rs"@,
        "common.rs"@,
    ]
}

/// The modules of the bridge crate.
pub fn bridge_mod_names(lang: &str, mods: &Vec<String>) -> (r: Vec<String>)
    ensures
        strings_view(r@) == bridge_mods(lang@, strings_view(mods@)),
{
    let mut r: Vec<String> = Vec::new();
    let n = mods.len();
    let mut i: usize = 0;
    while i < n
        invariant
            n == mods@.len(),
            i <= n,
            r@.len() == i,
            forall|k: int| 0 <= k < i ==> #[trigger] r@[k]@ == bridge_mod(lang@, mods@[k]@),
        decreases n - i,
    {
        r.push(cat3(lang, "_", mods[i].as_str()));
        i = i + 1;
    }
    let ghost mid = strings_view(r@);
    r.push("common".to_owned());
    assert(strings_view(r@) =~= mid.push("common"@));
    assert(strings_view(r@) =~= bridge_mods(lang@, strings_view(mods@)));
    r
}

/// The files of the bridge crate.
pub fn bridge_file_names(lang: &str, mods: &Vec<String>) -> (r: Vec<String>)
    ensures
        strings_view(r@) == bridge_files(lang@, strings_view(mods@)),
{
    let mut r: Vec<String> = Vec::new();
    let n = mods.len();
    let mut i: usize = 0;
    while i < n
        invariant
            n == mods@.len(),
            i <= n,
            r@.len() == i,
            forall|k: int| 0 <= k < i ==> #[trigger] r@[k]@ == bridge_mod(lang@, mods@[k]@) + ".rs"@,
        decreases n - i,
    {
        let mut f = cat3(lang, "_", mods[i].as_str());
        f.append(".rs");
        r.push(f);
        i = i + 1;
    }
    let ghost mid = strings_view(r@);
    r.push("lib.rs".to_owned());
    r.push("common.rs".to_owned());
    assert(strings_view(r@) =~= mid + seq!["lib.rs"@, "common.rs"@]);
    assert(strings_view(r@) =~= bridge_files(lang@, strings_view(mods@)));
    r
}

/// The `pub mod` line of each module.
pub open spec fn mod_lines(mods: Seq<Seq<char>>) -> Seq<Seq<char>> {
    Seq::new(mods.len(), |i: int| "pub mod "@ + mods[i] + ";"@)
}

/// The lines that declare the bridge crate's modules (the `lib.rs` part
/// after the language's own lines).
pub fn bridge_mod_lines(mods: &Vec<String>) -> (r: Vec<String>)
    ensures
        strings_view(r@) == mod_lines(strings_view(mods@)),
{
    let mut r: Vec<String> = Vec::new();
    let n = mods.len();
    let mut i: usize = 0;
    while i < n
        invariant
            n == mods@.len(),
            i <= n,
            r@.len() == i,
            forall|k: int| 0 <= k < i ==> #[trigger] r@[k]@ == "pub mod "@ + mods@[k]@ + ";"@,
        decreases n - i,
    {
        r.push(cat3("pub mod ", mods[i].as_str(), ";"));
        i = i + 1;
    }
    assert(strings_view(r@) =~= mod_lines(strings_view(mods@)));
    r
}

/// Whether each contract trait that is not a callback has at most one
/// implementation.
pub open spec fn imps_unique(traits: Seq<TraitDescView>, imps: Seq<ImpDesc>) -> bool {
    forall|i: int|
        0 <= i < traits.len() ==> !(#[trigger] traits[i]).is_callback ==> imps_for(
            imps,
            traits[i].name,
        ).len() <= 1
}

/// The contract traits that the bridge serves: each one that is not a
/// callback and has an implementation, with the position of that
/// implementation, in order.
pub open spec fn services(traits: Seq<TraitDescView>, imps: Seq<ImpDesc>) -> Seq<(int, int)>
    decreases traits.len(),
{
    if traits.len() == 0 {
        Seq::empty()
    } else {
        let prev = services(traits.drop_last(), imps);
        let t = traits.last();
        if !t.is_callback && imps_for(imps, t.name).len() == 1 {
            prev.push((traits.len() - 1, imps_for(imps, t.name)[0]))
        } else {
            prev
        }
    }
}

/// The contract traits of a module that the bridge serves, with their
/// implementations.
pub fn bridge_services(traits: &Vec<TraitDesc>, imps: &Vec<ImpDesc>) -> (r: Vec<(usize, usize)>)
    requires
        imps_unique(traits_view(traits@), imps@),
    ensures
        r@.map_values(|p: (usize, usize)| (p.0 as int, p.1 as int)) == services(
            traits_view(traits@),
            imps@,
        ),
        forall|q: int| 0 <= q < r@.len() ==> #[trigger] r@[q].0 < traits@.len() && r@[q].1 < imps@.len(),
{
    let ghost ts = traits_view(traits@);
    let mut r: Vec<(usize, usize)> = Vec::new();
    let n = traits.len();
    let mut i: usize = 0;
    while i < n
        invariant
            n == traits@.len(),
            i <= n,
            ts == traits_view(traits@),
            imps_unique(ts, imps@),
            r@.map_values(|p: (usize, usize)| (p.0 as int, p.1 as int)) == services(
                ts.take(i as int),
                imps@,
            ),
            forall|q: int| 0 <= q < r@.len() ==> #[trigger] r@[q].0 < traits@.len() && r@[q].1
                < imps@.len(),
        decreases n - i,
    {
        proof {
            assert(ts.take(i + 1).drop_last() =~= ts.take(i as int));
            assert(ts.take(i + 1).last() == traits@[i as int]@);
            assert(ts[i as int] == traits@[i as int]@);
            assert(!ts[i as int].is_callback ==> imps_for(imps@, ts[i as int].name).len() <= 1);
        }
        let t = &traits[i];
        let ghost before = r@.map_values(|p: (usize, usize)| (p.0 as int, p.1 as int));
        let ghost expected = if !ts[i as int].is_callback && imps_for(imps@, ts[i as int].name).len()
            == 1 {
            before.push((i as int, imps_for(imps@, ts[i as int].name)[0]))
        } else {
            before
        };
        assert(services(ts.take(i + 1), imps@) == expected);
        proof {
            lemma_imps_for_in_range(imps@, ts[i as int].name);
        }
        assert(t.is_callback == ts[i as int].is_callback);
        assert(t.name@ == ts[i as int].name);
        if !t.is_callback {
            match find_imp(t, imps) {
                Ok(k) => {
                    assert(imps_for(imps@, ts[i as int].name).len() == 1);
                    assert(k as int == imps_for(imps@, ts[i as int].name)[0]);
                    r.push((i, k));
                    assert(r@.map_values(|p: (usize, usize)| (p.0 as int, p.1 as int)) =~= before.push(
                        (i as int, k as int),
                    ));
                },
                Err(_) => {
                    assert(imps_for(imps@, ts[i as int].name).len() == 0);
                },
            }
        }
        assert(r@.map_values(|p: (usize, usize)| (p.0 as int, p.1 as int)) =~= expected);
        i = i + 1;
    }
    assert(ts.take(n as int) =~= ts);
    r
}

/// The `use` lines of the traits and implementations that the bridge
/// serves, the crate named as a Rust identifier (`-` as `_`); each trait
/// served puts its two lines before those of the traits before it.
pub open spec fn use_lines(krate: Seq<char>, traits: Seq<TraitDescView>, imps: Seq<ImpDesc>) -> Seq<
    Seq<char>,
>
    decreases traits.len(),
{
    if traits.len() == 0 {
        Seq::empty()
    } else {
        let prev = use_lines(krate, traits.drop_last(), imps);
        let t = traits.last();
        if !t.is_callback && imps_for(imps, t.name).len() == 1 {
            let k = replace_char(krate, '-', '_');
            seq![
                "use "@ + k + "::"@ + t.mod_path + "::*;"@,
                "use "@ + k + "::"@ + imps[imps_for(imps, t.name)[0]].mod_path@ + "::*;"@,
            ] + prev
        } else {
            prev
        }
    }
}

/// The `use` lines of a bridge file that the language's own lines follow.
pub fn quote_use_part(crate_name: &str, traits: &Vec<TraitDesc>, imps: &Vec<ImpDesc>) -> (r: Vec<
    String,
>)
    requires
        imps_unique(traits_view(traits@), imps@),
    ensures
        strings_view(r@) == use_lines(crate_name@, traits_view(traits@), imps@),
{
    let ghost ts = traits_view(traits@);
    let k = replace_chars(crate_name, '-', '_');
    let mut r: Vec<String> = Vec::new();
    let n = traits.len();
    let mut i: usize = 0;
    while i < n
        invariant
            n == traits@.len(),
            i <= n,
            ts == traits_view(traits@),
            imps_unique(ts, imps@),
            k@ == replace_char(crate_name@, '-', '_'),
            strings_view(r@) == use_lines(crate_name@, ts.take(i as int), imps@),
        decreases n - i,
    {
        proof {
            assert(ts.take(i + 1).drop_last() =~= ts.take(i as int));
            assert(ts.take(i + 1).last() == traits@[i as int]@);
            assert(ts[i as int] == traits@[i as int]@);
            assert(!ts[i as int].is_callback ==> imps_for(imps@, ts[i as int].name).len() <= 1);
        }
        let t = &traits[i];
        let ghost before = strings_view(r@);
        proof {
            lemma_imps_for_in_range(imps@, ts[i as int].name);
        }
        let ghost expected = if !ts[i as int].is_callback && imps_for(imps@, ts[i as int].name).len()
            == 1 {
            seq![
                "use "@ + k@ + "::"@ + ts[i as int].mod_path + "::*;"@,
                "use "@ + k@ + "::"@ + imps@[imps_for(imps@, ts[i as int].name)[0]].mod_path@ + "::*;"@,
            ] + before
        } else {
            before
        };
        assert(use_lines(crate_name@, ts.take(i + 1), imps@) == expected);
        proof {
            lemma_imps_for_in_range(imps@, ts[i as int].name);
        }
        if !t.is_callback {
            match find_imp(t, imps) {
                Ok(j) => {
                    proof {
                        lemma_imps_for_in_range(imps@, t.name@);
                    }
                    let mut l1 = cat3("use ", k.as_str(), "::");
                    l1.append(t.mod_path.as_str());
                    l1.append("::*;");
                    let mut l2 = cat3("use ", k.as_str(), "::");
                    l2.append(imps[j].mod_path.as_str());
                    l2.append("::*;");
                    let mut merged: Vec<String> = Vec::new();
                    merged.push(l1);
                    merged.push(l2);
                    let ghost head = strings_view(merged@);
                    let ghost prev = strings_view(r@);
                    push_lines(&mut merged, r);
                    r = merged;
                    assert(strings_view(r@) =~= head + prev);
                },
                Err(_) => {},
            }
        }
        assert(strings_view(r@) =~= expected);
        i = i + 1;
    }
    assert(ts.take(n as int) =~= ts);
    r
}

/// The variants of the callback enum: one per callback trait, in order,
/// holding the boxed callback.
pub open spec fn callback_items(traits: Seq<TraitDescView>) -> Seq<Seq<char>>
    decreases traits.len(),
{
    if traits.len() == 0 {
        Seq::empty()
    } else if traits.last().is_callback {
        callback_items(traits.drop_last()).push(
            traits.last().name + "(Box<dyn "@ + traits.last().name + ">)"@,
        )
    } else {
        callback_items(traits.drop_last())
    }
}

/// The enum of the module's callbacks.
pub open spec fn callback_enum_lines(traits: Seq<TraitDescView>) -> Seq<Seq<char>> {
    seq!["enum CallbackEnum {"@, join(callback_items(traits), ", "@), "}"@]
}

/// The callback enum of a module.
pub fn callback_enum(traits: &Vec<TraitDesc>) -> (r: Vec<String>)
    ensures
        strings_view(r@) == callback_enum_lines(traits_view(traits@)),
{
    let ghost ts = traits_view(traits@);
    let mut items: Vec<String> = Vec::new();
    let n = traits.len();
    let mut i: usize = 0;
    while i < n
        invariant
            n == traits@.len(),
            i <= n,
            ts == traits_view(traits@),
            strings_view(items@) == callback_items(ts.take(i as int)),
        decreases n - i,
    {
        proof {
            assert(ts.take(i + 1).drop_last() =~= ts.take(i as int));
            assert(ts.take(i + 1).last() == traits@[i as int]@);
        }
        let t = &traits[i];
        let ghost before = strings_view(items@);
        if t.is_callback {
            let mut item = cat2(t.name.as_str(), "(Box<dyn ");
            item.append(t.name.as_str());
            item.append(">)");
            let ghost iv = item@;
            items.push(item);
            assert(strings_view(items@) =~= before.push(iv));
        }
        i = i + 1;
    }
    assert(ts.take(n as int) =~= ts);
    let mut r: Vec<String> = Vec::new();
    r.push("enum CallbackEnum {".to_owned());
    r.push(join_strings(&items, ", "));
    r.push("}".to_owned());
    assert(strings_view(r@) =~= callback_enum_lines(ts));
    r
}

/// The line that calls the implementation of method `m` on `imp` with the
/// converted arguments.
pub open spec fn imp_call_line(imp: Seq<char>, m: MethodDescView) -> Seq<char> {
    "let result = "@ + imp + "::"@ + m.name + "("@ + join(
        Seq::new(m.args.len(), |i: int| "r_"@ + m.args[i].name),
        ", "@,
    ) + ");"@
}

/// The line that calls the implementation.
pub fn quote_method_imp_call(imp_name: &str, method: &MethodDesc) -> (r: String)
    ensures
        r@ == imp_call_line(imp_name@, method@),
{
    let mut names: Vec<String> = Vec::new();
    let n = method.args.len();
    let mut i: usize = 0;
    while i < n
        invariant
            n == method.args@.len(),
            i <= n,
            names@.len() == i,
            forall|k: int| 0 <= k < i ==> #[trigger] names@[k]@ == "r_"@ + method.args@[k].name@,
        decreases n - i,
    {
        names.push(cat2("r_", method.args[i].name.as_str()));
        i = i + 1;
    }
    assert(strings_view(names@) =~= Seq::new(
        method@.args.len(),
        |i: int| "r_"@ + method@.args[i].name,
    ));
    let joined = join_strings(&names, ", ");
    let mut r = cat3("let result = ", imp_name, "::");
    r.append(method.name.as_str());
    r.append("(");
    r.append(joined.as_str());
    r.append(");");
    r
}

/// The `extern "C"` function `f` that frees a Rust array of `ty` that C
/// was handed.
pub open spec fn free_array_lines(f: Seq<char>, ty: Seq<char>) -> Seq<Seq<char>> {
    seq![
        "#[no_mangle]"@,
        "pub extern \"C\" fn "@ + f + "(ptr: *mut "@ + ty + ", length: i32) {"@,
        "let catch_result = catch_unwind(AssertUnwindSafe(|| {"@,
        "let len: usize = length as usize;"@,
        "unsafe { Vec::from_raw_parts(ptr, len, len); }"@,
        "}));"@,
        "match catch_result {"@,
        "Ok(_) => {}"@,
        "Err(e) => { println!(\"catch_unwind of `rsbind free_rust` error: {:?}\", e); }"@,
        "};"@,
        "}"@,
    ]
}

/// The `#[repr(C)]` array struct `name` of elements `ty`.
pub open spec fn c_array_lines(name: Seq<char>, ty: Seq<char>) -> Seq<Seq<char>> {
    seq![
        "#[repr(C)]"@,
        "#[derive(Clone)]"@,
        "pub struct "@ + name + " {"@,
        "pub ptr: * const "@ + ty + ","@,
        "pub len: i32,"@,
        "pub free_ptr: extern \"C\" fn(*mut "@ + ty + ", i32),"@,
        "}"@,
    ]
}

/// The function that frees a C string handed out by Rust.
pub open spec fn free_str_lines() -> Seq<Seq<char>> {
    seq![
        "#[no_mangle]"@,
        "pub extern \"C\" fn free_str(ptr: *mut i8, length: i32) {"@,
        "let catch_result = catch_unwind(AssertUnwindSafe(|| unsafe {"@,
        "let slice = std::slice::from_raw_parts_mut(ptr as (*mut u8), length as usize);"@,
        "let cstr = CStr::from_bytes_with_nul_unchecked(slice);"@,
        "CString::from(cstr);"@,
        "}));"@,
        "match catch_result {"@,
        "Ok(_) => {}"@,
        "Err(e) => {"@,
        "println!(\"catch_unwind of `rsbind free_str` error: {:?}\", e);"@,
        "}"@,
        "};"@,
        "}"@,
    ]
}

/// The `common.rs` of a bridge crate: the C array
/// structs of 8, 16, 32 and 64-bit integers, a function that frees each
/// kind of array, and `free_str`.
pub open spec fn common_code_lines() -> Seq<Seq<char>> {
    seq![
        "use std::panic::*;"@,
        "use std::ffi::CString;"@,
        "use std::os::raw::c_char;"@,
        "use std::ffi::CStr;"@,
    ] + c_array_lines("CInt8Array"@, "i8"@) + c_array_lines("CInt16Array"@, "i16"@) + c_array_lines(
        "CInt32Array"@,
        "i32"@,
    ) + c_array_lines("CInt64Array"@, "i64"@) + free_array_lines("free_i8_array"@, "i8"@)
        + free_array_lines("free_i16_array"@, "i16"@) + free_array_lines("free_i32_array"@, "i32"@)
        + free_array_lines("free_i64_array"@, "i64"@) + free_str_lines()
}

/// The function that frees a Rust array.
pub fn quote_free_rust_array(fn_name: &str, ty: &str) -> (r: Vec<String>)
    ensures
        strings_view(r@) == free_array_lines(fn_name@, ty@),
{
    let mut r: Vec<String> = Vec::new();
    r.push("#[no_mangle]".to_owned());
    let mut l = cat3("pub extern \"C\" fn ", fn_name, "(ptr: *mut ");
    l.append(ty);
    l.append(", length: i32) {");
    r.push(l);
    r.push("let catch_result = catch_unwind(AssertUnwindSafe(|| {".to_owned());
    r.push("let len: usize = length as usize;".to_owned());
    r.push("unsafe { Vec::from_raw_parts(ptr, len, len); }".to_owned());
    r.push("}));".to_owned());
    r.push("match catch_result {".to_owned());
    r.push("Ok(_) => {}".to_owned());
    r.push("Err(e) => { println!(\"catch_unwind of `rsbind free_rust` error: {:?}\", e); }".to_owned());
    r.push("};".to_owned());
    r.push("}".to_owned());
    assert(strings_view(r@) =~= free_array_lines(fn_name@, ty@));
    r
}

/// The array struct `name` of elements `ty`.
fn c_array_struct(name: &str, ty: &str) -> (r: Vec<String>)
    ensures
        strings_view(r@) == c_array_lines(name@, ty@),
{
    let mut r: Vec<String> = Vec::new();
    r.push("#[repr(C)]".to_owned());
    r.push("#[derive(Clone)]".to_owned());
    r.push(cat3("pub struct ", name, " {"));
    r.push(cat3("pub ptr: * const ", ty, ","));
    r.push("pub len: i32,".to_owned());
    r.push(cat3("pub free_ptr: extern \"C\" fn(*mut ", ty, ", i32),"));
    r.push("}".to_owned());
    assert(strings_view(r@) =~= c_array_lines(name@, ty@));
    r
}

/// The `common.rs` of a bridge crate.
pub fn gen_common_code() -> (r: Vec<String>)
    ensures
        strings_view(r@) == common_code_lines(),
{
    let mut r: Vec<String> = Vec::new();
    r.push("use std::panic::*;".to_owned());
    r.push("use std::ffi::CString;".to_owned());
    r.push("use std::os::raw::c_char;".to_owned());
    r.push("use std::ffi::CStr;".to_owned());
    let ghost uses = strings_view(r@);
    push_lines(&mut r, c_array_struct("CInt8Array", "i8"));
    push_lines(&mut r, c_array_struct("CInt16Array", "i16"));
    push_lines(&mut r, c_array_struct("CInt32Array", "i32"));
    push_lines(&mut r, c_array_struct("CInt64Array", "i64"));
    push_lines(&mut r, quote_free_rust_array("free_i8_array", "i8"));
    push_lines(&mut r, quote_free_rust_array("free_i16_array", "i16"));
    push_lines(&mut r, quote_free_rust_array("free_i32_array", "i32"));
    push_lines(&mut r, quote_free_rust_array("free_i64_array", "i64"));
    let ghost before = strings_view(r@);
    let mut f: Vec<String> = Vec::new();
    f.push("#[no_mangle]".to_owned());
    f.push("pub extern \"C\" fn free_str(ptr: *mut i8, length: i32) {".to_owned());
    f.push("let catch_result = catch_unwind(AssertUnwindSafe(|| unsafe {".to_owned());
    f.push("let slice = std::slice::from_raw_parts_mut(ptr as (*mut u8), length as usize);".to_owned());
    f.push("let cstr = CStr::from_bytes_with_nul_unchecked(slice);".to_owned());
    f.push("CString::from(cstr);".to_owned());
    f.push("}));".to_owned());
    f.push("match catch_result {".to_owned());
    f.push("Ok(_) => {}".to_owned());
    f.push("Err(e) => {".to_owned());
    f.push("println!(\"catch_unwind of `rsbind free_str` error: {:?}\", e);".to_owned());
    f.push("}".to_owned());
    f.push("};".to_owned());
    f.push("}".to_owned());
    assert(strings_view(f@) =~= free_str_lines());
    push_lines(&mut r, f);
    assert(uses =~= seq![
        "use std::panic::*;"@,
        "use std::ffi::CString;"@,
        "use std::os::raw::c_char;"@,
        "use std::ffi::CStr;"@,
    ]);
    assert(strings_view(r@) =~= common_code_lines());
    r
}

/// Law: every module that the bridge crate declares has its file among
/// the files the generator writes, named `<module>.rs`, and `lib.rs` is
/// written too.
pub proof fn law_bridge_modules_have_files(lang: Seq<char>, mods: Seq<Seq<char>>)
    ensures
        forall|i: int|
            0 <= i < bridge_mods(lang, mods).len() ==> bridge_files(lang, mods).contains(
                #[trigger] bridge_mods(lang, mods)[i] + ".rs"@,
            ),
        bridge_files(lang, mods).contains("lib.rs"@),
{
    reveal_strlit("common");
    reveal_strlit(".rs");
    reveal_strlit("common.rs");
    let files = bridge_files(lang, mods);
    assert forall|i: int| 0 <= i < bridge_mods(lang, mods).len() implies files.contains(
        #[trigger] bridge_mods(lang, mods)[i] + ".rs"@,
    ) by {
        if i < mods.len() {
            assert(files[i] == bridge_mods(lang, mods)[i] + ".rs"@);
        } else {
            assert("common"@ + ".rs"@ =~= "common.rs"@);
            assert(files[mods.len() + 1int] == "common.rs"@);
        }
    }
    assert(files[mods.len() as int] == "lib.rs"@);
}

/// How many implementations of contract trait `name` `imps` holds.
pub fn count_imps(name: &str, imps: &Vec<ImpDesc>) -> (r: usize)
    ensures
        r as int == imps_for(imps@, name@).len(),
{
    let n = imps.len();
    let mut c: usize = 0;
    let mut i: usize = 0;
    while i < n
        invariant
            n == imps@.len(),
            i <= n,
            c <= i,
            c as int == imps_for(imps@.take(i as int), name@).len(),
        decreases n - i,
    {
        proof {
            assert(imps@.take(i + 1).drop_last() =~= imps@.take(i as int));
            assert(imps@.take(i + 1).last() == imps@[i as int]);
        }
        if crate::text::str_eq(imps[i].contract.as_str(), name) {
            c = c + 1;
        }
        i = i + 1;
    }
    assert(imps@.take(n as int) =~= imps@);
    c
}

/// Whether each contract trait that is not a callback has at most one
/// implementation (the generator stops otherwise).
pub fn imps_are_unique(traits: &Vec<TraitDesc>, imps: &Vec<ImpDesc>) -> (r: bool)
    ensures
        r == imps_unique(traits_view(traits@), imps@),
{
    let n = traits.len();
    let mut i: usize = 0;
    while i < n
        invariant
            n == traits@.len(),
            i <= n,
            forall|j: int|
                0 <= j < i ==> !(#[trigger] traits_view(traits@)[j]).is_callback ==> imps_for(
                    imps@,
                    traits_view(traits@)[j].name,
                ).len() <= 1,
        decreases n - i,
    {
        assert(traits_view(traits@)[i as int] == traits@[i as int]@);
        if !traits[i].is_callback && count_imps(traits[i].name.as_str(), imps) > 1 {
            return false;
        }
        i = i + 1;
    }
    true
}

/// The `mod.rs` of a bridge directory whose modules are `bridges` (the
/// bridge modules, then `sdk`): a `pub mod` line each, then `common`.
pub open spec fn bridge_dir_mod_lines(bridges: Seq<Seq<char>>) -> Seq<Seq<char>> {
    mod_lines(bridges + seq!["sdk"@]) + seq!["pub mod common;"@]
}

/// The `mod.rs` of a bridge directory.
pub fn gen_bridge_mod_code(bridges: &Vec<String>) -> (r: Vec<String>)
    ensures
        strings_view(r@) == bridge_dir_mod_lines(strings_view(bridges@)),
{
    let mut all = crate::text::clone_strings(bridges);
    let ghost b = strings_view(all@);
    all.push("sdk".to_owned());
    assert(strings_view(all@) =~= b + seq!["sdk"@]);
    let mut r = bridge_mod_lines(&all);
    let ghost m = strings_view(r@);
    r.push("pub mod common;".to_owned());
    assert(strings_view(r@) =~= m + seq!["pub mod common;"@]);
    r
}

/// The `mod.rs` above a bridge directory.
pub fn gen_mode_code() -> (r: Vec<String>)
    ensures
        strings_view(r@) == seq!["pub mod bridge;"@],
{
    one_line("pub mod bridge;".to_owned())
}

} // verus!
