//! One C bridge file: the `extern "C"` function of each method of every
//! contract trait that the bridge serves, then the module's callback enum
//! and the `#[repr(C)]` copy of each contract struct.

use vstd::prelude::*;

use crate::ast::desc::{args_view, structs_view, traits_view, ArgDesc, ArgDescView, ImpDesc, MethodDesc, MethodDescView, StructDesc, StructDescView, TraitDesc, TraitDescView};
use crate::ast::handler::{all_callbacks, key_index, keys_distinct, AstResult};
use crate::errors::RsbindError;
use crate::gen::bridge::{
    bridge_files, bridge_mod_lines, bridge_mod_names, bridge_mods, bridge_services, callback_enum,
    callback_enum_lines, common_code_lines, gen_common_code, imp_call_line, imps_unique, mod_lines,
    quote_method_imp_call, quote_use_part, services, use_lines,
};
use crate::gen::c_bridge::{
    c_arg_convert, c_common_use_lines, c_method_sig, c_return_lines, c_struct_lines,
    callbacks_known, plain_fields, quote_arg_convert, quote_common_use_part, quote_for_structures,
    quote_method_sig, quote_return_convert, type_debug, CArgConvert, CArgConvertView,
};
use crate::gen::swift::{cat2, cat3, push_lines};
use crate::text::strings_view;

verus! {

/// The message of an argument whose type the bridge refuses.
pub open spec fn unsupported_arg_message(a: ArgDescView) -> Seq<char> {
    "find unsupported type in arg, "@ + type_debug(a.ty)
}

/// The message of a callback argument: the C bridge converts arguments to
/// Rust values line by line, and a callback has no such conversion.
pub open spec fn callback_arg_message(a: ArgDescView) -> Seq<char> {
    "no C conversion for callback argument "@ + a.name
}

/// The lines that convert `args`, one argument after the other, or the
/// message of the first argument that has no conversion.
pub open spec fn c_args_lines(args: Seq<ArgDescView>) -> Result<Seq<Seq<char>>, Seq<char>>
    decreases args.len(),
{
    if args.len() == 0 {
        Ok(Seq::empty())
    } else {
        match c_args_lines(args.drop_last()) {
            Err(m) => Err(m),
            Ok(prev) => match c_arg_convert(args.last()) {
                Some(CArgConvertView::Lines(l)) => Ok(prev + l),
                Some(CArgConvertView::Callback) => Err(callback_arg_message(args.last())),
                None => Err(unsupported_arg_message(args.last())),
            },
        }
    }
}

/// Once a prefix of the arguments fails, every longer prefix fails with the
/// same message.
proof fn lemma_args_failure_stays(args: Seq<ArgDescView>, i: int, k: int)
    requires
        0 <= i <= k <= args.len(),
        c_args_lines(args.take(i)) is Err,
    ensures
        c_args_lines(args.take(k)) == c_args_lines(args.take(i)),
    decreases k - i,
{
    if k > i {
        lemma_args_failure_stays(args, i, k - 1);
        assert(args.take(k).drop_last() =~= args.take(k - 1));
    }
}

/// The lines that convert every argument into the Rust value `r_<name>`,
/// or the error of the first argument that has no conversion.
pub fn quote_args_convert(args: &Vec<ArgDesc>) -> (r: Result<Vec<String>, RsbindError>)
    ensures
        match c_args_lines(args_view(args@)) {
            Ok(l) => r matches Ok(v) && strings_view(v@) == l,
            Err(m) => r matches Err(RsbindError::GenerateError(e)) && e@ == m,
        },
{
    let ghost av = args_view(args@);
    let mut lines: Vec<String> = Vec::new();
    let n = args.len();
    let mut i: usize = 0;
    assert(av.take(0) =~= Seq::<ArgDescView>::empty());
    assert(strings_view(lines@) =~= Seq::<Seq<char>>::empty());
    assert(c_args_lines(av.take(0)) == Ok::<Seq<Seq<char>>, Seq<char>>(Seq::empty()));
    while i < n
        invariant
            n == args@.len(),
            i <= n,
            av == args_view(args@),
            c_args_lines(av.take(i as int)) == Ok::<Seq<Seq<char>>, Seq<char>>(strings_view(lines@)),
        decreases n - i,
    {
        proof {
            assert(av.take(i + 1).drop_last() =~= av.take(i as int));
            assert(av.take(i + 1).last() == args@[i as int]@);
        }
        let a = &args[i];
        match quote_arg_convert(a) {
            Ok(CArgConvert::Lines(l)) => {
                push_lines(&mut lines, l);
            },
            Ok(CArgConvert::Callback) => {
                let m = cat2("no C conversion for callback argument ", a.name.as_str());
                proof {
                    lemma_args_failure_stays(av, i + 1, n as int);
                    assert(av.take(n as int) =~= av);
                }
                return Err(RsbindError::GenerateError(m));
            },
            Err(e) => {
                proof {
                    lemma_args_failure_stays(av, i + 1, n as int);
                    assert(av.take(n as int) =~= av);
                }
                return Err(e);
            },
        }
        i = i + 1;
    }
    assert(av.take(n as int) =~= av);
    Ok(lines)
}

/// The `extern "C"` function of method `m` of contract trait `t`, served by
/// implementation `imp`: its signature, then in braces the argument
/// conversions, the call of the implementation and the conversion of its
/// result; or the message of the first argument that has no conversion.
pub open spec fn c_method_lines(
    t: TraitDescView,
    imp: Seq<char>,
    m: MethodDescView,
    cbs: Seq<TraitDescView>,
) -> Result<Seq<Seq<char>>, Seq<char>> {
    match c_args_lines(m.args) {
        Ok(a) => Ok(
            c_method_sig(t, m, cbs) + seq!["{"@] + a + seq![imp_call_line(imp, m)] + c_return_lines(
                m.return_type,
                "result"@,
            ) + seq!["}"@],
        ),
        Err(e) => Err(e),
    }
}

/// The bridge function of one method of a served trait. The generator
/// stops on a callback argument that names no callback; such inputs are
/// left out.
pub fn quote_for_one_trait_method(
    trait_desc: &TraitDesc,
    imp_name: &str,
    method: &MethodDesc,
    callbacks: &Vec<TraitDesc>,
) -> (r: Result<Vec<String>, RsbindError>)
    requires
        callbacks_known(method@.args, traits_view(callbacks@)),
    ensures
        match c_method_lines(trait_desc@, imp_name@, method@, traits_view(callbacks@)) {
            Ok(l) => r matches Ok(v) && strings_view(v@) == l,
            Err(m) => r matches Err(RsbindError::GenerateError(e)) && e@ == m,
        },
{
    let mut lines = quote_method_sig(trait_desc, method, callbacks);
    let args = match quote_args_convert(&method.args) {
        Ok(a) => a,
        Err(e) => {
            return Err(e);
        },
    };
    let ghost sig = strings_view(lines@);
    let ghost av = strings_view(args@);
    lines.push("{".to_owned());
    assert(strings_view(lines@) =~= sig + seq!["{"@]);
    push_lines(&mut lines, args);
    let call = quote_method_imp_call(imp_name, method);
    let ghost cv = call@;
    lines.push(call);
    assert(strings_view(lines@) =~= sig + seq!["{"@] + av + seq![cv]);
    let ret = quote_return_convert(&method.return_type, "result");
    let ghost rv = strings_view(ret@);
    push_lines(&mut lines, ret);
    lines.push("}".to_owned());
    proof {
        reveal_strlit("result");
    }
    assert(strings_view(lines@) =~= sig + seq!["{"@] + av + seq![cv] + rv + seq!["}"@]);
    Ok(lines)
}

/// Whether every callback argument of every method of `ms` names a
/// callback of `cbs`.
pub open spec fn methods_callbacks_known(ms: Seq<MethodDescView>, cbs: Seq<TraitDescView>) -> bool {
    forall|i: int| 0 <= i < ms.len() ==> callbacks_known(#[trigger] ms[i].args, cbs)
}

/// The bridge functions of the methods `ms` of contract trait `t`, one after
/// the other, or the message of the first method that fails.
pub open spec fn c_methods_lines(
    t: TraitDescView,
    imp: Seq<char>,
    ms: Seq<MethodDescView>,
    cbs: Seq<TraitDescView>,
) -> Result<Seq<Seq<char>>, Seq<char>>
    decreases ms.len(),
{
    if ms.len() == 0 {
        Ok(Seq::empty())
    } else {
        match c_methods_lines(t, imp, ms.drop_last(), cbs) {
            Err(m) => Err(m),
            Ok(prev) => match c_method_lines(t, imp, ms.last(), cbs) {
                Ok(l) => Ok(prev + l),
                Err(m) => Err(m),
            },
        }
    }
}

/// Once the methods of a prefix fail, every longer prefix fails with the
/// same message.
proof fn lemma_methods_failure_stays(
    t: TraitDescView,
    imp: Seq<char>,
    ms: Seq<MethodDescView>,
    cbs: Seq<TraitDescView>,
    i: int,
    k: int,
)
    requires
        0 <= i <= k <= ms.len(),
        c_methods_lines(t, imp, ms.take(i), cbs) is Err,
    ensures
        c_methods_lines(t, imp, ms.take(k), cbs) == c_methods_lines(t, imp, ms.take(i), cbs),
    decreases k - i,
{
    if k > i {
        lemma_methods_failure_stays(t, imp, ms, cbs, i, k - 1);
        assert(ms.take(k).drop_last() =~= ms.take(k - 1));
    }
}

/// The bridge functions of every method of contract trait `trait_desc`,
/// served by the implementation `imp_name`, or the error of the first
/// method that fails.
pub fn quote_for_one_trait(trait_desc: &TraitDesc, imp_name: &str, callbacks: &Vec<TraitDesc>) -> (r:
    Result<Vec<String>, RsbindError>)
    requires
        methods_callbacks_known(trait_desc@.methods, traits_view(callbacks@)),
    ensures
        match c_methods_lines(trait_desc@, imp_name@, trait_desc@.methods, traits_view(callbacks@)) {
            Ok(l) => r matches Ok(v) && strings_view(v@) == l,
            Err(m) => r matches Err(RsbindError::GenerateError(e)) && e@ == m,
        },
{
    let ghost t = trait_desc@;
    let ghost ms = trait_desc@.methods;
    let ghost cbs = traits_view(callbacks@);
    let mut lines: Vec<String> = Vec::new();
    let n = trait_desc.methods.len();
    let mut i: usize = 0;
    assert(ms.take(0) =~= Seq::<MethodDescView>::empty());
    assert(strings_view(lines@) =~= Seq::<Seq<char>>::empty());
    assert(c_methods_lines(t, imp_name@, ms.take(0), cbs) == Ok::<Seq<Seq<char>>, Seq<char>>(
        Seq::empty(),
    ));
    while i < n
        invariant
            n == trait_desc.methods@.len(),
            i <= n,
            t == trait_desc@,
            ms == t.methods,
            cbs == traits_view(callbacks@),
            methods_callbacks_known(ms, cbs),
            c_methods_lines(t, imp_name@, ms.take(i as int), cbs) == Ok::<
                Seq<Seq<char>>,
                Seq<char>,
            >(strings_view(lines@)),
        decreases n - i,
    {
        proof {
            assert(ms.take(i + 1).drop_last() =~= ms.take(i as int));
            assert(ms.take(i + 1).last() == trait_desc.methods@[i as int]@);
            assert(callbacks_known(ms[i as int].args, cbs));
        }
        let ghost before = strings_view(lines@);
        match quote_for_one_trait_method(trait_desc, imp_name, &trait_desc.methods[i], callbacks) {
            Ok(l) => {
                push_lines(&mut lines, l);
            },
            Err(e) => {
                proof {
                    lemma_methods_failure_stays(t, imp_name@, ms, cbs, i + 1, n as int);
                    assert(ms.take(n as int) =~= ms);
                }
                return Err(e);
            },
        }
        i = i + 1;
    }
    assert(ms.take(n as int) =~= ms);
    Ok(lines)
}

/// The bridge functions of the served traits `svcs` (each a trait position
/// and the position of its implementation), in order; a trait whose
/// functions fail contributes nothing, as the generator leaves out each
/// part that fails.
pub open spec fn c_served_lines(
    traits: Seq<TraitDescView>,
    imps: Seq<ImpDesc>,
    svcs: Seq<(int, int)>,
    cbs: Seq<TraitDescView>,
) -> Seq<Seq<char>>
    decreases svcs.len(),
{
    if svcs.len() == 0 {
        Seq::empty()
    } else {
        let p = svcs.last();
        let prev = c_served_lines(traits, imps, svcs.drop_last(), cbs);
        match c_methods_lines(traits[p.0], imps[p.1].name@, traits[p.0].methods, cbs) {
            Ok(l) => prev + l,
            Err(_) => prev,
        }
    }
}

/// The `#[repr(C)]` copies of the structs `structs`, one after the other.
pub open spec fn c_structs_lines(structs: Seq<StructDescView>) -> Seq<Seq<char>>
    decreases structs.len(),
{
    if structs.len() == 0 {
        Seq::empty()
    } else {
        c_structs_lines(structs.drop_last()) + c_struct_lines(structs.last())
    }
}

/// The C bridge file of a module whose contract traits are `traits` and
/// whose contract structs are `structs`: the `use` lines of the served
/// traits and their implementations, the common `use` lines, the bridge
/// functions of each served trait, the callback enum and the struct copies.
pub open spec fn c_file_lines(
    krate: Seq<char>,
    traits: Seq<TraitDescView>,
    structs: Seq<StructDescView>,
    imps: Seq<ImpDesc>,
    cbs: Seq<TraitDescView>,
) -> Seq<Seq<char>> {
    use_lines(krate, traits, imps) + c_common_use_lines() + c_served_lines(
        traits,
        imps,
        services(traits, imps),
        cbs,
    ) + callback_enum_lines(traits) + c_structs_lines(structs)
}

/// The C bridge file of one contract module of crate `crate_name`; the
/// callbacks of every module are `callbacks`. The generator stops on a
/// trait with several implementations, on a callback argument that names no
/// callback and on a struct field whose type is not one identifier; such
/// inputs are left out.
pub fn quote_one_bridge_file(
    crate_name: &str,
    traits: &Vec<TraitDesc>,
    structs: &Vec<StructDesc>,
    imps: &Vec<ImpDesc>,
    callbacks: &Vec<TraitDesc>,
) -> (r: Vec<String>)
    requires
        imps_unique(traits_view(traits@), imps@),
        forall|i: int|
            0 <= i < traits@.len() ==> methods_callbacks_known(
                #[trigger] traits@[i]@.methods,
                traits_view(callbacks@),
            ),
        forall|j: int| 0 <= j < structs@.len() ==> plain_fields(#[trigger] structs@[j]@),
    ensures
        strings_view(r@) == c_file_lines(
            crate_name@,
            traits_view(traits@),
            structs_view(structs@),
            imps@,
            traits_view(callbacks@),
        ),
{
    let ghost ts = traits_view(traits@);
    let ghost ss = structs_view(structs@);
    let ghost cbs = traits_view(callbacks@);
    let mut lines = quote_use_part(crate_name, traits, imps);
    push_lines(&mut lines, quote_common_use_part());
    let ghost head = strings_view(lines@);
    let svcs = bridge_services(traits, imps);
    let ghost sv = svcs@.map_values(|p: (usize, usize)| (p.0 as int, p.1 as int));
    let m = svcs.len();
    let mut k: usize = 0;
    assert(sv.take(0) =~= Seq::<(int, int)>::empty());
    assert(head =~= head + c_served_lines(ts, imps@, sv.take(0), cbs));
    while k < m
        invariant
            m == svcs@.len(),
            k <= m,
            ts == traits_view(traits@),
            cbs == traits_view(callbacks@),
            sv == svcs@.map_values(|p: (usize, usize)| (p.0 as int, p.1 as int)),
            forall|q: int| 0 <= q < svcs@.len() ==> #[trigger] svcs@[q].0 < traits@.len() && svcs@[q].1
                < imps@.len(),
            forall|i: int|
                0 <= i < traits@.len() ==> methods_callbacks_known(
                    #[trigger] traits@[i]@.methods,
                    traits_view(callbacks@),
                ),
            strings_view(lines@) == head + c_served_lines(ts, imps@, sv.take(k as int), cbs),
        decreases m - k,
    {
        let (ti, ii) = svcs[k];
        proof {
            assert(svcs@[k as int].0 < traits@.len() && svcs@[k as int].1 < imps@.len());
            assert(sv.take(k + 1).drop_last() =~= sv.take(k as int));
            assert(sv.take(k + 1).last() == (ti as int, ii as int));
            assert(ts[ti as int] == traits@[ti as int]@);
            assert(methods_callbacks_known(traits@[ti as int]@.methods, cbs));
        }
        let ghost before = strings_view(lines@);
        match quote_for_one_trait(&traits[ti], imps[ii].name.as_str(), callbacks) {
            Ok(l) => {
                let ghost lv = strings_view(l@);
                push_lines(&mut lines, l);
                assert(strings_view(lines@) =~= head + (c_served_lines(
                    ts,
                    imps@,
                    sv.take(k as int),
                    cbs,
                ) + lv));
            },
            Err(_) => {},
        }
        k = k + 1;
    }
    assert(sv.take(m as int) =~= sv);
    assert(sv == services(ts, imps@));
    let ghost served = strings_view(lines@);
    push_lines(&mut lines, callback_enum(traits));
    let ghost with_enum = strings_view(lines@);
    let n = structs.len();
    let mut j: usize = 0;
    assert(ss.take(0) =~= Seq::<StructDescView>::empty());
    assert(with_enum =~= with_enum + c_structs_lines(ss.take(0)));
    while j < n
        invariant
            n == structs@.len(),
            j <= n,
            ss == structs_view(structs@),
            forall|q: int| 0 <= q < structs@.len() ==> plain_fields(#[trigger] structs@[q]@),
            strings_view(lines@) == with_enum + c_structs_lines(ss.take(j as int)),
        decreases n - j,
    {
        proof {
            assert(ss.take(j + 1).drop_last() =~= ss.take(j as int));
            assert(ss.take(j + 1).last() == structs@[j as int]@);
            assert(plain_fields(structs@[j as int]@));
        }
        let l = quote_for_structures(&structs[j]);
        let ghost lv = strings_view(l@);
        push_lines(&mut lines, l);
        assert(strings_view(lines@) =~= with_enum + (c_structs_lines(ss.take(j as int)) + lv));
        j = j + 1;
    }
    assert(ss.take(n as int) =~= ss);
    assert(strings_view(lines@) =~= c_file_lines(crate_name@, ts, ss, imps@, cbs));
    lines
}

/// The names of the modules of the keyed entries `v`, in order.
pub open spec fn module_names<T>(v: Seq<(String, T)>) -> Seq<Seq<char>> {
    Seq::new(v.len(), |i: int| v[i].0@)
}

/// The contract structs of module `m`: those of its entry, or none.
pub open spec fn module_structs(structs: Seq<(String, Vec<StructDesc>)>, m: Seq<char>) -> Seq<
    StructDescView,
> {
    match key_index(structs, m) {
        Some(i) => structs_view(structs[i].1@),
        None => Seq::empty(),
    }
}

/// The files of a generated bridge crate as (file name, lines).
pub open spec fn files_view(files: Seq<(String, Vec<String>)>) -> Seq<(Seq<char>, Seq<Seq<char>>)> {
    Seq::new(files.len(), |i: int| (files[i].0@, strings_view(files[i].1@)))
}

/// The files of the C bridge crate of a contract: the bridge file of each
/// module with traits, in order, then `lib.rs`, which declares the bridge
/// modules and `common`, and `common.rs`.
pub open spec fn c_bridge_files(
    krate: Seq<char>,
    lang: Seq<char>,
    traits: Seq<(String, Vec<TraitDesc>)>,
    structs: Seq<(String, Vec<StructDesc>)>,
    imps: Seq<ImpDesc>,
) -> Seq<(Seq<char>, Seq<Seq<char>>)> {
    let mods = module_names(traits);
    let files = bridge_files(lang, mods);
    let cbs = traits_view(all_callbacks(traits));
    Seq::new(
        mods.len(),
        |i: int|
            (
                files[i],
                c_file_lines(
                    krate,
                    traits_view(traits[i].1@),
                    module_structs(structs, mods[i]),
                    imps,
                    cbs,
                ),
            ),
    ) + seq![
        (files[mods.len() as int], mod_lines(bridge_mods(lang, mods))),
        (files[mods.len() + 1int], common_code_lines()),
    ]
}

/// What the bridge crate generator asks of a parsed contract: at most one
/// implementation of each trait, every callback argument naming a callback
/// of some module, and struct fields that are one identifier each.
pub open spec fn c_bridge_ready(ast: AstResult) -> bool {
    let cbs = traits_view(all_callbacks(ast.traits@));
    &&& ast.wf()
    &&& forall|i: int|
        0 <= i < ast.traits@.len() ==> imps_unique(
            traits_view(#[trigger] ast.traits@[i].1@),
            ast.imps@,
        )
    &&& forall|i: int, k: int|
        0 <= i < ast.traits@.len() && 0 <= k < ast.traits@[i].1@.len() ==> methods_callbacks_known(
            #[trigger] ast.traits@[i].1@[k]@.methods,
            cbs,
        )
    &&& forall|i: int, j: int|
        0 <= i < ast.traits@.len() && 0 <= j < module_structs(ast.structs@, ast.traits@[i].0@).len()
            ==> plain_fields(#[trigger] module_structs(ast.structs@, ast.traits@[i].0@)[j])
}

/// With distinct module names, the entry that a lookup finds is the one
/// that `key_index` names.
proof fn lemma_found_entry(structs: Seq<(String, Vec<StructDesc>)>, m: Seq<char>, i: int)
    requires
        keys_distinct(structs),
        0 <= i < structs.len(),
        structs[i].0@ == m,
    ensures
        key_index(structs, m) == Some(i),
{
    assert(structs[i].0@ == m);
    let c = choose|c: int| 0 <= c < structs.len() && #[trigger] structs[c].0@ == m;
    assert(0 <= c < structs.len() && structs[c].0@ == m);
}

/// The files of the C bridge crate for language module prefix `lang` of
/// the contract `ast` of crate `crate_name`, each with its lines.
pub fn gen_c_bridge_files(crate_name: &str, lang: &str, ast: &AstResult) -> (r: Vec<(String, Vec<String>)>)
    requires
        c_bridge_ready(*ast),
    ensures
        files_view(r@) == c_bridge_files(crate_name@, lang@, ast.traits@, ast.structs@, ast.imps@),
{
    let ghost cbs = traits_view(all_callbacks(ast.traits@));
    let ghost mods = module_names(ast.traits@);
    let ghost expected = c_bridge_files(crate_name@, lang@, ast.traits@, ast.structs@, ast.imps@);
    let callbacks = ast.callbacks();
    let empty: Vec<StructDesc> = Vec::new();
    let mut names: Vec<String> = Vec::new();
    let mut r: Vec<(String, Vec<String>)> = Vec::new();
    let n = ast.traits.len();
    let mut i: usize = 0;
    while i < n
        invariant
            n == ast.traits@.len(),
            i <= n,
            c_bridge_ready(*ast),
            cbs == traits_view(all_callbacks(ast.traits@)),
            traits_view(callbacks@) == cbs,
            mods == module_names(ast.traits@),
            expected == c_bridge_files(crate_name@, lang@, ast.traits@, ast.structs@, ast.imps@),
            empty@.len() == 0,
            strings_view(names@) == mods.take(i as int),
            r@.len() == i,
            forall|q: int| 0 <= q < i ==> #[trigger] files_view(r@)[q] == expected[q],
        decreases n - i,
    {
        let entry = &ast.traits[i];
        let structs = match ast.structs_of(entry.0.as_str()) {
            Some(v) => v,
            None => &empty,
        };
        proof {
            match key_index(ast.structs@, entry.0@) {
                Some(c) => {
                    let w = choose|w: int|
                        0 <= w < ast.structs@.len() && ast.structs@[w].0@ == entry.0@
                            && *structs == ast.structs@[w].1;
                    lemma_found_entry(ast.structs@, entry.0@, w);
                },
                None => {
                    if exists|w: int| 0 <= w < ast.structs@.len() && #[trigger] ast.structs@[w].0@ == entry.0@ {
                        let w = choose|w: int| 0 <= w < ast.structs@.len() && #[trigger] ast.structs@[w].0@ == entry.0@;
                        lemma_found_entry(ast.structs@, entry.0@, w);
                    }
                },
            }
            assert(structs_view(structs@) =~= module_structs(ast.structs@, mods[i as int]));
            assert forall|j: int| 0 <= j < structs@.len() implies plain_fields(
                #[trigger] structs@[j]@,
            ) by {
                assert(structs_view(structs@)[j] == structs@[j]@);
                assert(plain_fields(module_structs(ast.structs@, ast.traits@[i as int].0@)[j]));
            }
            assert forall|k: int| 0 <= k < entry.1@.len() implies methods_callbacks_known(
                #[trigger] entry.1@[k]@.methods,
                traits_view(callbacks@),
            ) by {
                assert(methods_callbacks_known(ast.traits@[i as int].1@[k]@.methods, cbs));
            }
            assert(imps_unique(traits_view(ast.traits@[i as int].1@), ast.imps@));
        }
        let lines = quote_one_bridge_file(crate_name, &entry.1, structs, &ast.imps, &callbacks);
        let mut f = cat3(lang, "_", entry.0.as_str());
        f.append(".rs");
        let ghost fv = f@;
        let ghost before = r@;
        r.push((f, lines));
        let ghost names_before = strings_view(names@);
        let name = cat2("", entry.0.as_str());
        proof {
            reveal_strlit("");
            assert(name@ =~= entry.0@);
        }
        names.push(name);
        assert(strings_view(names@) =~= names_before.push(entry.0@));
        proof {
            assert(mods.take(i + 1) =~= mods.take(i as int).push(entry.0@));
            assert(bridge_files(lang@, mods)[i as int] == fv);
            assert(files_view(r@)[i as int] == expected[i as int]);
            assert forall|q: int| 0 <= q < i + 1 implies #[trigger] files_view(r@)[q] == expected[q] by {
                if q < i {
                    assert(r@[q] == before[q]);
                    assert(files_view(before)[q] == expected[q]);
                }
            }
        }
        i = i + 1;
    }
    assert(mods.take(n as int) =~= mods);
    let lib = bridge_mod_lines(&bridge_mod_names(lang, &names));
    let ghost body = r@;
    r.push(("lib.rs".to_owned(), lib));
    r.push(("common.rs".to_owned(), gen_common_code()));
    assert forall|q: int| 0 <= q < r@.len() implies #[trigger] files_view(r@)[q] == expected[q] by {
        if q < n {
            assert(r@[q] == body[q]);
            assert(files_view(body)[q] == expected[q]);
        }
    }
    assert(files_view(r@) =~= expected);
    r
}

} // verus!
