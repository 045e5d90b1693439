//! Parses Rust source that holds the contract of the ffi.
//!
//! The source is parsed by `syn` (see `syntax`); this module reads the
//! traits and structs out of the parsed items.

use vstd::prelude::*;

use crate::ast::desc::{
    args_view, methods_view, structs_view, traits_view, ArgDesc, ArgDescView, MethodDesc,
    MethodDescView, StructDesc, StructDescView, TraitDesc, TraitDescView,
};
use crate::ast::syntax::{
    parse_syntax, rust_syntax, ArgsModel, BoundModel, FieldModel, GenericModel, InputModel,
    ItemModel, OutputModel, SegmentModel, TraitItemModel, TypeModel,
};
use crate::ast::types::{base_type_of, type_of, AstBaseType, AstType, TypeView};
use crate::errors::{RsbindError, Step, StepView};
use crate::text::str_eq;

verus! {

/// Where the parsed source comes from.
pub struct ParseContext {
    pub crate_name: String,
    pub mod_name: String,
    pub mod_path: String,
}

pub struct ParseContextView {
    pub crate_name: Seq<char>,
    pub mod_name: Seq<char>,
    pub mod_path: Seq<char>,
}

impl View for ParseContext {
    type V = ParseContextView;

    open spec fn view(&self) -> ParseContextView {
        ParseContextView {
            crate_name: self.crate_name@,
            mod_name: self.mod_name@,
            mod_path: self.mod_path@,
        }
    }
}

/// The traits and structs found in one source.
pub struct Contract {
    pub traits: Vec<TraitDesc>,
    pub structs: Vec<StructDesc>,
}

pub struct ContractView {
    pub traits: Seq<TraitDescView>,
    pub structs: Seq<StructDescView>,
}

impl View for Contract {
    type V = ContractView;

    open spec fn view(&self) -> ContractView {
        ContractView { traits: traits_view(self.traits@), structs: structs_view(self.structs@) }
    }
}

/// The methods of a trait, and whether any of them takes `self`.
pub struct Methods {
    pub methods: Vec<MethodDesc>,
    pub is_callback: bool,
}

pub struct MethodsView {
    pub methods: Seq<MethodDescView>,
    pub is_callback: bool,
}

impl View for Methods {
    type V = MethodsView;

    open spec fn view(&self) -> MethodsView {
        MethodsView { methods: methods_view(self.methods@), is_callback: self.is_callback }
    }
}

/// The identifier of the last segment of a path.
pub open spec fn last_ident(segs: Seq<SegmentModel>) -> Seq<char> {
    segs.last().ident@
}

/// The type of `Vec<..>` written with path `segs`.
pub open spec fn vec_type(segs: Seq<SegmentModel>) -> StepView<TypeView> {
    if segs.len() == 0 {
        StepView::Abort("a type path without segments"@)
    } else {
        match segs.last().args {
            ArgsModel::Angle(args) => if args@.len() == 0 {
                StepView::Abort("a generic type without its type argument"@)
            } else {
                match args@[0] {
                    GenericModel::Type(TypeModel::Path(inner)) => if inner@.len() == 0 {
                        StepView::Abort("a type path without segments"@)
                    } else {
                        StepView::Done(
                            TypeView::Vec(base_type_of(last_ident(inner@), last_ident(inner@))),
                        )
                    },
                    _ => StepView::Done(TypeView::Void),
                }
            },
            _ => StepView::Done(TypeView::Void),
        }
    }
}

/// The callback type named by the bounds of `Box<dyn ..>`: the last trait
/// bound decides.
pub open spec fn bounds_type(bounds: Seq<BoundModel>) -> StepView<TypeView>
    decreases bounds.len(),
{
    if bounds.len() == 0 {
        StepView::Done(TypeView::Void)
    } else {
        match bounds_type(bounds.drop_last()) {
            StepView::Done(t) => match bounds.last() {
                BoundModel::Trait(idents) => if idents@.len() == 0 {
                    StepView::Abort("a trait bound without a path"@)
                } else {
                    StepView::Done(type_of("Box"@, idents@.last()@))
                },
                BoundModel::Other => StepView::Done(t),
            },
            other => other,
        }
    }
}

/// The type of `Box<..>` written with path `segs`.
pub open spec fn boxed_type(segs: Seq<SegmentModel>) -> StepView<TypeView> {
    if segs.len() == 0 {
        StepView::Abort("a type path without segments"@)
    } else {
        match segs.last().args {
            ArgsModel::Angle(args) => if args@.len() == 0 {
                StepView::Abort("a generic type without its type argument"@)
            } else {
                match args@[0] {
                    GenericModel::Type(TypeModel::Path(inner)) => if inner@.len() == 0 {
                        StepView::Abort("a type path without segments"@)
                    } else {
                        StepView::Done(type_of("Box"@, last_ident(inner@)))
                    },
                    GenericModel::Type(TypeModel::TraitObject { dyn_token, bounds }) => if dyn_token {
                        bounds_type(bounds@)
                    } else {
                        StepView::Done(TypeView::Void)
                    },
                    _ => StepView::Done(TypeView::Void),
                }
            },
            _ => StepView::Done(TypeView::Void),
        }
    }
}

/// The type of an argument or a field: `Box` and `Vec` paths are looked
/// into, other paths name a type, and other types are `Void`.
pub open spec fn value_type(ty: TypeModel) -> StepView<TypeView> {
    match ty {
        TypeModel::Path(segs) => if segs@.len() == 0 {
            StepView::Abort("a type path without segments"@)
        } else if last_ident(segs@) == "Box"@ {
            boxed_type(segs@)
        } else if last_ident(segs@) == "Vec"@ {
            vec_type(segs@)
        } else {
            StepView::Done(type_of(last_ident(segs@), last_ident(segs@)))
        },
        _ => StepView::Done(TypeView::Void),
    }
}

/// The return type of a method.
pub open spec fn return_type(out: OutputModel) -> StepView<TypeView> {
    match out {
        OutputModel::Default => StepView::Done(TypeView::Void),
        OutputModel::Type(TypeModel::Path(segs)) => if segs@.len() == 0 {
            StepView::Abort("a type path without segments"@)
        } else if last_ident(segs@) == "Vec"@ {
            vec_type(segs@)
        } else if last_ident(segs@) == "Box"@ {
            boxed_type(segs@)
        } else {
            StepView::Done(type_of(last_ident(segs@), last_ident(segs@)))
        },
        OutputModel::Type(_) => StepView::Fail("can't parse return type"@),
    }
}

/// The name of an argument pattern: the identifier, or empty.
pub open spec fn pat_name(pat: Option<String>) -> Seq<char> {
    match pat {
        Some(p) => p@,
        None => Seq::empty(),
    }
}

/// One typed argument of a method.
pub open spec fn arg_of(pat: Option<String>, ty: TypeModel) -> StepView<ArgDescView> {
    match value_type(ty) {
        StepView::Done(t) => StepView::Done(ArgDescView { name: pat_name(pat), ty: t }),
        StepView::Fail(m) => StepView::Fail(m),
        StepView::Abort(m) => StepView::Abort(m),
    }
}

/// What the inputs of a method give: its arguments, whether it has a
/// receiver, and whether that receiver takes `self` by value.
pub struct InputsView {
    pub args: Seq<ArgDescView>,
    pub receiver: bool,
    pub swallow_self: bool,
}

/// The inputs of a method, read in order.
pub open spec fn inputs_of(inputs: Seq<InputModel>) -> StepView<InputsView>
    decreases inputs.len(),
{
    if inputs.len() == 0 {
        StepView::Done(InputsView { args: Seq::empty(), receiver: false, swallow_self: false })
    } else {
        match inputs_of(inputs.drop_last()) {
            StepView::Done(acc) => match inputs.last() {
                InputModel::Receiver { by_ref } => StepView::Done(
                    InputsView { args: acc.args, receiver: true, swallow_self: !by_ref },
                ),
                InputModel::Typed { pat, ty } => match arg_of(pat, ty) {
                    StepView::Done(a) => StepView::Done(
                        InputsView {
                            args: acc.args.push(a),
                            receiver: acc.receiver,
                            swallow_self: acc.swallow_self,
                        },
                    ),
                    StepView::Fail(m) => StepView::Fail(m),
                    StepView::Abort(m) => StepView::Abort(m),
                },
            },
            other => other,
        }
    }
}

/// One method: its description and whether it has a receiver.
pub open spec fn method_of(
    name: String,
    inputs: Seq<InputModel>,
    output: OutputModel,
) -> StepView<(MethodDescView, bool)> {
    match return_type(output) {
        StepView::Done(ret) => match inputs_of(inputs) {
            StepView::Done(acc) => StepView::Done(
                (
                    MethodDescView {
                        name: name@,
                        return_type: ret,
                        args: acc.args,
                        swallow_self: acc.swallow_self,
                    },
                    acc.receiver,
                ),
            ),
            StepView::Fail(m) => StepView::Fail(m),
            StepView::Abort(m) => StepView::Abort(m),
        },
        StepView::Fail(m) => StepView::Fail(m),
        StepView::Abort(m) => StepView::Abort(m),
    }
}

/// The methods among the items of a trait, read in order.
pub open spec fn methods_of(items: Seq<TraitItemModel>) -> StepView<MethodsView>
    decreases items.len(),
{
    if items.len() == 0 {
        StepView::Done(MethodsView { methods: Seq::empty(), is_callback: false })
    } else {
        match methods_of(items.drop_last()) {
            StepView::Done(acc) => match items.last() {
                TraitItemModel::Method { name, inputs, output } => match method_of(
                    name,
                    inputs@,
                    output,
                ) {
                    StepView::Done((m, receiver)) => StepView::Done(
                        MethodsView {
                            methods: acc.methods.push(m),
                            is_callback: acc.is_callback || receiver,
                        },
                    ),
                    StepView::Fail(msg) => StepView::Fail(msg),
                    StepView::Abort(m) => StepView::Abort(m),
                },
                TraitItemModel::Other => StepView::Done(acc),
            },
            other => other,
        }
    }
}

/// `parse_methods`: the methods of a trait; a trait must have one.
pub open spec fn trait_methods(items: Seq<TraitItemModel>) -> StepView<MethodsView> {
    match methods_of(items) {
        StepView::Done(acc) => if acc.methods.len() == 0 {
            StepView::Fail("Can't parse methods."@)
        } else {
            StepView::Done(acc)
        },
        other => other,
    }
}

/// Whether the supertraits name `Send` and `Sync`, read in order.
pub open spec fn supertraits_of(bounds: Seq<BoundModel>) -> StepView<(bool, bool)>
    decreases bounds.len(),
{
    if bounds.len() == 0 {
        StepView::Done((false, false))
    } else {
        match supertraits_of(bounds.drop_last()) {
            StepView::Done((send, sync)) => match bounds.last() {
                BoundModel::Trait(idents) => if idents@.len() == 0 {
                    StepView::Abort("a trait bound without a path"@)
                } else {
                    StepView::Done(
                        (send || idents@.last()@ == "Send"@, sync || idents@.last()@ == "Sync"@),
                    )
                },
                BoundModel::Other => StepView::Done((send, sync)),
            },
            other => other,
        }
    }
}

/// The message the tool stops with on contract trait `name` that does not
/// derive both `Send` and `Sync`.
pub open spec fn send_sync_message(name: Seq<char>) -> Seq<char> {
    "Please derive 'Sync' and 'Send' for your trait '"@ + name + "', Like: trait "@ + name
        + " : Send + Sync { .. }"@
}

/// One trait of the contract. A trait that does not derive both `Send` and
/// `Sync` stops the tool.
pub open spec fn trait_of(
    ctx: ParseContextView,
    name: String,
    supertraits: Seq<BoundModel>,
    items: Seq<TraitItemModel>,
) -> StepView<TraitDescView> {
    match supertraits_of(supertraits) {
        StepView::Done((send, sync)) => if !send || !sync {
            StepView::Abort(send_sync_message(name@))
        } else {
            match trait_methods(items) {
                StepView::Done(ms) => StepView::Done(
                    TraitDescView {
                        name: name@,
                        ty: "trait"@,
                        mod_name: ctx.mod_name,
                        mod_path: ctx.mod_path,
                        crate_name: ctx.crate_name,
                        is_callback: ms.is_callback,
                        methods: ms.methods,
                    },
                ),
                StepView::Fail(m) => StepView::Fail(m),
                StepView::Abort(m) => StepView::Abort(m),
            }
        },
        StepView::Fail(m) => StepView::Fail(m),
        StepView::Abort(m) => StepView::Abort(m),
    }
}

/// The name of a field: its identifier, or empty for a tuple field.
pub open spec fn field_name(ident: Option<String>) -> Seq<char> {
    match ident {
        Some(i) => i@,
        None => Seq::empty(),
    }
}

/// The fields of a struct, read in order.
pub open spec fn fields_of(fields: Seq<FieldModel>) -> StepView<Seq<ArgDescView>>
    decreases fields.len(),
{
    if fields.len() == 0 {
        StepView::Done(Seq::empty())
    } else {
        match fields_of(fields.drop_last()) {
            StepView::Done(acc) => match value_type(fields.last().ty) {
                StepView::Done(t) => StepView::Done(
                    acc.push(ArgDescView { name: field_name(fields.last().ident), ty: t }),
                ),
                StepView::Fail(m) => StepView::Fail(m),
                StepView::Abort(m) => StepView::Abort(m),
            },
            other => other,
        }
    }
}

/// One struct of the contract.
pub open spec fn struct_of(
    ctx: ParseContextView,
    name: String,
    fields: Seq<FieldModel>,
) -> StepView<StructDescView> {
    match fields_of(fields) {
        StepView::Done(fs) => StepView::Done(
            StructDescView {
                name: name@,
                ty: "struct"@,
                mod_name: ctx.mod_name,
                mod_path: ctx.mod_path,
                crate_name: ctx.crate_name,
                fields: fs,
            },
        ),
        StepView::Fail(m) => StepView::Fail(m),
        StepView::Abort(m) => StepView::Abort(m),
    }
}

/// The traits and structs among the items of a file, read in order.
pub open spec fn items_of(ctx: ParseContextView, items: Seq<ItemModel>) -> StepView<ContractView>
    decreases items.len(),
{
    if items.len() == 0 {
        StepView::Done(ContractView { traits: Seq::empty(), structs: Seq::empty() })
    } else {
        match items_of(ctx, items.drop_last()) {
            StepView::Done(acc) => match items.last() {
                ItemModel::Trait { name, supertraits, items: titems } => match trait_of(
                    ctx,
                    name,
                    supertraits@,
                    titems@,
                ) {
                    StepView::Done(t) => StepView::Done(
                        ContractView { traits: acc.traits.push(t), structs: acc.structs },
                    ),
                    StepView::Fail(m) => StepView::Fail(m),
                    StepView::Abort(m) => StepView::Abort(m),
                },
                ItemModel::Struct { name, fields } => match struct_of(ctx, name, fields@) {
                    StepView::Done(s) => StepView::Done(
                        ContractView { traits: acc.traits, structs: acc.structs.push(s) },
                    ),
                    StepView::Fail(m) => StepView::Fail(m),
                    StepView::Abort(m) => StepView::Abort(m),
                },
                ItemModel::Impl { .. } => StepView::Done(acc),
                ItemModel::Other => StepView::Done(acc),
            },
            other => other,
        }
    }
}

/// The contract of a parsed file: a file must hold a trait or a struct.
pub open spec fn contract_of(ctx: ParseContextView, items: Seq<ItemModel>) -> StepView<ContractView> {
    match items_of(ctx, items) {
        StepView::Done(c) => if c.traits.len() == 0 && c.structs.len() == 0 {
            StepView::Fail("Can't find invalid trait and struct."@)
        } else {
            StepView::Done(c)
        },
        other => other,
    }
}

/// The contract read from source text `src`: a syntax error fails with
/// `syn`'s message.
pub open spec fn source_contract(ctx: ParseContextView, src: Seq<char>) -> StepView<ContractView> {
    match rust_syntax(src) {
        Ok(items) => contract_of(ctx, items@),
        Err(e) => StepView::Fail(e@),
    }
}

/// Once reading the first `k` bounds stops, reading them all stops the same way.
proof fn lemma_bounds_stuck(s: Seq<BoundModel>, k: int)
    requires
        0 <= k <= s.len(),
        !(bounds_type(s.take(k)) is Done),
    ensures
        bounds_type(s) == bounds_type(s.take(k)),
    decreases s.len() - k,
{
    if k < s.len() {
        assert(s.take(k + 1).drop_last() =~= s.take(k));
        lemma_bounds_stuck(s, k + 1);
    } else {
        assert(s.take(k) =~= s);
    }
}

/// Once reading the first `k` inputs stops, reading them all stops the same way.
proof fn lemma_inputs_stuck(s: Seq<InputModel>, k: int)
    requires
        0 <= k <= s.len(),
        !(inputs_of(s.take(k)) is Done),
    ensures
        inputs_of(s) == inputs_of(s.take(k)),
    decreases s.len() - k,
{
    if k < s.len() {
        assert(s.take(k + 1).drop_last() =~= s.take(k));
        lemma_inputs_stuck(s, k + 1);
    } else {
        assert(s.take(k) =~= s);
    }
}

/// Once reading the first `k` trait items stops, reading them all stops the same way.
proof fn lemma_methods_stuck(s: Seq<TraitItemModel>, k: int)
    requires
        0 <= k <= s.len(),
        !(methods_of(s.take(k)) is Done),
    ensures
        methods_of(s) == methods_of(s.take(k)),
    decreases s.len() - k,
{
    if k < s.len() {
        assert(s.take(k + 1).drop_last() =~= s.take(k));
        lemma_methods_stuck(s, k + 1);
    } else {
        assert(s.take(k) =~= s);
    }
}

/// Once reading the first `k` supertraits stops, reading them all stops the same way.
proof fn lemma_supertraits_stuck(s: Seq<BoundModel>, k: int)
    requires
        0 <= k <= s.len(),
        !(supertraits_of(s.take(k)) is Done),
    ensures
        supertraits_of(s) == supertraits_of(s.take(k)),
    decreases s.len() - k,
{
    if k < s.len() {
        assert(s.take(k + 1).drop_last() =~= s.take(k));
        lemma_supertraits_stuck(s, k + 1);
    } else {
        assert(s.take(k) =~= s);
    }
}

/// Once reading the first `k` fields stops, reading them all stops the same way.
proof fn lemma_fields_stuck(s: Seq<FieldModel>, k: int)
    requires
        0 <= k <= s.len(),
        !(fields_of(s.take(k)) is Done),
    ensures
        fields_of(s) == fields_of(s.take(k)),
    decreases s.len() - k,
{
    if k < s.len() {
        assert(s.take(k + 1).drop_last() =~= s.take(k));
        lemma_fields_stuck(s, k + 1);
    } else {
        assert(s.take(k) =~= s);
    }
}

/// Once reading the first `k` items stops, reading them all stops the same way.
proof fn lemma_items_stuck(ctx: ParseContextView, s: Seq<ItemModel>, k: int)
    requires
        0 <= k <= s.len(),
        !(items_of(ctx, s.take(k)) is Done),
    ensures
        items_of(ctx, s) == items_of(ctx, s.take(k)),
    decreases s.len() - k,
{
    if k < s.len() {
        assert(s.take(k + 1).drop_last() =~= s.take(k));
        lemma_items_stuck(ctx, s, k + 1);
    } else {
        assert(s.take(k) =~= s);
    }
}

/// The identifier of the last segment of a non-empty path.
fn parse_ident_in_path(segs: &Vec<SegmentModel>) -> (r: String)
    requires
        segs@.len() > 0,
    ensures
        r@ == last_ident(segs@),
{
    segs[segs.len() - 1].ident.clone()
}

/// The type of a `Vec<..>` path.
fn parse_vec_ast(ctx: &ParseContext, segs: &Vec<SegmentModel>) -> (r: Step<AstType>)
    ensures
        r@ == vec_type(segs@),
{
    if segs.len() == 0 {
        return Step::Abort("a type path without segments".to_owned());
    }
    match &segs[segs.len() - 1].args {
        ArgsModel::Angle(args) => {
            if args.len() == 0 {
                return Step::Abort("a generic type without its type argument".to_owned());
            }
            match &args[0] {
                GenericModel::Type(TypeModel::Path(inner)) => {
                    if inner.len() == 0 {
                        return Step::Abort("a type path without segments".to_owned());
                    }
                    let ident = parse_ident_in_path(inner);
                    Step::Done(AstType::Vec(AstBaseType::new(ident.as_str(), ident.as_str(), ctx)))
                },
                _ => Step::Done(AstType::Void),
            }
        },
        _ => Step::Done(AstType::Void),
    }
}

/// The callback type named by the bounds of a `Box<dyn ..>`.
fn parse_bounds(ctx: &ParseContext, bounds: &Vec<BoundModel>) -> (r: Step<AstType>)
    ensures
        r@ == bounds_type(bounds@),
{
    let mut ty = AstType::Void;
    let n = bounds.len();
    let mut i: usize = 0;
    while i < n
        invariant
            n == bounds@.len(),
            i <= n,
            bounds_type(bounds@.take(i as int)) == StepView::Done(ty@),
        decreases n - i,
    {
        proof {
            assert(bounds@.take(i + 1).drop_last() =~= bounds@.take(i as int));
            assert(bounds@.take(i + 1).last() == bounds@[i as int]);
        }
        match &bounds[i] {
            BoundModel::Trait(idents) => {
                if idents.len() == 0 {
                    proof {
                        lemma_bounds_stuck(bounds@, i + 1);
                    }
                    return Step::Abort("a trait bound without a path".to_owned());
                }
                ty = AstType::new("Box", idents[idents.len() - 1].as_str(), ctx);
            },
            BoundModel::Other => {},
        }
        i = i + 1;
    }
    assert(bounds@.take(n as int) =~= bounds@);
    Step::Done(ty)
}

/// The type of a `Box<..>` path.
fn parse_boxed_ast(ctx: &ParseContext, segs: &Vec<SegmentModel>) -> (r: Step<AstType>)
    ensures
        r@ == boxed_type(segs@),
{
    if segs.len() == 0 {
        return Step::Abort("a type path without segments".to_owned());
    }
    match &segs[segs.len() - 1].args {
        ArgsModel::Angle(args) => {
            if args.len() == 0 {
                return Step::Abort("a generic type without its type argument".to_owned());
            }
            match &args[0] {
                GenericModel::Type(TypeModel::Path(inner)) => {
                    if inner.len() == 0 {
                        return Step::Abort("a type path without segments".to_owned());
                    }
                    let ident = parse_ident_in_path(inner);
                    Step::Done(AstType::new("Box", ident.as_str(), ctx))
                },
                GenericModel::Type(TypeModel::TraitObject { dyn_token, bounds }) => {
                    if *dyn_token {
                        parse_bounds(ctx, bounds)
                    } else {
                        Step::Done(AstType::Void)
                    }
                },
                _ => Step::Done(AstType::Void),
            }
        },
        _ => Step::Done(AstType::Void),
    }
}

/// The type of an argument or a field.
fn parse_value_type(ctx: &ParseContext, ty: &TypeModel) -> (r: Step<AstType>)
    ensures
        r@ == value_type(*ty),
{
    match ty {
        TypeModel::Path(segs) => {
            if segs.len() == 0 {
                return Step::Abort("a type path without segments".to_owned());
            }
            let ident = parse_ident_in_path(segs);
            if str_eq(ident.as_str(), "Box") {
                parse_boxed_ast(ctx, segs)
            } else if str_eq(ident.as_str(), "Vec") {
                parse_vec_ast(ctx, segs)
            } else {
                Step::Done(AstType::new(ident.as_str(), ident.as_str(), ctx))
            }
        },
        _ => Step::Done(AstType::Void),
    }
}

/// The return type of a method.
fn parse_return_type(ctx: &ParseContext, output: &OutputModel) -> (r: Step<AstType>)
    ensures
        r@ == return_type(*output),
{
    match output {
        OutputModel::Default => Step::Done(AstType::Void),
        OutputModel::Type(TypeModel::Path(segs)) => {
            if segs.len() == 0 {
                return Step::Abort("a type path without segments".to_owned());
            }
            let ident = parse_ident_in_path(segs);
            if str_eq(ident.as_str(), "Vec") {
                parse_vec_ast(ctx, segs)
            } else if str_eq(ident.as_str(), "Box") {
                parse_boxed_ast(ctx, segs)
            } else {
                Step::Done(AstType::new(ident.as_str(), ident.as_str(), ctx))
            }
        },
        OutputModel::Type(_) => Step::Fail("can't parse return type".to_owned()),
    }
}

/// One typed argument of a method.
fn parse_one_arg(ctx: &ParseContext, pat: &Option<String>, ty: &TypeModel) -> (r: Step<ArgDesc>)
    ensures
        r@ == arg_of(*pat, *ty),
{
    let name = match pat {
        Some(p) => p.clone(),
        None => String::new(),
    };
    match parse_value_type(ctx, ty) {
        Step::Done(t) => Step::Done(ArgDesc { name, ty: t }),
        Step::Fail(m) => Step::Fail(m),
        Step::Abort(m) => Step::Abort(m),
    }
}

/// One method of a trait, with whether it has a receiver.
fn parse_method(
    ctx: &ParseContext,
    name: &String,
    inputs: &Vec<InputModel>,
    output: &OutputModel,
) -> (r: Step<(MethodDesc, bool)>)
    ensures
        match (r, method_of(*name, inputs@, *output)) {
            (Step::Done((m, rc)), StepView::Done((mv, rcv))) => m@ == mv && rc == rcv,
            (Step::Fail(msg), StepView::Fail(mv)) => msg@ == mv,
            (Step::Abort(a), StepView::Abort(b)) => a@ == b,
            _ => false,
        },
{
    let ret = match parse_return_type(ctx, output) {
        Step::Done(t) => t,
        Step::Fail(m) => return Step::Fail(m),
        Step::Abort(m) => return Step::Abort(m),
    };
    let mut args: Vec<ArgDesc> = Vec::new();
    let mut receiver = false;
    let mut swallow_self = false;
    let n = inputs.len();
    let mut i: usize = 0;
    assert(args_view(args@) =~= Seq::<ArgDescView>::empty());
    assert(inputs@.take(0) =~= Seq::<InputModel>::empty());
    while i < n
        invariant
            n == inputs@.len(),
            i <= n,
            return_type(*output) == StepView::Done(ret@),
            inputs_of(inputs@.take(i as int)) == StepView::Done(
                InputsView { args: args_view(args@), receiver, swallow_self },
            ),
        decreases n - i,
    {
        proof {
            assert(inputs@.take(i + 1).drop_last() =~= inputs@.take(i as int));
            assert(inputs@.take(i + 1).last() == inputs@[i as int]);
        }
        match &inputs[i] {
            InputModel::Receiver { by_ref } => {
                swallow_self = !*by_ref;
                receiver = true;
            },
            InputModel::Typed { pat, ty } => {
                match parse_one_arg(ctx, pat, ty) {
                    Step::Done(a) => {
                        let ghost old_args = args@;
                        args.push(a);
                        assert(args_view(args@) =~= args_view(old_args).push(a@));
                    },
                    Step::Fail(m) => {
                        proof {
                            lemma_inputs_stuck(inputs@, i + 1);
                        }
                        return Step::Fail(m);
                    },
                    Step::Abort(m) => {
                        proof {
                            lemma_inputs_stuck(inputs@, i + 1);
                        }
                        return Step::Abort(m);
                    },
                }
            },
        }
        i = i + 1;
    }
    assert(inputs@.take(n as int) =~= inputs@);
    Step::Done((MethodDesc { name: name.clone(), return_type: ret, args, swallow_self }, receiver))
}

/// `parse_methods`: the methods of a trait, and whether any takes `self`.
fn parse_methods(ctx: &ParseContext, items: &Vec<TraitItemModel>) -> (r: Step<Methods>)
    ensures
        r@ == trait_methods(items@),
{
    let mut methods: Vec<MethodDesc> = Vec::new();
    let mut is_callback = false;
    let n = items.len();
    let mut i: usize = 0;
    assert(methods_view(methods@) =~= Seq::<MethodDescView>::empty());
    assert(items@.take(0) =~= Seq::<TraitItemModel>::empty());
    while i < n
        invariant
            n == items@.len(),
            i <= n,
            methods_of(items@.take(i as int)) == StepView::Done(
                MethodsView { methods: methods_view(methods@), is_callback },
            ),
        decreases n - i,
    {
        proof {
            assert(items@.take(i + 1).drop_last() =~= items@.take(i as int));
            assert(items@.take(i + 1).last() == items@[i as int]);
        }
        match &items[i] {
            TraitItemModel::Method { name, inputs, output } => {
                match parse_method(ctx, name, inputs, output) {
                    Step::Done((m, receiver)) => {
                        let ghost old_methods = methods@;
                        methods.push(m);
                        assert(methods_view(methods@) =~= methods_view(old_methods).push(m@));
                        is_callback = is_callback || receiver;
                    },
                    Step::Fail(msg) => {
                        proof {
                            lemma_methods_stuck(items@, i + 1);
                        }
                        return Step::Fail(msg);
                    },
                    Step::Abort(m) => {
                        proof {
                            lemma_methods_stuck(items@, i + 1);
                        }
                        return Step::Abort(m);
                    },
                }
            },
            TraitItemModel::Other => {},
        }
        i = i + 1;
    }
    assert(items@.take(n as int) =~= items@);
    if methods.len() == 0 {
        return Step::Fail("Can't parse methods.".to_owned());
    }
    Step::Done(Methods { methods, is_callback })
}

/// Whether the supertraits name `Send` and `Sync`.
fn parse_supertraits(bounds: &Vec<BoundModel>) -> (r: Step<(bool, bool)>)
    ensures
        r@ == supertraits_of(bounds@),
{
    let mut send = false;
    let mut sync = false;
    let n = bounds.len();
    let mut i: usize = 0;
    while i < n
        invariant
            n == bounds@.len(),
            i <= n,
            supertraits_of(bounds@.take(i as int)) == StepView::Done((send, sync)),
        decreases n - i,
    {
        proof {
            assert(bounds@.take(i + 1).drop_last() =~= bounds@.take(i as int));
            assert(bounds@.take(i + 1).last() == bounds@[i as int]);
        }
        match &bounds[i] {
            BoundModel::Trait(idents) => {
                if idents.len() == 0 {
                    proof {
                        lemma_supertraits_stuck(bounds@, i + 1);
                    }
                    return Step::Abort("a trait bound without a path".to_owned());
                }
                let ident = idents[idents.len() - 1].as_str();
                if str_eq(ident, "Send") {
                    send = true;
                }
                if str_eq(ident, "Sync") {
                    sync = true;
                }
            },
            BoundModel::Other => {},
        }
        i = i + 1;
    }
    assert(bounds@.take(n as int) =~= bounds@);
    Step::Done((send, sync))
}

/// The message the tool stops with on a trait without `Send` and `Sync`.
fn send_sync_message_of(name: &String) -> (r: String)
    ensures
        r@ == send_sync_message(name@),
{
    let mut r = "Please derive 'Sync' and 'Send' for your trait '".to_owned();
    r.append(name.as_str());
    r.append("', Like: trait ");
    r.append(name.as_str());
    r.append(" : Send + Sync { .. }");
    r
}

/// One trait of the contract.
fn parse_trait(
    ctx: &ParseContext,
    name: &String,
    supertraits: &Vec<BoundModel>,
    items: &Vec<TraitItemModel>,
) -> (r: Step<TraitDesc>)
    ensures
        r@ == trait_of(ctx@, *name, supertraits@, items@),
{
    match parse_supertraits(supertraits) {
        Step::Done((send, sync)) => {
            if !send || !sync {
                // A contract trait must derive `Send` and `Sync`; the tool stops here.
                return Step::Abort(send_sync_message_of(name));
            }
        },
        Step::Fail(m) => return Step::Fail(m),
        Step::Abort(m) => return Step::Abort(m),
    }
    match parse_methods(ctx, items) {
        Step::Done(ms) => Step::Done(
            TraitDesc {
                name: name.clone(),
                ty: "trait".to_owned(),
                mod_name: ctx.mod_name.clone(),
                mod_path: ctx.mod_path.clone(),
                crate_name: ctx.crate_name.clone(),
                is_callback: ms.is_callback,
                methods: ms.methods,
            },
        ),
        Step::Fail(m) => Step::Fail(m),
        Step::Abort(m) => Step::Abort(m),
    }
}

/// One struct of the contract.
fn parse_struct(ctx: &ParseContext, name: &String, fields: &Vec<FieldModel>) -> (r: Step<
    StructDesc,
>)
    ensures
        r@ == struct_of(ctx@, *name, fields@),
{
    let mut descs: Vec<ArgDesc> = Vec::new();
    let n = fields.len();
    let mut i: usize = 0;
    assert(args_view(descs@) =~= Seq::<ArgDescView>::empty());
    assert(fields@.take(0) =~= Seq::<FieldModel>::empty());
    while i < n
        invariant
            n == fields@.len(),
            i <= n,
            fields_of(fields@.take(i as int)) == StepView::Done(args_view(descs@)),
        decreases n - i,
    {
        proof {
            assert(fields@.take(i + 1).drop_last() =~= fields@.take(i as int));
            assert(fields@.take(i + 1).last() == fields@[i as int]);
        }
        let field = &fields[i];
        let field_name = match &field.ident {
            Some(v) => v.clone(),
            None => String::new(),
        };
        match parse_value_type(ctx, &field.ty) {
            Step::Done(t) => {
                let ghost old_descs = descs@;
                let d = ArgDesc { name: field_name, ty: t };
                descs.push(d);
                assert(args_view(descs@) =~= args_view(old_descs).push(d@));
            },
            Step::Fail(m) => {
                proof {
                    lemma_fields_stuck(fields@, i + 1);
                }
                return Step::Fail(m);
            },
            Step::Abort(m) => {
                proof {
                    lemma_fields_stuck(fields@, i + 1);
                }
                return Step::Abort(m);
            },
        }
        i = i + 1;
    }
    assert(fields@.take(n as int) =~= fields@);
    Step::Done(
        StructDesc {
            name: name.clone(),
            ty: "struct".to_owned(),
            mod_name: ctx.mod_name.clone(),
            mod_path: ctx.mod_path.clone(),
            crate_name: ctx.crate_name.clone(),
            fields: descs,
        },
    )
}

/// Reads the traits and structs out of the items of a parsed file.
pub fn contract_from_items(ctx: &ParseContext, items: &Vec<ItemModel>) -> (r: Step<Contract>)
    ensures
        r@ == contract_of(ctx@, items@),
{
    let mut traits: Vec<TraitDesc> = Vec::new();
    let mut structs: Vec<StructDesc> = Vec::new();
    let n = items.len();
    let mut i: usize = 0;
    assert(traits_view(traits@) =~= Seq::<TraitDescView>::empty());
    assert(structs_view(structs@) =~= Seq::<StructDescView>::empty());
    assert(items@.take(0) =~= Seq::<ItemModel>::empty());
    while i < n
        invariant
            n == items@.len(),
            i <= n,
            items_of(ctx@, items@.take(i as int)) == StepView::Done(
                ContractView { traits: traits_view(traits@), structs: structs_view(structs@) },
            ),
        decreases n - i,
    {
        proof {
            assert(items@.take(i + 1).drop_last() =~= items@.take(i as int));
            assert(items@.take(i + 1).last() == items@[i as int]);
        }
        match &items[i] {
            ItemModel::Trait { name, supertraits, items: titems } => {
                match parse_trait(ctx, name, supertraits, titems) {
                    Step::Done(t) => {
                        let ghost old = traits@;
                        let ghost tv = t@;
                        traits.push(t);
                        assert(traits_view(traits@) =~= traits_view(old).push(tv));
                    },
                    Step::Fail(m) => {
                        proof {
                            lemma_items_stuck(ctx@, items@, i + 1);
                        }
                        return Step::Fail(m);
                    },
                    Step::Abort(m) => {
                        proof {
                            lemma_items_stuck(ctx@, items@, i + 1);
                        }
                        return Step::Abort(m);
                    },
                }
            },
            ItemModel::Struct { name, fields } => {
                match parse_struct(ctx, name, fields) {
                    Step::Done(s) => {
                        let ghost old = structs@;
                        let ghost sv = s@;
                        structs.push(s);
                        assert(structs_view(structs@) =~= structs_view(old).push(sv));
                    },
                    Step::Fail(m) => {
                        proof {
                            lemma_items_stuck(ctx@, items@, i + 1);
                        }
                        return Step::Fail(m);
                    },
                    Step::Abort(m) => {
                        proof {
                            lemma_items_stuck(ctx@, items@, i + 1);
                        }
                        return Step::Abort(m);
                    },
                }
            },
            ItemModel::Impl { .. } => {},
            ItemModel::Other => {},
        }
        i = i + 1;
    }
    assert(items@.take(n as int) =~= items@);
    if traits.len() == 0 && structs.len() == 0 {
        return Step::Fail("Can't find invalid trait and struct.".to_owned());
    }
    Step::Done(Contract { traits, structs })
}

/// The parse context of a source.
pub open spec fn context_view(crate_name: Seq<char>, mod_name: Seq<char>, mod_path: Seq<char>) -> ParseContextView {
    ParseContextView { crate_name, mod_name, mod_path }
}

/// What `parse_from_str` returns for an outcome that is not a stop.
pub open spec fn parse_result_matches(
    r: Result<(Vec<TraitDesc>, Vec<StructDesc>), RsbindError>,
    outcome: StepView<ContractView>,
) -> bool {
    match outcome {
        StepView::Done(c) => match r {
            Ok((ts, ss)) => traits_view(ts@) == c.traits && structs_view(ss@) == c.structs,
            Err(_) => false,
        },
        StepView::Fail(m) => match r {
            Err(RsbindError::ParseError(e)) => e@ == m,
            _ => false,
        },
        StepView::Abort(_) => false,
    }
}

/// Parses the contract source `src` of module `mod_name` (at `mod_path`) of
/// crate `crate_name` into its traits and structs.
/// The tool stops on a contract trait that does not derive `Send` and
/// `Sync`, and on `Vec<>` or `Box<>` without a type argument; such sources
/// are left out here (see `try_parse_from_str`).
pub fn parse_from_str(crate_name: &str, mod_name: &str, src: &str, mod_path: &str) -> (r: Result<
    (Vec<TraitDesc>, Vec<StructDesc>),
    RsbindError,
>)
    requires
        !(source_contract(context_view(crate_name@, mod_name@, mod_path@), src@) is Abort),
    ensures
        parse_result_matches(r, source_contract(context_view(crate_name@, mod_name@, mod_path@), src@)),
{
    let ctx = ParseContext {
        crate_name: crate_name.to_owned(),
        mod_name: mod_name.to_owned(),
        mod_path: mod_path.to_owned(),
    };
    match parse_syntax(src) {
        Ok(items) => match contract_from_items(&ctx, &items) {
            Step::Done(c) => Ok((c.traits, c.structs)),
            Step::Fail(m) => Err(RsbindError::ParseError(m)),
            Step::Abort(m) => Err(RsbindError::ParseError(m)),
        },
        Err(e) => Err(RsbindError::ParseError(e)),
    }
}

/// Like `parse_from_str`, for any source: `Err` with the message the tool
/// stops with, exactly where it stops on the source.
pub fn try_parse_from_str(crate_name: &str, mod_name: &str, src: &str, mod_path: &str) -> (r: Result<
    Result<(Vec<TraitDesc>, Vec<StructDesc>), RsbindError>,
    String,
>)
    ensures
        match r {
            Ok(res) => parse_result_matches(res, source_contract(context_view(crate_name@, mod_name@, mod_path@), src@)),
            Err(m) => source_contract(context_view(crate_name@, mod_name@, mod_path@), src@)
                == StepView::<ContractView>::Abort(m@),
        },
{
    let ctx = ParseContext {
        crate_name: crate_name.to_owned(),
        mod_name: mod_name.to_owned(),
        mod_path: mod_path.to_owned(),
    };
    let stop = match parse_syntax(src) {
        Ok(items) => match contract_from_items(&ctx, &items) {
            Step::Abort(m) => Some(m),
            _ => None,
        },
        Err(_) => None,
    };
    match stop {
        Some(m) => Err(m),
        None => Ok(parse_from_str(crate_name, mod_name, src, mod_path)),
    }
}

/// Whether every trait and struct of `c` carries the crate name, module
/// name and module path of `ctx`.
pub open spec fn carries_context(c: ContractView, ctx: ParseContextView) -> bool {
    &&& forall|i: int|
        0 <= i < c.traits.len() ==> (#[trigger] c.traits[i]).crate_name == ctx.crate_name
            && c.traits[i].mod_name == ctx.mod_name && c.traits[i].mod_path == ctx.mod_path
    &&& forall|i: int|
        0 <= i < c.structs.len() ==> (#[trigger] c.structs[i]).crate_name == ctx.crate_name
            && c.structs[i].mod_name == ctx.mod_name && c.structs[i].mod_path == ctx.mod_path
}

/// Reading items keeps the context on everything read.
proof fn lemma_items_context(ctx: ParseContextView, items: Seq<ItemModel>)
    ensures
        items_of(ctx, items) matches StepView::Done(c) ==> carries_context(c, ctx),
    decreases items.len(),
{
    if items.len() > 0 {
        lemma_items_context(ctx, items.drop_last());
    }
}

/// Law: every trait and struct that a contract source yields carries the
/// crate name, module name and module path that it was read with.
pub proof fn law_parsed_context(crate_name: Seq<char>, mod_name: Seq<char>, mod_path: Seq<char>, src: Seq<
    char,
>)
    ensures
        source_contract(context_view(crate_name, mod_name, mod_path), src) matches StepView::Done(c)
            ==> carries_context(c, context_view(crate_name, mod_name, mod_path)),
{
    let ctx = context_view(crate_name, mod_name, mod_path);
    match rust_syntax(src) {
        Ok(items) => lemma_items_context(ctx, items@),
        Err(_) => {},
    }
}

/// Whether the inputs hold a receiver (`self`, `&self` or `&mut self`).
pub open spec fn takes_self(inputs: Seq<InputModel>) -> bool {
    exists|i: int| 0 <= i < inputs.len() && #[trigger] inputs[i] is Receiver
}

/// Whether a trait item is a method that takes a receiver.
pub open spec fn method_takes_self(item: TraitItemModel) -> bool {
    match item {
        TraitItemModel::Method { inputs, .. } => takes_self(inputs@),
        TraitItemModel::Other => false,
    }
}

/// Whether some method among the items of a trait takes a receiver.
pub open spec fn some_method_takes_self(items: Seq<TraitItemModel>) -> bool {
    exists|i: int| 0 <= i < items.len() && method_takes_self(#[trigger] items[i])
}

/// Reading inputs finds a receiver exactly when one is there.
proof fn lemma_inputs_receiver(inputs: Seq<InputModel>)
    ensures
        inputs_of(inputs) matches StepView::Done(acc) ==> (acc.receiver <==> takes_self(inputs)),
    decreases inputs.len(),
{
    if inputs.len() > 0 {
        let prev = inputs.drop_last();
        lemma_inputs_receiver(prev);
        if inputs_of(inputs) is Done {
            if takes_self(prev) {
                let i = choose|i: int| 0 <= i < prev.len() && #[trigger] prev[i] is Receiver;
                assert(inputs[i] == prev[i]);
            }
            if takes_self(inputs) {
                let i = choose|i: int| 0 <= i < inputs.len() && #[trigger] inputs[i] is Receiver;
                if i < inputs.len() - 1 {
                    assert(prev[i] == inputs[i]);
                } else {
                    assert(inputs.last() is Receiver);
                }
            }
            if inputs.last() is Receiver {
                assert(inputs[inputs.len() - 1] is Receiver);
            }
        }
    }
}

/// Reading the methods of a trait marks it a callback exactly when some
/// method takes a receiver.
proof fn lemma_methods_callback(items: Seq<TraitItemModel>)
    ensures
        methods_of(items) matches StepView::Done(ms) ==> (ms.is_callback <==> some_method_takes_self(
            items,
        )),
    decreases items.len(),
{
    if items.len() > 0 {
        let prev = items.drop_last();
        lemma_methods_callback(prev);
        if methods_of(items) is Done {
            let last = items.last();
            if some_method_takes_self(prev) {
                let i = choose|i: int| 0 <= i < prev.len() && method_takes_self(#[trigger] prev[i]);
                assert(items[i] == prev[i]);
            }
            match last {
                TraitItemModel::Method { name, inputs, output } => {
                    lemma_inputs_receiver(inputs@);
                    if takes_self(inputs@) {
                        assert(items[items.len() - 1] == last);
                    }
                },
                TraitItemModel::Other => {},
            }
            if some_method_takes_self(items) {
                let i = choose|i: int| 0 <= i < items.len() && method_takes_self(#[trigger] items[i]);
                if i < items.len() - 1 {
                    assert(prev[i] == items[i]);
                } else {
                    assert(items[i] == last);
                    match last {
                        TraitItemModel::Method { name, inputs, output } => {
                            lemma_inputs_receiver(inputs@);
                        },
                        TraitItemModel::Other => {},
                    }
                }
            }
        }
    }
}

/// Law: a contract trait is read as a callback exactly when one of its
/// methods takes `self` (by value or by reference); the traits that
/// callers implement take `&self`, the services do not.
pub proof fn law_callback_iff_receiver(
    ctx: ParseContextView,
    name: String,
    supertraits: Seq<BoundModel>,
    items: Seq<TraitItemModel>,
)
    ensures
        trait_of(ctx, name, supertraits, items) matches StepView::Done(t) ==> (t.is_callback
            <==> some_method_takes_self(items)),
{
    lemma_methods_callback(items);
}

} // verus!
