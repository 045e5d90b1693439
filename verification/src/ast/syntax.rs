//! The parts of a parsed Rust source file that the contract parser reads,
//! held as plain values, and the call into `syn` that produces them.

use vstd::prelude::*;

verus! {

/// A type as written in the source.
#[derive(Debug)]
pub enum TypeModel {
    /// A path type such as `Vec<u8>`, by its segments.
    Path(Vec<SegmentModel>),
    /// A trait object such as `dyn Callback`.
    TraitObject { dyn_token: bool, bounds: Vec<BoundModel> },
    /// Any other kind of type (references, tuples, ...).
    Other,
}

/// One segment of a path, such as `Vec<u8>` in `std::vec::Vec<u8>`.
#[derive(Debug)]
pub struct SegmentModel {
    pub ident: String,
    pub args: ArgsModel,
}

/// The arguments of a path segment.
#[derive(Debug)]
pub enum ArgsModel {
    Bare,
    /// `<A, B>`
    Angle(Vec<GenericModel>),
    /// `(A, B) -> C`
    Paren,
}

/// One generic argument inside angle brackets.
#[derive(Debug)]
pub enum GenericModel {
    Type(TypeModel),
    Other,
}

/// A bound such as `Send` in `trait T: Send + Sync`.
#[derive(Debug)]
pub enum BoundModel {
    /// A trait bound, by the identifiers of its path segments.
    Trait(Vec<String>),
    /// A lifetime bound.
    Other,
}

/// One input of a method signature.
#[derive(Debug)]
pub enum InputModel {
    /// `self`, `&self` or `&mut self`; `by_ref` when taken by reference.
    Receiver { by_ref: bool },
    /// `pat: ty`; `pat` is the name when the pattern is a plain identifier.
    Typed { pat: Option<String>, ty: TypeModel },
}

/// The output of a method signature.
#[derive(Debug)]
pub enum OutputModel {
    Default,
    Type(TypeModel),
}

/// One item of a trait.
#[derive(Debug)]
pub enum TraitItemModel {
    Method { name: String, inputs: Vec<InputModel>, output: OutputModel },
    Other,
}

/// One field of a struct; `ident` is `None` for tuple fields.
#[derive(Debug)]
pub struct FieldModel {
    pub ident: Option<String>,
    pub ty: TypeModel,
}

/// One top-level item of a source file.
#[derive(Debug)]
pub enum ItemModel {
    Trait { name: String, supertraits: Vec<BoundModel>, items: Vec<TraitItemModel> },
    Struct { name: String, fields: Vec<FieldModel> },
    /// `impl Trait for Type`, or an inherent `impl Type` (no trait path).
    Impl { trait_path: Option<Vec<String>>, self_ty: TypeModel },
    Other,
}

/// What `syn::parse_file` makes of a source text, in the terms above: the
/// items of the file, or the message of the syntax error.
pub uninterp spec fn rust_syntax(src: Seq<char>) -> Result<Vec<ItemModel>, String>;

#[verifier::external_type_specification]
#[verifier::external_body]
pub struct ExSynItem(syn::Item);

#[verifier::external_type_specification]
#[verifier::external_body]
pub struct ExSynTraitItem(syn::TraitItem);

#[verifier::external_type_specification]
#[verifier::external_body]
pub struct ExSynFnArg(syn::FnArg);

#[verifier::external_type_specification]
#[verifier::external_body]
pub struct ExSynType(syn::Type);

#[verifier::external_type_specification]
#[verifier::external_body]
pub struct ExSynPathSegment(syn::PathSegment);

#[verifier::external_type_specification]
#[verifier::external_body]
pub struct ExSynTypeParamBound(syn::TypeParamBound);

#[verifier::external_type_specification]
#[verifier::external_body]
pub struct ExSynGenericArgument(syn::GenericArgument);

#[verifier::external_type_specification]
#[verifier::external_body]
pub struct ExSynField(syn::Field);

#[verifier::external_type_specification]
#[verifier::external_body]
pub struct ExSynItemImpl(syn::ItemImpl);

/// Parses `src` as a Rust source file with `syn::parse_file`.
/// Trusted: the result is `syn`'s parse of `src` (or its error message),
/// carried over into the plain model above; `syn` parses deterministically,
/// so the result is a function of `src` alone.
#[verifier::external_body]
pub fn parse_syntax(src: &str) -> (r: Result<Vec<ItemModel>, String>)
    ensures
        r == rust_syntax(src@),
{
    match syn::parse_file(src) {
        Ok(file) => Ok(file.items.iter().map(item_model).collect()),
        Err(e) => Err(e.to_string()),
    }
}

/// Carries a `syn::Item` over into an `ItemModel`, variant for variant.
#[verifier::external_body]
fn item_model(item: &syn::Item) -> ItemModel {
    match item {
        syn::Item::Trait(t) => ItemModel::Trait {
            name: t.ident.to_string(),
            supertraits: t.supertraits.iter().map(bound_model).collect(),
            items: t.items.iter().map(trait_item_model).collect(),
        },
        syn::Item::Struct(s) => ItemModel::Struct {
            name: s.ident.to_string(),
            fields: s.fields.iter().map(field_model).collect(),
        },
        syn::Item::Impl(i) => impl_model(i),
        _ => ItemModel::Other,
    }
}

/// Carries a `syn::ItemImpl` over into an `ItemModel::Impl`.
#[verifier::external_body]
fn impl_model(i: &syn::ItemImpl) -> ItemModel {
    ItemModel::Impl {
        trait_path: i.trait_.as_ref().map(
            |(_, path, _)| path.segments.iter().map(|s| s.ident.to_string()).collect(),
        ),
        self_ty: type_model(&i.self_ty),
    }
}

/// Carries a `syn::TraitItem` over into a `TraitItemModel`.
#[verifier::external_body]
fn trait_item_model(item: &syn::TraitItem) -> TraitItemModel {
    match item {
        syn::TraitItem::Method(m) => TraitItemModel::Method {
            name: m.sig.ident.to_string(),
            inputs: m.sig.inputs.iter().map(input_model).collect(),
            output: match &m.sig.output {
                syn::ReturnType::Default => OutputModel::Default,
                syn::ReturnType::Type(_, ty) => OutputModel::Type(type_model(ty)),
            },
        },
        _ => TraitItemModel::Other,
    }
}

/// Carries a `syn::FnArg` over into an `InputModel`.
#[verifier::external_body]
fn input_model(input: &syn::FnArg) -> InputModel {
    match input {
        syn::FnArg::Receiver(r) => InputModel::Receiver { by_ref: r.reference.is_some() },
        syn::FnArg::Typed(p) => InputModel::Typed {
            pat: match &*p.pat {
                syn::Pat::Ident(i) => Some(i.ident.to_string()),
                _ => None,
            },
            ty: type_model(&p.ty),
        },
    }
}

/// Carries a `syn::Field` over into a `FieldModel`.
#[verifier::external_body]
fn field_model(field: &syn::Field) -> FieldModel {
    FieldModel { ident: field.ident.as_ref().map(|i| i.to_string()), ty: type_model(&field.ty) }
}

/// Carries a `syn::Type` over into a `TypeModel`.
#[verifier::external_body]
fn type_model(ty: &syn::Type) -> TypeModel {
    match ty {
        syn::Type::Path(p) => TypeModel::Path(p.path.segments.iter().map(segment_model).collect()),
        syn::Type::TraitObject(t) => TypeModel::TraitObject {
            dyn_token: t.dyn_token.is_some(),
            bounds: t.bounds.iter().map(bound_model).collect(),
        },
        _ => TypeModel::Other,
    }
}

/// Carries a `syn::PathSegment` over into a `SegmentModel`.
#[verifier::external_body]
fn segment_model(seg: &syn::PathSegment) -> SegmentModel {
    SegmentModel {
        ident: seg.ident.to_string(),
        args: match &seg.arguments {
            syn::PathArguments::None => ArgsModel::Bare,
            syn::PathArguments::AngleBracketed(a) => ArgsModel::Angle(
                a.args.iter().map(generic_model).collect(),
            ),
            syn::PathArguments::Parenthesized(_) => ArgsModel::Paren,
        },
    }
}

/// Carries a `syn::GenericArgument` over into a `GenericModel`.
#[verifier::external_body]
fn generic_model(arg: &syn::GenericArgument) -> GenericModel {
    match arg {
        syn::GenericArgument::Type(ty) => GenericModel::Type(type_model(ty)),
        _ => GenericModel::Other,
    }
}

/// Carries a `syn::TypeParamBound` over into a `BoundModel`.
#[verifier::external_body]
fn bound_model(bound: &syn::TypeParamBound) -> BoundModel {
    match bound {
        syn::TypeParamBound::Trait(t) => BoundModel::Trait(
            t.path.segments.iter().map(|s| s.ident.to_string()).collect(),
        ),
        _ => BoundModel::Other,
    }
}

} // verus!
