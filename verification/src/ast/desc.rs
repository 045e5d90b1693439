//! Descriptions of the traits and structs of a contract.

use vstd::prelude::*;

use crate::ast::types::{AstType, TypeView};

verus! {

/// An argument of a method, or a field of a struct.
#[derive(Debug, Clone, PartialEq)]
pub struct ArgDesc {
    pub name: String,
    pub ty: AstType,
}

/// A method of a trait.
#[derive(Debug, Clone, PartialEq)]
pub struct MethodDesc {
    pub name: String,
    pub return_type: AstType,
    pub args: Vec<ArgDesc>,
    /// The method takes `self` by value.
    pub swallow_self: bool,
}

/// A trait of the contract; a callback when one of its methods takes `self`.
#[derive(Debug, Clone, PartialEq)]
pub struct TraitDesc {
    pub name: String,
    pub ty: String,
    pub mod_name: String,
    pub mod_path: String,
    pub crate_name: String,
    pub is_callback: bool,
    pub methods: Vec<MethodDesc>,
}

/// A struct of the contract.
#[derive(Debug, Clone, PartialEq)]
pub struct StructDesc {
    pub name: String,
    pub ty: String,
    pub mod_name: String,
    pub mod_path: String,
    pub crate_name: String,
    pub fields: Vec<ArgDesc>,
}

/// An implementation of a contract trait in the host crate.
#[derive(Debug, Clone, PartialEq)]
pub struct ImpDesc {
    /// The implementing type.
    pub name: String,
    /// The trait it implements.
    pub contract: String,
    pub mod_path: String,
}

pub struct ArgDescView {
    pub name: Seq<char>,
    pub ty: TypeView,
}

pub struct MethodDescView {
    pub name: Seq<char>,
    pub return_type: TypeView,
    pub args: Seq<ArgDescView>,
    pub swallow_self: bool,
}

pub struct TraitDescView {
    pub name: Seq<char>,
    pub ty: Seq<char>,
    pub mod_name: Seq<char>,
    pub mod_path: Seq<char>,
    pub crate_name: Seq<char>,
    pub is_callback: bool,
    pub methods: Seq<MethodDescView>,
}

pub struct StructDescView {
    pub name: Seq<char>,
    pub ty: Seq<char>,
    pub mod_name: Seq<char>,
    pub mod_path: Seq<char>,
    pub crate_name: Seq<char>,
    pub fields: Seq<ArgDescView>,
}

impl View for ArgDesc {
    type V = ArgDescView;

    open spec fn view(&self) -> ArgDescView {
        ArgDescView { name: self.name@, ty: self.ty@ }
    }
}

/// The views of a sequence of argument descriptions.
pub open spec fn args_view(args: Seq<ArgDesc>) -> Seq<ArgDescView> {
    Seq::new(args.len(), |i: int| args[i]@)
}

impl View for MethodDesc {
    type V = MethodDescView;

    open spec fn view(&self) -> MethodDescView {
        MethodDescView {
            name: self.name@,
            return_type: self.return_type@,
            args: args_view(self.args@),
            swallow_self: self.swallow_self,
        }
    }
}

/// The views of a sequence of method descriptions.
pub open spec fn methods_view(methods: Seq<MethodDesc>) -> Seq<MethodDescView> {
    Seq::new(methods.len(), |i: int| methods[i]@)
}

impl View for TraitDesc {
    type V = TraitDescView;

    open spec fn view(&self) -> TraitDescView {
        TraitDescView {
            name: self.name@,
            ty: self.ty@,
            mod_name: self.mod_name@,
            mod_path: self.mod_path@,
            crate_name: self.crate_name@,
            is_callback: self.is_callback,
            methods: methods_view(self.methods@),
        }
    }
}

/// The view of an [`ImpDesc`].
pub struct ImpDescView {
    pub name: Seq<char>,
    pub contract: Seq<char>,
    pub mod_path: Seq<char>,
}

impl View for ImpDesc {
    type V = ImpDescView;

    open spec fn view(&self) -> ImpDescView {
        ImpDescView { name: self.name@, contract: self.contract@, mod_path: self.mod_path@ }
    }
}

/// The views of a sequence of implementation descriptions.
pub open spec fn imps_view(imps: Seq<ImpDesc>) -> Seq<ImpDescView> {
    Seq::new(imps.len(), |i: int| imps[i]@)
}

impl View for StructDesc {
    type V = StructDescView;

    open spec fn view(&self) -> StructDescView {
        StructDescView {
            name: self.name@,
            ty: self.ty@,
            mod_name: self.mod_name@,
            mod_path: self.mod_path@,
            crate_name: self.crate_name@,
            fields: args_view(self.fields@),
        }
    }
}

/// The views of a sequence of trait descriptions.
pub open spec fn traits_view(traits: Seq<TraitDesc>) -> Seq<TraitDescView> {
    Seq::new(traits.len(), |i: int| traits[i]@)
}

/// The views of a sequence of struct descriptions.
pub open spec fn structs_view(structs: Seq<StructDesc>) -> Seq<StructDescView> {
    Seq::new(structs.len(), |i: int| structs[i]@)
}


impl ArgDesc {
    /// A copy of this description.
    pub fn duplicate(&self) -> (r: Self)
        ensures
            r@ == self@,
    {
        ArgDesc { name: self.name.clone(), ty: self.ty.duplicate() }
    }
}

/// A copy of a list of argument descriptions.
pub fn duplicate_args(v: &Vec<ArgDesc>) -> (r: Vec<ArgDesc>)
    ensures
        args_view(r@) == args_view(v@),
{
    let mut r: Vec<ArgDesc> = Vec::new();
    let n = v.len();
    let mut i: usize = 0;
    while i < n
        invariant
            n == v@.len(),
            i <= n,
            args_view(r@) == args_view(v@.take(i as int)),
        decreases n - i,
    {
        let ghost old_r = r@;
        r.push(v[i].duplicate());
        i = i + 1;
        assert(args_view(r@) =~= args_view(old_r).push(v@[i - 1]@));
        assert(args_view(v@.take(i as int)) =~= args_view(v@.take(i - 1)).push(v@[i - 1]@));
    }
    assert(v@.take(n as int) =~= v@);
    r
}

impl MethodDesc {
    /// A copy of this description.
    pub fn duplicate(&self) -> (r: Self)
        ensures
            r@ == self@,
    {
        MethodDesc {
            name: self.name.clone(),
            return_type: self.return_type.duplicate(),
            args: duplicate_args(&self.args),
            swallow_self: self.swallow_self,
        }
    }
}

impl TraitDesc {
    /// A copy of this description.
    pub fn duplicate(&self) -> (r: Self)
        ensures
            r@ == self@,
    {
        let mut methods: Vec<MethodDesc> = Vec::new();
        let n = self.methods.len();
        let mut i: usize = 0;
        while i < n
            invariant
                n == self.methods@.len(),
                i <= n,
                methods_view(methods@) == methods_view(self.methods@.take(i as int)),
            decreases n - i,
        {
            let ghost old = methods@;
            methods.push(self.methods[i].duplicate());
            i = i + 1;
            assert(methods_view(methods@) =~= methods_view(old).push(self.methods@[i - 1]@));
            assert(methods_view(self.methods@.take(i as int)) =~= methods_view(
                self.methods@.take(i - 1),
            ).push(self.methods@[i - 1]@));
        }
        assert(self.methods@.take(n as int) =~= self.methods@);
        TraitDesc {
            name: self.name.clone(),
            ty: self.ty.clone(),
            mod_name: self.mod_name.clone(),
            mod_path: self.mod_path.clone(),
            crate_name: self.crate_name.clone(),
            is_callback: self.is_callback,
            methods,
        }
    }
}
} // verus!
