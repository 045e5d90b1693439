//! The implementations of contract traits in the host crate: every
//! `impl Trait for Type` item of an implementation file.

use vstd::prelude::*;

use crate::ast::desc::{imps_view, ImpDesc, ImpDescView};
use crate::ast::syntax::{parse_syntax, rust_syntax, ItemModel, TypeModel};
use crate::errors::RsbindError;

verus! {

/// The implementation that item `item` of the file at module path
/// `mod_path` declares: an `impl` of a trait for a path type, by the last
/// segments of the trait's and the type's paths.
pub open spec fn impl_of(mod_path: Seq<char>, item: ItemModel) -> Option<ImpDescView> {
    match item {
        ItemModel::Impl { trait_path: Some(p), self_ty: TypeModel::Path(segs) } => if p@.len() > 0
            && segs@.len() > 0 {
            Some(
                ImpDescView {
                    name: segs@.last().ident@,
                    contract: p@.last()@,
                    mod_path,
                },
            )
        } else {
            None
        },
        _ => None,
    }
}

/// The implementations that the items declare, in order.
pub open spec fn imps_of(mod_path: Seq<char>, items: Seq<ItemModel>) -> Seq<ImpDescView>
    decreases items.len(),
{
    if items.len() == 0 {
        Seq::empty()
    } else {
        match impl_of(mod_path, items.last()) {
            Some(d) => imps_of(mod_path, items.drop_last()).push(d),
            None => imps_of(mod_path, items.drop_last()),
        }
    }
}

/// The implementations that the items of a file declare.
pub fn imps_from_items(mod_path: &str, items: &Vec<ItemModel>) -> (r: Vec<ImpDesc>)
    ensures
        imps_view(r@) == imps_of(mod_path@, items@),
{
    let mut r: Vec<ImpDesc> = Vec::new();
    let n = items.len();
    let mut i: usize = 0;
    while i < n
        invariant
            n == items@.len(),
            i <= n,
            imps_view(r@) == imps_of(mod_path@, items@.take(i as int)),
        decreases n - i,
    {
        proof {
            assert(items@.take(i + 1).drop_last() =~= items@.take(i as int));
            assert(items@.take(i + 1).last() == items@[i as int]);
        }
        let ghost before = imps_view(r@);
        match &items[i] {
            ItemModel::Impl { trait_path: Some(p), self_ty: TypeModel::Path(segs) } => {
                if p.len() > 0 && segs.len() > 0 {
                    let d = ImpDesc {
                        name: segs[segs.len() - 1].ident.clone(),
                        contract: p[p.len() - 1].clone(),
                        mod_path: mod_path.to_owned(),
                    };
                    let ghost dv = d@;
                    r.push(d);
                    assert(imps_view(r@) =~= before.push(dv));
                }
            },
            _ => {},
        }
        i = i + 1;
    }
    assert(items@.take(n as int) =~= items@);
    r
}

/// The implementations declared in the source text `src` of the file at
/// module path `mod_path`; a syntax error fails with `syn`'s message.
pub fn parse_imps_from_str(src: &str, mod_path: &str) -> (r: Result<Vec<ImpDesc>, RsbindError>)
    ensures
        match rust_syntax(src@) {
            Ok(items) => r matches Ok(v) && imps_view(v@) == imps_of(mod_path@, items@),
            Err(e) => r == Err::<Vec<ImpDesc>, RsbindError>(RsbindError::ParseError(e)),
        },
{
    match parse_syntax(src) {
        Ok(items) => Ok(imps_from_items(mod_path, &items)),
        Err(e) => Err(RsbindError::ParseError(e)),
    }
}

} // verus!
