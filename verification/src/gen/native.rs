//! The files of a native artifact (one per callback, contract trait and
//! struct, and a manager), for a target language with file extension `ext`.

use vstd::prelude::*;

use crate::ast::desc::{StructDesc, TraitDesc};
use crate::ast::handler::{all_callbacks, AstResult};
use crate::gen::swift::{cat2, cat3};

verus! {

/// What a native artifact file holds.
#[derive(Clone, Copy, Debug, PartialEq, Eq)]
pub enum NativeFileKind {
    /// The callback interface that users implement.
    Callback,
    /// The internal side of a callback.
    BridgeCallback,
    /// The internal side of a contract trait.
    BridgeTrait,
    /// The wrapper of a contract trait.
    WrapperTrait,
    /// The public interface of a contract trait.
    Trait,
    /// A contract struct.
    Struct,
    /// The manager that creates the services.
    Manager,
}

/// One file of a native artifact: what it holds, which description it is
/// made from (the position of the callback among all callbacks, or the
/// module and the position within it of the trait or struct; zero for the
/// manager), and its name.
#[derive(Clone, Debug)]
pub struct NativeFile {
    pub kind: NativeFileKind,
    pub module: usize,
    pub index: usize,
    pub name: String,
}

/// The view of a [`NativeFile`].
pub ghost struct NativeFileView {
    pub kind: NativeFileKind,
    pub module: int,
    pub index: int,
    pub name: Seq<char>,
}

impl View for NativeFile {
    type V = NativeFileView;

    open spec fn view(&self) -> NativeFileView {
        NativeFileView {
            kind: self.kind,
            module: self.module as int,
            index: self.index as int,
            name: self.name@,
        }
    }
}

/// The views of a sequence of files.
pub open spec fn files_view(v: Seq<NativeFile>) -> Seq<NativeFileView> {
    Seq::new(v.len(), |i: int| v[i]@)
}

/// A file description.
pub open spec fn nfile(kind: NativeFileKind, module: int, index: int, name: Seq<char>) -> NativeFileView {
    NativeFileView { kind, module, index, name }
}

/// The two files of each callback: its interface and its internal side.
pub open spec fn callback_files(cbs: Seq<TraitDesc>, ext: Seq<char>) -> Seq<NativeFileView>
    decreases cbs.len(),
{
    if cbs.len() == 0 {
        Seq::empty()
    } else {
        let i = cbs.len() - 1;
        let n = cbs.last().name@;
        callback_files(cbs.drop_last(), ext) + seq![
            nfile(NativeFileKind::Callback, 0, i, n + "."@ + ext),
            nfile(NativeFileKind::BridgeCallback, 0, i, "Internal"@ + n + "."@ + ext),
        ]
    }
}

/// The three files of each contract trait of module `m` that is not a
/// callback: its internal side, its wrapper and its interface.
pub open spec fn trait_files(m: int, ts: Seq<TraitDesc>, ext: Seq<char>) -> Seq<NativeFileView>
    decreases ts.len(),
{
    if ts.len() == 0 {
        Seq::empty()
    } else if ts.last().is_callback {
        trait_files(m, ts.drop_last(), ext)
    } else {
        let i = ts.len() - 1;
        let n = ts.last().name@;
        trait_files(m, ts.drop_last(), ext) + seq![
            nfile(NativeFileKind::BridgeTrait, m, i, "Internal"@ + n + "."@ + ext),
            nfile(NativeFileKind::WrapperTrait, m, i, "Rust"@ + n + "."@ + ext),
            nfile(NativeFileKind::Trait, m, i, n + "."@ + ext),
        ]
    }
}

/// The trait files of every module.
pub open spec fn modules_trait_files(mods: Seq<(String, Vec<TraitDesc>)>, ext: Seq<char>) -> Seq<
    NativeFileView,
>
    decreases mods.len(),
{
    if mods.len() == 0 {
        Seq::empty()
    } else {
        modules_trait_files(mods.drop_last(), ext) + trait_files(mods.len() - 1, mods.last().1@, ext)
    }
}

/// The file of each struct of every module.
pub open spec fn modules_struct_files(mods: Seq<(String, Vec<StructDesc>)>, ext: Seq<char>) -> Seq<
    NativeFileView,
>
    decreases mods.len(),
{
    if mods.len() == 0 {
        Seq::empty()
    } else {
        let m = mods.len() - 1;
        let ss = mods.last().1@;
        modules_struct_files(mods.drop_last(), ext) + Seq::new(
            ss.len(),
            |i: int| nfile(NativeFileKind::Struct, m, i, ss[i].name@ + "."@ + ext),
        )
    }
}

/// The files of the native artifact of `ast`, in the order they are
/// written: the callbacks', the traits', the structs' and the manager
/// `RustLib.<ext>`.
pub open spec fn native_files(ast: AstResult, ext: Seq<char>) -> Seq<NativeFileView> {
    callback_files(all_callbacks(ast.traits@), ext) + modules_trait_files(ast.traits@, ext)
        + modules_struct_files(ast.structs@, ext) + seq![
        nfile(NativeFileKind::Manager, 0, 0, "RustLib."@ + ext),
    ]
}

/// `<prefix><name>.<ext>`.
fn file_name(prefix: &str, name: &str, ext: &str) -> (r: String)
    ensures
        r@ == prefix@ + name@ + "."@ + ext@,
{
    let mut r = cat3(prefix, name, ".");
    r.append(ext);
    r
}

impl AstResult {
    /// The files of the native artifact.
    pub fn native_files(&self, ext: &str) -> (r: Vec<NativeFile>)
        ensures
            files_view(r@) == native_files(*self, ext@),
    {
        let mut r: Vec<NativeFile> = Vec::new();
        let cbs = self.callbacks();
        let ghost cv = all_callbacks(self.traits@);
        assert(crate::ast::desc::traits_view(cbs@) == crate::ast::desc::traits_view(cv));
        proof {
            assert(crate::ast::desc::traits_view(cbs@).len() == cbs@.len());
            assert(crate::ast::desc::traits_view(cv).len() == cv.len());
            assert forall|k: int| 0 <= k < cbs@.len() implies #[trigger] cbs@[k].name@
                == cv[k].name@ by {
                assert(crate::ast::desc::traits_view(cbs@)[k] == crate::ast::desc::traits_view(
                    cv,
                )[k]);
            }
        }
        let nc = cbs.len();
        let mut i: usize = 0;
        while i < nc
            invariant
                nc == cbs@.len(),
                i <= nc,
                cv.len() == nc,
                forall|k: int| 0 <= k < nc ==> #[trigger] cbs@[k].name@ == cv[k].name@,
                files_view(r@) == callback_files(cv.take(i as int), ext@),
            decreases nc - i,
        {
            proof {
                assert(cv.take(i + 1).drop_last() =~= cv.take(i as int));
                assert(cv.take(i + 1).last() == cv[i as int]);
            }
            let ghost before = files_view(r@);
            let n = cbs[i].name.as_str();
            r.push(NativeFile { kind: NativeFileKind::Callback, module: 0, index: i, name: file_name("", n, ext) });
            r.push(NativeFile {
                kind: NativeFileKind::BridgeCallback,
                module: 0,
                index: i,
                name: file_name("Internal", n, ext),
            });
            proof {
                reveal_strlit("");
                assert(""@ + cv[i as int].name@ =~= cv[i as int].name@);
            }
            assert(files_view(r@) =~= before + seq![
                nfile(NativeFileKind::Callback, 0, i as int, cv[i as int].name@ + "."@ + ext@),
                nfile(
                    NativeFileKind::BridgeCallback,
                    0,
                    i as int,
                    "Internal"@ + cv[i as int].name@ + "."@ + ext@,
                ),
            ]);
            i = i + 1;
        }
        assert(cv.take(nc as int) =~= cv);
        let ghost after_cbs = files_view(r@);
        let nm = self.traits.len();
        let mut m: usize = 0;
        while m < nm
            invariant
                nm == self.traits@.len(),
                m <= nm,
                files_view(r@) == after_cbs + modules_trait_files(self.traits@.take(m as int), ext@),
            decreases nm - m,
        {
            proof {
                assert(self.traits@.take(m + 1).drop_last() =~= self.traits@.take(m as int));
                assert(self.traits@.take(m + 1).last() == self.traits@[m as int]);
            }
            let ts = &self.traits[m].1;
            let ghost start = files_view(r@);
            let nt = ts.len();
            let mut t: usize = 0;
            while t < nt
                invariant
                    nt == ts@.len(),
                    t <= nt,
                    files_view(r@) == start + trait_files(m as int, ts@.take(t as int), ext@),
                decreases nt - t,
            {
                proof {
                    assert(ts@.take(t + 1).drop_last() =~= ts@.take(t as int));
                    assert(ts@.take(t + 1).last() == ts@[t as int]);
                }
                let ghost before = files_view(r@);
                if !ts[t].is_callback {
                    let n = ts[t].name.as_str();
                    r.push(NativeFile {
                        kind: NativeFileKind::BridgeTrait,
                        module: m,
                        index: t,
                        name: file_name("Internal", n, ext),
                    });
                    r.push(NativeFile {
                        kind: NativeFileKind::WrapperTrait,
                        module: m,
                        index: t,
                        name: file_name("Rust", n, ext),
                    });
                    r.push(NativeFile { kind: NativeFileKind::Trait, module: m, index: t, name: file_name("", n, ext) });
                    proof {
                        reveal_strlit("");
                        assert(""@ + n@ =~= n@);
                    }
                    assert(files_view(r@) =~= before + seq![
                        nfile(NativeFileKind::BridgeTrait, m as int, t as int, "Internal"@ + n@ + "."@ + ext@),
                        nfile(NativeFileKind::WrapperTrait, m as int, t as int, "Rust"@ + n@ + "."@ + ext@),
                        nfile(NativeFileKind::Trait, m as int, t as int, n@ + "."@ + ext@),
                    ]);
                }
                t = t + 1;
            }
            assert(ts@.take(nt as int) =~= ts@);
            m = m + 1;
        }
        assert(self.traits@.take(nm as int) =~= self.traits@);
        let ghost after_traits = files_view(r@);
        let ns = self.structs.len();
        let mut m2: usize = 0;
        while m2 < ns
            invariant
                ns == self.structs@.len(),
                m2 <= ns,
                files_view(r@) == after_traits + modules_struct_files(
                    self.structs@.take(m2 as int),
                    ext@,
                ),
            decreases ns - m2,
        {
            proof {
                assert(self.structs@.take(m2 + 1).drop_last() =~= self.structs@.take(m2 as int));
                assert(self.structs@.take(m2 + 1).last() == self.structs@[m2 as int]);
            }
            let ss = &self.structs[m2].1;
            let ghost start = files_view(r@);
            let n2 = ss.len();
            let mut k: usize = 0;
            while k < n2
                invariant
                    n2 == ss@.len(),
                    k <= n2,
                    r@.len() == start.len() + k,
                    forall|q: int| 0 <= q < start.len() ==> #[trigger] r@[q]@ == start[q],
                    forall|q: int|
                        0 <= q < k ==> #[trigger] r@[start.len() + q]@ == nfile(
                            NativeFileKind::Struct,
                            m2 as int,
                            q,
                            ss@[q].name@ + "."@ + ext@,
                        ),
                decreases n2 - k,
            {
                r.push(NativeFile {
                    kind: NativeFileKind::Struct,
                    module: m2,
                    index: k,
                    name: file_name("", ss[k].name.as_str(), ext),
                });
                proof {
                    reveal_strlit("");
                    assert(""@ + ss@[k as int].name@ =~= ss@[k as int].name@);
                }
                k = k + 1;
            }
            assert(files_view(r@) =~= start + Seq::new(
                ss@.len(),
                |q: int| nfile(NativeFileKind::Struct, m2 as int, q, ss@[q].name@ + "."@ + ext@),
            )) by {
                assert forall|q: int| start.len() <= q < r@.len() implies files_view(r@)[q] == (start
                    + Seq::new(
                    ss@.len(),
                    |q: int| nfile(NativeFileKind::Struct, m2 as int, q, ss@[q].name@ + "."@ + ext@),
                ))[q] by {
                    assert(r@[start.len() + (q - start.len())]@ == nfile(
                        NativeFileKind::Struct,
                        m2 as int,
                        q - start.len(),
                        ss@[q - start.len()].name@ + "."@ + ext@,
                    ));
                }
            }
            m2 = m2 + 1;
        }
        assert(self.structs@.take(ns as int) =~= self.structs@);
        let ghost before_manager = files_view(r@);
        r.push(NativeFile { kind: NativeFileKind::Manager, module: 0, index: 0, name: cat2("RustLib.", ext) });
        assert(files_view(r@) =~= before_manager + seq![
            nfile(NativeFileKind::Manager, 0, 0, "RustLib."@ + ext@),
        ]);
        r
    }
}

} // verus!
