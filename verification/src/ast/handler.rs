//! Where the contract and its implementation are read from, and the result
//! of reading them.

use vstd::prelude::*;

use crate::ast::desc::{ImpDesc, StructDesc, TraitDesc};
use crate::config::{Common, Config};
use crate::ast::desc::traits_view;
use crate::text::str_eq;
use vstd::string::*;

verus! {

/// Reads the contract of the crate `crate_name`.
pub struct AstHandler {
    pub crate_name: String,
}

/// The files and directories, relative to the project, that hold the
/// contract and its implementation, and their module names.
pub struct SourceLayout {
    pub contract_dir: String,
    pub imp_dir: String,
    pub contract_file: String,
    pub imp_file: String,
    pub rsbind_file: String,
    pub contract_mod: String,
    pub imp_mod: String,
}

/// The module name configured by `name`, when it is set and not empty.
pub open spec fn configured(name: Option<String>) -> Option<Seq<char>> {
    match name {
        Some(n) => if n@.len() > 0 { Some(n@) } else { None },
        None => None,
    }
}

/// The contract module name configured in `config`, if any.
pub open spec fn configured_contract(config: Option<Config>) -> Option<Seq<char>> {
    match config {
        Some(cfg) => match cfg.common {
            Some(common) => configured(common.contract_name),
            None => None,
        },
        None => None,
    }
}

/// The implementation module name configured in `config`, if any.
pub open spec fn configured_imp(config: Option<Config>) -> Option<Seq<char>> {
    match config {
        Some(cfg) => match cfg.common {
            Some(common) => configured(common.imp_name),
            None => None,
        },
        None => None,
    }
}

/// The module name used: the configured one, or the default.
pub open spec fn mod_name_or(configured: Option<Seq<char>>, default: Seq<char>) -> Seq<char> {
    match configured {
        Some(n) => n,
        None => default,
    }
}

/// Whether `layout` is where the contract of a project configured by
/// `config` is looked for: `src/<name>` and `src/<name>.rs` for the
/// contract (default `contract`) and the implementation (default `imp`),
/// and `src/rsbind.rs`.
pub open spec fn is_layout_of(layout: SourceLayout, config: Option<Config>) -> bool {
    let c = mod_name_or(configured_contract(config), "contract"@);
    let i = mod_name_or(configured_imp(config), "imp"@);
    &&& layout.contract_mod@ == c
    &&& layout.imp_mod@ == i
    &&& layout.contract_dir@ == "src/"@ + c
    &&& layout.contract_file@ == "src/"@ + c + ".rs"@
    &&& layout.imp_dir@ == "src/"@ + i
    &&& layout.imp_file@ == "src/"@ + i + ".rs"@
    &&& layout.rsbind_file@ == "src/rsbind.rs"@
}

/// Law: with no settings, the contract is looked for under `contract` and
/// the implementation under `imp`.
pub proof fn lemma_layout_defaults(layout: SourceLayout)
    requires
        is_layout_of(layout, None),
    ensures
        layout.contract_mod@ == "contract"@,
        layout.imp_mod@ == "imp"@,
        layout.contract_dir@ == "src/"@ + "contract"@,
{
}

/// Where the contract, or the implementations, of a host project are read
/// from.
#[derive(Clone, Copy, Debug, PartialEq, Eq)]
pub enum SourceKind {
    /// Every file of the directory, each a module of its own.
    Dir,
    /// The one file, a module of the configured name.
    File,
    /// `src/rsbind.rs`, the module `rsbind`.
    RsbindFile,
    /// None of these exists; the result is empty.
    Missing,
}

/// The source that is read, given which of the directory, the file and
/// `src/rsbind.rs` exist: the first of them that does.
pub open spec fn source_kind(dir_exists: bool, file_exists: bool, rsbind_exists: bool) -> SourceKind {
    if dir_exists {
        SourceKind::Dir
    } else if file_exists {
        SourceKind::File
    } else if rsbind_exists {
        SourceKind::RsbindFile
    } else {
        SourceKind::Missing
    }
}

/// Chooses the source to read: the directory, else the file, else
/// `src/rsbind.rs`, else none.
pub fn choose_source(dir_exists: bool, file_exists: bool, rsbind_exists: bool) -> (r: SourceKind)
    ensures
        r == source_kind(dir_exists, file_exists, rsbind_exists),
{
    if dir_exists {
        SourceKind::Dir
    } else if file_exists {
        SourceKind::File
    } else if rsbind_exists {
        SourceKind::RsbindFile
    } else {
        SourceKind::Missing
    }
}

/// The module name configured by `name`, if set and not empty.
fn configured_name(name: &Option<String>) -> (r: Option<String>)
    ensures
        match (r, configured(*name)) {
            (Some(s), Some(v)) => s@ == v,
            (None, None) => true,
            _ => false,
        },
{
    match name {
        Some(n) => if n.as_str().unicode_len() == 0 {
            None
        } else {
            Some(n.clone())
        },
        None => None,
    }
}

/// `prefix + middle + suffix`.
fn concat3(prefix: &str, middle: &str, suffix: &str) -> (r: String)
    ensures
        r@ == prefix@ + middle@ + suffix@,
{
    let mut r = prefix.to_owned();
    r.append(middle);
    r.append(suffix);
    r
}

impl AstHandler {
    pub fn new(crate_name: String) -> (r: AstHandler)
        ensures
            r.crate_name == crate_name,
    {
        AstHandler { crate_name }
    }

    /// Where the contract and the implementation of a project configured by
    /// `config` are looked for.
    pub fn source_layout(&self, config: &Option<Config>) -> (r: SourceLayout)
        ensures
            is_layout_of(r, *config),
    {
        let mut contract_name: Option<String> = None;
        let mut imp_name: Option<String> = None;
        if let Some(cfg) = config {
            if let Some(common) = &cfg.common {
                contract_name = configured_name(&common.contract_name);
                imp_name = configured_name(&common.imp_name);
            }
        }
        let contract = match contract_name {
            Some(n) => n,
            None => "contract".to_owned(),
        };
        let imp = match imp_name {
            Some(n) => n,
            None => "imp".to_owned(),
        };
        let r = SourceLayout {
            contract_dir: concat3("src/", contract.as_str(), ""),
            imp_dir: concat3("src/", imp.as_str(), ""),
            contract_file: concat3("src/", contract.as_str(), ".rs"),
            imp_file: concat3("src/", imp.as_str(), ".rs"),
            rsbind_file: "src/rsbind.rs".to_owned(),
            contract_mod: contract,
            imp_mod: imp,
        };
        proof {
            reveal_strlit("");
            assert(r.contract_dir@ =~= "src/"@ + r.contract_mod@);
            assert(r.imp_dir@ =~= "src/"@ + r.imp_mod@);
        }
        r
    }
}

/// The traits and structs of every contract module, and the
/// implementations found in the host crate.
/// Each module name occurs once among `traits`, and once among `structs`.
#[derive(Clone, Debug)]
pub struct AstResult {
    pub traits: Vec<(String, Vec<TraitDesc>)>,
    pub structs: Vec<(String, Vec<StructDesc>)>,
    pub imps: Vec<ImpDesc>,
}

/// The position of the module `name` among the keyed entries `v`, if any.
pub open spec fn key_index<T>(v: Seq<(String, T)>, name: Seq<char>) -> Option<int> {
    if exists|i: int| 0 <= i < v.len() && #[trigger] v[i].0@ == name {
        Some(choose|i: int| 0 <= i < v.len() && #[trigger] v[i].0@ == name)
    } else {
        None
    }
}

/// No module name occurs twice among the keyed entries `v`.
pub open spec fn keys_distinct<T>(v: Seq<(String, T)>) -> bool {
    forall|i: int, j: int| 0 <= i < v.len() && 0 <= j < v.len() && i != j ==> v[i].0@ != v[j].0@
}

impl AstResult {
    /// Module names are not repeated.
    pub open spec fn wf(&self) -> bool {
        keys_distinct(self.traits@) && keys_distinct(self.structs@)
    }

    /// An empty result.
    pub fn empty() -> (r: AstResult)
        ensures
            r.traits@.len() == 0,
            r.structs@.len() == 0,
            r.imps@.len() == 0,
            r.wf(),
    {
        AstResult { traits: Vec::new(), structs: Vec::new(), imps: Vec::new() }
    }

    /// The structs of the module `mod_name`, if it has an entry.
    pub fn structs_of(&self, mod_name: &str) -> (r: Option<&Vec<StructDesc>>)
        requires
            self.wf(),
        ensures
            match r {
                Some(v) => exists|i: int|
                    0 <= i < self.structs@.len() && self.structs@[i].0@ == mod_name@
                        && *v == self.structs@[i].1,
                None => forall|i: int|
                    0 <= i < self.structs@.len() ==> self.structs@[i].0@ != mod_name@,
            },
    {
        let n = self.structs.len();
        let mut i: usize = 0;
        while i < n
            invariant
                n == self.structs@.len(),
                i <= n,
                forall|j: int| 0 <= j < i ==> self.structs@[j].0@ != mod_name@,
            decreases n - i,
        {
            if str_eq(self.structs[i].0.as_str(), mod_name) {
                return Some(&self.structs[i].1);
            }
            i = i + 1;
        }
        None
    }

    /// All the callback traits of every module, in order.
    pub fn callbacks(&self) -> (r: Vec<TraitDesc>)
        ensures
            traits_view(r@) == traits_view(all_callbacks(self.traits@)),
    {
        let mut r: Vec<TraitDesc> = Vec::new();
        let n = self.traits.len();
        let mut i: usize = 0;
        while i < n
            invariant
                n == self.traits@.len(),
                i <= n,
                traits_view(r@) == traits_view(all_callbacks(self.traits@.take(i as int))),
            decreases n - i,
        {
            proof {
                assert(self.traits@.take(i + 1).drop_last() =~= self.traits@.take(i as int));
            }
            let descs = &self.traits[i].1;
            let m = descs.len();
            let mut k: usize = 0;
            let ghost base = all_callbacks(self.traits@.take(i as int));
            while k < m
                invariant
                    m == descs@.len(),
                    k <= m,
                    traits_view(r@) == traits_view(base) + traits_view(callbacks_in(descs@.take(k as int))),
                decreases m - k,
            {
                proof {
                    assert(descs@.take(k + 1).drop_last() =~= descs@.take(k as int));
                }
                if descs[k].is_callback {
                    let ghost old_r = r@;
                    let d = descs[k].duplicate();
                    r.push(d);
                    assert(traits_view(r@) =~= traits_view(old_r).push(descs@[k as int]@));
                    assert(traits_view(callbacks_in(descs@.take(k + 1))) =~= traits_view(
                        callbacks_in(descs@.take(k as int)),
                    ).push(descs@[k as int]@));
                    assert(traits_view(r@) =~= traits_view(base) + traits_view(
                        callbacks_in(descs@.take(k + 1)),
                    ));
                }
                k = k + 1;
            }
            assert(descs@.take(m as int) =~= descs@);
            assert(traits_view(base + callbacks_in(descs@)) =~= traits_view(base) + traits_view(
                callbacks_in(descs@),
            ));
            i = i + 1;
        }
        assert(self.traits@.take(n as int) =~= self.traits@);
        r
    }
}

/// The callback traits among `descs`, in order.
pub open spec fn callbacks_in(descs: Seq<TraitDesc>) -> Seq<TraitDesc>
    decreases descs.len(),
{
    if descs.len() == 0 {
        Seq::empty()
    } else if descs.last().is_callback {
        callbacks_in(descs.drop_last()).push(descs.last())
    } else {
        callbacks_in(descs.drop_last())
    }
}

/// The callback traits of every module among `mods`, in order.
pub open spec fn all_callbacks(mods: Seq<(String, Vec<TraitDesc>)>) -> Seq<TraitDesc>
    decreases mods.len(),
{
    if mods.len() == 0 {
        Seq::empty()
    } else {
        all_callbacks(mods.drop_last()) + callbacks_in(mods.last().1@)
    }
}

/// `v` with the entry of key `k` set to `x`: replaced where `k` has an
/// entry, added at the end otherwise (as a map insert).
pub open spec fn keyed_insert<T>(v: Seq<(String, T)>, k: String, x: T) -> Seq<(String, T)> {
    match key_index(v, k@) {
        Some(i) => v.update(i, (k, x)),
        None => v.push((k, x)),
    }
}

/// Sets the entry of key `k` of `v` to `x`.
fn insert_keyed<T>(v: &mut Vec<(String, T)>, k: String, x: T)
    requires
        keys_distinct(old(v)@),
    ensures
        final(v)@ == keyed_insert(old(v)@, k, x),
        keys_distinct(final(v)@),
{
    let n = v.len();
    let mut i: usize = 0;
    while i < n
        invariant
            n == v@.len(),
            i <= n,
            v@ == old(v)@,
            keys_distinct(v@),
            forall|j: int| 0 <= j < i ==> v@[j].0@ != k@,
        decreases n - i,
    {
        if str_eq(v[i].0.as_str(), k.as_str()) {
            proof {
                let c = choose|j: int| 0 <= j < v@.len() && #[trigger] v@[j].0@ == k@;
                assert(v@[i as int].0@ == k@);
                assert(c == i as int);
            }
            v.set(i, (k, x));
            proof {
                assert forall|a: int, b: int|
                    0 <= a < v@.len() && 0 <= b < v@.len() && a != b implies v@[a].0@ != v@[b].0@ by {
                    if a != i && b != i {
                        assert(v@[a] == old(v)@[a] && v@[b] == old(v)@[b]);
                    } else if a == i {
                        assert(v@[b] == old(v)@[b]);
                        assert(old(v)@[i as int].0@ == v@[a].0@);
                    } else {
                        assert(v@[a] == old(v)@[a]);
                        assert(old(v)@[i as int].0@ == v@[b].0@);
                    }
                }
            }
            return;
        }
        i = i + 1;
    }
    assert(key_index(old(v)@, k@) is None);
    v.push((k, x));
}

impl AstResult {
    /// Records the traits and structs of contract module `mod_name`,
    /// replacing what an earlier file of the same module gave.
    pub fn insert_module(&mut self, mod_name: String, traits: Vec<TraitDesc>, structs: Vec<StructDesc>)
        requires
            old(self).wf(),
        ensures
            final(self).wf(),
            final(self).traits@ == keyed_insert(old(self).traits@, mod_name, traits),
            final(self).structs@ == keyed_insert(old(self).structs@, mod_name, structs),
            final(self).imps == old(self).imps,
    {
        let key = mod_name.clone();
        insert_keyed(&mut self.traits, mod_name, traits);
        insert_keyed(&mut self.structs, key, structs);
    }
}

/// The module path of contract file `mod_name` of contract directory
/// `contract`.
pub open spec fn contract_mod_path(contract: Seq<char>, mod_name: Seq<char>) -> Seq<char> {
    contract + "::"@ + mod_name
}

impl AstHandler {
    /// The module path of contract file `mod_name` (its file stem) of
    /// contract directory `contract_name`.
    pub fn mod_path(&self, contract_name: &str, mod_name: &str) -> (r: String)
        ensures
            r@ == contract_mod_path(contract_name@, mod_name@),
    {
        concat3(contract_name, "::", mod_name)
    }

    /// Whether a file of the contract directory is read: every file but
    /// `mod.rs`.
    pub fn reads_contract_file(&self, file_name: &str) -> (r: bool)
        ensures
            r == (file_name@ != "mod.rs"@),
    {
        !str_eq(file_name, "mod.rs")
    }
}

/// The file that the description `name` of module `mod_name` is written
/// to.
pub open spec fn ast_file_name(mod_name: Seq<char>, name: Seq<char>) -> Seq<char> {
    mod_name + "_"@ + name + ".json"@
}

impl AstResult {
    /// The file that the description `name` of module `mod_name` is written
    /// to.
    pub fn ast_file_name(&self, mod_name: &str, name: &str) -> (r: String)
        ensures
            r@ == ast_file_name(mod_name@, name@),
    {
        concat3(mod_name, "_", name).concat(".json")
    }
}

} // verus!
