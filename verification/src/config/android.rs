//! Android configuration, the `[android]` table of Rsbind.toml.

use vstd::prelude::*;

use crate::config::{list_or, or_default};
use crate::text::{clone_strings, join, join_strings, strings_view};

verus! {

/// The Java package of the generated code when none is configured.
pub const NAMESPACE: &'static str = "com.afoxer.xxx.ffi";

/// The name of the shared library when none is configured.
pub const SO_NAME: &'static str = "ffi";

/// The architectures built when none are configured.
pub open spec fn default_phone_archs() -> Seq<Seq<char>> {
    seq![
        "armv7-linux-androideabi"@,
        "arm-linux-androideabi"@,
        "aarch64-linux-android"@,
        "i686-linux-android"@,
    ]
}

/// The default architectures, as strings.
pub fn phone_archs() -> (r: Vec<String>)
    ensures
        strings_view(r@) == default_phone_archs(),
{
    let mut r: Vec<String> = Vec::new();
    r.push("armv7-linux-androideabi".to_owned());
    r.push("arm-linux-androideabi".to_owned());
    r.push("aarch64-linux-android".to_owned());
    r.push("i686-linux-android".to_owned());
    assert(strings_view(r@) =~= default_phone_archs());
    r
}

/// Android Configuration struct
#[derive(Clone, Debug)]
pub struct Android {
    pub ndk_stand_alone: Option<String>,
    pub rustc_param: Option<String>,
    pub arch: Option<Vec<String>>,
    pub release: Option<bool>,
    pub namespace: Option<String>,
    pub so_name: Option<String>,
    pub ext_lib: Option<Vec<String>>,
    pub features_def: Option<Vec<String>>,
}

impl Default for Android {
    fn default() -> (r: Self)
        ensures
            r.ndk_stand_alone is None,
            r.rustc_param is None,
            list_or(r.arch, Seq::empty()) == default_phone_archs(),
            r.arch is Some,
            r.release == Some(true),
            r.namespace matches Some(n) && n@ == NAMESPACE@,
            r.so_name matches Some(n) && n@ == SO_NAME@,
            r.ext_lib is None,
            r.features_def is None,
    {
        Android {
            ndk_stand_alone: None,
            rustc_param: None,
            arch: Some(phone_archs()),
            release: Some(true),
            namespace: Some(NAMESPACE.to_owned()),
            so_name: Some(SO_NAME.to_owned()),
            ext_lib: None,
            features_def: None,
        }
    }
}

impl Android {
    /// The Java package of the generated code.
    pub fn namespace(&self) -> (r: String)
        ensures
            r@ == or_default(self.namespace, NAMESPACE@),
    {
        match &self.namespace {
            Some(namespace) => namespace.clone(),
            None => NAMESPACE.to_owned(),
        }
    }

    /// Extra parameters for rustc, empty when none are configured.
    pub fn rustc_param(&self) -> (r: String)
        ensures
            r@ == or_default(self.rustc_param, Seq::empty()),
    {
        match &self.rustc_param {
            Some(rustc) => rustc.clone(),
            None => String::new(),
        }
    }

    /// Whether to build in release mode; release unless configured otherwise.
    pub fn is_release(&self) -> (r: bool)
        ensures
            r == match self.release {
                Some(b) => b,
                None => true,
            },
    {
        match self.release {
            Some(b) => b,
            None => true,
        }
    }

    /// The target triples to build for.
    pub fn archs(&self) -> (r: Vec<String>)
        ensures
            strings_view(r@) == list_or(self.arch, default_phone_archs()),
    {
        match &self.arch {
            Some(arch) => clone_strings(arch),
            None => phone_archs(),
        }
    }

    /// The extra libraries to load, joined by commas.
    pub fn ext_libs(&self) -> (r: String)
        ensures
            r@ == join(list_or(self.ext_lib, Seq::empty()), ","@),
    {
        match &self.ext_lib {
            Some(ext_lib) => join_strings(ext_lib, ","),
            None => {
                let v: Vec<String> = Vec::new();
                assert(strings_view(v@) =~= Seq::<Seq<char>>::empty());
                join_strings(&v, ",")
            },
        }
    }

    /// The name of the shared library.
    pub fn so_name(&self) -> (r: String)
        ensures
            r@ == or_default(self.so_name, SO_NAME@),
    {
        match &self.so_name {
            Some(so_name) => so_name.clone(),
            None => SO_NAME.to_owned(),
        }
    }

    /// The cargo features to build with.
    pub fn features(&self) -> (r: Vec<String>)
        ensures
            strings_view(r@) == list_or(self.features_def, Seq::empty()),
    {
        match &self.features_def {
            Some(features) => clone_strings(features),
            None => {
                let v: Vec<String> = Vec::new();
                assert(strings_view(v@) =~= Seq::<Seq<char>>::empty());
                v
            },
        }
    }
}

} // verus!
