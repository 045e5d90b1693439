//! Jar configuration, the `[jar]` table of Rsbind.toml.

use vstd::prelude::*;

use crate::config::{list_or, or_default};
use crate::text::{clone_strings, join, join_strings, strings_view};

verus! {

/// The Java package of the generated code when none is configured.
pub const NAMESPACE: &'static str = "com.afoxer.xxx.ffi";

/// The name of the dynamic library when none is configured.
pub const DYLIB_NAME: &'static str = "ffi";

/// Jar Configuration struct
#[derive(Clone, Debug)]
pub struct Jar {
    pub ndk_stand_alone: Option<String>,
    pub rustc_param: Option<String>,
    pub release: Option<bool>,
    pub namespace: Option<String>,
    pub dylib_name: Option<String>,
    pub ext_lib: Option<Vec<String>>,
    pub features_def: Option<Vec<String>>,
}

impl Default for Jar {
    fn default() -> (r: Self)
        ensures
            r.ndk_stand_alone is None,
            r.rustc_param is None,
            r.release == Some(true),
            r.namespace matches Some(n) && n@ == NAMESPACE@,
            r.dylib_name matches Some(n) && n@ == DYLIB_NAME@,
            r.ext_lib is None,
            r.features_def is None,
    {
        Jar {
            ndk_stand_alone: None,
            rustc_param: None,
            release: Some(true),
            namespace: Some(NAMESPACE.to_owned()),
            dylib_name: Some(DYLIB_NAME.to_owned()),
            ext_lib: None,
            features_def: None,
        }
    }
}

impl Jar {
    /// The Java package of the generated code.
    pub fn namespace(&self) -> (r: String)
        ensures
            r@ == or_default(self.namespace, NAMESPACE@),
    {
        match &self.namespace {
            Some(namespace) => namespace.clone(),
            None => NAMESPACE.to_owned(),
        }
    }

    /// Extra parameters for rustc, empty when none are configured.
    pub fn rustc_param(&self) -> (r: String)
        ensures
            r@ == or_default(self.rustc_param, Seq::empty()),
    {
        match &self.rustc_param {
            Some(rustc) => rustc.clone(),
            None => String::new(),
        }
    }

    /// Whether to build in release mode.
    pub open spec fn is_release_spec(&self) -> bool {
        match self.release {
            Some(b) => b,
            None => true,
        }
    }

    /// Whether to build in release mode; release unless configured otherwise.
    pub fn is_release(&self) -> (r: bool)
        ensures
            r == self.is_release_spec(),
    {
        match self.release {
            Some(b) => b,
            None => true,
        }
    }

    /// `--release` in release mode, else empty.
    pub fn release_str(&self) -> (r: String)
        ensures
            r@ == (if self.is_release_spec() { "--release"@ } else { Seq::empty() }),
    {
        if self.is_release() {
            "--release".to_owned()
        } else {
            String::new()
        }
    }

    /// The extra libraries to load, joined by commas.
    pub fn ext_libs(&self) -> (r: String)
        ensures
            r@ == join(list_or(self.ext_lib, Seq::empty()), ","@),
    {
        match &self.ext_lib {
            Some(ext_lib) => join_strings(ext_lib, ","),
            None => {
                let v: Vec<String> = Vec::new();
                assert(strings_view(v@) =~= Seq::<Seq<char>>::empty());
                join_strings(&v, ",")
            },
        }
    }

    /// The name of the dynamic library.
    pub fn dylib_name(&self) -> (r: String)
        ensures
            r@ == or_default(self.dylib_name, DYLIB_NAME@),
    {
        match &self.dylib_name {
            Some(dylib_name) => dylib_name.clone(),
            None => DYLIB_NAME.to_owned(),
        }
    }

    /// The cargo features to build with.
    pub fn features(&self) -> (r: Vec<String>)
        ensures
            strings_view(r@) == list_or(self.features_def, Seq::empty()),
    {
        match &self.features_def {
            Some(features) => clone_strings(features),
            None => {
                let v: Vec<String> = Vec::new();
                assert(strings_view(v@) =~= Seq::<Seq<char>>::empty());
                v
            },
        }
    }
}

} // verus!
