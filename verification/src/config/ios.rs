//! iOS configuration, the `[ios]` table of Rsbind.toml.

use vstd::prelude::*;

use crate::config::{list_or, or_default};
use crate::text::{clone_strings, strings_view};

verus! {

/// The device architectures built when none are configured.
pub open spec fn default_phone_archs() -> Seq<Seq<char>> {
    seq!["aarch64-apple-ios"@, "armv7-apple-ios"@]
}

/// The simulator architectures built when none are configured.
pub open spec fn default_simulator_archs() -> Seq<Seq<char>> {
    seq!["i386-apple-ios"@, "x86_64-apple-ios"@]
}

/// The default device architectures, as strings.
pub fn phone_archs() -> (r: Vec<String>)
    ensures
        strings_view(r@) == default_phone_archs(),
{
    let mut r: Vec<String> = Vec::new();
    r.push("aarch64-apple-ios".to_owned());
    r.push("armv7-apple-ios".to_owned());
    assert(strings_view(r@) =~= default_phone_archs());
    r
}

/// The default simulator architectures, as strings.
pub fn simulator_archs() -> (r: Vec<String>)
    ensures
        strings_view(r@) == default_simulator_archs(),
{
    let mut r: Vec<String> = Vec::new();
    r.push("i386-apple-ios".to_owned());
    r.push("x86_64-apple-ios".to_owned());
    assert(strings_view(r@) =~= default_simulator_archs());
    r
}

/// iOS Configuration struct
#[derive(Clone, Debug)]
pub struct Ios {
    pub rustc_param: Option<String>,
    pub arch_phone: Option<Vec<String>>,
    pub arch_simu: Option<Vec<String>>,
    pub release: Option<bool>,
    pub features_def: Option<Vec<String>>,
}

impl Default for Ios {
    fn default() -> (r: Self)
        ensures
            r.rustc_param is None,
            r.arch_phone is Some,
            list_or(r.arch_phone, Seq::empty()) == default_phone_archs(),
            r.arch_simu is Some,
            list_or(r.arch_simu, Seq::empty()) == default_simulator_archs(),
            r.release == Some(true),
            r.features_def is None,
    {
        Ios {
            rustc_param: None,
            arch_phone: Some(phone_archs()),
            arch_simu: Some(simulator_archs()),
            release: Some(true),
            features_def: None,
        }
    }
}

impl Ios {
    /// Extra parameters for rustc, empty when none are configured.
    pub fn rustc_param(&self) -> (r: String)
        ensures
            r@ == or_default(self.rustc_param, Seq::empty()),
    {
        match &self.rustc_param {
            Some(rustc) => rustc.clone(),
            None => String::new(),
        }
    }

    /// `--release` in release mode, else empty.
    pub fn release_str(&self) -> (r: String)
        ensures
            r@ == (if self.is_release_spec() { "--release"@ } else { Seq::empty() }),
    {
        if self.is_release() {
            "--release".to_owned()
        } else {
            String::new()
        }
    }

    /// Whether to build in release mode.
    pub open spec fn is_release_spec(&self) -> bool {
        match self.release {
            Some(b) => b,
            None => true,
        }
    }

    /// Whether to build in release mode; release unless configured otherwise.
    pub fn is_release(&self) -> (r: bool)
        ensures
            r == self.is_release_spec(),
    {
        match self.release {
            Some(b) => b,
            None => true,
        }
    }

    /// The device target triples to build for.
    pub fn iphoneos_archs(&self) -> (r: Vec<String>)
        ensures
            strings_view(r@) == list_or(self.arch_phone, default_phone_archs()),
    {
        match &self.arch_phone {
            Some(arch) => clone_strings(arch),
            None => phone_archs(),
        }
    }

    /// The simulator target triples to build for.
    pub fn simulator_archs(&self) -> (r: Vec<String>)
        ensures
            strings_view(r@) == list_or(self.arch_simu, default_simulator_archs()),
    {
        match &self.arch_simu {
            Some(arch) => clone_strings(arch),
            None => simulator_archs(),
        }
    }

    /// The cargo features to build with.
    pub fn features(&self) -> (r: Vec<String>)
        ensures
            strings_view(r@) == list_or(self.features_def, Seq::empty()),
    {
        match &self.features_def {
            Some(features) => clone_strings(features),
            None => {
                let v: Vec<String> = Vec::new();
                assert(strings_view(v@) =~= Seq::<Seq<char>>::empty());
                v
            },
        }
    }
}

} // verus!
