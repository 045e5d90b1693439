//! Configuration of the tool, mapped from Rsbind.toml.

use vstd::prelude::*;

use crate::text::strings_view;

pub mod android;
pub mod arch;
pub mod ios;
pub mod jar;

use self::android::Android;
use self::ios::Ios;
use self::jar::Jar;

verus! {

/// A configured string, or the default.
pub open spec fn or_default(v: Option<String>, default: Seq<char>) -> Seq<char> {
    match v {
        Some(s) => s@,
        None => default,
    }
}

/// A configured list of strings, or the default.
pub open spec fn list_or(v: Option<Vec<String>>, default: Seq<Seq<char>>) -> Seq<Seq<char>> {
    match v {
        Some(l) => strings_view(l@),
        None => default,
    }
}

/// Configuration mapped from Rsbind.toml.
#[derive(Clone, Debug)]
pub struct Config {
    pub android: Option<Android>,
    pub ios: Option<Ios>,
    pub jar: Option<Jar>,
    pub common: Option<Common>,
}

/// The `[common]` table: the module names of the contract and of its
/// implementation in the host crate.
#[derive(Clone, Debug)]
pub struct Common {
    pub contract_name: Option<String>,
    pub imp_name: Option<String>,
}

} // verus!
