//! What the compilation of a package works on.

use vstd::prelude::*;
use camino::Utf8PathBuf;
use crate::tyctxt::TyCtxt;

verus! {

#[verifier::external_type_specification]
#[verifier::external_body]
pub struct ExUtf8PathBuf(Utf8PathBuf);

/// A module of a package, as the compilation sees it.
pub struct Module {
    /// Canonicalized path to the module
    pub path: Utf8PathBuf,
    /// Full module name
    pub name: String,
}

/// A package, as the compilation sees it.
pub struct Package {
    /// Canonicalized path to the package
    pub path: Utf8PathBuf,
    /// Package name
    pub name: String,
    /// The package's modules, in no particular order
    pub modules: Vec<Module>,
}

/// A compilation session.
pub struct CompileSess {
    /// Where the compilation writes its outcome
    pub outcome: Utf8PathBuf,
    /// Types context
    pub ctxt: TyCtxt,
}

} // verus!
