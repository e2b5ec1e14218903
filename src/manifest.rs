//! The part of a package manifest that a build reads.
use vstd::prelude::*;

verus! {

/// A package manifest: only its `[package]` table is read.
#[derive(Clone, Debug, PartialEq, Eq)]
pub struct CargoToml {
    pub package: Package,
}

/// The `[package]` table of a manifest.
#[derive(Clone, Debug, PartialEq, Eq)]
pub struct Package {
    pub name: String,
}

impl CargoToml {
    /// The name of the package the manifest describes.
    pub fn project_name(&self) -> (r: String)
        ensures
            r@ == self.package.name@,
    {
        self.package.name.clone()
    }
}

} // verus!
