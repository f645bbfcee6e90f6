//! The metadata a client sends with an upload.
use std::collections::BTreeMap;
use vstd::prelude::*;

use crate::index::Kind;

verus! {

/// The package description that precedes the content block of an upload.
#[derive(Debug)]
pub struct Metadata {
    /// The name of the package
    pub name: String,
    /// Semantic version of the package
    pub vers: String,
    /// The declared dependencies of the package
    pub deps: Vec<Dep>,
    /// The features defined by this package
    pub features: BTreeMap<String, Vec<String>>,
    /// The package links field
    pub links: Option<String>,
    /// The minimum rust version this package needs
    pub rust_version: Option<String>,
}

/// A dependency as the client declares it.
#[derive(Debug)]
pub struct Dep {
    /// The name of the dependency. If the dependency is renamed in the
    /// package then this is the original package name and the rename is in
    /// `explicit_name_in_toml`.
    pub name: String,
    /// The semver requirement for this package
    pub req: String,
    /// The features enabled for this package
    pub features: Vec<String>,
    /// Whether or not this is an optional dependency
    pub optional: bool,
    /// Whether or not default features are enabled for this dependency
    pub default_features: bool,
    /// The target for this dependency if needed
    pub target: Option<String>,
    /// The kind of this dependency
    pub kind: Kind,
    /// The registry that this dependency comes from; `None` means this one
    pub registry: Option<String>,
    /// If the dependency was renamed, the rename used in the manifest
    pub explicit_name_in_toml: Option<String>,
}

} // verus!
