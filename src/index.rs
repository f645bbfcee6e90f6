//! The canonical published record of one package version.
use std::collections::BTreeMap;
use vstd::prelude::*;

use crate::publish;

verus! {

/// The version tag written into every entry.
pub const ENTRY_FORMAT: u32 = 2;

/// One published version of a package, as stored and as listed in the index.
#[derive(Debug)]
pub struct Entry {
    /// The name of the package
    pub name: String,
    /// Semantic version of the package
    pub vers: String,
    /// The declared dependencies of the package
    pub deps: Vec<Dep>,
    /// The SHA-256 checksum of the package file itself, in lower-case hex
    pub cksum: String,
    /// The features defined by this package
    pub features: BTreeMap<String, Vec<String>>,
    /// Whether or not this version is yanked from the index
    pub yanked: bool,
    /// The package links field
    pub links: Option<String>,
    /// The entry format version
    pub v: u32,
    /// Newer features
    pub features2: Option<BTreeMap<String, Vec<String>>>,
    /// The minimum rust version this package needs
    pub rust_version: Option<String>,
}

/// A dependency as recorded in an entry.
#[derive(Debug)]
pub struct Dep {
    /// The name of the dependency. If the dependency is renamed in the
    /// package then this is the local alias and `package` holds the original
    /// package name.
    pub name: String,
    /// The semver requirement for this package
    pub req: String,
    /// The features enabled for this package
    pub features: Vec<String>,
    /// Whether or not this is an optional dependency
    pub optional: bool,
    /// Whether or not default features are enabled for this dependency
    pub default_features: bool,
    /// The target for this dependency if needed
    pub target: Option<String>,
    /// The kind of this dependency
    pub kind: Kind,
    /// The registry that this dependency comes from; `None` means this one
    pub registry: Option<String>,
    /// If the dependency was renamed, the original package name
    pub package: Option<String>,
}

/// The kind of a dependency.
#[derive(Debug, Clone, Copy, PartialEq, Eq, Structural)]
pub enum Kind {
    Dev,
    Build,
    Normal,
}

/// The recorded form of a declared dependency: a rename becomes the name, and
/// the original name moves to `package`.
pub open spec fn dep_of(d: publish::Dep) -> Dep {
    Dep {
        name: match d.explicit_name_in_toml {
            Some(alias) => alias,
            None => d.name,
        },
        req: d.req,
        features: d.features,
        optional: d.optional,
        default_features: d.default_features,
        target: d.target,
        kind: d.kind,
        registry: d.registry,
        package: match d.explicit_name_in_toml {
            Some(_) => Some(d.name),
            None => None,
        },
    }
}

/// The name under which a recorded dependency is looked up in the catalog:
/// the original package name, whether or not it was renamed.
pub open spec fn resolvable_name_spec(d: Dep) -> Seq<char> {
    match d.package {
        Some(p) => p@,
        None => d.name@,
    }
}

impl Dep {
    /// The name under which this dependency is looked up in the catalog.
    pub fn resolvable_name(&self) -> (r: &String)
        ensures
            r@ == resolvable_name_spec(*self),
    {
        match &self.package {
            Some(p) => p,
            None => &self.name,
        }
    }
}

impl From<publish::Dep> for Dep {
    fn from(value: publish::Dep) -> Dep {
        let (name, package) = match value.explicit_name_in_toml {
            Some(alias) => (alias, Some(value.name)),
            None => (value.name, None),
        };
        Dep {
            name,
            req: value.req,
            features: value.features,
            optional: value.optional,
            default_features: value.default_features,
            target: value.target,
            kind: value.kind,
            registry: value.registry,
            package,
        }
    }
}

impl vstd::std_specs::convert::FromSpecImpl<publish::Dep> for Dep {
    open spec fn obeys_from_spec() -> bool {
        true
    }

    open spec fn from_spec(v: publish::Dep) -> Dep {
        dep_of(v)
    }
}

impl Entry {
    /// Create an index entry from a publish entry and a checksum.
    pub fn from_publish(value: publish::Metadata, cksum: String) -> (r: Entry)
        ensures
            r.name == value.name,
            r.vers == value.vers,
            r.deps@ == value.deps@.map_values(|d: publish::Dep| dep_of(d)),
            r.cksum == cksum,
            r.features == value.features,
            r.yanked == false,
            r.links == value.links,
            r.v == ENTRY_FORMAT,
            r.features2 is None,
            r.rust_version == value.rust_version,
    {
        let ghost orig = value.deps@;
        let mut src = value.deps;
        let mut deps: Vec<Dep> = Vec::new();
        while src.len() > 0
            invariant
                deps.len() + src.len() == orig.len(),
                deps@ == orig.subrange(0, deps.len() as int).map_values(|d: publish::Dep| dep_of(d)),
                src@ == orig.subrange(deps.len() as int, orig.len() as int),
            decreases src.len(),
        {
            let d = src.remove(0);
            let ghost k = deps.len() as int;
            deps.push(Dep::from(d));
            assert(orig.subrange(0, k + 1) == orig.subrange(0, k).push(orig[k]));
        }
        assert(orig.subrange(0, orig.len() as int) == orig);
        Entry {
            name: value.name,
            vers: value.vers,
            deps,
            cksum,
            features: value.features,
            yanked: false,
            links: value.links,
            v: ENTRY_FORMAT,
            features2: None,
            rust_version: value.rust_version,
        }
    }
}

} // verus!
