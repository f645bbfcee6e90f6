//! The catalog of packages and their published versions.
use vstd::prelude::*;

use crate::error::PublishError;
use crate::index::{resolvable_name_spec, Dep, Entry, Kind};
use crate::semver_req::{any_satisfies, req_parses, satisfies};

verus! {

/// A registry user.
#[derive(Debug)]
pub struct Identity {
    pub id: i32,
    pub name: String,
    pub admin: bool,
}

/// A user about to be created.
pub struct NewIdentity<'a> {
    pub name: &'a str,
    pub admin: bool,
}

/// An API token owned by a user.
#[derive(Debug)]
pub struct Token {
    pub id: i32,
    pub identity: i32,
    pub title: String,
    pub content: String,
}

/// A token about to be created.
pub struct NewToken<'a> {
    pub identity: i32,
    pub title: &'a str,
}

/// A package: a unique name and its owner.
#[derive(Debug)]
pub struct Krate {
    pub id: i32,
    pub name: String,
    pub owner: i32,
}

/// A package about to be created.
pub struct NewKrate<'a> {
    pub name: &'a str,
    pub owner: i32,
}

/// One published version of a package, with its serialized entry.
#[derive(Debug)]
pub struct KrateVer {
    pub id: i32,
    pub krate: i32,
    pub exposed: bool,
    pub ver: String,
    pub yanked: bool,
    pub metadata: String,
}

/// A version about to be recorded.
pub struct NewKrateVer<'a> {
    pub krate: i32,
    pub exposed: bool,
    pub ver: &'a str,
    pub yanked: bool,
    pub metadata: String,
}

/// The packages and versions published so far, in the order of creation.
pub struct Catalog {
    pub krates: Vec<Krate>,
    pub versions: Vec<KrateVer>,
}

/// The largest id a row can take.
pub const MAX_ID: i32 = 0x7fff_ffff;

/// The version strings recorded for package `id`, in the order of creation.
pub open spec fn versions_of(vs: Seq<KrateVer>, id: i32) -> Seq<String>
    decreases vs.len(),
{
    if vs.len() == 0 {
        Seq::empty()
    } else if vs.last().krate == id {
        versions_of(vs.drop_last(), id).push(vs.last().ver)
    } else {
        versions_of(vs.drop_last(), id)
    }
}

/// The serialized entries recorded for package `id`, in the order of creation.
pub open spec fn lines_of(vs: Seq<KrateVer>, id: i32) -> Seq<Seq<char>>
    decreases vs.len(),
{
    if vs.len() == 0 {
        Seq::empty()
    } else if vs.last().krate == id {
        lines_of(vs.drop_last(), id).push(vs.last().metadata@)
    } else {
        lines_of(vs.drop_last(), id)
    }
}

impl Catalog {
    /// Package ids follow creation order and package names are unique.
    pub open spec fn wf(&self) -> bool {
        &&& forall|i: int| 0 <= i < self.krates.len() ==> #[trigger] self.krates@[i].id == i + 1
        &&& forall|i: int, j: int|
            0 <= i < j < self.krates.len() ==> #[trigger] self.krates@[i].name@
                != #[trigger] self.krates@[j].name@
        &&& forall|i: int|
            0 <= i < self.versions.len() ==> #[trigger] self.versions@[i].id == i + 1
    }

    /// A package of that name exists.
    pub open spec fn has_krate(&self, name: Seq<char>) -> bool {
        exists|i: int| 0 <= i < self.krates.len() && #[trigger] self.krates@[i].name@ == name
    }

    /// Some recorded version of the package named `name` satisfies `req`.
    pub open spec fn resolves(&self, name: Seq<char>, req: Seq<char>) -> bool {
        exists|i: int|
            0 <= i < self.krates.len() && #[trigger] self.krates@[i].name@ == name
                && any_satisfies(req, versions_of(self.versions@, self.krates@[i].id))
    }

    /// The dependency is checked and cannot be resolved.
    pub open spec fn unmet(&self, d: Dep) -> bool {
        d.kind != Kind::Dev && !self.resolves(resolvable_name_spec(d), d.req@)
    }

    /// The dependency is checked, its package exists, and its requirement
    /// does not parse.
    pub open spec fn bad_requirement(&self, d: Dep) -> bool {
        d.kind != Kind::Dev && self.has_krate(resolvable_name_spec(d)) && !req_parses(d.req@)
    }

    /// The resolvable names of the unmet dependencies among `deps`, in order.
    pub open spec fn unmet_names(&self, deps: Seq<Dep>) -> Seq<Seq<char>>
        decreases deps.len(),
    {
        if deps.len() == 0 {
            Seq::empty()
        } else if self.unmet(deps.last()) {
            self.unmet_names(deps.drop_last()).push(resolvable_name_spec(deps.last()))
        } else {
            self.unmet_names(deps.drop_last())
        }
    }

    /// An empty catalog.
    pub fn new() -> (r: Catalog)
        ensures
            r.wf(),
            r.krates@.len() == 0,
            r.versions@.len() == 0,
    {
        Catalog { krates: Vec::new(), versions: Vec::new() }
    }
}

impl Krate {
    /// A copy of this package record.
    pub fn copy(&self) -> (r: Krate)
        ensures
            r == *self,
    {
        Krate { id: self.id, name: self.name.clone(), owner: self.owner }
    }

    /// The package of that exact name, if there is one.
    pub fn by_name(db: &Catalog, name: &str) -> (r: Option<Krate>)
        requires
            db.wf(),
        ensures
            r is None <==> !db.has_krate(name@),
            r matches Some(k) ==> exists|i: int|
                0 <= i < db.krates.len() && #[trigger] db.krates@[i] == k && k.name@ == name@,
    {
        let target = name.to_owned();
        let mut i: usize = 0;
        while i < db.krates.len()
            invariant
                i <= db.krates.len(),
                target@ == name@,
                forall|j: int| 0 <= j < i ==> #[trigger] db.krates@[j].name@ != name@,
            decreases db.krates.len() - i,
        {
            if db.krates[i].name == target {
                return Some(db.krates[i].copy());
            }
            i = i + 1;
        }
        None
    }

    /// Records a new package with the given name and owner.
    pub fn new(db: &mut Catalog, name: &str, owner: &Identity) -> (r: Krate)
        requires
            old(db).wf(),
            !old(db).has_krate(name@),
            old(db).krates.len() < MAX_ID,
        ensures
            final(db).wf(),
            r.name@ == name@,
            r.owner == owner.id,
            r.id == old(db).krates.len() + 1,
            final(db).krates@ == old(db).krates@.push(r),
            final(db).versions@ == old(db).versions@,
    {
        let newkrate = NewKrate { name, owner: owner.id };
        let k = Krate {
            id: (db.krates.len() + 1) as i32,
            name: newkrate.name.to_owned(),
            owner: newkrate.owner,
        };
        db.krates.push(k.copy());
        k
    }

    /// The package of that name, created with the given owner if it does not
    /// exist yet.
    pub fn by_name_or_new(db: &mut Catalog, name: &str, owner: &Identity) -> (r: Krate)
        requires
            old(db).wf(),
            old(db).krates.len() < MAX_ID,
        ensures
            final(db).wf(),
            r.name@ == name@,
            final(db).versions@ == old(db).versions@,
            old(db).has_krate(name@) ==> final(db).krates@ == old(db).krates@ && exists|i: int|
                0 <= i < old(db).krates.len() && #[trigger] old(db).krates@[i] == r,
            !old(db).has_krate(name@) ==> final(db).krates@ == old(db).krates@.push(r)
                && r.owner == owner.id && r.id == old(db).krates.len() + 1,
    {
        match Krate::by_name(db, name) {
            Some(k) => k,
            None => Krate::new(db, name, owner),
        }
    }

    /// Records a version of this package from its entry and the entry's
    /// serialized form.
    pub fn new_version(&self, db: &mut Catalog, entry: &Entry, metadata: String) -> (r: KrateVer)
        requires
            old(db).wf(),
            old(db).versions.len() < MAX_ID,
        ensures
            final(db).wf(),
            final(db).krates@ == old(db).krates@,
            final(db).versions@ == old(db).versions@.push(r),
            r.id == old(db).versions.len() + 1,
            r.krate == self.id,
            r.exposed,
            r.ver == entry.vers,
            r.yanked == entry.yanked,
            r.metadata == metadata,
    {
        let newver = NewKrateVer {
            krate: self.id,
            exposed: true,
            ver: entry.vers.as_str(),
            yanked: entry.yanked,
            metadata,
        };
        let v = KrateVer {
            id: (db.versions.len() + 1) as i32,
            krate: newver.krate,
            exposed: newver.exposed,
            ver: entry.vers.clone(),
            yanked: newver.yanked,
            metadata: newver.metadata,
        };
        db.versions.push(v.copy());
        v
    }

    /// The version strings recorded for this package, in the order of creation.
    pub fn version_strings(&self, db: &Catalog) -> (r: Vec<String>)
        ensures
            r@ == versions_of(db.versions@, self.id),
    {
        let mut r: Vec<String> = Vec::new();
        let mut i: usize = 0;
        while i < db.versions.len()
            invariant
                i <= db.versions.len(),
                r@ == versions_of(db.versions@.subrange(0, i as int), self.id),
            decreases db.versions.len() - i,
        {
            let ghost prefix = db.versions@.subrange(0, i as int + 1);
            assert(prefix.drop_last() == db.versions@.subrange(0, i as int));
            if db.versions[i].krate == self.id {
                r.push(db.versions[i].ver.clone());
            }
            i = i + 1;
        }
        assert(db.versions@.subrange(0, db.versions.len() as int) == db.versions@);
        r
    }

    /// The recorded versions of this package, in the order of creation.
    pub fn versions(&self, db: &Catalog) -> (r: Vec<KrateVer>)
        ensures
            r@.map_values(|v: KrateVer| v.metadata@) == lines_of(db.versions@, self.id),
            forall|j: int| 0 <= j < r.len() ==> (#[trigger] r@[j]).krate == self.id,
    {
        let mut r: Vec<KrateVer> = Vec::new();
        let mut i: usize = 0;
        while i < db.versions.len()
            invariant
                i <= db.versions.len(),
                r@.map_values(|v: KrateVer| v.metadata@) == lines_of(
                    db.versions@.subrange(0, i as int),
                    self.id,
                ),
                forall|j: int| 0 <= j < r.len() ==> (#[trigger] r@[j]).krate == self.id,
            decreases db.versions.len() - i,
        {
            let ghost prefix = db.versions@.subrange(0, i as int + 1);
            assert(prefix.drop_last() == db.versions@.subrange(0, i as int));
            if db.versions[i].krate == self.id {
                let ghost before = r@;
                r.push(db.versions[i].copy());
                assert(r@.map_values(|v: KrateVer| v.metadata@) == before.map_values(
                    |v: KrateVer| v.metadata@,
                ).push(db.versions@[i as int].metadata@));
            }
            i = i + 1;
        }
        assert(db.versions@.subrange(0, db.versions.len() as int) == db.versions@);
        r
    }

    /// Whether some recorded version of this package satisfies `req`.
    /// Recorded versions that do not parse are skipped; a requirement that
    /// does not parse is an error.
    pub fn satisfies(&self, db: &Catalog, req: &str) -> (r: Result<bool, semver::Error>)
        ensures
            r is Err <==> !req_parses(req@),
            r matches Ok(b) ==> b == any_satisfies(req@, versions_of(db.versions@, self.id)),
    {
        let versions = self.version_strings(db);
        satisfies(req, &versions)
    }
}

impl KrateVer {
    /// A copy of this version record.
    pub fn copy(&self) -> (r: KrateVer)
        ensures
            r == *self,
    {
        KrateVer {
            id: self.id,
            krate: self.krate,
            exposed: self.exposed,
            ver: self.ver.clone(),
            yanked: self.yanked,
            metadata: self.metadata.clone(),
        }
    }

    /// The index line of this version: its serialized entry.
    pub fn index_line(&self) -> (r: String)
        ensures
            r@ == self.metadata@,
    {
        self.metadata.clone()
    }
}

} // verus!
