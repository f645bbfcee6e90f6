//! Checking an entry's dependencies against the catalog before anything is
//! written.
use vstd::prelude::*;

use crate::error::PublishError;
use crate::index::{resolvable_name_spec, Dep, Entry, Kind};
use crate::models::{versions_of, Catalog, Krate};
use crate::semver_req::any_satisfies;

verus! {

/// Some dependency in `deps` is checked, names an existing package, and has a
/// requirement that does not parse.
pub open spec fn any_bad_requirement(db: Catalog, deps: Seq<Dep>) -> bool {
    exists|j: int| 0 <= j < deps.len() && db.bad_requirement(#[trigger] deps[j])
}

/// The names of `names`, as character sequences.
pub open spec fn names_view(names: Seq<String>) -> Seq<Seq<char>> {
    names.map_values(|s: String| s@)
}

/// Collects the resolvable names of every non-development dependency that no
/// recorded version satisfies, in the order the dependencies are declared.
/// Development dependencies are never looked up.
pub fn unmet_dependencies(db: &Catalog, deps: &Vec<Dep>) -> (r: Result<Vec<String>, PublishError>)
    requires
        db.wf(),
    ensures
        r is Err <==> any_bad_requirement(*db, deps@),
        r matches Err(e) ==> exists|j: int|
            0 <= j < deps.len() && db.bad_requirement(#[trigger] deps@[j]) && e
                == PublishError::BadRequirement(deps@[j].req),
        r matches Ok(v) ==> names_view(v@) == db.unmet_names(deps@),
{
    let mut names: Vec<String> = Vec::new();
    let mut i: usize = 0;
    while i < deps.len()
        invariant
            db.wf(),
            i <= deps.len(),
            forall|j: int| 0 <= j < i ==> !db.bad_requirement(#[trigger] deps@[j]),
            names_view(names@) == db.unmet_names(deps@.subrange(0, i as int)),
        decreases deps.len() - i,
    {
        let d = &deps[i];
        let ghost prefix = deps@.subrange(0, i as int + 1);
        assert(prefix.drop_last() == deps@.subrange(0, i as int));
        assert(prefix.last() == *d);
        let ghost before = names@;
        if d.kind != Kind::Dev {
            let name = d.resolvable_name();
            match Krate::by_name(db, name.as_str()) {
                None => {
                    names.push(name.clone());
                    assert(names_view(names@) == names_view(before).push(name@));
                },
                Some(k) => {
                    match k.satisfies(db, d.req.as_str()) {
                        Err(_) => {
                            return Err(PublishError::BadRequirement(d.req.clone()));
                        },
                        Ok(found) => {
                            assert(found == db.resolves(name@, d.req@));
                            if !found {
                                names.push(name.clone());
                                assert(names_view(names@) == names_view(before).push(name@));
                            }
                        },
                    }
                },
            }
        }
        i = i + 1;
    }
    assert(deps@.subrange(0, deps.len() as int) == deps@);
    Ok(names)
}

/// Checks every dependency of `entry` against the catalog: succeeds only when
/// each non-development dependency is satisfied by some recorded version.
pub fn check_dependencies(db: &Catalog, entry: &Entry) -> (r: Result<(), PublishError>)
    requires
        db.wf(),
    ensures
        r is Ok <==> !any_bad_requirement(*db, entry.deps@) && db.unmet_names(entry.deps@).len()
            == 0,
        r matches Err(PublishError::UnmetDeps(v)) ==> !any_bad_requirement(*db, entry.deps@)
            && names_view(v@) == db.unmet_names(entry.deps@),
        r matches Err(PublishError::BadRequirement(q)) ==> exists|j: int|
            0 <= j < entry.deps.len() && db.bad_requirement(#[trigger] entry.deps@[j]) && q
                == entry.deps@[j].req,
        r matches Err(e) ==> e is UnmetDeps || e is BadRequirement,
{
    match unmet_dependencies(db, &entry.deps) {
        Err(e) => Err(e),
        Ok(names) => {
            if names.len() == 0 {
                Ok(())
            } else {
                Err(PublishError::UnmetDeps(names))
            }
        },
    }
}

/// A development dependency is never looked up: adding one to a dependency
/// list neither adds an unmet name nor a requirement error, whether or not
/// its package exists.
pub proof fn dev_dependency_is_never_checked(db: Catalog, deps: Seq<Dep>, d: Dep)
    requires
        d.kind == Kind::Dev,
    ensures
        db.unmet_names(deps.push(d)) == db.unmet_names(deps),
        !db.bad_requirement(d),
{
    assert(deps.push(d).drop_last() == deps);
}

/// A dependency whose package exists is satisfied exactly when one of the
/// package's recorded versions parses and meets the requirement; versions
/// that do not parse play no part.
pub proof fn resolves_iff_some_version_matches(db: Catalog, i: int, req: Seq<char>)
    requires
        db.wf(),
        0 <= i < db.krates.len(),
    ensures
        db.resolves(db.krates@[i].name@, req) <==> any_satisfies(
            req,
            versions_of(db.versions@, db.krates@[i].id),
        ),
{
    if db.resolves(db.krates@[i].name@, req) {
        let j = choose|j: int|
            0 <= j < db.krates.len() && #[trigger] db.krates@[j].name@ == db.krates@[i].name@
                && any_satisfies(req, versions_of(db.versions@, db.krates@[j].id));
        if j != i {
            if j < i {
                assert(db.krates@[j].name@ != db.krates@[i].name@);
            } else {
                assert(db.krates@[i].name@ != db.krates@[j].name@);
            }
        }
    }
}

/// The unmet names are exactly the resolvable names of the unmet
/// dependencies: every one of them is listed, not only the first, and nothing
/// else is.
pub proof fn unmet_names_are_all_unresolved(db: Catalog, deps: Seq<Dep>)
    ensures
        forall|j: int|
            0 <= j < deps.len() && db.unmet(#[trigger] deps[j]) ==> db.unmet_names(deps).contains(
                resolvable_name_spec(deps[j]),
            ),
        forall|k: int|
            #![trigger db.unmet_names(deps)[k]]
            0 <= k < db.unmet_names(deps).len() ==> exists|j: int|
                0 <= j < deps.len() && db.unmet(#[trigger] deps[j]) && resolvable_name_spec(deps[j])
                    == db.unmet_names(deps)[k],
    decreases deps.len(),
{
    if deps.len() > 0 {
        let prev = deps.drop_last();
        unmet_names_are_all_unresolved(db, prev);
        let names = db.unmet_names(deps);
        let pnames = db.unmet_names(prev);
        assert forall|j: int|
            0 <= j < deps.len() && db.unmet(#[trigger] deps[j]) implies names.contains(
                resolvable_name_spec(deps[j]),
            ) by {
            if j < deps.len() - 1 {
                assert(prev[j] == deps[j]);
                let k = choose|k: int|
                    0 <= k < pnames.len() && pnames[k] == resolvable_name_spec(deps[j]);
                assert(names[k] == pnames[k]);
            } else {
                assert(names[names.len() - 1] == resolvable_name_spec(deps[j]));
            }
        }
        assert forall|k: int| #![trigger names[k]] 0 <= k < names.len() implies exists|j: int|
            0 <= j < deps.len() && db.unmet(#[trigger] deps[j]) && resolvable_name_spec(deps[j])
                == names[k] by {
            if k < pnames.len() {
                let j = choose|j: int|
                    0 <= j < prev.len() && db.unmet(#[trigger] prev[j]) && resolvable_name_spec(
                        prev[j],
                    ) == pnames[k];
                assert(deps[j] == prev[j]);
            } else {
                assert(deps[deps.len() - 1] == deps.last());
            }
        }
    }
}

} // verus!
