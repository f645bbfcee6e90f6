//! The write side of a publish, once validation has passed, and the index
//! document read back from the catalog.
use vstd::prelude::*;

use crate::error::PublishError;
use crate::index::Entry;
use crate::models::{lines_of, Catalog, Identity, Krate, KrateVer, MAX_ID};
use crate::store::{chars_of, crate_file_path, crate_path_spec, push_chars};
use vstd::string::StringExecFns;

verus! {

/// Where the content of `entry` is stored, relative to the store's base
/// directory; an empty package name has no storage location.
pub fn storage_path(entry: &Entry) -> (r: Result<String, PublishError>)
    ensures
        r matches Ok(p) ==> crate_path_spec(entry.name@, entry.vers@) == Some(p@),
        r is Err <==> entry.name@.len() == 0,
        r matches Err(e) ==> e is EmptyName,
{
    match crate_file_path(entry.name.as_str(), entry.vers.as_str()) {
        Some(p) => Ok(p),
        None => Err(PublishError::EmptyName),
    }
}

/// Records a validated entry: finds or creates its package, owned by `owner`
/// when created, and appends the version with its serialized form.
pub fn record_publish(db: &mut Catalog, entry: &Entry, owner: &Identity, metadata: String) -> (r: (
    Krate,
    KrateVer,
))
    requires
        old(db).wf(),
        old(db).krates.len() < MAX_ID,
        old(db).versions.len() < MAX_ID,
    ensures
        final(db).wf(),
        r.0.name@ == entry.name@,
        final(db).versions@ == old(db).versions@.push(r.1),
        r.1.krate == r.0.id,
        r.1.exposed,
        r.1.ver == entry.vers,
        r.1.yanked == entry.yanked,
        r.1.metadata == metadata,
        old(db).has_krate(entry.name@) ==> final(db).krates@ == old(db).krates@,
        !old(db).has_krate(entry.name@) ==> final(db).krates@ == old(db).krates@.push(r.0)
            && r.0.owner == owner.id,
{
    let k = Krate::by_name_or_new(db, entry.name.as_str(), owner);
    let v = k.new_version(db, entry, metadata);
    (k, v)
}

/// Lines joined by newline characters, with no separator after the last.
pub open spec fn join_lines(lines: Seq<Seq<char>>) -> Seq<char>
    decreases lines.len(),
{
    if lines.len() == 0 {
        Seq::empty()
    } else if lines.len() == 1 {
        lines[0]
    } else {
        join_lines(lines.drop_last()) + seq!['\n'] + lines.last()
    }
}

/// The index document of a package: one line per recorded version, in the
/// order of creation, joined by newlines.
pub fn index_document(db: &Catalog, krate: &Krate) -> (r: String)
    ensures
        r@ == join_lines(lines_of(db.versions@, krate.id)),
{
    let versions = krate.versions(db);
    let ghost lines = versions@.map_values(|v: KrateVer| v.metadata@);
    let mut doc = String::new();
    let mut i: usize = 0;
    while i < versions.len()
        invariant
            i <= versions.len(),
            lines == versions@.map_values(|v: KrateVer| v.metadata@),
            doc@ == join_lines(lines.subrange(0, i as int)),
        decreases versions.len() - i,
    {
        let ghost prefix = lines.subrange(0, i as int + 1);
        assert(prefix.drop_last() == lines.subrange(0, i as int));
        if i > 0 {
            doc.append("\n");
            proof {
                reveal_strlit("\n");
            }
        }
        let line = versions[i].index_line();
        doc.append(line.as_str());
        i = i + 1;
    }
    assert(lines.subrange(0, versions.len() as int) == lines);
    doc
}

/// Why an index request could not be answered.
#[derive(Debug)]
pub enum KrateIndexError {
    /// The request path names no package; carries the path.
    BadCrateName(String),
    /// No package of that name exists; carries the path.
    UnknownCrate(String),
    /// The catalog failed; carries the reason.
    Database(String),
}

impl KrateIndexError {
    /// The HTTP status with which this error is reported.
    pub fn status_code(&self) -> (r: u16)
        ensures
            r == match *self {
                KrateIndexError::BadCrateName(_) => 400u16,
                KrateIndexError::UnknownCrate(_) => 404u16,
                KrateIndexError::Database(_) => 500u16,
            },
    {
        match self {
            KrateIndexError::BadCrateName(_) => 400,
            KrateIndexError::UnknownCrate(_) => 404,
            KrateIndexError::Database(_) => 500,
        }
    }
}

/// The position of the last `/` in `s`, or -1 when there is none.
pub open spec fn last_slash(s: Seq<char>) -> int
    decreases s.len(),
{
    if s.len() == 0 {
        -1
    } else if s.last() == '/' {
        s.len() - 1
    } else {
        last_slash(s.drop_last())
    }
}

/// The package name an index request path asks for: what follows its last
/// `/`, or `None` when there is no `/` or nothing follows it.
pub open spec fn index_name_spec(path: Seq<char>) -> Option<Seq<char>> {
    let k = last_slash(path);
    if k < 0 || k + 1 == path.len() {
        None
    } else {
        Some(path.subrange(k + 1, path.len() as int))
    }
}

/// The package name an index request path asks for.
pub fn index_krate_name(path: &str) -> (r: Result<String, KrateIndexError>)
    ensures
        r matches Ok(n) ==> index_name_spec(path@) == Some(n@),
        r is Err ==> index_name_spec(path@) is None,
        r matches Err(e) ==> e matches KrateIndexError::BadCrateName(p) && p@ == path@,
{
    let cs = chars_of(path);
    let mut last: Option<usize> = None;
    let mut i: usize = 0;
    while i < cs.len()
        invariant
            i <= cs.len(),
            cs@ == path@,
            match last {
                None => last_slash(cs@.subrange(0, i as int)) == -1,
                Some(k) => k as int == last_slash(cs@.subrange(0, i as int)) && k < i,
            },
        decreases cs.len() - i,
    {
        let ghost prefix = cs@.subrange(0, i as int + 1);
        assert(prefix.drop_last() == cs@.subrange(0, i as int));
        assert(prefix.last() == cs@[i as int]);
        if cs[i] == '/' {
            last = Some(i);
        }
        i = i + 1;
    }
    assert(cs@.subrange(0, cs.len() as int) == cs@);
    let start = match last {
        None => return Err(KrateIndexError::BadCrateName(path.to_owned())),
        Some(k) => k + 1,
    };
    if start == cs.len() {
        return Err(KrateIndexError::BadCrateName(path.to_owned()));
    }
    let mut tail: Vec<char> = Vec::new();
    let mut j: usize = start;
    while j < cs.len()
        invariant
            start <= j <= cs.len(),
            tail@ == cs@.subrange(start as int, j as int),
        decreases cs.len() - j,
    {
        tail.push(cs[j]);
        j = j + 1;
    }
    let mut name = String::new();
    push_chars(&mut name, &tail);
    Ok(name)
}

/// Answers an index request: the index document of the package the path
/// names.
pub fn krate_index(db: &Catalog, path: &str) -> (r: Result<String, KrateIndexError>)
    requires
        db.wf(),
    ensures
        r is Ok <==> (index_name_spec(path@) matches Some(n) && db.has_krate(n)),
        r matches Ok(doc) ==> exists|i: int|
            0 <= i < db.krates.len() && Some(#[trigger] db.krates@[i].name@) == index_name_spec(
                path@,
            ) && doc@ == join_lines(lines_of(db.versions@, db.krates@[i].id)),
        r matches Err(KrateIndexError::UnknownCrate(p)) ==> p@ == path@,
        r matches Err(e) ==> !(e is Database),
{
    let name = match index_krate_name(path) {
        Ok(n) => n,
        Err(e) => return Err(e),
    };
    match Krate::by_name(db, name.as_str()) {
        None => Err(KrateIndexError::UnknownCrate(path.to_owned())),
        Some(k) => Ok(index_document(db, &k)),
    }
}

/// The number of newline characters in `s`.
pub open spec fn newline_count(s: Seq<char>) -> nat {
    s.filter(|c: char| c == '\n').len()
}

/// Joining lines that hold no newline gives a document with exactly one line
/// per entry: one newline fewer than there are lines.
pub proof fn index_has_one_line_per_version(lines: Seq<Seq<char>>)
    requires
        lines.len() > 0,
        forall|i: int| 0 <= i < lines.len() ==> !(#[trigger] lines[i]).contains('\n'),
    ensures
        newline_count(join_lines(lines)) == lines.len() - 1,
    decreases lines.len(),
{
    let p = |c: char| c == '\n';
    let last = lines.last();
    assert(last.all(|c: char| !p(c)));
    last.lemma_all_neg_filter_empty(p);
    if lines.len() > 1 {
        let prev = lines.drop_last();
        assert forall|i: int| 0 <= i < prev.len() implies !(#[trigger] prev[i]).contains('\n') by {
            assert(prev[i] == lines[i]);
        }
        index_has_one_line_per_version(prev);
        let head = join_lines(prev);
        Seq::filter_distributes_over_add(head + seq!['\n'], last, p);
        Seq::filter_distributes_over_add(head, seq!['\n'], p);
        reveal_with_fuel(Seq::filter, 2);
        assert(seq!['\n'].drop_last() == Seq::<char>::empty());
        assert(seq!['\n'].filter(p) == seq!['\n']);
    }
}

} // verus!
