use std::collections::BTreeMap;

use nabu::auth::Authentication;
use nabu::checksum::prepare_entry;
use nabu::configuration::default_port;
use nabu::error::PublishError;
use nabu::index::{Dep, Entry, Kind};
use nabu::models::{Catalog, Identity, Krate, Token};
use nabu::pipeline::{index_document, record_publish, storage_path};
use nabu::publish::{self, Metadata};
use nabu::resolve::{check_dependencies, unmet_dependencies};
use nabu::semver_req::satisfies;
use nabu::store::{crate_file_path, shard};
use nabu::wire::{decode_upload, DecodeError};

fn owner() -> Identity {
    Identity { id: 7, name: "alice".to_string(), admin: false }
}

fn declared(name: &str, req: &str, kind: Kind, rename: Option<&str>) -> publish::Dep {
    publish::Dep {
        name: name.to_string(),
        req: req.to_string(),
        features: vec![],
        optional: false,
        default_features: true,
        target: None,
        kind,
        registry: None,
        explicit_name_in_toml: rename.map(String::from),
    }
}

fn meta(name: &str, vers: &str, deps: Vec<publish::Dep>) -> Metadata {
    Metadata {
        name: name.to_string(),
        vers: vers.to_string(),
        deps,
        features: BTreeMap::new(),
        links: None,
        rust_version: None,
    }
}

fn upload(meta_json: &[u8], content: &[u8]) -> Vec<u8> {
    let mut out = Vec::new();
    out.extend_from_slice(&(meta_json.len() as u32).to_le_bytes());
    out.extend_from_slice(meta_json);
    out.extend_from_slice(&(content.len() as u32).to_le_bytes());
    out.extend_from_slice(content);
    out
}

fn entry_line(e: &Entry) -> String {
    format!("{{\"name\":\"{}\",\"vers\":\"{}\",\"cksum\":\"{}\",\"v\":{}}}", e.name, e.vers, e.cksum, e.v)
}

/// Publishes into the catalog as the server does, with the entry already decoded.
fn publish_into(db: &mut Catalog, m: Metadata, content: &[u8]) -> Result<(String, Entry), PublishError> {
    let entry = prepare_entry(m, &content.to_vec());
    check_dependencies(db, &entry)?;
    let path = storage_path(&entry)?;
    let line = entry_line(&entry);
    record_publish(db, &entry, &owner(), line);
    Ok((path, entry))
}

fn versions_line(db: &Catalog, name: &str) -> String {
    let k = Krate::by_name(db, name).unwrap();
    index_document(db, &k)
}

#[test]
fn checksum_is_sha256_hex() {
    let e = prepare_entry(meta("foo", "1.0.0", vec![]), &b"hello".to_vec());
    assert_eq!(e.cksum, "2cf24dba5fb0a30e26e83b2ac5b9e29e1b161e5c1fa7425e73043362938b9824");
    assert_eq!(e.v, 2);
    assert!(!e.yanked);
    assert!(e.features2.is_none());
}

#[test]
fn checksum_is_deterministic_and_content_sensitive() {
    let a = prepare_entry(meta("foo", "1.0.0", vec![]), &b"abc".to_vec());
    let b = prepare_entry(meta("bar", "2.0.0", vec![]), &b"abc".to_vec());
    let c = prepare_entry(meta("foo", "1.0.0", vec![]), &b"abd".to_vec());
    assert_eq!(a.cksum, b.cksum);
    assert_ne!(a.cksum, c.cksum);
    assert_eq!(a.cksum.len(), 64);
}

#[test]
fn renamed_dependency_keeps_original_as_package() {
    let d: Dep = Dep::from(declared("serde", "^1", Kind::Normal, Some("my_serde")));
    assert_eq!(d.name, "my_serde");
    assert_eq!(d.package.as_deref(), Some("serde"));
    assert_eq!(d.resolvable_name(), "serde");
    let plain: Dep = Dep::from(declared("serde", "^1", Kind::Build, None));
    assert_eq!(plain.name, "serde");
    assert!(plain.package.is_none());
    assert_eq!(plain.kind, Kind::Build);
}

#[test]
fn entry_copies_metadata() {
    let mut m = meta("foo", "0.3.1", vec![declared("bar", "1", Kind::Dev, None)]);
    m.links = Some("z".to_string());
    m.rust_version = Some("1.70".to_string());
    let e = Entry::from_publish(m, "abc".to_string());
    assert_eq!(e.name, "foo");
    assert_eq!(e.vers, "0.3.1");
    assert_eq!(e.cksum, "abc");
    assert_eq!(e.deps.len(), 1);
    assert_eq!(e.deps[0].kind, Kind::Dev);
    assert_eq!(e.links.as_deref(), Some("z"));
    assert_eq!(e.rust_version.as_deref(), Some("1.70"));
}

#[test]
fn shards_follow_name_length() {
    assert_eq!(shard("a").as_deref(), Some("1"));
    assert_eq!(shard("ab").as_deref(), Some("2"));
    assert_eq!(shard("abc").as_deref(), Some("3/a"));
    assert_eq!(shard("abcd").as_deref(), Some("ab/cd"));
    assert_eq!(shard("serde").as_deref(), Some("se/rd"));
    assert_eq!(shard(""), None);
}

#[test]
fn content_path_has_shard_name_and_version() {
    assert_eq!(crate_file_path("foo", "1.0.0").as_deref(), Some("3/f/foo-1.0.0.crate"));
    assert_eq!(crate_file_path("x", "0.1.0").as_deref(), Some("1/x-0.1.0.crate"));
    assert_eq!(crate_file_path("", "0.1.0"), None);
}

#[test]
fn caret_requirement_matches_any_version() {
    let vs = vec!["0.9.0".to_string(), "1.4.2".to_string()];
    assert!(satisfies("^1.0", &vs).unwrap());
    assert!(!satisfies("^1.0", &vec!["0.9.0".to_string(), "2.0.0".to_string()]).unwrap());
    assert!(!satisfies("^1.0", &vec![]).unwrap());
}

#[test]
fn malformed_versions_are_skipped() {
    let vs = vec!["not-a-version".to_string(), "1.0.5".to_string()];
    assert!(satisfies("^1.0", &vs).unwrap());
    assert!(!satisfies("^1.0", &vec!["1.x.y".to_string()]).unwrap());
}

#[test]
fn malformed_requirement_is_an_error() {
    assert!(satisfies("not a requirement!", &vec!["1.0.0".to_string()]).is_err());
}

#[test]
fn by_name_or_new_creates_once() {
    let mut db = Catalog::new();
    let a = Krate::by_name_or_new(&mut db, "foo", &owner());
    let b = Krate::by_name_or_new(&mut db, "foo", &Identity { id: 9, name: "bob".to_string(), admin: true });
    assert_eq!(a.id, b.id);
    assert_eq!(b.owner, 7);
    assert_eq!(db.krates.len(), 1);
    assert!(Krate::by_name(&db, "fo").is_none());
}

#[test]
fn dev_dependency_is_never_checked() {
    let db = Catalog::new();
    let deps = vec![Dep::from(declared("missing", "not a requirement!", Kind::Dev, None))];
    assert!(unmet_dependencies(&db, &deps).unwrap().is_empty());
}

#[test]
fn every_unmet_dependency_is_listed() {
    let mut db = Catalog::new();
    publish_into(&mut db, meta("present", "1.2.0", vec![]), b"x").unwrap();
    let deps = vec![
        Dep::from(declared("bar", "1.0", Kind::Normal, None)),
        Dep::from(declared("present", "^1.0", Kind::Normal, None)),
        Dep::from(declared("present", "^2.0", Kind::Build, None)),
        Dep::from(declared("baz", "1.0", Kind::Build, Some("alias"))),
    ];
    let unmet = unmet_dependencies(&db, &deps).unwrap();
    assert_eq!(unmet, vec!["bar".to_string(), "present".to_string(), "baz".to_string()]);
}

#[test]
fn renamed_dependency_resolves_by_original_name() {
    let mut db = Catalog::new();
    publish_into(&mut db, meta("serde", "1.0.1", vec![]), b"x").unwrap();
    let deps = vec![Dep::from(declared("serde", "^1.0", Kind::Normal, Some("my_serde")))];
    assert!(unmet_dependencies(&db, &deps).unwrap().is_empty());
}

#[test]
fn bad_requirement_on_existing_package_fails() {
    let mut db = Catalog::new();
    publish_into(&mut db, meta("present", "1.2.0", vec![]), b"x").unwrap();
    let e = meta("foo", "1.0.0", vec![declared("present", "not a requirement!", Kind::Normal, None)]);
    let err = publish_into(&mut db, e, b"y").unwrap_err();
    assert!(matches!(&err, PublishError::BadRequirement(q) if q == "not a requirement!"));
    assert_eq!(err.status_code(), 500);
}

#[test]
fn publish_new_package_end_to_end() {
    let mut db = Catalog::new();
    let body = upload(b"{\"name\":\"foo\"}", b"content");
    let up = decode_upload(&body).unwrap();
    let (path, _entry) = publish_into(&mut db, meta("foo", "1.0.0", vec![]), &up.content).unwrap();
    assert_eq!(path, "3/f/foo-1.0.0.crate");
    assert_eq!(db.krates.len(), 1);
    assert_eq!(db.versions.len(), 1);
    assert_eq!(db.krates[0].name, "foo");
    assert_eq!(db.krates[0].owner, 7);
    assert_eq!(db.versions[0].ver, "1.0.0");
    assert!(db.versions[0].exposed);
    assert!(!db.versions[0].yanked);
}

#[test]
fn publish_with_unpublished_dependency_fails() {
    let mut db = Catalog::new();
    let m = meta("foo", "1.0.0", vec![declared("bar", "1.0", Kind::Normal, None)]);
    let err = publish_into(&mut db, m, b"content").unwrap_err();
    match &err {
        PublishError::UnmetDeps(names) => assert_eq!(names, &vec!["bar".to_string()]),
        other => panic!("unexpected error {other:?}"),
    }
    assert_eq!(err.status_code(), 400);
    assert!(db.krates.is_empty());
    assert!(db.versions.is_empty());
}

#[test]
fn index_lists_versions_in_creation_order() {
    let mut db = Catalog::new();
    let (_, e1) = publish_into(&mut db, meta("foo", "1.0.0", vec![]), b"one").unwrap();
    let (_, e2) = publish_into(&mut db, meta("foo", "1.1.0", vec![]), b"two").unwrap();
    publish_into(&mut db, meta("other", "3.0.0", vec![]), b"three").unwrap();
    let doc = versions_line(&db, "foo");
    let lines: Vec<&str> = doc.split('\n').collect();
    assert_eq!(lines, vec![entry_line(&e1), entry_line(&e2)]);
    assert!(lines[0].contains("\"vers\":\"1.0.0\""));
    assert!(lines[1].contains("\"vers\":\"1.1.0\""));
    assert_eq!(db.krates.len(), 2);
}

#[test]
fn empty_package_name_has_no_storage() {
    let mut db = Catalog::new();
    let err = publish_into(&mut db, meta("", "1.0.0", vec![]), b"x").unwrap_err();
    assert!(matches!(err, PublishError::EmptyName));
    assert!(db.versions.is_empty());
}

#[test]
fn framing_errors_are_client_errors() {
    let e: PublishError = PublishError::from(DecodeError::InvalidBodyLength { need: 5, had: 3 });
    assert!(matches!(e, PublishError::InvalidBodyLength { need: 5, had: 3 }));
    assert_eq!(e.status_code(), 400);
    assert_eq!(PublishError::from(DecodeError::TooShort(2)).status_code(), 400);
    assert_eq!(PublishError::Deserialize("deps[0].kind".to_string()).status_code(), 400);
    assert_eq!(PublishError::StorageIO("disk full".to_string()).status_code(), 500);
    assert_eq!(PublishError::Database("gone".to_string()).status_code(), 500);
}

#[test]
fn default_port_is_1537() {
    assert_eq!(default_port(), 1537);
}

#[test]
fn authentication_returns_its_parts() {
    let token = Token { id: 1, identity: 7, title: "ci".to_string(), content: "tok-0001".to_string() };
    let auth = Authentication::new(owner(), token);
    assert_eq!(auth.identity().name, "alice");
    assert_eq!(auth.token().title, "ci");
}
