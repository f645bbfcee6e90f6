//! Semantic-version requirements and versions, parsed and matched by the
//! `semver` crate.
use vstd::prelude::*;

verus! {

#[verifier::external_type_specification]
#[verifier::external_body]
pub struct ExVersion(semver::Version);

#[verifier::external_type_specification]
#[verifier::external_body]
pub struct ExVersionReq(semver::VersionReq);

#[verifier::external_type_specification]
#[verifier::external_body]
pub struct ExSemverError(semver::Error);

/// Whether `semver::VersionReq::parse` accepts the text.
pub uninterp spec fn req_parses(text: Seq<char>) -> bool;

/// Whether `semver::Version::parse` accepts the text.
pub uninterp spec fn version_parses(text: Seq<char>) -> bool;

/// Whether the version parsed from `ver` satisfies the requirement parsed from
/// `req`, as `semver::VersionReq::matches` decides.
pub uninterp spec fn req_matches(req: Seq<char>, ver: Seq<char>) -> bool;

/// A parsed version requirement, together with the text it was parsed from.
pub struct Requirement {
    parsed: semver::VersionReq,
    text: Ghost<Seq<char>>,
}

/// A parsed version, together with the text it was parsed from.
pub struct SemVersion {
    parsed: semver::Version,
    text: Ghost<Seq<char>>,
}

impl View for Requirement {
    type V = Seq<char>;

    closed spec fn view(&self) -> Seq<char> {
        self.text@
    }
}

impl View for SemVersion {
    type V = Seq<char>;

    closed spec fn view(&self) -> Seq<char> {
        self.text@
    }
}

/// Relies on `semver::VersionReq::parse`, which either accepts the text or
/// reports an error, the same way for the same text.
#[verifier::external_body]
fn parse_requirement(text: &str) -> (r: Result<Requirement, semver::Error>)
    ensures
        r is Ok <==> req_parses(text@),
        r matches Ok(q) ==> q@ == text@,
{
    match semver::VersionReq::parse(text) {
        Ok(parsed) => Ok(Requirement { parsed, text: Ghost(text@) }),
        Err(e) => Err(e),
    }
}

/// Relies on `semver::Version::parse`, which either accepts the text or
/// reports an error, the same way for the same text.
#[verifier::external_body]
fn parse_version(text: &str) -> (r: Result<SemVersion, semver::Error>)
    ensures
        r is Ok <==> version_parses(text@),
        r matches Ok(v) ==> v@ == text@,
{
    match semver::Version::parse(text) {
        Ok(parsed) => Ok(SemVersion { parsed, text: Ghost(text@) }),
        Err(e) => Err(e),
    }
}

/// Relies on `semver::VersionReq::matches`, a function of the requirement and
/// the version alone.
#[verifier::external_body]
fn requirement_matches(req: &Requirement, ver: &SemVersion) -> (r: bool)
    ensures
        r == req_matches(req@, ver@),
{
    req.parsed.matches(&ver.parsed)
}

/// Some version in `versions` parses and satisfies `req`.
pub open spec fn any_satisfies(req: Seq<char>, versions: Seq<String>) -> bool {
    exists|i: int|
        0 <= i < versions.len() && version_parses(#[trigger] versions[i]@) && req_matches(
            req,
            versions[i]@,
        )
}

/// Whether any of `versions` satisfies the requirement `req`. Version strings
/// that do not parse are skipped; a requirement that does not parse is an error.
pub fn satisfies(req: &str, versions: &Vec<String>) -> (r: Result<bool, semver::Error>)
    ensures
        r is Err <==> !req_parses(req@),
        r matches Ok(b) ==> b == any_satisfies(req@, versions@),
{
    let q = match parse_requirement(req) {
        Ok(q) => q,
        Err(e) => return Err(e),
    };
    let mut i: usize = 0;
    while i < versions.len()
        invariant
            i <= versions.len(),
            q@ == req@,
            req_parses(req@),
            forall|j: int|
                0 <= j < i ==> !(version_parses(#[trigger] versions@[j]@) && req_matches(
                    req@,
                    versions@[j]@,
                )),
        decreases versions.len() - i,
    {
        if let Ok(v) = parse_version(versions[i].as_str()) {
            if requirement_matches(&q, &v) {
                return Ok(true);
            }
        }
        i = i + 1;
    }
    Ok(false)
}

} // verus!
