//! Whether a published version is newer than the installed one.

use vstd::prelude::*;

verus! {

/// A semantic version: three numbers, the pre-release identifiers and the build
/// metadata, each empty where the version has none.
#[derive(Debug)]
pub struct Version {
    pub major: u64,
    pub minor: u64,
    pub patch: u64,
    pub pre: String,
    pub build: String,
}

#[verifier::ext_equal]
pub struct VersionView {
    pub major: u64,
    pub minor: u64,
    pub patch: u64,
    pub pre: Seq<char>,
    pub build: Seq<char>,
}

impl View for Version {
    type V = VersionView;

    open spec fn view(&self) -> VersionView {
        VersionView {
            major: self.major,
            minor: self.minor,
            patch: self.patch,
            pre: self.pre@,
            build: self.build@,
        }
    }
}

pub open spec fn version_result(r: Result<Version, String>) -> Result<VersionView, Seq<char>> {
    match r {
        Ok(version) => Ok(version@),
        Err(text) => Err(text@),
    }
}

/// The version that a text spells, or the text of what is wrong with it.
pub uninterp spec fn parsed_version(text: Seq<char>) -> Result<VersionView, Seq<char>>;

/// Some text spells this version.
pub open spec fn is_spelled(version: VersionView) -> bool {
    exists|text: Seq<char>|
        #[trigger] parsed_version(text) == Ok::<VersionView, Seq<char>>(version)
}

/// Whether the first pair of pre-release identifiers and build metadata ranks
/// above the second, where the three numbers are equal.
pub uninterp spec fn identifiers_exceed(
    pre: Seq<char>,
    build: Seq<char>,
    other_pre: Seq<char>,
    other_build: Seq<char>,
) -> bool;

/// Whether version `a` ranks above version `b`: by the numbers from left to
/// right; then a release ranks above its pre-releases; then `by_identifiers`
/// decides.
pub open spec fn outranks(a: VersionView, b: VersionView, by_identifiers: bool) -> bool {
    if a.major != b.major {
        a.major > b.major
    } else if a.minor != b.minor {
        a.minor > b.minor
    } else if a.patch != b.patch {
        a.patch > b.patch
    } else if a.pre == b.pre && a.build == b.build {
        false
    } else if a.pre.len() == 0 && b.pre.len() > 0 {
        true
    } else if a.pre.len() > 0 && b.pre.len() == 0 {
        false
    } else {
        by_identifiers
    }
}

/// Whether version `a` ranks above version `b`.
pub open spec fn exceeds(a: VersionView, b: VersionView) -> bool {
    outranks(a, b, identifiers_exceed(a.pre, a.build, b.pre, b.build))
}

/// Calls `semver::Version::parse`, and takes the fields of the version, or the
/// text of the error, over: the result is a function of the text.
#[verifier::external_body]
fn parse_version(text: &str) -> (r: Result<Version, String>)
    ensures
        version_result(r) == parsed_version(text@),
{
    match semver::Version::parse(text) {
        Ok(v) => Ok(
            Version {
                major: v.major,
                minor: v.minor,
                patch: v.patch,
                pre: v.pre.as_str().to_owned(),
                build: v.build.as_str().to_owned(),
            },
        ),
        Err(e) => Err(e.to_string()),
    }
}

/// Compares with `>` of `semver::Version`, on versions made again from their
/// fields. The numbers rank first, from left to right; at equal numbers a
/// release ranks above a pre-release; a version does not rank above one with the
/// same fields; what else the pre-release identifiers and the build metadata
/// decide is left to a name. Of two versions at most one ranks above the other.
/// Identifiers that came out of a parsed version are always accepted again.
#[verifier::external_body]
fn ranks_above(a: &Version, b: &Version) -> (r: bool)
    requires
        is_spelled(a@),
        is_spelled(b@),
    ensures
        r == outranks(a@, b@, identifiers_exceed(a.pre@, a.build@, b.pre@, b.build@)),
        r ==> !exceeds(b@, a@),
{
    let made = |v: &Version| semver::Version {
        major: v.major,
        minor: v.minor,
        patch: v.patch,
        pre: semver::Prerelease::new(&v.pre).unwrap(),
        build: semver::BuildMetadata::new(&v.build).unwrap(),
    };
    made(a) > made(b)
}

/// What follows from the two versions: an error where one of them is none, the
/// available one first; else whether the available one ranks above the
/// installed one.
pub open spec fn offer(
    available: Result<VersionView, Seq<char>>,
    installed: Result<VersionView, Seq<char>>,
) -> Result<bool, Seq<char>> {
    match (available, installed) {
        (Err(text), _) => Err(text),
        (Ok(_), Err(text)) => Err(text),
        (Ok(a), Ok(b)) => Ok(exceeds(a, b)),
    }
}

pub open spec fn offer_result(r: Result<bool, String>) -> Result<bool, Seq<char>> {
    match r {
        Ok(newer) => Ok(newer),
        Err(text) => Err(text@),
    }
}

/// Whether the version that `tag` spells is newer than the installed one. It is
/// never newer where the installed one is newer in turn.
pub fn is_newer(tag: &str, installed: &str) -> (r: Result<bool, String>)
    ensures
        offer_result(r) == offer(parsed_version(tag@), parsed_version(installed@)),
        r == Ok::<bool, String>(true) ==> offer(parsed_version(installed@), parsed_version(tag@))
            == Ok::<bool, Seq<char>>(false),
{
    let available = match parse_version(tag) {
        Ok(version) => version,
        Err(text) => {
            return Err(text);
        },
    };
    let current = match parse_version(installed) {
        Ok(version) => version,
        Err(text) => {
            return Err(text);
        },
    };
    Ok(ranks_above(&available, &current))
}

} // verus!
