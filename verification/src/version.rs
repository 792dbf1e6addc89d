//! Semantic versions, as they name the versions of APIs and of specification formats.

use vstd::prelude::*;
use vstd::string::*;
use crate::text::{decimal, u64_to_string};

verus! {

/// What the semantic-version parser gives for a string: the major, minor and patch numbers and
/// the pre-release and build identifiers (empty when absent), or the text of its error.
pub uninterp spec fn semver_parse(s: Seq<char>) -> Result<(u64, u64, u64, Seq<char>, Seq<char>), Seq<char>>;

/// Calls `semver::Version::parse` and takes the parsed version apart into its numbers and the
/// text of its pre-release and build identifiers, or its error into the error's text.
#[verifier::external_body]
fn parse_semver(s: &str) -> (r: Result<(u64, u64, u64, String, String), String>)
    ensures
        match r {
            Ok((major, minor, patch, pre, build)) => semver_parse(s@) == Ok::<
                (u64, u64, u64, Seq<char>, Seq<char>),
                Seq<char>,
            >((major, minor, patch, pre@, build@)),
            Err(e) => semver_parse(s@) == Err::<(u64, u64, u64, Seq<char>, Seq<char>), Seq<char>>(
                e@,
            ),
        },
{
    match semver::Version::parse(s) {
        Ok(v) => Ok((v.major, v.minor, v.patch, v.pre.as_str().to_string(), v.build.as_str().to_string())),
        Err(e) => Err(e.to_string()),
    }
}

/// A semantic version `MAJOR.MINOR.PATCH[-PRE][+BUILD]`.
#[derive(Clone, Debug, PartialEq, Eq, Hash)]
pub struct Version {
    pub major: u64,
    pub minor: u64,
    pub patch: u64,
    pub pre: String,
    pub build: String,
}

/// The text of a version: the three numbers separated by dots, then the pre-release identifier
/// after a `-` and the build identifier after a `+`, each only where it is not empty.
pub open spec fn version_text(
    major: u64,
    minor: u64,
    patch: u64,
    pre: Seq<char>,
    build: Seq<char>,
) -> Seq<char> {
    decimal(major as nat) + "."@ + decimal(minor as nat) + "."@ + decimal(patch as nat) + (if pre.len()
        == 0 {
        Seq::<char>::empty()
    } else {
        "-"@ + pre
    }) + (if build.len() == 0 {
        Seq::<char>::empty()
    } else {
        "+"@ + build
    })
}

impl Version {
    /// The text of this version.
    pub open spec fn spec_text(&self) -> Seq<char> {
        version_text(self.major, self.minor, self.patch, self.pre@, self.build@)
    }

    /// The version `major.minor.patch`, with no pre-release or build identifier.
    pub fn new(major: u64, minor: u64, patch: u64) -> (r: Version)
        ensures
            r.major == major,
            r.minor == minor,
            r.patch == patch,
            r.pre@ == Seq::<char>::empty(),
            r.build@ == Seq::<char>::empty(),
    {
        Version { major, minor, patch, pre: String::new(), build: String::new() }
    }

    /// Parse a semantic version.
    pub fn parse(s: &str) -> (r: Result<Version, String>)
        ensures
            match r {
                Ok(v) => semver_parse(s@) == Ok::<(u64, u64, u64, Seq<char>, Seq<char>), Seq<char>>(
                    (v.major, v.minor, v.patch, v.pre@, v.build@),
                ),
                Err(e) => semver_parse(s@) == Err::<
                    (u64, u64, u64, Seq<char>, Seq<char>),
                    Seq<char>,
                >(e@),
            },
    {
        match parse_semver(s) {
            Ok((major, minor, patch, pre, build)) => Ok(Version { major, minor, patch, pre, build }),
            Err(e) => Err(e),
        }
    }

    /// A copy of this version.
    pub fn duplicate(&self) -> (r: Version)
        ensures
            r.major == self.major,
            r.minor == self.minor,
            r.patch == self.patch,
            r.pre@ == self.pre@,
            r.build@ == self.build@,
    {
        Version {
            major: self.major,
            minor: self.minor,
            patch: self.patch,
            pre: self.pre.clone(),
            build: self.build.clone(),
        }
    }

    /// The text of this version, as it is displayed.
    pub fn to_string(&self) -> (r: String)
        ensures
            r@ == self.spec_text(),
    {
        let mut r = u64_to_string(self.major);
        r.append(".");
        r.append(u64_to_string(self.minor).as_str());
        r.append(".");
        r.append(u64_to_string(self.patch).as_str());
        if self.pre.unicode_len() != 0 {
            r.append("-");
            r.append(self.pre.as_str());
        }
        if self.build.unicode_len() != 0 {
            r.append("+");
            r.append(self.build.as_str());
        }
        r
    }
}

} // verus!
