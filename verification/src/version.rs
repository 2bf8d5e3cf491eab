//! Semantic versions, read by the `semver` crate.

use vstd::prelude::*;
use crate::decode::Decode;
use crate::encode::Encode;
use crate::error::{outcome, DecodeError, ErrorView, Shape};
use crate::node::{kind_of, Node, NodeView};

verus! {

/// What the semantic-version parser makes of a text: the major, minor and patch
/// numbers, the pre-release and the build metadata of the version that the text
/// spells, or nothing where the text spells none.
pub uninterp spec fn parsed_version(text: Seq<char>) -> Option<(u64, u64, u64, Seq<char>, Seq<char>)>;

/// The error of the semantic-version parser. Nothing is read from it.
#[verifier::external_type_specification]
#[verifier::external_body]
pub struct ExVersionError(semver::Error);

/// Calls `semver::Version::parse`, which reads a text as a semantic version and fails
/// on any text that is none. Whether it succeeds, and with which version, is a
/// function of the text alone: it is what [`parsed_version`] names. The three numbers
/// and the two identifiers of the parsed version are handed back as they are, and so
/// is the parser's error.
#[verifier::external_body]
fn parse_version(text: &str) -> (r: Result<(u64, u64, u64, String, String), semver::Error>)
    ensures
        match r {
            Ok(p) => parsed_version(text@) == Some((p.0, p.1, p.2, p.3@, p.4@)),
            Err(_) => parsed_version(text@) is None,
        },
{
    let v = semver::Version::parse(text)?;
    Ok((v.major, v.minor, v.patch, v.pre.as_str().to_string(), v.build.as_str().to_string()))
}

/// A semantic version, with the text that it was read from.
#[derive(Clone, Debug, PartialEq, Eq)]
pub struct Version {
    /// The version as it was written.
    pub text: String,
    /// The major number.
    pub major: u64,
    /// The minor number.
    pub minor: u64,
    /// The patch number.
    pub patch: u64,
    /// The pre-release identifiers, without the hyphen before them; empty where there are none.
    pub pre: String,
    /// The build metadata, without the plus sign before it; empty where there is none.
    pub build: String,
}

/// The mathematical value of a [`Version`].
pub struct VersionView {
    pub text: Seq<char>,
    pub major: u64,
    pub minor: u64,
    pub patch: u64,
    pub pre: Seq<char>,
    pub build: Seq<char>,
}

impl View for Version {
    type V = VersionView;

    open spec fn view(&self) -> VersionView {
        VersionView {
            text: self.text@,
            major: self.major,
            minor: self.minor,
            patch: self.patch,
            pre: self.pre@,
            build: self.build@,
        }
    }
}

impl Version {
    /// What the text `text` is as a version, given what the parser made of it: the
    /// version that holds the text and the parts, or the failure that names the text.
    pub open spec fn of_parts(
        text: Seq<char>,
        parts: Option<(u64, u64, u64, Seq<char>, Seq<char>)>,
    ) -> Result<VersionView, ErrorView> {
        match parts {
            Some(p) => Ok(
                VersionView { text, major: p.0, minor: p.1, patch: p.2, pre: p.3, build: p.4 },
            ),
            None => Err(ErrorView::VersionParse { raw: text }),
        }
    }

    /// What the parser handed back, as mathematical values.
    pub open spec fn parts_view(
        parsed: Result<(u64, u64, u64, String, String), semver::Error>,
    ) -> Option<(u64, u64, u64, Seq<char>, Seq<char>)> {
        match parsed {
            Ok(p) => Some((p.0, p.1, p.2, p.3@, p.4@)),
            Err(_) => None,
        }
    }

    /// Makes a version of a text and of what the parser handed back for the text:
    /// the version with these parts, or the failure that names the text.
    pub fn from_parts(
        text: String,
        parsed: Result<(u64, u64, u64, String, String), semver::Error>,
    ) -> (r: Result<Version, DecodeError>)
        ensures
            outcome(r) == Version::of_parts(text@, Version::parts_view(parsed)),
    {
        match parsed {
            Ok(p) => Ok(
                Version { text, major: p.0, minor: p.1, patch: p.2, pre: p.3, build: p.4 },
            ),
            Err(_) => Err(DecodeError::VersionParse { raw: text }),
        }
    }

    /// Reads a text as a semantic version.
    pub fn parse(text: &str) -> (r: Result<Version, DecodeError>)
        ensures
            outcome(r) == Version::of_parts(text@, parsed_version(text@)),
    {
        let parts = parse_version(text);
        Version::from_parts(text.to_owned(), parts)
    }
}

impl Decode for Version {
    /// A text that the semantic-version parser accepts; a text that it refuses is the
    /// failure that names the text.
    open spec fn decoded(n: NodeView) -> Result<VersionView, ErrorView> {
        match n {
            NodeView::Text(text) => Version::of_parts(text, parsed_version(text)),
            _ => Err(ErrorView::mismatch(Shape::Text, kind_of(n))),
        }
    }

    fn decode(node: &Node) -> (r: Result<Version, DecodeError>)
        ensures
            outcome(r) == Self::decoded(node@),
    {
        match node {
            Node::Text(text) => Version::parse(text.as_str()),
            _ => Err(DecodeError::mismatch(Shape::Text, node.kind())),
        }
    }
}

impl Encode for Version {
    /// The parts are what the parser makes of the text.
    open spec fn regular(v: VersionView) -> bool {
        parsed_version(v.text) == Some((v.major, v.minor, v.patch, v.pre, v.build))
    }

    /// A version is written as the text that it was read from.
    open spec fn encoded(v: VersionView) -> NodeView {
        NodeView::Text(v.text)
    }

    fn encode(&self) -> (n: Node)
        ensures
            n@ == Self::encoded(self@),
    {
        Node::Text(self.text.clone())
    }

    proof fn decoded_is_regular(n: NodeView) {
    }

    proof fn round_trip(v: VersionView) {
    }
}

} // verus!
