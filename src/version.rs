//! Semantic versions: a plain-value model and its precedence order.
use std::cmp::Ordering;
use vstd::prelude::*;

verus! {

/// One dot-separated identifier of a pre-release or build part.
#[derive(Clone, Debug, PartialEq, Eq)]
pub enum Identifier {
    Numeric(u64),
    AlphaNumeric(String),
}

/// A semantic version `major.minor.patch[-pre][+build]`.
#[derive(Clone, Debug)]
pub struct Version {
    pub major: u64,
    pub minor: u64,
    pub patch: u64,
    pub pre: Vec<Identifier>,
    pub build: Vec<Identifier>,
}

/// Why a string is not a semantic version.
#[derive(Clone, Debug, PartialEq, Eq)]
pub struct VersionParseError {
    pub message: String,
}

/// Mathematical model of an [`Identifier`].
pub enum IdentifierModel {
    Numeric(nat),
    AlphaNumeric(Seq<char>),
}

/// Mathematical model of a [`Version`].
pub struct VersionModel {
    pub major: nat,
    pub minor: nat,
    pub patch: nat,
    pub pre: Seq<IdentifierModel>,
    pub build: Seq<IdentifierModel>,
}

impl View for Identifier {
    type V = IdentifierModel;

    open spec fn view(&self) -> IdentifierModel {
        match self {
            Identifier::Numeric(n) => IdentifierModel::Numeric(*n as nat),
            Identifier::AlphaNumeric(s) => IdentifierModel::AlphaNumeric(s@),
        }
    }
}

pub open spec fn identifiers_model(ids: Seq<Identifier>) -> Seq<IdentifierModel> {
    ids.map_values(|id: Identifier| id@)
}

impl View for Version {
    type V = VersionModel;

    open spec fn view(&self) -> VersionModel {
        VersionModel {
            major: self.major as nat,
            minor: self.minor as nat,
            patch: self.patch as nat,
            pre: identifiers_model(self.pre@),
            build: identifiers_model(self.build@),
        }
    }
}

/// The model of a version that may be missing.
pub open spec fn optional_model(v: Option<Version>) -> Option<VersionModel> {
    match v {
        Some(v) => Some(v@),
        None => None,
    }
}

pub open spec fn flip(o: Ordering) -> Ordering {
    match o {
        Ordering::Less => Ordering::Greater,
        Ordering::Equal => Ordering::Equal,
        Ordering::Greater => Ordering::Less,
    }
}

pub open spec fn cmp_int(a: int, b: int) -> Ordering {
    if a < b {
        Ordering::Less
    } else if a > b {
        Ordering::Greater
    } else {
        Ordering::Equal
    }
}

/// Lexicographic order of character sequences (the order of `String`).
pub open spec fn cmp_text(a: Seq<char>, b: Seq<char>) -> Ordering
    decreases a.len(),
{
    if a.len() == 0 {
        if b.len() == 0 {
            Ordering::Equal
        } else {
            Ordering::Less
        }
    } else if b.len() == 0 {
        Ordering::Greater
    } else if a[0] != b[0] {
        cmp_int(a[0] as int, b[0] as int)
    } else {
        cmp_text(a.drop_first(), b.drop_first())
    }
}

/// Numeric identifiers come before alphanumeric ones; each kind is ordered by its value.
pub open spec fn cmp_identifier(a: IdentifierModel, b: IdentifierModel) -> Ordering {
    match (a, b) {
        (IdentifierModel::Numeric(x), IdentifierModel::Numeric(y)) => cmp_int(x as int, y as int),
        (IdentifierModel::Numeric(_), IdentifierModel::AlphaNumeric(_)) => Ordering::Less,
        (IdentifierModel::AlphaNumeric(_), IdentifierModel::Numeric(_)) => Ordering::Greater,
        (IdentifierModel::AlphaNumeric(x), IdentifierModel::AlphaNumeric(y)) => cmp_text(x, y),
    }
}

/// Lexicographic order of identifier lists.
pub open spec fn cmp_identifiers(a: Seq<IdentifierModel>, b: Seq<IdentifierModel>) -> Ordering
    decreases a.len(),
{
    if a.len() == 0 {
        if b.len() == 0 {
            Ordering::Equal
        } else {
            Ordering::Less
        }
    } else if b.len() == 0 {
        Ordering::Greater
    } else if cmp_identifier(a[0], b[0]) != Ordering::Equal {
        cmp_identifier(a[0], b[0])
    } else {
        cmp_identifiers(a.drop_first(), b.drop_first())
    }
}

/// Semantic-version precedence: major, minor, patch, then the pre-release part, where
/// a version without one comes after every version with one. Build metadata is ignored.
pub open spec fn version_cmp(a: VersionModel, b: VersionModel) -> Ordering {
    if a.major != b.major {
        cmp_int(a.major as int, b.major as int)
    } else if a.minor != b.minor {
        cmp_int(a.minor as int, b.minor as int)
    } else if a.patch != b.patch {
        cmp_int(a.patch as int, b.patch as int)
    } else if a.pre.len() == 0 && b.pre.len() == 0 {
        Ordering::Equal
    } else if a.pre.len() == 0 {
        Ordering::Greater
    } else if b.pre.len() == 0 {
        Ordering::Less
    } else {
        cmp_identifiers(a.pre, b.pre)
    }
}

pub open spec fn version_le(a: VersionModel, b: VersionModel) -> bool {
    version_cmp(a, b) != Ordering::Greater
}

pub open spec fn version_lt(a: VersionModel, b: VersionModel) -> bool {
    version_cmp(a, b) == Ordering::Less
}

/// What `semver::Version::parse` yields for a text, as a model; `None` where it fails.
pub uninterp spec fn parsed_version(text: Seq<char>) -> Option<VersionModel>;

/// Relies on `semver::Version::parse`: the result depends on the text alone. Its fields
/// and identifiers are copied one for one; the error is the message of
/// `SemVerError::ParseError`.
#[verifier::external_body]
fn parse_semver(text: &str) -> (r: Result<Version, String>)
    ensures
        match r {
            Ok(v) => parsed_version(text@) == Some(v@),
            Err(_) => parsed_version(text@).is_none(),
        },
{
    let id = |i: semver::Identifier| match i {
        semver::Identifier::Numeric(n) => Identifier::Numeric(n),
        semver::Identifier::AlphaNumeric(s) => Identifier::AlphaNumeric(s),
    };
    match semver::Version::parse(text) {
        Ok(v) => Ok(Version { major: v.major, minor: v.minor, patch: v.patch,
            pre: v.pre.into_iter().map(id).collect(), build: v.build.into_iter().map(id).collect() }),
        Err(semver::SemVerError::ParseError(message)) => Err(message),
    }
}

/// Relies on `impl Ord for semver::Version`: major, minor and patch in turn, then the
/// pre-release identifiers (an empty list last), with the derived order of
/// `semver::Identifier` (`Numeric` before `AlphaNumeric`, each by its value, text by
/// `String`'s byte order, which on UTF-8 is the order of the code points); the build
/// metadata is not read. Both versions are copied field for field into `semver::Version`.
#[verifier::external_body]
fn semver_cmp(a: &Version, b: &Version) -> (r: Ordering)
    ensures
        r == version_cmp(a@, b@),
{
    let id = |i: &Identifier| match i {
        Identifier::Numeric(n) => semver::Identifier::Numeric(*n),
        Identifier::AlphaNumeric(s) => semver::Identifier::AlphaNumeric(s.clone()),
    };
    let copy = |v: &Version| semver::Version { major: v.major, minor: v.minor, patch: v.patch,
        pre: v.pre.iter().map(id).collect(), build: v.build.iter().map(id).collect() };
    copy(a).cmp(&copy(b))
}

impl Version {
    /// Parses `major.minor.patch[-pre][+build]`.
    pub fn parse(text: &str) -> (r: Result<Version, VersionParseError>)
        ensures
            r.is_ok() <==> parsed_version(text@).is_some(),
            r matches Ok(v) ==> parsed_version(text@) == Some(v@),
    {
        match parse_semver(text) {
            Ok(v) => Ok(v),
            Err(message) => Err(VersionParseError { message }),
        }
    }

    /// Compares two versions by semantic-version precedence.
    pub fn cmp_precedence(&self, other: &Version) -> (r: Ordering)
        ensures
            r == version_cmp(self@, other@),
    {
        semver_cmp(self, other)
    }
}

pub proof fn lemma_cmp_text_properties(a: Seq<char>, b: Seq<char>, c: Seq<char>)
    ensures
        cmp_text(a, b) == flip(cmp_text(b, a)),
        cmp_text(a, b) == Ordering::Equal ==> a == b,
        cmp_text(a, b) == Ordering::Less && cmp_text(b, c) == Ordering::Less ==> cmp_text(a, c)
            == Ordering::Less,
    decreases a.len(),
{
    if a.len() > 0 && b.len() > 0 && c.len() > 0 {
        lemma_cmp_text_properties(a.drop_first(), b.drop_first(), c.drop_first());
    } else if a.len() > 0 && b.len() > 0 {
        lemma_cmp_text_properties(a.drop_first(), b.drop_first(), b.drop_first());
    }
    if cmp_text(a, b) == Ordering::Equal && a.len() > 0 {
        assert(a == seq![a[0]] + a.drop_first());
        assert(b == seq![b[0]] + b.drop_first());
    }
}

pub proof fn lemma_cmp_identifier_properties(a: IdentifierModel, b: IdentifierModel, c: IdentifierModel)
    ensures
        cmp_identifier(a, b) == flip(cmp_identifier(b, a)),
        cmp_identifier(a, b) == Ordering::Equal ==> a == b,
        cmp_identifier(a, b) == Ordering::Less && cmp_identifier(b, c) == Ordering::Less
            ==> cmp_identifier(a, c) == Ordering::Less,
{
    match (a, b, c) {
        (
            IdentifierModel::AlphaNumeric(x),
            IdentifierModel::AlphaNumeric(y),
            IdentifierModel::AlphaNumeric(z),
        ) => {
            lemma_cmp_text_properties(x, y, z);
        },
        (IdentifierModel::AlphaNumeric(x), IdentifierModel::AlphaNumeric(y), _) => {
            lemma_cmp_text_properties(x, y, y);
        },
        _ => {},
    }
}

pub proof fn lemma_cmp_identifiers_properties(
    a: Seq<IdentifierModel>,
    b: Seq<IdentifierModel>,
    c: Seq<IdentifierModel>,
)
    ensures
        cmp_identifiers(a, b) == flip(cmp_identifiers(b, a)),
        cmp_identifiers(a, b) == Ordering::Equal ==> a == b,
        cmp_identifiers(a, b) == Ordering::Less && cmp_identifiers(b, c) == Ordering::Less
            ==> cmp_identifiers(a, c) == Ordering::Less,
    decreases a.len(),
{
    if a.len() > 0 && b.len() > 0 {
        let cc = if c.len() > 0 { c } else { b };
        lemma_cmp_identifier_properties(a[0], b[0], cc[0]);
        lemma_cmp_identifier_properties(b[0], cc[0], a[0]);
        lemma_cmp_identifier_properties(cc[0], a[0], b[0]);
        lemma_cmp_identifiers_properties(a.drop_first(), b.drop_first(), cc.drop_first());
        if cmp_identifiers(a, b) == Ordering::Equal {
            assert(a == seq![a[0]] + a.drop_first());
            assert(b == seq![b[0]] + b.drop_first());
        }
    }
}

/// The precedence order is antisymmetric: swapping the arguments flips the result.
pub proof fn lemma_version_cmp_flip(a: VersionModel, b: VersionModel)
    ensures
        version_cmp(a, b) == flip(version_cmp(b, a)),
{
    lemma_cmp_identifiers_properties(a.pre, b.pre, b.pre);
}

/// The precedence order is transitive, strictly and non-strictly.
pub proof fn lemma_version_cmp_transitive(a: VersionModel, b: VersionModel, c: VersionModel)
    ensures
        version_le(a, b) && version_le(b, c) ==> version_le(a, c),
        version_lt(a, b) && version_le(b, c) ==> version_lt(a, c),
        version_le(a, b) && version_lt(b, c) ==> version_lt(a, c),
{
    lemma_cmp_identifiers_properties(a.pre, b.pre, c.pre);
    lemma_cmp_identifiers_properties(b.pre, c.pre, a.pre);
}

} // verus!
