//! Picking the release of the companion assets that matches the framework's version.
use vstd::prelude::*;
use vstd::string::*;

use crate::choose_version::{choose_version_by_key, is_best, keys_model, no_eligible};
use crate::version::{optional_model, parsed_version, Version, VersionModel};

verus! {

/// A published release: its tag (such as `v0.1.0`) and where its archive lies.
#[derive(Clone, Debug, PartialEq, Eq)]
pub struct Release {
    pub tag_name: String,
    pub tarball_url: String,
}

/// Why no release can be used.
#[derive(Clone, Copy, Debug, PartialEq, Eq)]
pub enum ReleaseError {
    /// The listing held no release at all.
    NoReleases,
    /// No release has a version that does not exceed the framework's version.
    NoMatchingRelease,
}

/// The version a tag names: the text after a leading `v`, parsed; none without the `v`.
pub open spec fn tag_version_model(tag: Seq<char>) -> Option<VersionModel> {
    if tag.len() > 0 && tag[0] == 'v' {
        parsed_version(tag.drop_first())
    } else {
        None
    }
}

/// The versions named by the tags of a list of releases.
pub open spec fn release_versions(releases: Seq<Release>) -> Seq<Option<VersionModel>> {
    releases.map_values(|r: Release| tag_version_model(r.tag_name@))
}

/// Reads the version of a release tag such as `v0.1.0`.
pub fn version_from_tag(tag: &str) -> (r: Option<Version>)
    ensures
        optional_model(r) == tag_version_model(tag@),
{
    let n = tag.unicode_len();
    if n == 0 {
        return None;
    }
    if tag.get_char(0) != 'v' {
        return None;
    }
    let rest = tag.substring_char(1, n);
    assert(rest@ == tag@.drop_first());
    match Version::parse(rest) {
        Ok(v) => Some(v),
        Err(_) => None,
    }
}

/// Chooses the release whose tag names the greatest version that does not exceed
/// `main_version`; among equal versions the first listed wins.
pub fn choose_release(main_version: Version, releases: Vec<Release>) -> (r: Result<
    Release,
    ReleaseError,
>)
    ensures
        releases.len() == 0 ==> r == Err::<Release, ReleaseError>(ReleaseError::NoReleases),
        releases.len() > 0 ==> match r {
            Ok(x) => exists|i: int|
                is_best(release_versions(releases@), main_version@, i) && releases@[i] == x,
            Err(e) => e == ReleaseError::NoMatchingRelease && no_eligible(
                release_versions(releases@),
                main_version@,
            ),
        },
{
    if releases.len() == 0 {
        return Err(ReleaseError::NoReleases);
    }
    let ghost items = releases@;
    let ghost reference = main_version@;
    let key = |r: &Release| -> (o: Option<Version>)
        ensures
            optional_model(o) == tag_version_model(r.tag_name@),
        { version_from_tag(r.tag_name.as_str()) };
    let chosen = choose_version_by_key(main_version, releases, key);
    proof {
        let keys = choose|keys: Seq<Option<Version>>|
            {
                &&& keys.len() == items.len()
                &&& forall|i: int|
                    0 <= i < items.len() ==> key.ensures((&items[i],), #[trigger] keys[i])
                &&& crate::choose_version::chosen_item(items, keys_model(keys), reference, chosen)
            };
        assert(keys_model(keys) =~= release_versions(items)) by {
            assert forall|i: int| 0 <= i < items.len() implies keys_model(keys)[i]
                == release_versions(items)[i] by {
                assert(key.ensures((&items[i],), keys[i]));
            }
        }
    }
    match chosen {
        Some(x) => Ok(x),
        None => Err(ReleaseError::NoMatchingRelease),
    }
}

} // verus!
