use std::cmp::Ordering;

use wargo::choose_version::{choose_index_by_version, choose_version_by_key};
use wargo::release::{choose_release, version_from_tag, Release, ReleaseError};
use wargo::version::{Identifier, Version};

fn v(text: &str) -> Version {
    Version::parse(text).unwrap()
}

fn release(tag: &str) -> Release {
    Release {
        tag_name: tag.to_string(),
        tarball_url: format!("https://example.org/{}.tar.gz", tag),
    }
}

#[test]
fn choose_version_by_key_chooses_latest() {
    let main_version = Version::parse("0.3.1").unwrap();
    let items = vec!["0.2.0", "0.3.0"];

    let chosen = choose_version_by_key(main_version, items, |s| Version::parse(s).ok());
    assert_eq!(chosen, Some("0.3.0"));
}

#[test]
fn choose_version_by_key_picks_matching_if_possible() {
    let main_version = Version::parse("0.3.1").unwrap();
    let items = vec!["0.2.0", "0.3.0", "0.3.1", "0.5.2"];

    let chosen = choose_version_by_key(main_version, items, |s| Version::parse(s).ok());
    assert_eq!(chosen, Some("0.3.1"));
}

#[test]
fn choose_version_by_key_with_no_matching() {
    let main_version = Version::parse("0.1.1").unwrap();
    let items = vec!["0.2.0", "0.3.0", "0.3.1", "0.5.2"];

    let chosen = choose_version_by_key(main_version, items, |s| Version::parse(s).ok());
    assert_eq!(chosen, None);
}

#[test]
fn malformed_candidate_is_ignored() {
    let items = vec!["not-a-version", "0.3.0"];
    let chosen = choose_version_by_key(v("0.3.1"), items, |s| Version::parse(s).ok());
    assert_eq!(chosen, Some("0.3.0"));
}

#[test]
fn equal_versions_first_in_input_wins() {
    let items = vec![(1u32, "0.3.0"), (2u32, "0.3.0")];
    let chosen = choose_version_by_key(v("0.3.1"), items, |p| Version::parse(p.1).ok());
    assert_eq!(chosen, Some((1u32, "0.3.0")));
}

#[test]
fn equal_versions_first_wins_after_a_smaller_one() {
    let items = vec![(1u32, "0.2.0"), (2u32, "0.3.0"), (3u32, "0.1.0"), (4u32, "0.3.0")];
    let chosen = choose_version_by_key(v("0.3.1"), items, |p| Version::parse(p.1).ok());
    assert_eq!(chosen, Some((2u32, "0.3.0")));
}

#[test]
fn all_candidates_malformed_gives_none() {
    let items = vec!["x", "1.2", ""];
    let chosen = choose_version_by_key(v("9.9.9"), items, |s| Version::parse(s).ok());
    assert_eq!(chosen, None);
}

#[test]
fn chosen_is_bounded_and_maximal_on_unsorted_input() {
    let items = vec!["0.5.2", "0.1.0", "0.3.1", "1.0.0", "0.2.9"];
    let chosen = choose_version_by_key(v("0.4.0"), items, |s| Version::parse(s).ok());
    assert_eq!(chosen, Some("0.3.1"));
}

#[test]
fn pre_release_sorts_below_release() {
    let items = vec!["1.0.0-alpha", "1.0.0-beta", "0.9.9"];
    let chosen = choose_version_by_key(v("1.0.0"), items.clone(), |s| Version::parse(s).ok());
    assert_eq!(chosen, Some("1.0.0-beta"));
    let chosen = choose_version_by_key(v("1.0.0-alpha.1"), items, |s| Version::parse(s).ok());
    assert_eq!(chosen, Some("1.0.0-alpha"));
}

#[test]
fn numeric_identifiers_precede_alphanumeric_ones() {
    let items = vec!["1.0.0-a", "1.0.0-1", "1.0.0-2"];
    let chosen = choose_version_by_key(v("1.0.0-1a"), items, |s| Version::parse(s).ok());
    assert_eq!(chosen, Some("1.0.0-2"));
}

#[test]
fn build_metadata_does_not_exceed_reference() {
    let items = vec!["0.3.0", "0.3.1+build.5"];
    let chosen = choose_version_by_key(v("0.3.1"), items, |s| Version::parse(s).ok());
    assert_eq!(chosen, Some("0.3.1+build.5"));
}

#[test]
fn choose_index_over_derived_versions() {
    let keys = vec![Some(v("0.2.0")), None, Some(v("0.3.0")), Some(v("0.5.2")), Some(v("0.3.0"))];
    assert_eq!(choose_index_by_version(&v("0.3.1"), &keys), Some(2));
    assert_eq!(choose_index_by_version(&v("0.1.0"), &keys), None);
    assert_eq!(choose_index_by_version(&v("1.0.0"), &keys), Some(3));
    let none: Vec<Option<Version>> = vec![None, None];
    assert_eq!(choose_index_by_version(&v("1.0.0"), &none), None);
    assert_eq!(choose_index_by_version(&v("1.0.0"), &Vec::new()), None);
}

#[test]
fn precedence_comparison() {
    assert_eq!(v("0.3.0").cmp_precedence(&v("0.3.1")), Ordering::Less);
    assert_eq!(v("1.0.0").cmp_precedence(&v("0.9.9")), Ordering::Greater);
    assert_eq!(v("1.0.0+a").cmp_precedence(&v("1.0.0+b")), Ordering::Equal);
    assert_eq!(v("1.0.0-rc.1").cmp_precedence(&v("1.0.0")), Ordering::Less);
    assert_eq!(v("1.0.0-rc.2").cmp_precedence(&v("1.0.0-rc.10")), Ordering::Less);
    assert_eq!(v("1.0.0-alpha.beta").cmp_precedence(&v("1.0.0-alpha")), Ordering::Greater);
}

#[test]
fn parse_fills_every_field() {
    let parsed = v("1.2.3-alpha.7+build.9");
    assert_eq!(parsed.major, 1);
    assert_eq!(parsed.minor, 2);
    assert_eq!(parsed.patch, 3);
    assert_eq!(
        parsed.pre,
        vec![Identifier::AlphaNumeric("alpha".to_string()), Identifier::Numeric(7)]
    );
    assert_eq!(
        parsed.build,
        vec![Identifier::AlphaNumeric("build".to_string()), Identifier::Numeric(9)]
    );
}

#[test]
fn parse_rejects_malformed_text() {
    assert!(Version::parse("not-a-version").is_err());
    assert!(Version::parse("1.2").is_err());
    assert!(Version::parse("").is_err());
}

#[test]
fn version_from_tag_strips_leading_v() {
    let tagged = version_from_tag("v0.1.0").unwrap();
    assert_eq!((tagged.major, tagged.minor, tagged.patch), (0, 1, 0));
    assert!(version_from_tag("0.1.0").is_none());
    assert!(version_from_tag("vx").is_none());
    assert!(version_from_tag("v").is_none());
    assert!(version_from_tag("").is_none());
}

#[test]
fn choose_release_picks_matching_tag() {
    let releases = vec![release("v0.2.0"), release("v0.3.0"), release("nightly"), release("v0.5.2")];
    assert_eq!(choose_release(v("0.3.1"), releases), Ok(release("v0.3.0")));
}

#[test]
fn choose_release_reports_no_releases() {
    assert_eq!(choose_release(v("0.3.1"), Vec::new()), Err(ReleaseError::NoReleases));
}

#[test]
fn choose_release_reports_no_match() {
    let releases = vec![release("v0.2.0"), release("0.1.0"), release("v0.5.2")];
    assert_eq!(choose_release(v("0.1.1"), releases), Err(ReleaseError::NoMatchingRelease));
}
