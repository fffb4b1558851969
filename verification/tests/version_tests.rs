use ais_common::version::AisCode;
use ais_common::version::Version;

fn v(number: &str, code: AisCode) -> Version {
    Version { number: number.to_string(), code }
}

#[test]
fn string_forms() {
    assert_eq!(v("1.0.0", AisCode::Production).to_string(), "1.0.0P");
    assert_eq!(v("2.3.4", AisCode::ProductionCandidate).to_string(), "2.3.4RC");
    assert_eq!(v("0.1.0", AisCode::Beta).to_string(), "0.1.0b");
    assert_eq!(v("0.0.1", AisCode::Alpha).to_string(), "0.0.1a");
    assert_eq!(v("1.2.3", AisCode::Patched).to_string(), "1.2.3*");
}

#[test]
fn from_string_reads_every_channel() {
    let p = Version::from_string("1.0.0P".to_string()).unwrap();
    assert_eq!(p.number, "1.0.0");
    assert_eq!(p.code, AisCode::Production);
    let rc = Version::from_string("2.3.4RC".to_string()).unwrap();
    assert_eq!(rc.code, AisCode::ProductionCandidate);
    let b = Version::from_string("0.1.0b".to_string()).unwrap();
    assert_eq!(b.code, AisCode::Beta);
    let a = Version::from_string("0.0.1a".to_string()).unwrap();
    assert_eq!(a.code, AisCode::Alpha);
    let star = Version::from_string("1.2.3*".to_string()).unwrap();
    assert_eq!(star.code, AisCode::Patched);
}

#[test]
fn from_string_rejects_bad_tags() {
    // no channel suffix at all
    assert!(Version::from_string("1.0.0".to_string()).is_none());
    // unknown suffix
    assert!(Version::from_string("1.0.0X".to_string()).is_none());
    assert!(Version::from_string("".to_string()).is_none());
}

#[test]
fn parse_version_reads_major_and_minor() {
    assert_eq!(Version::parse_version("1.2.3"), Some((1, 2)));
    assert_eq!(Version::parse_version("10.0.99"), Some((10, 0)));
    assert_eq!(Version::parse_version("1.2"), None);
    assert_eq!(Version::parse_version("1.2.3.4"), None);
    assert_eq!(Version::parse_version("a.2.3"), None);
    assert_eq!(Version::parse_version("1..3"), None);
    assert_eq!(Version::parse_version("4294967295.0.0"), Some((4294967295, 0)));
    assert_eq!(Version::parse_version("4294967296.0.0"), None);
}

const ALPHA: AisCode = AisCode::Alpha;
const BETA: AisCode = AisCode::Beta;
const RC: AisCode = AisCode::ProductionCandidate;
const PROD: AisCode = AisCode::Production;
const PATCHED: AisCode = AisCode::Patched;

#[test]
fn compatibility_table() {
    let same = "1.2.3";
    // alpha and beta accept one another
    assert!(Version::compatible(&v(same, ALPHA), &v(same, ALPHA)));
    assert!(Version::compatible(&v(same, ALPHA), &v(same, BETA)));
    assert!(Version::compatible(&v(same, BETA), &v(same, ALPHA)));
    assert!(Version::compatible(&v(same, BETA), &v(same, BETA)));
    // they meet no release channel
    assert!(!Version::compatible(&v(same, ALPHA), &v(same, RC)));
    assert!(!Version::compatible(&v(same, ALPHA), &v(same, PROD)));
    assert!(!Version::compatible(&v(same, BETA), &v(same, RC)));
    assert!(!Version::compatible(&v(same, BETA), &v(same, PROD)));
    assert!(!Version::compatible(&v(same, RC), &v(same, ALPHA)));
    assert!(!Version::compatible(&v(same, RC), &v(same, BETA)));
    assert!(!Version::compatible(&v(same, PROD), &v(same, ALPHA)));
    assert!(!Version::compatible(&v(same, PROD), &v(same, BETA)));
    // candidates meet their own kind on major match
    assert!(Version::compatible(&v("1.2.3", RC), &v("1.9.0", RC)));
    assert!(!Version::compatible(&v("2.2.3", RC), &v("1.2.3", RC)));
    // production pairings demand major and minor match
    assert!(Version::compatible(&v("1.2.3", PROD), &v("1.2.9", PROD)));
    assert!(!Version::compatible(&v("1.3.3", PROD), &v("1.2.3", PROD)));
    assert!(Version::compatible(&v("1.2.3", PROD), &v("1.2.0", RC)));
    assert!(!Version::compatible(&v("1.3.3", PROD), &v("1.2.0", RC)));
    assert!(Version::compatible(&v("1.2.3", RC), &v("1.2.0", PROD)));
    assert!(!Version::compatible(&v("2.2.3", RC), &v("1.2.0", PROD)));
    // patched on either side short-circuits to true
    assert!(Version::compatible(&v(same, PATCHED), &v(same, PROD)));
    assert!(Version::compatible(&v(same, ALPHA), &v(same, PATCHED)));
    assert!(Version::compatible(&v(same, PATCHED), &v(same, PATCHED)));
    // unparseable numbers are incompatible
    assert!(!Version::compatible(&v("1.2", PROD), &v(same, PROD)));
    assert!(!Version::compatible(&v(same, PROD), &v("junk", PROD)));
}

#[test]
fn reflexive_on_every_channel() {
    for code in [
        AisCode::Production,
        AisCode::ProductionCandidate,
        AisCode::Beta,
        AisCode::Alpha,
        AisCode::Patched,
    ] {
        assert!(Version::compatible(&v("3.1.4", code), &v("3.1.4", code)));
    }
}

#[test]
fn version_drop_between_production_lines() {
    // An agent at 0.9.0P is refused by an aggregator at 1.1.0P.
    let incoming = Version::from_string("0.9.0P".to_string()).unwrap();
    let local = Version::from_string("1.1.0P".to_string()).unwrap();
    assert!(!Version::compatible(&incoming, &local));
}

#[test]
fn comp_rejects_unparseable_strings() {
    assert!(!Version::comp("".to_string()));
    assert!(!Version::comp("bogus".to_string()));
    assert!(!Version::comp("1.0.0".to_string()));
    assert!(Version::comp(Version::get()));
}

#[test]
fn local_version_tag() {
    let raw = Version::get_raw();
    assert_eq!(raw.number, "1.0.0");
    assert_eq!(raw.code, AisCode::Patched);
    assert_eq!(Version::get(), "1.0.0*");
    assert_eq!(AisCode::Production.suffix(), "P");
    assert_eq!(AisCode::ProductionCandidate.suffix(), "RC");
    assert_eq!(AisCode::Beta.suffix(), "b");
    assert_eq!(AisCode::Alpha.suffix(), "a");
    assert_eq!(AisCode::Patched.suffix(), "*");
}
