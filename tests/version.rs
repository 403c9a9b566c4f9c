use farm::completions::shells_as_string;
use farm::log::LogLevel;
use farm::version::{start_with_number, SemVer, Version};
use std::cmp::Ordering;

fn exact(text: &str) -> Version {
    Version::parse(text).expect("exact version")
}

#[test]
fn parse_exact_fields() {
    match exact("1.2.3-rc.1+b5") {
        Version::Semver(v) => {
            assert_eq!(v.major, 1);
            assert_eq!(v.minor, 2);
            assert_eq!(v.patch, 3);
            assert_eq!(v.pre, "rc.1");
            assert_eq!(v.build, "b5");
        }
        Version::Alias(_) => panic!("expected an exact version"),
    }
}

#[test]
fn render_round_trips() {
    for text in ["2.6.4", "v2.6.4", "V2.6.4", "1.0.0-rc1", "10.20.30-alpha.1+build.7"] {
        let v = exact(text);
        let rendered = v.v_str();
        let expected = if text.starts_with('v') || text.starts_with('V') {
            format!("v{}", &text[1..])
        } else {
            format!("v{}", text)
        };
        assert_eq!(rendered, expected);
        assert_eq!(exact(&rendered), v);
    }
}

#[test]
fn uppercase_prerelease_is_lowercased() {
    assert_eq!(exact("v1.0.0-RC1").v_str(), "v1.0.0-rc1");
}

#[test]
fn non_numeric_is_alias_lowercased() {
    assert_eq!(Version::parse("Latest-Stable").unwrap(), Version::Alias("latest-stable".to_string()));
    assert_eq!(Version::parse("vLatest").unwrap(), Version::Alias("vlatest".to_string()));
    assert_eq!(Version::parse("").unwrap(), Version::Alias(String::new()));
    assert_eq!(Version::parse("vv1.0.0").unwrap(), Version::Alias("vv1.0.0".to_string()));
}

#[test]
fn digit_leading_garbage_is_parse_error() {
    assert!(Version::parse("1.x").is_err());
    assert!(Version::parse("v2").is_err());
}

#[test]
fn alias_name_only_for_aliases() {
    assert_eq!(Version::parse("lts").unwrap().alias_name(), Some("lts".to_string()));
    assert_eq!(exact("2.6.4").alias_name(), None);
    assert_eq!(Version::parse("lts").unwrap().v_str(), "lts");
}

#[test]
fn start_with_number_cases() {
    assert!(start_with_number("2.6.4"));
    assert!(!start_with_number("v2.6.4"));
    assert!(!start_with_number(""));
}

#[test]
fn ordering_is_consistent() {
    let a = exact("1.2.3");
    let b = exact("1.10.0");
    let c = exact("2.0.0");
    assert_eq!(a.compare(&b), Ordering::Less);
    assert_eq!(b.compare(&c), Ordering::Less);
    assert_eq!(a.compare(&c), Ordering::Less);
    assert_eq!(c.compare(&a), Ordering::Greater);
    assert_eq!(a.compare(&exact("v1.2.3")), Ordering::Equal);
}

#[test]
fn prerelease_before_release() {
    assert_eq!(exact("1.0.0-rc1").compare(&exact("1.0.0")), Ordering::Less);
    assert_eq!(exact("1.0.0-alpha").compare(&exact("1.0.0-beta")), Ordering::Less);
    assert_eq!(exact("1.0.0-alpha.2").compare(&exact("1.0.0-alpha.10")), Ordering::Less);
    assert_eq!(exact("1.0.0-alpha.10").compare(&exact("1.0.0-alpha.beta")), Ordering::Less);
    assert_eq!(exact("1.0.0-alpha").compare(&exact("1.0.0-alpha.1")), Ordering::Less);
    assert_eq!(exact("1.0.0-beta.11").compare(&exact("1.0.0-rc.1")), Ordering::Less);
    assert_eq!(exact("1.0.0-1").compare(&exact("1.0.0-alpha")), Ordering::Less);
}

#[test]
fn prerelease_identifiers_split_on_dots() {
    let parts = farm::ordering::identifiers_of("alpha.10..x");
    assert_eq!(parts, vec!["alpha".to_string(), "10".to_string(), String::new(), "x".to_string()]);
}

#[test]
fn exact_before_alias_and_aliases_by_name() {
    let alias = Version::parse("abc").unwrap();
    assert_eq!(exact("9.9.9").compare(&alias), Ordering::Less);
    assert_eq!(alias.compare(&Version::parse("ABD").unwrap()), Ordering::Less);
    assert_eq!(alias.compare(&Version::parse("ABC").unwrap()), Ordering::Equal);
    let upper = Version::Alias("ABD".to_string());
    assert_eq!(Version::Alias("abc".to_string()).compare(&upper), Ordering::Less);
    assert_eq!(Version::Alias("Abc".to_string()).compare(&Version::Alias("abc".to_string())), Ordering::Less);
}

#[test]
fn eq_semver_matches_exact_only() {
    let s = SemVer { major: 2, minor: 6, patch: 4, pre: String::new(), build: String::new() };
    assert!(exact("2.6.4").eq_semver(&s));
    assert!(!exact("2.6.5").eq_semver(&s));
    assert!(!Version::parse("latest").unwrap().eq_semver(&s));
    assert_eq!(s.plain_str(), "2.6.4");
}

#[test]
fn log_level_writability() {
    assert!(LogLevel::Info.is_writable(&LogLevel::Error));
    assert!(LogLevel::Error.is_writable(&LogLevel::Error));
    assert!(!LogLevel::Error.is_writable(&LogLevel::Info));
    assert!(!LogLevel::Quiet.is_writable(&LogLevel::Error));
    assert_eq!(LogLevel::default(), LogLevel::Info);
}

#[test]
fn log_level_names() {
    assert_eq!(LogLevel::from_str("quiet").unwrap(), LogLevel::Quiet);
    assert_eq!(LogLevel::from_str("all").unwrap(), LogLevel::Info);
    assert_eq!(LogLevel::from_str("error").unwrap(), LogLevel::Error);
    assert_eq!(LogLevel::from_str("loud").unwrap_err(), "I don't know the log level of \"loud\"");
    assert_eq!(LogLevel::from_str("a\"b").unwrap_err(), "I don't know the log level of \"a\\\"b\"");
    assert!(LogLevel::from_str("INFO").is_err());
    assert_eq!(LogLevel::Error.as_str(), "error");
}

#[test]
fn shells_listed_one_per_line() {
    assert_eq!(shells_as_string(&["bash", "zsh", "fish"]), "* bash\n* zsh\n* fish");
    assert_eq!(shells_as_string(&[]), "");
}
