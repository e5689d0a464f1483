use unitsel::pattern::build_fixed_matcher;
use unitsel::pattern::build_pattern_filters;
use unitsel::pattern::match_mode_for;
use unitsel::pattern::matches_name;
use unitsel::MatchMode;
use unitsel::NameMatcher;

fn strings(v: &[&str]) -> Vec<String> {
    v.iter().map(|s| s.to_string()).collect()
}

#[test]
fn dot_free_fixed_string_takes_any_type_suffix() {
    let m = build_fixed_matcher("foo");
    assert!(m.matches("foo.service"));
    assert!(m.matches("foo.socket"));
    assert!(!m.matches("foobar.service"));
    assert!(!m.matches("foo"));
    assert!(!m.matches("foo.a.service"));
}

#[test]
fn dotted_fixed_string_matches_exactly() {
    let m = build_fixed_matcher("foo.service");
    assert!(m.matches("foo.service"));
    assert!(!m.matches("foo.socket"));
    assert!(!m.matches("foo.service2"));
    assert!(!m.matches("xfoo.service"));
}

#[test]
fn fixed_string_is_taken_literally() {
    // a regex metacharacter in a fixed string carries no special meaning
    let m = build_fixed_matcher("a+b");
    assert!(m.matches("a+b.timer"));
    assert!(!m.matches("aab.timer"));
}

#[test]
fn raw_pattern_is_a_real_regex() {
    let ms = build_pattern_filters(&strings(&[]), &strings(&["^a.*$"])).unwrap();
    assert_eq!(ms.len(), 1);
    assert!(matches_name(&ms, "abc.service", MatchMode::All));
    assert!(!matches_name(&ms, "zzz.service", MatchMode::All));
}

#[test]
fn raw_pattern_is_unanchored_by_default() {
    let ms = build_pattern_filters(&strings(&[]), &strings(&["b"])).unwrap();
    assert!(matches_name(&ms, "abc.service", MatchMode::All));
    assert!(!matches_name(&ms, "xyz.service", MatchMode::All));
}

#[test]
fn invalid_raw_pattern_is_rejected() {
    let e = build_pattern_filters(&strings(&[]), &strings(&["foo("])).unwrap_err();
    assert_eq!(e.pattern, "foo(");
    assert_eq!(e.describe(), "invalid pattern foo(");
}

#[test]
fn fixed_matchers_come_before_raw_patterns() {
    let ms = build_pattern_filters(&strings(&["foo", "bar.service"]), &strings(&["^x"])).unwrap();
    assert_eq!(ms.len(), 3);
    assert!(matches!(&ms[0], NameMatcher::AnyType(s) if s == "foo"));
    assert!(matches!(&ms[1], NameMatcher::Exact(s) if s == "bar.service"));
    assert!(matches!(&ms[2], NameMatcher::Pattern(_)));
}

#[test]
fn mode_all_needs_every_matcher() {
    let ms = build_pattern_filters(&strings(&[]), &strings(&["foo", "service"])).unwrap();
    assert!(matches_name(&ms, "foo.service", MatchMode::All));
    assert!(!matches_name(&ms, "foo.socket", MatchMode::All));
    assert!(!matches_name(&ms, "bar.service", MatchMode::All));
}

#[test]
fn mode_any_needs_one_matcher() {
    let ms = build_pattern_filters(&strings(&[]), &strings(&["foo", "service"])).unwrap();
    assert!(matches_name(&ms, "foo.socket", MatchMode::Any));
    assert!(matches_name(&ms, "bar.service", MatchMode::Any));
    assert!(!matches_name(&ms, "bar.socket", MatchMode::Any));
}

#[test]
fn multi_flag_selects_the_broadening_mode() {
    assert_eq!(match_mode_for(true), MatchMode::Any);
    assert_eq!(match_mode_for(false), MatchMode::All);
}

#[test]
fn empty_matcher_list_narrows_nothing_under_all() {
    let ms: Vec<NameMatcher> = Vec::new();
    assert!(matches_name(&ms, "anything.service", MatchMode::All));
    assert!(!matches_name(&ms, "anything.service", MatchMode::Any));
}
