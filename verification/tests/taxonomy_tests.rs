use unitsel::taxonomy::classify;
use unitsel::taxonomy::status_of_str;
use unitsel::taxonomy::type_of_str;
use unitsel::taxonomy::unit_type_of;
use unitsel::ParseError;
use unitsel::StatusOpt;
use unitsel::StatusOptType;
use unitsel::TypeOpt;

#[test]
fn splits_simple_name() {
    let (base, t) = unit_type_of("foo.service").unwrap();
    assert_eq!(base, "foo");
    assert_eq!(t, TypeOpt::Service);
}

#[test]
fn split_round_trips() {
    let names = ["foo.service", "bar.socket", "dbus.timer", "x.path"];
    for name in names {
        let (base, t) = unit_type_of(name).unwrap();
        let rebuilt = format!("{}.{}", base, t.name_str());
        assert_eq!(rebuilt, name);
    }
}

#[test]
fn splits_on_last_dot() {
    let (base, t) = unit_type_of("a.b.service").unwrap();
    assert_eq!(base, "a.b");
    assert_eq!(t, TypeOpt::Service);
}

#[test]
fn name_without_dot_is_fatal() {
    let e = unit_type_of("foobar").unwrap_err();
    assert!(matches!(e, ParseError::InvalidUnitName(n) if n == "foobar"));
}

#[test]
fn unknown_suffix_is_fatal() {
    let e = unit_type_of("foo.banana").unwrap_err();
    assert!(matches!(e, ParseError::InvalidUnitType(t) if t == "banana"));
}

#[test]
fn empty_suffix_is_fatal() {
    let e = unit_type_of("foo.").unwrap_err();
    assert!(matches!(e, ParseError::InvalidUnitType(t) if t.is_empty()));
}

#[test]
fn all_type_suffixes_parse() {
    for t in TypeOpt::variants() {
        assert_eq!(type_of_str(t.name_str()), Some(t));
    }
    assert_eq!(type_of_str("banana"), None);
    assert_eq!(TypeOpt::variants().len(), 11);
}

#[test]
fn status_vocabulary_parses() {
    assert_eq!(status_of_str("loaded"), Some(StatusOpt::Loaded));
    assert_eq!(status_of_str("not-found"), Some(StatusOpt::NotFound));
    assert_eq!(status_of_str("bad-setting"), Some(StatusOpt::BadSetting));
    assert_eq!(status_of_str("active"), Some(StatusOpt::Active));
    assert_eq!(status_of_str("inactive"), Some(StatusOpt::Inactive));
    assert_eq!(status_of_str("failed"), Some(StatusOpt::Failed));
    assert_eq!(status_of_str("dead"), Some(StatusOpt::Dead));
    assert_eq!(status_of_str("running"), Some(StatusOpt::Running));
    assert_eq!(status_of_str("plugged"), Some(StatusOpt::Plugged));
    assert_eq!(status_of_str("mounted"), Some(StatusOpt::Mounted));
    assert_eq!(status_of_str("waiting"), Some(StatusOpt::Waiting));
    assert_eq!(status_of_str("exited"), Some(StatusOpt::Exited));
    assert_eq!(status_of_str("listening"), Some(StatusOpt::Listening));
    assert_eq!(status_of_str("status-active"), Some(StatusOpt::StatusActive));
    assert_eq!(status_of_str("Loaded"), None);
    assert_eq!(status_of_str("banana"), None);
}

#[test]
fn axis_categories() {
    assert_eq!(StatusOpt::Loaded.get_type(), StatusOptType::Loaded);
    assert_eq!(StatusOpt::NotFound.get_type(), StatusOptType::Loaded);
    assert_eq!(StatusOpt::BadSetting.get_type(), StatusOptType::Loaded);
    assert_eq!(StatusOpt::Active.get_type(), StatusOptType::Active);
    assert_eq!(StatusOpt::Inactive.get_type(), StatusOptType::Active);
    assert_eq!(StatusOpt::Failed.get_type(), StatusOptType::Status);
    assert_eq!(StatusOpt::Running.get_type(), StatusOptType::Status);
    assert_eq!(StatusOpt::StatusActive.get_type(), StatusOptType::Status);
}

#[test]
fn classify_accepts_axis_values() {
    assert_eq!(classify(StatusOptType::Loaded, "loaded").unwrap(), StatusOpt::Loaded);
    assert_eq!(classify(StatusOptType::Loaded, "not-found").unwrap(), StatusOpt::NotFound);
    assert_eq!(classify(StatusOptType::Active, "active").unwrap(), StatusOpt::Active);
    assert_eq!(classify(StatusOptType::Active, "inactive").unwrap(), StatusOpt::Inactive);
    assert_eq!(classify(StatusOptType::Status, "running").unwrap(), StatusOpt::Running);
    assert_eq!(classify(StatusOptType::Status, "dead").unwrap(), StatusOpt::Dead);
}

#[test]
fn classify_cross_axis_exceptions() {
    // `failed` is accepted in the active position though its own category
    // is the sub-state axis, and `active` is accepted in the sub-state
    // position though its own category is the active axis.
    assert_eq!(classify(StatusOptType::Active, "failed").unwrap(), StatusOpt::Failed);
    assert_eq!(classify(StatusOptType::Status, "active").unwrap(), StatusOpt::Active);
}

#[test]
fn classify_rejects_out_of_axis_values() {
    let e = classify(StatusOptType::Loaded, "active").unwrap_err();
    assert!(matches!(
        e,
        ParseError::InvalidStatusValue { position: StatusOptType::Loaded, value } if value == "active"
    ));
    let e = classify(StatusOptType::Active, "running").unwrap_err();
    assert!(matches!(
        e,
        ParseError::InvalidStatusValue { position: StatusOptType::Active, value } if value == "running"
    ));
    let e = classify(StatusOptType::Status, "loaded").unwrap_err();
    assert!(matches!(
        e,
        ParseError::InvalidStatusValue { position: StatusOptType::Status, value } if value == "loaded"
    ));
    let e = classify(StatusOptType::Status, "banana").unwrap_err();
    assert!(matches!(
        e,
        ParseError::InvalidStatusValue { position: StatusOptType::Status, value } if value == "banana"
    ));
}

#[test]
fn describe_names_the_offending_value() {
    let e = unit_type_of("nodot").unwrap_err();
    assert_eq!(e.describe(), "error extracting unit type nodot");
    let e = unit_type_of("foo.banana").unwrap_err();
    assert_eq!(e.describe(), "invalid unit type banana");
    let e = classify(StatusOptType::Loaded, "zzz").unwrap_err();
    assert_eq!(e.describe(), "invalid unit loaded state zzz");
    let e = classify(StatusOptType::Active, "zzz").unwrap_err();
    assert_eq!(e.describe(), "invalid unit active state zzz");
    let e = classify(StatusOptType::Status, "zzz").unwrap_err();
    assert_eq!(e.describe(), "invalid unit status zzz");
}
