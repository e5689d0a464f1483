use unitsel::filter::split_status_list;
use unitsel::units::ListUnitsItem;
use unitsel::RawUnit;
use unitsel::StatusOpt;
use unitsel::TypeOpt;

fn item(name: &str, loaded: &str, active: &str, status: &str) -> ListUnitsItem {
    let raw = RawUnit {
        name: name.to_string(),
        desc: String::new(),
        loaded: loaded.to_string(),
        active: active.to_string(),
        status: status.to_string(),
        other_name: String::new(),
        path: "/org/x/unit".to_string(),
        job_id: 0,
        job_type: String::new(),
        job_object_path: "/".to_string(),
    };
    ListUnitsItem::from_raw(raw).unwrap()
}

#[test]
fn bucketing_by_axis() {
    let terms = [
        StatusOpt::Running,
        StatusOpt::Loaded,
        StatusOpt::Active,
        StatusOpt::NotFound,
        StatusOpt::Dead,
        StatusOpt::Inactive,
    ];
    let f = split_status_list(&terms);
    assert_eq!(f.loaded, vec![StatusOpt::Loaded, StatusOpt::NotFound]);
    assert_eq!(f.active, vec![StatusOpt::Active, StatusOpt::Inactive]);
    assert_eq!(f.status, vec![StatusOpt::Running, StatusOpt::Dead]);
}

#[test]
fn status_active_aliases_into_status_axis() {
    let terms = [StatusOpt::StatusActive, StatusOpt::Active];
    let f = split_status_list(&terms);
    assert!(f.loaded.is_empty());
    assert_eq!(f.active, vec![StatusOpt::Active]);
    assert_eq!(f.status, vec![StatusOpt::Active]);
}

#[test]
fn failed_buckets_into_status_axis() {
    let f = split_status_list(&[StatusOpt::Failed]);
    assert!(f.loaded.is_empty());
    assert!(f.active.is_empty());
    assert_eq!(f.status, vec![StatusOpt::Failed]);
}

#[test]
fn includes_empty_set_admits_everything() {
    let f = split_status_list(&[]);
    let a = item("a.service", "loaded", "active", "running");
    let b = item("b.socket", "not-found", "failed", "dead");
    assert!(f.filter_includes(&a));
    assert!(f.filter_includes(&b));
}

#[test]
fn includes_needs_one_matching_axis() {
    let f = split_status_list(&[StatusOpt::Running, StatusOpt::NotFound]);
    // matches on the sub-state axis alone
    assert!(f.filter_includes(&item("a.service", "loaded", "active", "running")));
    // matches on the load axis alone
    assert!(f.filter_includes(&item("b.service", "not-found", "inactive", "dead")));
    // matches on no axis
    assert!(!f.filter_includes(&item("c.service", "loaded", "inactive", "dead")));
}

#[test]
fn excludes_empty_set_admits_everything() {
    let f = split_status_list(&[]);
    let a = item("a.service", "loaded", "active", "running");
    assert!(f.filter_excludes(&a));
}

#[test]
fn excludes_needs_every_axis_clear() {
    let f = split_status_list(&[StatusOpt::Dead, StatusOpt::NotFound]);
    // one listed value on any axis is enough to drop the record
    assert!(!f.filter_excludes(&item("a.service", "loaded", "active", "dead")));
    assert!(!f.filter_excludes(&item("b.service", "not-found", "active", "running")));
    // clear on all axes survives
    assert!(f.filter_excludes(&item("c.service", "loaded", "active", "running")));
}

#[test]
fn status_active_filters_sub_state_not_active_state() {
    // the alias must catch a unit whose sub-state is `active`, not one
    // whose active-state is
    let f = split_status_list(&[StatusOpt::StatusActive]);
    assert!(f.filter_includes(&item("a.mount", "loaded", "inactive", "active")));
    assert!(!f.filter_includes(&item("b.service", "loaded", "active", "running")));
}

#[test]
fn unit_type_is_derived_from_name() {
    let u = item("dbus.socket", "loaded", "active", "listening");
    assert_eq!(u.unit_type, TypeOpt::Socket);
    assert_eq!(u.base_name, "dbus");
    assert_eq!(u.name, "dbus.socket");
}
