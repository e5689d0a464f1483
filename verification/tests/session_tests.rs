use unitsel::session::plan_user_leg;
use unitsel::session::resolve_bus_address;
use unitsel::session::resolve_legs;
use unitsel::session::resolve_target_uid;
use unitsel::session::session_plan;
use unitsel::session::ElevPhase;
use unitsel::session::ElevatedConnect;
use unitsel::session::SessionAction;
use unitsel::session::SessionEvent;
use unitsel::session::UserLegPlan;
use unitsel::text::parse_u32;
use unitsel::text::u32_to_dec;
use unitsel::DaemonOpt;
use unitsel::DaemonType;
use unitsel::ResolveError;

#[test]
fn leg_priority_system_flag_wins() {
    assert_eq!(resolve_legs(true, true, DaemonOpt::User), (false, true));
    assert_eq!(resolve_legs(true, false, DaemonOpt::Either), (false, true));
}

#[test]
fn leg_priority_user_flag_next() {
    assert_eq!(resolve_legs(false, true, DaemonOpt::System), (true, false));
}

#[test]
fn leg_selector_decides_last() {
    assert_eq!(resolve_legs(false, false, DaemonOpt::User), (true, false));
    assert_eq!(resolve_legs(false, false, DaemonOpt::System), (false, true));
    assert_eq!(resolve_legs(false, false, DaemonOpt::Either), (true, true));
}

#[test]
fn both_legs_give_ordered_pair_user_first() {
    let plan = session_plan(true, true);
    assert_eq!(plan, vec![DaemonType::User, DaemonType::System]);
    assert_eq!(plan.len(), 2);
}

#[test]
fn single_leg_plans() {
    assert_eq!(session_plan(true, false), vec![DaemonType::User]);
    assert_eq!(session_plan(false, true), vec![DaemonType::System]);
    assert_eq!(session_plan(false, false), Vec::<DaemonType>::new());
}

#[test]
fn uid_signal_is_honoured_when_nonzero() {
    assert_eq!(resolve_target_uid(Some("1000")).unwrap(), 1000);
}

#[test]
fn uid_signal_zero_fails() {
    assert!(matches!(resolve_target_uid(Some("0")), Err(ResolveError::CannotDetermineUid)));
}

#[test]
fn uid_signal_absent_fails() {
    assert!(matches!(resolve_target_uid(None), Err(ResolveError::CannotDetermineUid)));
    assert_eq!(
        resolve_target_uid(None).unwrap_err().describe(),
        "could not determine user uid"
    );
}

#[test]
fn uid_signal_non_numeric_fails() {
    assert!(matches!(resolve_target_uid(Some("10x0")), Err(ResolveError::CannotDetermineUid)));
    assert!(matches!(resolve_target_uid(Some("")), Err(ResolveError::CannotDetermineUid)));
    assert!(matches!(
        resolve_target_uid(Some("99999999999999999999")),
        Err(ResolveError::CannotDetermineUid)
    ));
}

#[test]
fn decimal_round_trip() {
    assert_eq!(parse_u32("4294967295"), Some(u32::MAX));
    assert_eq!(parse_u32("4294967296"), None);
    assert_eq!(u32_to_dec(0), "0");
    assert_eq!(u32_to_dec(1000), "1000");
    assert_eq!(u32_to_dec(u32::MAX), "4294967295");
    assert_eq!(parse_u32(&u32_to_dec(987654321)), Some(987654321));
}

#[test]
fn address_override_wins() {
    let r = resolve_bus_address(Some("unix:path=/tmp/custom"), Some("/run/user/1"), 1000);
    assert_eq!(r, "unix:path=/tmp/custom");
}

#[test]
fn address_uses_runtime_dir() {
    let r = resolve_bus_address(None, Some("/run/user/1234"), 1000);
    assert_eq!(r, "unix:path=/run/user/1234/bus");
}

#[test]
fn address_defaults_to_uid_runtime_dir() {
    let r = resolve_bus_address(None, None, 1000);
    assert_eq!(r, "unix:path=/run/user/1000/bus");
}

#[test]
fn unprivileged_caller_connects_directly() {
    let p = plan_user_leg(1000, None, None, None).unwrap();
    assert!(matches!(p, UserLegPlan::Direct));
}

#[test]
fn privileged_caller_resolves_identity_and_address() {
    let p = plan_user_leg(0, Some("1000"), None, None).unwrap();
    match p {
        UserLegPlan::Elevated { uid, address } => {
            assert_eq!(uid, 1000);
            assert_eq!(address, "unix:path=/run/user/1000/bus");
        },
        UserLegPlan::Direct => panic!("expected the elevated plan"),
    }
}

#[test]
fn privileged_caller_without_signal_fails() {
    assert!(matches!(
        plan_user_leg(0, None, None, None),
        Err(ResolveError::CannotDetermineUid)
    ));
    assert!(matches!(
        plan_user_leg(0, Some("0"), None, None),
        Err(ResolveError::CannotDetermineUid)
    ));
}

#[test]
fn elevation_window_success_path() {
    let mut m = ElevatedConnect::new(1000, 0, "unix:path=/run/user/1000/bus".to_string());
    assert_eq!(m.phase, ElevPhase::Init);
    let a = m.step(SessionEvent::Begin);
    assert!(matches!(a, Some(SessionAction::SetEffective(1000))));
    let a = m.step(SessionEvent::EffectiveSet);
    assert!(matches!(a, Some(SessionAction::OpenUserBus(addr)) if addr == "unix:path=/run/user/1000/bus"));
    let a = m.step(SessionEvent::ConnectSucceeded);
    assert!(matches!(a, Some(SessionAction::SetEffective(0))));
    let a = m.step(SessionEvent::EffectiveSet);
    assert!(matches!(a, Some(SessionAction::Done(true))));
    assert_eq!(m.phase, ElevPhase::Finished(true));
}

#[test]
fn elevation_window_restores_identity_on_failure() {
    let mut m = ElevatedConnect::new(1000, 0, "unix:path=/run/user/1000/bus".to_string());
    m.step(SessionEvent::Begin);
    m.step(SessionEvent::EffectiveSet);
    // the connection attempt failed: the very next order must restore the
    // original identity all the same
    let a = m.step(SessionEvent::ConnectFailed);
    assert!(matches!(a, Some(SessionAction::SetEffective(0))));
    let a = m.step(SessionEvent::EffectiveSet);
    assert!(matches!(a, Some(SessionAction::Done(false))));
    assert_eq!(m.phase, ElevPhase::Finished(false));
}

#[test]
fn elevation_window_ignores_stray_events() {
    let mut m = ElevatedConnect::new(1000, 0, "a".to_string());
    assert!(m.step(SessionEvent::ConnectSucceeded).is_none());
    assert_eq!(m.phase, ElevPhase::Init);
    m.step(SessionEvent::Begin);
    assert!(m.step(SessionEvent::Begin).is_none());
    assert_eq!(m.phase, ElevPhase::Raising);
}
