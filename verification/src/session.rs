//! The session resolver: which bus legs to open, how to reach another
//! identity's session bus when the caller runs as the superuser, and the
//! elevation window that must always restore the original identity.

use vstd::prelude::*;

use crate::errors::ResolveError;
use crate::text::all_digits;
use crate::text::dec_str;
use crate::text::dec_val;
use crate::text::parse_u32;
use crate::text::u32_to_dec;

verus! {

/// The daemon selector: a tri-state input, defaulting to `Either`.
#[derive(Debug, Clone, Copy, PartialEq, Eq, Structural)]
pub enum DaemonOpt {
    User,
    System,
    Either,
}

/// One bus session leg: the caller's session bus or the system-wide bus.
#[derive(Debug, Clone, Copy, PartialEq, Eq, Structural)]
pub enum DaemonType {
    User,
    System,
}

/// Which legs to open, from the three mutually prioritized inputs: an
/// explicit system-only flag wins, then an explicit user-only flag, else
/// the tri-state selector decides (`Either` requests both legs).  The first
/// component is the user leg, the second the system leg.
pub open spec fn spec_wanted_legs(system_only: bool, user_only: bool, daemon: DaemonOpt) -> (
    bool,
    bool,
) {
    if system_only {
        (false, true)
    } else if user_only {
        (true, false)
    } else {
        match daemon {
            DaemonOpt::User => (true, false),
            DaemonOpt::System => (false, true),
            DaemonOpt::Either => (true, true),
        }
    }
}

/// Derives the wanted legs (user, system) from the three inputs.
pub fn resolve_legs(system_only: bool, user_only: bool, daemon: DaemonOpt) -> (r: (bool, bool))
    ensures
        r == spec_wanted_legs(system_only, user_only, daemon),
{
    if system_only {
        (false, true)
    } else if user_only {
        (true, false)
    } else {
        match daemon {
            DaemonOpt::User => (true, false),
            DaemonOpt::System => (false, true),
            DaemonOpt::Either => (true, true),
        }
    }
}

/// The fixed session order: the user leg first, then the system leg.
pub open spec fn spec_session_plan(want_user: bool, want_system: bool) -> Seq<DaemonType> {
    (if want_user {
        seq![DaemonType::User]
    } else {
        Seq::<DaemonType>::empty()
    }) + (if want_system {
        seq![DaemonType::System]
    } else {
        Seq::<DaemonType>::empty()
    })
}

/// The ordered list of session legs to open.
pub fn session_plan(want_user: bool, want_system: bool) -> (r: Vec<DaemonType>)
    ensures
        r@ == spec_session_plan(want_user, want_system),
{
    let mut r: Vec<DaemonType> = Vec::new();
    if want_user {
        r.push(DaemonType::User);
    }
    if want_system {
        r.push(DaemonType::System);
    }
    proof {
        assert(r@ =~= spec_session_plan(want_user, want_system));
    }
    r
}

/// With both legs requested the plan is a two-element ordered list, the
/// user leg first and the system leg second.
pub proof fn lemma_plan_both_legs()
    ensures
        spec_session_plan(true, true) =~= seq![DaemonType::User, DaemonType::System],
        spec_session_plan(true, true).len() == 2,
{
}

/// Whether the "original invoking identity" signal is present, numeric,
/// in range, and non-zero.
pub open spec fn uid_signal_ok(s: Option<&str>) -> bool {
    s matches Some(t) && t@.len() > 0 && all_digits(t@) && dec_val(t@) <= u32::MAX && dec_val(t@)
        != 0
}

/// The identity the signal denotes.
pub open spec fn spec_uid_of(s: Option<&str>) -> nat {
    dec_val(s->0@)
}

/// Resolves the target identity for the user leg of a privileged caller:
/// the invoking-identity signal is honoured exactly when it is present,
/// numeric and non-zero; anything else fails, since no other derivation of
/// the target identity is specified.
pub fn resolve_target_uid(sudo_uid: Option<&str>) -> (r: Result<u32, ResolveError>)
    ensures
        r is Ok <==> uid_signal_ok(sudo_uid),
        r is Ok ==> r->Ok_0 == spec_uid_of(sudo_uid) && r->Ok_0 != 0,
        r is Err ==> r->Err_0 == ResolveError::CannotDetermineUid,
{
    match sudo_uid {
        Some(s) => match parse_u32(s) {
            Some(uid) => if uid != 0 {
                Ok(uid)
            } else {
                Err(ResolveError::CannotDetermineUid)
            },
            None => Err(ResolveError::CannotDetermineUid),
        },
        None => Err(ResolveError::CannotDetermineUid),
    }
}

/// The session-bus address for the target identity: an explicit override
/// wins; else a unix-domain-socket path under the runtime directory, which
/// itself defaults to `/run/user/<uid>`.
pub open spec fn spec_bus_address(
    dbus_override: Option<&str>,
    runtime_dir: Option<&str>,
    uid: u32,
) -> Seq<char> {
    match dbus_override {
        Some(a) => a@,
        None => "unix:path="@ + (match runtime_dir {
            Some(d) => d@,
            None => "/run/user/"@ + dec_str(uid as nat),
        }) + "/bus"@,
    }
}

/// Synthesizes the session-bus address for the target identity.
pub fn resolve_bus_address(dbus_override: Option<&str>, runtime_dir: Option<&str>, uid: u32) -> (r:
    String)
    ensures
        r@ == spec_bus_address(dbus_override, runtime_dir, uid),
{
    match dbus_override {
        Some(a) => String::from_str(a),
        None => {
            let mut r = String::from_str("unix:path=");
            match runtime_dir {
                Some(d) => r.append(d),
                None => {
                    r.append("/run/user/");
                    let uid_str = u32_to_dec(uid);
                    r.append(uid_str.as_str());
                },
            }
            r.append("/bus");
            proof {
                assert(r@ =~= spec_bus_address(dbus_override, runtime_dir, uid));
            }
            r
        },
    }
}

/// How the user leg is to be opened, given the caller's effective identity.
#[derive(Debug, Clone)]
pub enum UserLegPlan {
    /// Unprivileged caller: connect to the caller's own session bus
    /// directly.
    Direct,
    /// Privileged caller: the session bus belongs to the resolved identity;
    /// connect at the synthesized address inside an elevation window.
    Elevated { uid: u32, address: String },
}

/// Plans the user leg.  An unprivileged caller connects directly; a caller
/// whose effective identity is the superuser must resolve the target
/// identity from the invoking-identity signal and the bus address from the
/// override and runtime-directory signals, and fails exactly when the
/// identity cannot be determined.
pub fn plan_user_leg(
    current_euid: u32,
    sudo_uid: Option<&str>,
    dbus_override: Option<&str>,
    runtime_dir: Option<&str>,
) -> (r: Result<UserLegPlan, ResolveError>)
    ensures
        current_euid != 0 ==> (r matches Ok(p) && p is Direct),
        current_euid == 0 && uid_signal_ok(sudo_uid) ==> (r matches Ok(p) && (p matches
            UserLegPlan::Elevated { uid, address } && uid == spec_uid_of(sudo_uid) && address@
            == spec_bus_address(dbus_override, runtime_dir, uid))),
        current_euid == 0 && !uid_signal_ok(sudo_uid) ==> (r matches Err(e) && e
            == ResolveError::CannotDetermineUid),
{
    if current_euid != 0 {
        return Ok(UserLegPlan::Direct);
    }
    let uid = match resolve_target_uid(sudo_uid) {
        Ok(uid) => uid,
        Err(e) => {
            return Err(e);
        },
    };
    let address = resolve_bus_address(dbus_override, runtime_dir, uid);
    Ok(UserLegPlan::Elevated { uid, address })
}

/// What the resolver asks its driver to perform next.  The driver owns the
/// process-wide effective-identity state and the bus transport; the
/// decisions stay here.
#[derive(Debug, Clone)]
pub enum SessionAction {
    /// Set the process's effective identity to the given uid.
    SetEffective(u32),
    /// Attempt the user-scope bus connection at the given address.
    OpenUserBus(String),
    /// The elevation window is over; the flag tells whether the connection
    /// attempt succeeded.  The effective identity has been ordered back to
    /// the original value before this is emitted.
    Done(bool),
}

/// What the driver reports back after performing an action.
#[derive(Debug, Clone, Copy, PartialEq, Eq, Structural)]
pub enum SessionEvent {
    /// Start the window.
    Begin,
    /// The effective identity was set as asked.
    EffectiveSet,
    /// The connection attempt succeeded.
    ConnectSucceeded,
    /// The connection attempt failed.
    ConnectFailed,
}

/// Where the elevation window stands.
#[derive(Debug, Clone, Copy, PartialEq, Eq, Structural)]
pub enum ElevPhase {
    /// Nothing performed yet.
    Init,
    /// The target identity was ordered; awaiting confirmation.
    Raising,
    /// Connecting at the synthesized address.
    Connecting,
    /// The restore of the original identity was ordered; the flag is the
    /// connection attempt's outcome.
    Restoring(bool),
    /// The window is closed; the flag is the connection attempt's outcome.
    Finished(bool),
}

/// The privilege-elevation window around the user-leg connection attempt
/// of a privileged caller.  It is a critical section over the process-wide
/// effective identity: the machine orders the identity raised, orders one
/// connection attempt, and then — whatever the attempt's outcome — orders
/// the original identity restored before it closes.
#[derive(Debug, Clone)]
pub struct ElevatedConnect {
    /// The identity to assume for the attempt.
    pub target_uid: u32,
    /// The identity to restore unconditionally afterwards.
    pub original_uid: u32,
    /// The session-bus address to connect to.
    pub address: String,
    /// Where the window stands.
    pub phase: ElevPhase,
}

/// One transition of the elevation window: the next state and the action
/// ordered, if any.  An event that does not belong to the current phase
/// orders nothing and moves nowhere.
pub open spec fn spec_elev_step(m: ElevatedConnect, ev: SessionEvent) -> (
    ElevatedConnect,
    Option<SessionAction>,
) {
    match (m.phase, ev) {
        (ElevPhase::Init, SessionEvent::Begin) => (
            ElevatedConnect { phase: ElevPhase::Raising, ..m },
            Some(SessionAction::SetEffective(m.target_uid)),
        ),
        (ElevPhase::Raising, SessionEvent::EffectiveSet) => (
            ElevatedConnect { phase: ElevPhase::Connecting, ..m },
            Some(SessionAction::OpenUserBus(m.address)),
        ),
        (ElevPhase::Connecting, SessionEvent::ConnectSucceeded) => (
            ElevatedConnect { phase: ElevPhase::Restoring(true), ..m },
            Some(SessionAction::SetEffective(m.original_uid)),
        ),
        (ElevPhase::Connecting, SessionEvent::ConnectFailed) => (
            ElevatedConnect { phase: ElevPhase::Restoring(false), ..m },
            Some(SessionAction::SetEffective(m.original_uid)),
        ),
        (ElevPhase::Restoring(ok), SessionEvent::EffectiveSet) => (
            ElevatedConnect { phase: ElevPhase::Finished(ok), ..m },
            Some(SessionAction::Done(ok)),
        ),
        _ => (m, None),
    }
}

impl ElevatedConnect {
    /// A fresh elevation window.
    pub fn new(target_uid: u32, original_uid: u32, address: String) -> (m: ElevatedConnect)
        ensures
            m.target_uid == target_uid,
            m.original_uid == original_uid,
            m.address == address,
            m.phase == ElevPhase::Init,
    {
        ElevatedConnect { target_uid, original_uid, address, phase: ElevPhase::Init }
    }

    /// Performs one transition, handing the driver its next order.
    pub fn step(&mut self, ev: SessionEvent) -> (a: Option<SessionAction>)
        ensures
            *final(self) == spec_elev_step(*old(self), ev).0,
            a == spec_elev_step(*old(self), ev).1,
    {
        match (self.phase, ev) {
            (ElevPhase::Init, SessionEvent::Begin) => {
                self.phase = ElevPhase::Raising;
                Some(SessionAction::SetEffective(self.target_uid))
            },
            (ElevPhase::Raising, SessionEvent::EffectiveSet) => {
                self.phase = ElevPhase::Connecting;
                Some(SessionAction::OpenUserBus(self.address.clone()))
            },
            (ElevPhase::Connecting, SessionEvent::ConnectSucceeded) => {
                self.phase = ElevPhase::Restoring(true);
                Some(SessionAction::SetEffective(self.original_uid))
            },
            (ElevPhase::Connecting, SessionEvent::ConnectFailed) => {
                self.phase = ElevPhase::Restoring(false);
                Some(SessionAction::SetEffective(self.original_uid))
            },
            (ElevPhase::Restoring(ok), SessionEvent::EffectiveSet) => {
                let done = ok;
                self.phase = ElevPhase::Finished(done);
                Some(SessionAction::Done(done))
            },
            _ => None,
        }
    }
}

/// After any connection attempt — success or failure alike — the very next
/// action the elevation window orders is the restore of the original
/// effective identity.  An elevated identity never persists past the
/// attempt.
pub proof fn lemma_identity_restored(m: ElevatedConnect, ev: SessionEvent)
    requires
        m.phase == ElevPhase::Connecting,
        ev == SessionEvent::ConnectSucceeded || ev == SessionEvent::ConnectFailed,
    ensures
        spec_elev_step(m, ev).1 == Some(SessionAction::SetEffective(m.original_uid)),
        spec_elev_step(m, ev).0.phase matches ElevPhase::Restoring(ok) && ok == (ev
            == SessionEvent::ConnectSucceeded),
{
}

/// The elevation window never orders the effective identity set to any
/// value other than the target or the original, and once the connection
/// attempt is over it only ever orders the original.
pub proof fn lemma_identity_discipline(m: ElevatedConnect, ev: SessionEvent)
    ensures
        (spec_elev_step(m, ev).1 matches Some(SessionAction::SetEffective(u)) ==> (u
            == m.target_uid || u == m.original_uid)),
        !(m.phase is Init) ==> !(spec_elev_step(m, ev).1 matches Some(
            SessionAction::SetEffective(u),
        ) && u == m.target_uid && u != m.original_uid),
{
}

} // verus!
