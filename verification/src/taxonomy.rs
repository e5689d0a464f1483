//! The closed status and unit-type vocabulary of the service manager, and
//! the classification of raw values against it.
//!
//! Both enumerations are closed sets coupled to the live service manager's
//! vocabulary: an unknown raw value is a fatal classification failure, never
//! a silently accepted catch-all.

use vstd::prelude::*;

use crate::errors::ParseError;
use crate::text::str_eq;

verus! {

/// One value of the service manager's status vocabulary, across all three
/// axes.  `StatusActive` is a synthetic filter-term alias for the sub-state
/// value `active`.
#[derive(Debug, Clone, Copy, PartialEq, Eq, Structural)]
pub enum StatusOpt {
    Loaded,
    NotFound,
    BadSetting,
    Active,
    Inactive,
    Failed,
    Dead,
    Running,
    Plugged,
    Mounted,
    Waiting,
    Exited,
    Listening,
    StatusActive,
}

/// The three independent status axes of a unit: load state, active state,
/// and sub-state.  The same enumeration names the three status positions of
/// a raw record.
#[derive(Debug, Clone, Copy, PartialEq, Eq, Structural)]
pub enum StatusOptType {
    Loaded,
    Active,
    Status,
}

impl StatusOpt {
    /// The axis category a status value belongs to by static lookup.
    pub open spec fn spec_get_type(&self) -> StatusOptType {
        match self {
            StatusOpt::Active | StatusOpt::Inactive => StatusOptType::Active,
            StatusOpt::NotFound | StatusOpt::Loaded | StatusOpt::BadSetting => StatusOptType::Loaded,
            _ => StatusOptType::Status,
        }
    }

    /// The axis category of this status value.
    #[verifier::when_used_as_spec(spec_get_type)]
    pub fn get_type(&self) -> (t: StatusOptType)
        ensures
            t == self.spec_get_type(),
    {
        match self {
            StatusOpt::Active | StatusOpt::Inactive => StatusOptType::Active,
            StatusOpt::NotFound | StatusOpt::Loaded | StatusOpt::BadSetting => StatusOptType::Loaded,
            _ => StatusOptType::Status,
        }
    }

    /// The raw spelling of this status value in the service manager's
    /// vocabulary.
    pub open spec fn spec_name(&self) -> Seq<char> {
        match self {
            StatusOpt::Loaded => "loaded"@,
            StatusOpt::NotFound => "not-found"@,
            StatusOpt::BadSetting => "bad-setting"@,
            StatusOpt::Active => "active"@,
            StatusOpt::Inactive => "inactive"@,
            StatusOpt::Failed => "failed"@,
            StatusOpt::Dead => "dead"@,
            StatusOpt::Running => "running"@,
            StatusOpt::Plugged => "plugged"@,
            StatusOpt::Mounted => "mounted"@,
            StatusOpt::Waiting => "waiting"@,
            StatusOpt::Exited => "exited"@,
            StatusOpt::Listening => "listening"@,
            StatusOpt::StatusActive => "status-active"@,
        }
    }

    /// The raw spelling of this status value.
    pub fn name_str(&self) -> (r: &'static str)
        ensures
            r@ == self.spec_name(),
    {
        match self {
            StatusOpt::Loaded => "loaded",
            StatusOpt::NotFound => "not-found",
            StatusOpt::BadSetting => "bad-setting",
            StatusOpt::Active => "active",
            StatusOpt::Inactive => "inactive",
            StatusOpt::Failed => "failed",
            StatusOpt::Dead => "dead",
            StatusOpt::Running => "running",
            StatusOpt::Plugged => "plugged",
            StatusOpt::Mounted => "mounted",
            StatusOpt::Waiting => "waiting",
            StatusOpt::Exited => "exited",
            StatusOpt::Listening => "listening",
            StatusOpt::StatusActive => "status-active",
        }
    }
}

/// The status value a raw string denotes, if any.
pub open spec fn spec_status_of_str(s: Seq<char>) -> Option<StatusOpt> {
    if s == "loaded"@ {
        Some(StatusOpt::Loaded)
    } else if s == "not-found"@ {
        Some(StatusOpt::NotFound)
    } else if s == "bad-setting"@ {
        Some(StatusOpt::BadSetting)
    } else if s == "active"@ {
        Some(StatusOpt::Active)
    } else if s == "inactive"@ {
        Some(StatusOpt::Inactive)
    } else if s == "failed"@ {
        Some(StatusOpt::Failed)
    } else if s == "dead"@ {
        Some(StatusOpt::Dead)
    } else if s == "running"@ {
        Some(StatusOpt::Running)
    } else if s == "plugged"@ {
        Some(StatusOpt::Plugged)
    } else if s == "mounted"@ {
        Some(StatusOpt::Mounted)
    } else if s == "waiting"@ {
        Some(StatusOpt::Waiting)
    } else if s == "exited"@ {
        Some(StatusOpt::Exited)
    } else if s == "listening"@ {
        Some(StatusOpt::Listening)
    } else if s == "status-active"@ {
        Some(StatusOpt::StatusActive)
    } else {
        None
    }
}

/// Looks a raw string up in the status vocabulary.
pub fn status_of_str(s: &str) -> (r: Option<StatusOpt>)
    ensures
        r == spec_status_of_str(s@),
{
    if str_eq(s, "loaded") {
        Some(StatusOpt::Loaded)
    } else if str_eq(s, "not-found") {
        Some(StatusOpt::NotFound)
    } else if str_eq(s, "bad-setting") {
        Some(StatusOpt::BadSetting)
    } else if str_eq(s, "active") {
        Some(StatusOpt::Active)
    } else if str_eq(s, "inactive") {
        Some(StatusOpt::Inactive)
    } else if str_eq(s, "failed") {
        Some(StatusOpt::Failed)
    } else if str_eq(s, "dead") {
        Some(StatusOpt::Dead)
    } else if str_eq(s, "running") {
        Some(StatusOpt::Running)
    } else if str_eq(s, "plugged") {
        Some(StatusOpt::Plugged)
    } else if str_eq(s, "mounted") {
        Some(StatusOpt::Mounted)
    } else if str_eq(s, "waiting") {
        Some(StatusOpt::Waiting)
    } else if str_eq(s, "exited") {
        Some(StatusOpt::Exited)
    } else if str_eq(s, "listening") {
        Some(StatusOpt::Listening)
    } else if str_eq(s, "status-active") {
        Some(StatusOpt::StatusActive)
    } else {
        None
    }
}

/// Which status values a raw record may carry at each position: the load
/// field takes the Loaded category; the active field takes the Active
/// category plus `failed`; the sub-state field takes the Status category
/// plus `active`.
pub open spec fn allowed_in(pos: StatusOptType, v: StatusOpt) -> bool {
    match pos {
        StatusOptType::Loaded => v.spec_get_type() == StatusOptType::Loaded,
        StatusOptType::Active => v.spec_get_type() == StatusOptType::Active || v
            == StatusOpt::Failed,
        StatusOptType::Status => v.spec_get_type() == StatusOptType::Status || v
            == StatusOpt::Active,
    }
}

/// Classifies one raw status string against the axis of its position.
/// Succeeds exactly when the string is in the vocabulary and its value is
/// permitted at that position; any other raw value is a fatal drift of the
/// service manager's vocabulary.
pub fn classify(pos: StatusOptType, raw: &str) -> (r: Result<StatusOpt, ParseError>)
    ensures
        r is Ok <==> (spec_status_of_str(raw@) matches Some(v) && allowed_in(pos, v)),
        r is Ok ==> Some(r->Ok_0) == spec_status_of_str(raw@),
        r is Err ==> (r->Err_0 matches ParseError::InvalidStatusValue { position, value }
            && position == pos && value@ == raw@),
{
    match status_of_str(raw) {
        Some(v) => {
            let ok = match pos {
                StatusOptType::Loaded => v.get_type() == StatusOptType::Loaded,
                StatusOptType::Active => v.get_type() == StatusOptType::Active || v
                    == StatusOpt::Failed,
                StatusOptType::Status => v.get_type() == StatusOptType::Status || v
                    == StatusOpt::Active,
            };
            if ok {
                Ok(v)
            } else {
                Err(ParseError::InvalidStatusValue { position: pos, value: String::from_str(raw) })
            }
        },
        None => Err(
            ParseError::InvalidStatusValue { position: pos, value: String::from_str(raw) },
        ),
    }
}

/// The closed enumeration of unit types, as spelled in a unit name's suffix.
#[derive(Debug, Clone, Copy, PartialEq, Eq, Structural)]
pub enum TypeOpt {
    Socket,
    Service,
    Network,
    Device,
    Timer,
    Target,
    Slice,
    Scope,
    Mount,
    Swap,
    Path,
}

impl TypeOpt {
    /// The suffix spelling of this unit type.
    pub open spec fn spec_name(&self) -> Seq<char> {
        match self {
            TypeOpt::Socket => "socket"@,
            TypeOpt::Service => "service"@,
            TypeOpt::Network => "network"@,
            TypeOpt::Device => "device"@,
            TypeOpt::Timer => "timer"@,
            TypeOpt::Target => "target"@,
            TypeOpt::Slice => "slice"@,
            TypeOpt::Scope => "scope"@,
            TypeOpt::Mount => "mount"@,
            TypeOpt::Swap => "swap"@,
            TypeOpt::Path => "path"@,
        }
    }

    /// The suffix spelling of this unit type.
    pub fn name_str(&self) -> (r: &'static str)
        ensures
            r@ == self.spec_name(),
    {
        match self {
            TypeOpt::Socket => "socket",
            TypeOpt::Service => "service",
            TypeOpt::Network => "network",
            TypeOpt::Device => "device",
            TypeOpt::Timer => "timer",
            TypeOpt::Target => "target",
            TypeOpt::Slice => "slice",
            TypeOpt::Scope => "scope",
            TypeOpt::Mount => "mount",
            TypeOpt::Swap => "swap",
            TypeOpt::Path => "path",
        }
    }

    /// Every unit type, in declaration order.
    pub fn variants() -> (r: [TypeOpt; 11])
        ensures
            r@ == seq![
                TypeOpt::Socket,
                TypeOpt::Service,
                TypeOpt::Network,
                TypeOpt::Device,
                TypeOpt::Timer,
                TypeOpt::Target,
                TypeOpt::Slice,
                TypeOpt::Scope,
                TypeOpt::Mount,
                TypeOpt::Swap,
                TypeOpt::Path,
            ],
    {
        let r = [
            TypeOpt::Socket,
            TypeOpt::Service,
            TypeOpt::Network,
            TypeOpt::Device,
            TypeOpt::Timer,
            TypeOpt::Target,
            TypeOpt::Slice,
            TypeOpt::Scope,
            TypeOpt::Mount,
            TypeOpt::Swap,
            TypeOpt::Path,
        ];
        proof {
            assert(r@ =~= seq![
                TypeOpt::Socket,
                TypeOpt::Service,
                TypeOpt::Network,
                TypeOpt::Device,
                TypeOpt::Timer,
                TypeOpt::Target,
                TypeOpt::Slice,
                TypeOpt::Scope,
                TypeOpt::Mount,
                TypeOpt::Swap,
                TypeOpt::Path,
            ]);
        }
        r
    }
}

/// The unit type a raw suffix denotes, if any.
pub open spec fn spec_type_of_str(s: Seq<char>) -> Option<TypeOpt> {
    if s == "socket"@ {
        Some(TypeOpt::Socket)
    } else if s == "service"@ {
        Some(TypeOpt::Service)
    } else if s == "network"@ {
        Some(TypeOpt::Network)
    } else if s == "device"@ {
        Some(TypeOpt::Device)
    } else if s == "timer"@ {
        Some(TypeOpt::Timer)
    } else if s == "target"@ {
        Some(TypeOpt::Target)
    } else if s == "slice"@ {
        Some(TypeOpt::Slice)
    } else if s == "scope"@ {
        Some(TypeOpt::Scope)
    } else if s == "mount"@ {
        Some(TypeOpt::Mount)
    } else if s == "swap"@ {
        Some(TypeOpt::Swap)
    } else if s == "path"@ {
        Some(TypeOpt::Path)
    } else {
        None
    }
}

/// Looks a raw suffix up in the unit-type vocabulary.
pub fn type_of_str(s: &str) -> (r: Option<TypeOpt>)
    ensures
        r == spec_type_of_str(s@),
{
    if str_eq(s, "socket") {
        Some(TypeOpt::Socket)
    } else if str_eq(s, "service") {
        Some(TypeOpt::Service)
    } else if str_eq(s, "network") {
        Some(TypeOpt::Network)
    } else if str_eq(s, "device") {
        Some(TypeOpt::Device)
    } else if str_eq(s, "timer") {
        Some(TypeOpt::Timer)
    } else if str_eq(s, "target") {
        Some(TypeOpt::Target)
    } else if str_eq(s, "slice") {
        Some(TypeOpt::Slice)
    } else if str_eq(s, "scope") {
        Some(TypeOpt::Scope)
    } else if str_eq(s, "mount") {
        Some(TypeOpt::Mount)
    } else if str_eq(s, "swap") {
        Some(TypeOpt::Swap)
    } else if str_eq(s, "path") {
        Some(TypeOpt::Path)
    } else {
        None
    }
}

/// Whether the sequence holds a `.` anywhere.
pub open spec fn has_dot(s: Seq<char>) -> bool {
    exists|i: int| 0 <= i < s.len() && s[i] == '.'
}

/// The index of the last `.` in the sequence, or -1 if there is none.
pub open spec fn last_dot(s: Seq<char>) -> int
    decreases s.len(),
{
    if s.len() == 0 {
        -1
    } else if s.last() == '.' {
        s.len() - 1
    } else {
        last_dot(s.drop_last())
    }
}

/// The prefix of a unit name before its last `.`.
pub open spec fn base_of(s: Seq<char>) -> Seq<char> {
    s.subrange(0, last_dot(s))
}

/// The suffix of a unit name after its last `.`.
pub open spec fn ext_of(s: Seq<char>) -> Seq<char> {
    s.subrange(last_dot(s) + 1, s.len() as int)
}

/// `last_dot` finds a `.`, every later position holds none, and it is -1
/// exactly on dot-free sequences.
pub proof fn lemma_last_dot(s: Seq<char>)
    ensures
        -1 <= last_dot(s) < s.len(),
        last_dot(s) >= 0 ==> s[last_dot(s)] == '.',
        last_dot(s) >= 0 ==> forall|j: int| last_dot(s) < j < s.len() ==> s[j] != '.',
        last_dot(s) == -1 <==> !has_dot(s),
    decreases s.len(),
{
    if s.len() == 0 {
        assert(!has_dot(s));
    } else if s.last() == '.' {
        assert(has_dot(s)) by {
            assert(s[s.len() - 1] == '.');
        }
    } else {
        let t = s.drop_last();
        lemma_last_dot(t);
        assert(forall|j: int| 0 <= j < t.len() ==> t[j] == s[j]);
        if last_dot(t) == -1 {
            assert(!has_dot(s)) by {
                if has_dot(s) {
                    let i = choose|i: int| 0 <= i < s.len() && s[i] == '.';
                    if i == s.len() - 1 {
                        assert(false);
                    } else {
                        assert(t[i] == '.');
                        assert(has_dot(t));
                    }
                }
            }
        } else {
            assert(has_dot(s)) by {
                assert(s[last_dot(t)] == '.');
            }
        }
    }
}

/// A position holding a `.` with no `.` after it is the last dot.
pub proof fn lemma_last_dot_unique(s: Seq<char>, k: int)
    requires
        0 <= k < s.len(),
        s[k] == '.',
        forall|j: int| k < j < s.len() ==> s[j] != '.',
    ensures
        last_dot(s) == k,
    decreases s.len(),
{
    if k == s.len() - 1 {
    } else {
        assert(s.last() != '.');
        let t = s.drop_last();
        assert(forall|j: int| 0 <= j < t.len() ==> t[j] == s[j]);
        lemma_last_dot_unique(t, k);
    }
}

/// A unit name with exactly one `.` splits around it, and the split
/// round-trips: the base, a dot, and the type suffix concatenate back to
/// the name.
pub proof fn lemma_unit_name_round_trip(name: Seq<char>, i: int)
    requires
        0 <= i < name.len(),
        name[i] == '.',
        forall|j: int| 0 <= j < name.len() && name[j] == '.' ==> j == i,
    ensures
        last_dot(name) == i,
        base_of(name) == name.subrange(0, i),
        ext_of(name) == name.subrange(i + 1, name.len() as int),
        base_of(name) + seq!['.'] + ext_of(name) == name,
{
    lemma_last_dot_unique(name, i);
    assert(base_of(name) + seq!['.'] + ext_of(name) =~= name);
}

/// Splits a unit name on its last `.` into base name and unit type.
/// Succeeds exactly when the name holds a `.` and the suffix after the
/// last one is a known unit type; a missing separator or an unknown suffix
/// is a fatal parse error, never a silent drop.
pub fn unit_type_of(name: &str) -> (r: Result<(String, TypeOpt), ParseError>)
    ensures
        r is Ok <==> (has_dot(name@) && spec_type_of_str(ext_of(name@)) is Some),
        r is Ok ==> r->Ok_0.0@ == base_of(name@) && Some(r->Ok_0.1) == spec_type_of_str(
            ext_of(name@),
        ),
        r is Err && !has_dot(name@) ==> (r->Err_0 matches ParseError::InvalidUnitName(n) && n@
            == name@),
        r is Err && has_dot(name@) ==> (r->Err_0 matches ParseError::InvalidUnitType(t) && t@
            == ext_of(name@)),
{
    let len = name.unicode_len();
    let mut i: usize = len;
    let mut dot: usize = 0;
    let mut found = false;
    while i > 0 && !found
        invariant
            len == name@.len(),
            0 <= i <= len,
            !found ==> forall|j: int| i <= j < len ==> name@[j] != '.',
            found ==> i < len && name@[i as int] == '.' && dot == i && forall|j: int|
                i < j < len ==> name@[j] != '.',
        decreases i + if found { 0int } else { 1int },
    {
        i = i - 1;
        if name.get_char(i) == '.' {
            dot = i;
            found = true;
        }
    }
    if !found {
        proof {
            lemma_last_dot(name@);
        }
        return Err(ParseError::InvalidUnitName(String::from_str(name)));
    }
    proof {
        lemma_last_dot_unique(name@, dot as int);
    }
    let ext = name.substring_char(dot + 1, len);
    let base = name.substring_char(0, dot);
    match type_of_str(ext) {
        Some(t) => Ok((String::from_str(base), t)),
        None => Err(ParseError::InvalidUnitType(String::from_str(ext))),
    }
}

} // verus!
