//! The status-filter combinator: bucketing flat filter terms into the three
//! axes, and the include/exclude membership policies over a record's status
//! triple.

use vstd::prelude::*;

use crate::taxonomy::StatusOpt;
use crate::taxonomy::StatusOptType;
use crate::units::ListUnitsItem;

verus! {

/// One value per status axis.
#[derive(Debug, Clone)]
pub struct StatusFields<T> {
    pub loaded: T,
    pub active: T,
    pub status: T,
}

/// Three independent ordered term lists, one per axis.
pub type StatusFilter = StatusFields<Vec<StatusOpt>>;

/// The axis a filter term buckets into: the synthetic `status-active` term
/// always buckets into the sub-state axis, every other term into its own
/// category.
pub open spec fn filter_term_axis(s: StatusOpt) -> StatusOptType {
    if s == StatusOpt::StatusActive {
        StatusOptType::Status
    } else {
        s.spec_get_type()
    }
}

/// The value a filter term contributes: `status-active` aliases to `active`,
/// every other term stands for itself.
pub open spec fn filter_term_value(s: StatusOpt) -> StatusOpt {
    if s == StatusOpt::StatusActive {
        StatusOpt::Active
    } else {
        s
    }
}

/// The terms of `l` that bucket into `axis`, in order, alias applied.
pub open spec fn bucket(l: Seq<StatusOpt>, axis: StatusOptType) -> Seq<StatusOpt>
    decreases l.len(),
{
    if l.len() == 0 {
        Seq::empty()
    } else if filter_term_axis(l.last()) == axis {
        bucket(l.drop_last(), axis) + seq![filter_term_value(l.last())]
    } else {
        bucket(l.drop_last(), axis)
    }
}

/// Buckets a flat list of filter terms into the three axis lists, keeping
/// the order of the terms within each axis.
pub fn split_status_list(l: &[StatusOpt]) -> (ret: StatusFilter)
    ensures
        ret.loaded@ == bucket(l@, StatusOptType::Loaded),
        ret.active@ == bucket(l@, StatusOptType::Active),
        ret.status@ == bucket(l@, StatusOptType::Status),
{
    let mut ret = StatusFields { loaded: Vec::new(), active: Vec::new(), status: Vec::new() };
    let mut i: usize = 0;
    let len = l.len();
    while i < len
        invariant
            len == l@.len(),
            0 <= i <= len,
            ret.loaded@ == bucket(l@.subrange(0, i as int), StatusOptType::Loaded),
            ret.active@ == bucket(l@.subrange(0, i as int), StatusOptType::Active),
            ret.status@ == bucket(l@.subrange(0, i as int), StatusOptType::Status),
        decreases len - i,
    {
        let state = l[i];
        proof {
            let p = l@.subrange(0, i + 1);
            assert(p.drop_last() =~= l@.subrange(0, i as int));
            assert(p.last() == l@[i as int]);
        }
        if state == StatusOpt::StatusActive {
            ret.status.push(StatusOpt::Active);
        } else {
            match state.get_type() {
                StatusOptType::Active => ret.active.push(state),
                StatusOptType::Loaded => ret.loaded.push(state),
                StatusOptType::Status => ret.status.push(state),
            }
        }
        i = i + 1;
        proof {
            assert(ret.loaded@ =~= bucket(l@.subrange(0, i as int), StatusOptType::Loaded));
            assert(ret.active@ =~= bucket(l@.subrange(0, i as int), StatusOptType::Active));
            assert(ret.status@ =~= bucket(l@.subrange(0, i as int), StatusOptType::Status));
        }
    }
    proof {
        assert(l@.subrange(0, len as int) =~= l@);
    }
    ret
}

/// Whether a term list holds a value.
fn status_list_contains(l: &Vec<StatusOpt>, v: StatusOpt) -> (r: bool)
    ensures
        r == l@.contains(v),
{
    let mut i: usize = 0;
    let len = l.len();
    while i < len
        invariant
            len == l@.len(),
            0 <= i <= len,
            forall|j: int| 0 <= j < i ==> l@[j] != v,
        decreases len - i,
    {
        if l[i] == v {
            return true;
        }
        i = i + 1;
    }
    false
}

impl StatusFilter {
    /// Whether all three axis lists are empty.
    pub open spec fn spec_is_empty(&self) -> bool {
        self.loaded@.len() == 0 && self.active@.len() == 0 && self.status@.len() == 0
    }

    /// The broad-match include policy over a status triple: an entirely
    /// empty set restricts nothing, and otherwise one matching axis is
    /// sufficient.
    pub open spec fn spec_includes(&self, loaded: StatusOpt, active: StatusOpt, status: StatusOpt) -> bool {
        self.spec_is_empty() || (self.loaded@.contains(loaded) || self.active@.contains(active)
            || self.status@.contains(status))
    }

    /// The exclude policy over a status triple: an entirely empty set
    /// excludes nothing, and otherwise a record survives only by avoiding
    /// every listed value on every axis.
    pub open spec fn spec_excludes(&self, loaded: StatusOpt, active: StatusOpt, status: StatusOpt) -> bool {
        self.spec_is_empty() || (!self.loaded@.contains(loaded) && !self.active@.contains(active)
            && !self.status@.contains(status))
    }

    /// Whether the include policy admits this record.
    pub fn filter_includes(&self, unit: &ListUnitsItem) -> (r: bool)
        ensures
            r == self.spec_includes(unit.loaded, unit.active, unit.status),
    {
        (self.loaded.is_empty() && self.active.is_empty() && self.status.is_empty()) || (
        status_list_contains(&self.loaded, unit.loaded) || status_list_contains(
            &self.active,
            unit.active,
        ) || status_list_contains(&self.status, unit.status))
    }

    /// Whether the exclude policy lets this record survive.
    pub fn filter_excludes(&self, unit: &ListUnitsItem) -> (r: bool)
        ensures
            r == self.spec_excludes(unit.loaded, unit.active, unit.status),
    {
        (self.loaded.is_empty() && self.active.is_empty() && self.status.is_empty()) || ((
        !status_list_contains(&self.loaded, unit.loaded)) && (!status_list_contains(
            &self.active,
            unit.active,
        )) && (!status_list_contains(&self.status, unit.status)))
    }
}

/// The include policy is vacuously true on an empty filter set, and on a
/// non-empty one it holds exactly when at least one axis value is a member
/// of its list.
pub proof fn lemma_includes_policy(
    f: StatusFilter,
    loaded: StatusOpt,
    active: StatusOpt,
    status: StatusOpt,
)
    ensures
        f.spec_is_empty() ==> f.spec_includes(loaded, active, status),
        !f.spec_is_empty() ==> (f.spec_includes(loaded, active, status) <==> (f.loaded@.contains(
            loaded,
        ) || f.active@.contains(active) || f.status@.contains(status))),
{
}

/// The exclude policy is vacuously true on an empty filter set, and on a
/// non-empty one it holds exactly when no axis value is a member of its
/// list.
pub proof fn lemma_excludes_policy(
    f: StatusFilter,
    loaded: StatusOpt,
    active: StatusOpt,
    status: StatusOpt,
)
    ensures
        f.spec_is_empty() ==> f.spec_excludes(loaded, active, status),
        !f.spec_is_empty() ==> (f.spec_excludes(loaded, active, status) <==> (!f.loaded@.contains(
            loaded,
        ) && !f.active@.contains(active) && !f.status@.contains(status))),
{
}

} // verus!
