//! Unit records: the raw enumeration row, its classified form, and the
//! selection pipeline over a session's full unit list.

use vstd::prelude::*;

use crate::errors::ParseError;
use crate::filter::StatusFilter;
use crate::session::DaemonType;
use crate::pattern::matches_name;
use crate::pattern::name_matches;
use crate::pattern::MatchMode;
use crate::pattern::NameMatcher;
use crate::taxonomy::allowed_in;
use crate::taxonomy::base_of;
use crate::taxonomy::classify;
use crate::taxonomy::ext_of;
use crate::taxonomy::has_dot;
use crate::taxonomy::spec_status_of_str;
use crate::taxonomy::spec_type_of_str;
use crate::taxonomy::unit_type_of;
use crate::taxonomy::StatusOpt;
use crate::taxonomy::StatusOptType;
use crate::taxonomy::TypeOpt;
use crate::text::lemma_lex_le_total;
use crate::text::lemma_lex_le_trans;
use crate::text::lex_le;
use crate::text::str_le;

verus! {

/// One row of the service manager's enumeration call, as plain values.  The
/// two object paths are carried as opaque token strings.
#[derive(Debug, Clone)]
pub struct RawUnit {
    pub name: String,
    pub desc: String,
    pub loaded: String,
    pub active: String,
    pub status: String,
    pub other_name: String,
    pub path: String,
    pub job_id: u32,
    pub job_type: String,
    pub job_object_path: String,
}

/// A classified unit record: the raw row with its three status values
/// validated and its name split into base name and unit type.
#[derive(Debug, Clone)]
pub struct ListUnitsItem {
    pub name: String,
    pub desc: String,
    pub loaded: StatusOpt,
    pub active: StatusOpt,
    pub status: StatusOpt,
    pub other_name: String,
    pub path: String,
    pub job_id: u32,
    pub job_type: String,
    pub job_object_path: String,
    pub unit_type: TypeOpt,
    pub base_name: String,
}

/// Whether a raw status string is valid at the given tuple position.
pub open spec fn status_ok(pos: StatusOptType, s: Seq<char>) -> bool {
    spec_status_of_str(s) matches Some(v) && allowed_in(pos, v)
}

/// Whether a raw name splits into a base and a known unit type.
pub open spec fn name_ok(name: Seq<char>) -> bool {
    has_dot(name) && spec_type_of_str(ext_of(name)) is Some
}

impl RawUnit {
    /// Whether the whole raw row classifies without error.
    pub open spec fn spec_parses(&self) -> bool {
        name_ok(self.name@) && status_ok(StatusOptType::Loaded, self.loaded@) && status_ok(
            StatusOptType::Active,
            self.active@,
        ) && status_ok(StatusOptType::Status, self.status@)
    }
}

/// A raw row carrying any status value outside its position's permitted
/// set — the `active`/`failed` cross-axis exceptions included in those
/// sets — never classifies: the whole-row parse fails.
pub proof fn lemma_bad_status_never_parses(t: RawUnit)
    requires
        !status_ok(StatusOptType::Loaded, t.loaded@) || !status_ok(
            StatusOptType::Active,
            t.active@,
        ) || !status_ok(StatusOptType::Status, t.status@),
    ensures
        !t.spec_parses(),
{
}

/// Which error classifies an unusable raw row: the first offending field,
/// in row order — name split, load state, active state, sub-state.
pub open spec fn spec_err_for(t: RawUnit, e: ParseError) -> bool {
    if !has_dot(t.name@) {
        e matches ParseError::InvalidUnitName(n) && n@ == t.name@
    } else if !name_ok(t.name@) {
        e matches ParseError::InvalidUnitType(x) && x@ == ext_of(t.name@)
    } else if !status_ok(StatusOptType::Loaded, t.loaded@) {
        e matches ParseError::InvalidStatusValue { position, value } && position
            == StatusOptType::Loaded && value@ == t.loaded@
    } else if !status_ok(StatusOptType::Active, t.active@) {
        e matches ParseError::InvalidStatusValue { position, value } && position
            == StatusOptType::Active && value@ == t.active@
    } else {
        e matches ParseError::InvalidStatusValue { position, value } && position
            == StatusOptType::Status && value@ == t.status@
    }
}

impl ListUnitsItem {
    /// How a classified record relates to the raw row it came from.
    pub open spec fn spec_from(&self, t: RawUnit) -> bool {
        &&& self.name@ == t.name@
        &&& self.desc@ == t.desc@
        &&& Some(self.loaded) == spec_status_of_str(t.loaded@)
        &&& Some(self.active) == spec_status_of_str(t.active@)
        &&& Some(self.status) == spec_status_of_str(t.status@)
        &&& self.other_name@ == t.other_name@
        &&& self.path@ == t.path@
        &&& self.job_id == t.job_id
        &&& self.job_type@ == t.job_type@
        &&& self.job_object_path@ == t.job_object_path@
        &&& Some(self.unit_type) == spec_type_of_str(ext_of(t.name@))
        &&& self.base_name@ == base_of(t.name@)
    }

    /// Classifies one raw row.  Succeeds exactly when the name splits into
    /// a known unit type and all three status values are permitted at their
    /// positions; the first offending field, in row order, names the error.
    /// A malformed row is fatal to the run, never silently dropped.
    pub fn from_raw(t: RawUnit) -> (r: Result<ListUnitsItem, ParseError>)
        ensures
            r is Ok <==> t.spec_parses(),
            r is Ok ==> r->Ok_0.spec_from(t),
            r is Err ==> spec_err_for(t, r->Err_0),
    {
        let (base_name, unit_type) = match unit_type_of(t.name.as_str()) {
            Ok(p) => p,
            Err(e) => {
                return Err(e);
            },
        };
        let loaded = match classify(StatusOptType::Loaded, t.loaded.as_str()) {
            Ok(v) => v,
            Err(e) => {
                return Err(e);
            },
        };
        let active = match classify(StatusOptType::Active, t.active.as_str()) {
            Ok(v) => v,
            Err(e) => {
                return Err(e);
            },
        };
        let status = match classify(StatusOptType::Status, t.status.as_str()) {
            Ok(v) => v,
            Err(e) => {
                return Err(e);
            },
        };
        Ok(
            ListUnitsItem {
                name: t.name,
                desc: t.desc,
                loaded,
                active,
                status,
                other_name: t.other_name,
                path: t.path,
                job_id: t.job_id,
                job_type: t.job_type,
                job_object_path: t.job_object_path,
                unit_type,
                base_name,
            },
        )
    }
}

/// Whether a type-filter list holds a unit type.
fn type_list_contains(l: &Vec<TypeOpt>, t: TypeOpt) -> (r: bool)
    ensures
        r == l@.contains(t),
{
    let mut i: usize = 0;
    let len = l.len();
    while i < len
        invariant
            len == l@.len(),
            0 <= i <= len,
            forall|j: int| 0 <= j < i ==> l@[j] != t,
        decreases len - i,
    {
        if l[i] == t {
            return true;
        }
        i = i + 1;
    }
    false
}

/// The full combinator over one classified record: the name-pattern
/// predicate, the two status policies, and the type filter
/// (an empty type filter restricts nothing).
pub open spec fn spec_unit_passes(
    u: ListUnitsItem,
    ms: Seq<NameMatcher>,
    mode: MatchMode,
    incl: StatusFilter,
    excl: StatusFilter,
    types: Seq<TypeOpt>,
) -> bool {
    &&& name_matches(ms, u.name@, mode)
    &&& incl.spec_includes(u.loaded, u.active, u.status)
    &&& excl.spec_excludes(u.loaded, u.active, u.status)
    &&& (types.len() == 0 || types.contains(u.unit_type))
}

/// Whether the record passes the full combinator.
pub fn unit_passes(
    u: &ListUnitsItem,
    ms: &Vec<NameMatcher>,
    mode: MatchMode,
    incl: &StatusFilter,
    excl: &StatusFilter,
    types: &Vec<TypeOpt>,
) -> (r: bool)
    ensures
        r == spec_unit_passes(*u, ms@, mode, *incl, *excl, types@),
{
    matches_name(ms, u.name.as_str(), mode) && incl.filter_includes(u)
        && excl.filter_excludes(u) && (types.len() == 0 || type_list_contains(
        types,
        u.unit_type,
    ))
}

/// The full combinator read off a raw row (meaningful when the row parses):
/// the same predicate `spec_unit_passes` gives on its classified form.
pub open spec fn spec_passes_raw(
    t: RawUnit,
    ms: Seq<NameMatcher>,
    mode: MatchMode,
    incl: StatusFilter,
    excl: StatusFilter,
    types: Seq<TypeOpt>,
) -> bool {
    &&& name_matches(ms, t.name@, mode)
    &&& incl.spec_includes(
        spec_status_of_str(t.loaded@)->0,
        spec_status_of_str(t.active@)->0,
        spec_status_of_str(t.status@)->0,
    )
    &&& excl.spec_excludes(
        spec_status_of_str(t.loaded@)->0,
        spec_status_of_str(t.active@)->0,
        spec_status_of_str(t.status@)->0,
    )
    &&& (types.len() == 0 || types.contains(spec_type_of_str(ext_of(t.name@))->0))
}

/// The indices of the rows that survive the combinator, in row order.
pub open spec fn kept_indices(
    raws: Seq<RawUnit>,
    ms: Seq<NameMatcher>,
    mode: MatchMode,
    incl: StatusFilter,
    excl: StatusFilter,
    types: Seq<TypeOpt>,
) -> Seq<int>
    decreases raws.len(),
{
    if raws.len() == 0 {
        Seq::empty()
    } else if spec_passes_raw(raws.last(), ms, mode, incl, excl, types) {
        kept_indices(raws.drop_last(), ms, mode, incl, excl, types) + seq![
            raws.len() - 1,
        ]
    } else {
        kept_indices(raws.drop_last(), ms, mode, incl, excl, types)
    }
}

/// Whether `out` is exactly the classified forms of the surviving rows of
/// `raws`, in row order.
pub open spec fn selection_matches(
    out: Seq<ListUnitsItem>,
    raws: Seq<RawUnit>,
    ms: Seq<NameMatcher>,
    mode: MatchMode,
    incl: StatusFilter,
    excl: StatusFilter,
    types: Seq<TypeOpt>,
) -> bool {
    let ks = kept_indices(raws, ms, mode, incl, excl, types);
    &&& out.len() == ks.len()
    &&& forall|m: int|
        0 <= m < out.len() ==> 0 <= ks[m] < raws.len() && (#[trigger] out[m]).spec_from(
            raws[ks[m]],
        )
}

/// Every kept index is a valid row index.
proof fn lemma_kept_indices_range(
    raws: Seq<RawUnit>,
    ms: Seq<NameMatcher>,
    mode: MatchMode,
    incl: StatusFilter,
    excl: StatusFilter,
    types: Seq<TypeOpt>,
)
    ensures
        forall|k: int|
            0 <= k < kept_indices(raws, ms, mode, incl, excl, types).len() ==> 0
                <= #[trigger] kept_indices(raws, ms, mode, incl, excl, types)[k]
                < raws.len(),
    decreases raws.len(),
{
    if raws.len() > 0 {
        lemma_kept_indices_range(raws.drop_last(), ms, mode, incl, excl, types);
        assert forall|k: int|
            0 <= k < kept_indices(raws, ms, mode, incl, excl, types).len() implies 0 <= #[trigger] kept_indices(
            raws,
            ms,
            mode,
            incl,
            excl,
            types,
        )[k] < raws.len() by {
            let dl = kept_indices(raws.drop_last(), ms, mode, incl, excl, types);
            let ks = kept_indices(raws, ms, mode, incl, excl, types);
            if spec_passes_raw(raws.last(), ms, mode, incl, excl, types) {
                assert(ks == dl + seq![raws.len() - 1]);
                if k < dl.len() {
                    assert(ks[k] == dl[k]);
                } else {
                    assert(ks[k] == raws.len() - 1);
                }
            } else {
                assert(ks == dl);
            }
        }
    }
}

/// Classifies a session's full raw unit list and applies the combinator.
/// A single unusable row aborts the whole enumeration with the error of its
/// first offending field; otherwise the survivors come back in row order,
/// located by `kept_indices`.
pub fn select_units(
    raws: Vec<RawUnit>,
    ms: &Vec<NameMatcher>,
    mode: MatchMode,
    incl: &StatusFilter,
    excl: &StatusFilter,
    types: &Vec<TypeOpt>,
) -> (r: Result<Vec<ListUnitsItem>, ParseError>)
    ensures
        r is Ok <==> (forall|i: int| 0 <= i < raws@.len() ==> raws@[i].spec_parses()),
        r is Ok ==> selection_matches(r->Ok_0@, raws@, ms@, mode, *incl, *excl, types@),
        r is Err ==> (exists|i: int|
            0 <= i < raws@.len() && !(#[trigger] raws@[i].spec_parses()) && (forall|j: int|
                0 <= j < i ==> raws@[j].spec_parses()) && spec_err_for(raws@[i], r->Err_0)),
{
    let ghost orig = raws@;
    let mut rest = raws;
    let total = rest.len();
    let mut out: Vec<ListUnitsItem> = Vec::new();
    let mut k: usize = 0;
    while rest.len() > 0
        invariant
            orig == raws@,
            orig.len() == total,
            0 <= k <= orig.len(),
            rest@ =~= orig.subrange(k as int, orig.len() as int),
            forall|j: int| 0 <= j < k ==> orig[j].spec_parses(),
            selection_matches(out@, orig.subrange(0, k as int), ms@, mode, *incl, *excl, types@),
        decreases rest@.len(),
    {
        let ghost pre = orig.subrange(0, k as int);
        let ghost prex = orig.subrange(0, k + 1);
        proof {
            assert(prex.drop_last() =~= pre);
            assert(prex.last() == orig[k as int]);
            lemma_kept_indices_range(prex, ms@, mode, *incl, *excl, types@);
        }
        let t = rest.remove(0);
        let ghost gt = t;
        proof {
            assert(gt == orig[k as int]);
        }
        let u = match ListUnitsItem::from_raw(t) {
            Ok(u) => u,
            Err(e) => {
                proof {
                    assert(!orig[k as int].spec_parses());
                    assert(spec_err_for(orig[k as int], e));
                }
                return Err(e);
            },
        };
        if unit_passes(&u, ms, mode, incl, excl, types) {
            out.push(u);
        }
        k = k + 1;
    }
    proof {
        assert(orig.subrange(0, k as int) =~= orig);
    }
    Ok(out)
}

/// Lexicographic name order over a record sequence.
pub open spec fn sorted_by_name(s: Seq<ListUnitsItem>) -> bool {
    forall|i: int, j: int| 0 <= i < j < s.len() ==> lex_le(s[i].name@, s[j].name@)
}

/// Inserting an element anywhere in a sequence inserts it into the
/// sequence's multiset.
proof fn lemma_to_multiset_insert<A>(s: Seq<A>, i: int, a: A)
    requires
        0 <= i <= s.len(),
    ensures
        s.insert(i, a).to_multiset() =~= s.to_multiset().insert(a),
{
    broadcast use vstd::seq_lib::group_to_multiset_ensures;
    broadcast use vstd::multiset::group_multiset_axioms;

    let t = s.insert(i, a);
    assert(t.remove(i) =~= s);
    assert(t[i] == a);
    assert(t.to_multiset().count(a) > 0) by {
        assert(t.contains(a)) by {
            assert(t[i] == a);
        }
    }
    assert(s.to_multiset() =~= t.to_multiset().remove(a));
}

/// Inserts a record into a name-sorted vector, keeping it sorted.
fn insert_sorted(out: &mut Vec<ListUnitsItem>, x: ListUnitsItem)
    requires
        sorted_by_name(old(out)@),
    ensures
        final(out)@.to_multiset() =~= old(out)@.to_multiset().insert(x),
        final(out)@.len() == old(out)@.len() + 1,
        sorted_by_name(final(out)@),
{
    let n = out.len();
    let mut k: usize = 0;
    let mut stop = false;
    while k < n && !stop
        invariant
            out@ == old(out)@,
            n == out@.len(),
            0 <= k <= n,
            forall|m: int| 0 <= m < k ==> lex_le(out@[m].name@, x.name@),
            stop ==> k < n && !lex_le(out@[k as int].name@, x.name@),
        decreases n - k + if stop { 0int } else { 1int },
    {
        if str_le(out[k].name.as_str(), x.name.as_str()) {
            k = k + 1;
        } else {
            stop = true;
        }
    }
    let ghost oldv = out@;
    let ghost ki = k as int;
    out.insert(k, x);
    proof {
        lemma_to_multiset_insert(oldv, ki, x);
        assert(out@ == oldv.insert(ki, x));
        assert forall|m: int| 0 <= m < ki implies out@[m] == oldv[m] by {
            assert(oldv.insert(ki, x)[m] == oldv[m]);
        }
        assert(out@[ki] == x);
        assert forall|m: int| ki < m < out@.len() implies out@[m] == oldv[m - 1] by {
            assert(oldv.insert(ki, x)[m] == oldv[m - 1]);
        }
        assert forall|i: int, j: int|
            0 <= i < j < out@.len() implies lex_le(out@[i].name@, out@[j].name@) by {
            if j < ki {
            } else if j == ki {
                assert(lex_le(out@[i].name@, x.name@));
            } else if i < ki {
                if i < j - 1 {
                    assert(lex_le(oldv[i].name@, oldv[j - 1].name@));
                } else {
                    assert(lex_le(out@[i].name@, x.name@));
                    lemma_lex_le_trans(out@[i].name@, x.name@, out@[j].name@);
                    assert(!stop ==> ki == n);
                    assert(stop ==> !lex_le(oldv[ki].name@, x.name@));
                    lemma_lex_le_total(oldv[ki].name@, x.name@);
                }
            } else if i == ki {
                assert(stop) by {
                    if !stop {
                        assert(ki == n);
                        assert(j < n + 1);
                    }
                }
                lemma_lex_le_total(oldv[ki].name@, x.name@);
                assert(lex_le(x.name@, oldv[ki].name@));
                if j - 1 > ki {
                    lemma_lex_le_trans(x.name@, oldv[ki].name@, oldv[j - 1].name@);
                }
            } else {
                assert(lex_le(oldv[i - 1].name@, oldv[j - 1].name@));
            }
        }
    }
}

/// Sorts a session's surviving records by unit name.  The result is a
/// permutation of the input — nothing is lost or invented by the ordering
/// barrier — and is lexicographically sorted for deterministic
/// presentation.
pub fn sort_units_by_name(units: Vec<ListUnitsItem>) -> (r: Vec<ListUnitsItem>)
    ensures
        r@.to_multiset() == units@.to_multiset(),
        r@.len() == units@.len(),
        sorted_by_name(r@),
{
    let ghost orig = units@;
    let mut rest = units;
    let mut out: Vec<ListUnitsItem> = Vec::new();
    proof {
        broadcast use vstd::seq_lib::group_to_multiset_ensures;
        broadcast use vstd::multiset::group_multiset_axioms;

        assert(out@.to_multiset().len() == 0);
        assert(out@.to_multiset().add(rest@.to_multiset()) =~= orig.to_multiset());
    }
    while rest.len() > 0
        invariant
            sorted_by_name(out@),
            out@.to_multiset().add(rest@.to_multiset()) =~= orig.to_multiset(),
            out@.len() + rest@.len() == orig.len(),
        decreases rest@.len(),
    {
        let ghost pre = rest@;
        let x = rest.remove(0);
        proof {
            broadcast use vstd::seq_lib::group_to_multiset_ensures;
            broadcast use vstd::multiset::group_multiset_axioms;

            assert(rest@.to_multiset() =~= pre.to_multiset().remove(x)) by {
                assert(rest@ == pre.remove(0));
                assert(pre[0] == x);
            }
            assert(pre.to_multiset().count(x) > 0) by {
                assert(pre.contains(x)) by {
                    assert(pre[0] == x);
                }
            }
        }
        let ghost out_pre = out@;
        insert_sorted(&mut out, x);
        proof {
            broadcast use vstd::seq_lib::group_to_multiset_ensures;
            broadcast use vstd::multiset::group_multiset_axioms;

            assert(out@.to_multiset().add(rest@.to_multiset()) =~= orig.to_multiset());
        }
    }
    proof {
        broadcast use vstd::seq_lib::group_to_multiset_ensures;
        broadcast use vstd::multiset::group_multiset_axioms;

        assert(rest@.to_multiset() =~= vstd::multiset::Multiset::<ListUnitsItem>::empty()) by {
            assert(rest@ =~= Seq::<ListUnitsItem>::empty());
        }
        assert(out@.to_multiset() =~= orig.to_multiset());
    }
    out
}

/// The session→units result map: one bucket per session leg, both present
/// from the start.
pub struct SessionResults {
    pub user: Vec<ListUnitsItem>,
    pub system: Vec<ListUnitsItem>,
}

impl SessionResults {
    /// The two-entry map, both buckets empty.
    pub fn new() -> (r: SessionResults)
        ensures
            r.user@.len() == 0,
            r.system@.len() == 0,
    {
        SessionResults { user: Vec::new(), system: Vec::new() }
    }

    /// Appends one session's result set to its bucket, leaving the other
    /// untouched.
    pub fn extend_session(&mut self, tag: DaemonType, mut units: Vec<ListUnitsItem>)
        ensures
            tag == DaemonType::User ==> final(self).user@ == old(self).user@ + units@
                && final(self).system@ == old(self).system@,
            tag == DaemonType::System ==> final(self).system@ == old(self).system@ + units@
                && final(self).user@ == old(self).user@,
    {
        match tag {
            DaemonType::User => self.user.append(&mut units),
            DaemonType::System => self.system.append(&mut units),
        }
    }

    /// Whether every bucket is empty — the "filters matched no units" bail
    /// condition.
    pub fn all_empty(&self) -> (r: bool)
        ensures
            r == (self.user@.len() == 0 && self.system@.len() == 0),
    {
        self.user.is_empty() && self.system.is_empty()
    }
}

} // verus!
