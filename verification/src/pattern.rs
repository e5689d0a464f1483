//! Name matchers: anchored matchers compiled from fixed strings, raw
//! regular-expression patterns, and the all/any combination modes.

use vstd::prelude::*;

use crate::taxonomy::has_dot;
use crate::text::str_eq;

verus! {

#[verifier::external_type_specification]
#[verifier::external_body]
pub struct ExRegex(regex::Regex);

/// Whether the regular-expression engine accepts a pattern.  Compilation
/// succeeds or fails on the pattern text alone.
pub uninterp spec fn regex_valid(pattern: Seq<char>) -> bool;

/// Whether a compiled pattern matches somewhere in a text.  The result is a
/// function of the pattern and the text alone.
pub uninterp spec fn regex_match(pattern: Seq<char>, text: Seq<char>) -> bool;

/// A compiled regular expression, kept together with the pattern text it
/// was compiled from.
#[derive(Debug)]
pub struct RegexMatcher {
    src: String,
    re: regex::Regex,
}

impl RegexMatcher {
    /// The pattern text this matcher was compiled from.
    pub closed spec fn pattern(&self) -> Seq<char> {
        self.src@
    }

    /// Relies on `regex::Regex::new`: an invalid (or oversized) pattern is
    /// rejected, and whether it compiles depends on the pattern text alone.
    #[verifier::external_body]
    pub fn compile(pattern: &str) -> (r: Option<RegexMatcher>)
        ensures
            r is Some <==> regex_valid(pattern@),
            r is Some ==> r->0.pattern() == pattern@,
    {
        match regex::Regex::new(pattern) {
            Ok(re) => Some(RegexMatcher { src: pattern.to_string(), re }),
            Err(_) => None,
        }
    }

    /// Relies on `regex::Regex::is_match`: true exactly when the pattern
    /// matches anywhere in the text, a function of pattern and text alone.
    #[verifier::external_body]
    pub fn is_match(&self, text: &str) -> (r: bool)
        ensures
            r == regex_match(self.pattern(), text@),
    {
        self.re.is_match(text)
    }
}

/// Whether a name is `base`, then a `.`, then any dot-free unit-type
/// suffix.  This is the implicit wildcard a dot-free fixed string carries.
pub open spec fn any_type_accepts(base: Seq<char>, name: Seq<char>) -> bool {
    &&& name.len() > base.len()
    &&& name.subrange(0, base.len() as int) == base
    &&& name[base.len() as int] == '.'
    &&& forall|j: int| base.len() < j < name.len() ==> name[j] != '.'
}

/// One anchored name matcher.
#[derive(Debug)]
pub enum NameMatcher {
    /// A fixed string holding a `.`: the name must equal it exactly.
    Exact(String),
    /// A dot-free fixed string: the name must be it plus any unit-type
    /// suffix.
    AnyType(String),
    /// A raw pattern, matched by the regular-expression engine as supplied.
    Pattern(RegexMatcher),
}

impl NameMatcher {
    /// Which names this matcher accepts.
    pub open spec fn spec_accepts(&self, name: Seq<char>) -> bool {
        match self {
            NameMatcher::Exact(s) => name == s@,
            NameMatcher::AnyType(s) => any_type_accepts(s@, name),
            NameMatcher::Pattern(p) => regex_match(p.pattern(), name),
        }
    }

    /// Whether this matcher accepts the name.
    pub fn matches(&self, name: &str) -> (r: bool)
        ensures
            r == self.spec_accepts(name@),
    {
        match self {
            NameMatcher::Exact(s) => str_eq(s.as_str(), name),
            NameMatcher::AnyType(s) => any_type_match(s.as_str(), name),
            NameMatcher::Pattern(p) => p.is_match(name),
        }
    }
}

/// Decides `any_type_accepts` on string slices.
fn any_type_match(base: &str, name: &str) -> (r: bool)
    ensures
        r == any_type_accepts(base@, name@),
{
    let blen = base.unicode_len();
    let nlen = name.unicode_len();
    if nlen <= blen {
        return false;
    }
    let mut i: usize = 0;
    while i < blen
        invariant
            blen == base@.len(),
            nlen == name@.len(),
            nlen > blen,
            0 <= i <= blen,
            forall|j: int| 0 <= j < i ==> name@[j] == base@[j],
        decreases blen - i,
    {
        if name.get_char(i) != base.get_char(i) {
            assert(name@.subrange(0, blen as int) != base@) by {
                assert(name@.subrange(0, blen as int)[i as int] != base@[i as int]);
            }
            return false;
        }
        i = i + 1;
    }
    proof {
        assert(name@.subrange(0, blen as int) =~= base@);
    }
    if name.get_char(blen) != '.' {
        return false;
    }
    let mut j: usize = blen + 1;
    while j < nlen
        invariant
            blen == base@.len(),
            nlen == name@.len(),
            blen < j <= nlen,
            forall|k: int| blen < k < j ==> name@[k] != '.',
        decreases nlen - j,
    {
        if name.get_char(j) == '.' {
            return false;
        }
        j = j + 1;
    }
    true
}

/// How the two matcher combination modes read a matcher list: `All` is the
/// default narrowing conjunction, `Any` the explicit broadening
/// disjunction.
#[derive(Debug, Clone, Copy, PartialEq, Eq, Structural)]
pub enum MatchMode {
    All,
    Any,
}

/// Whether a name passes a matcher list under a mode: every matcher under
/// `All` (vacuously true of an empty list), at least one under `Any`.
pub open spec fn name_matches(ms: Seq<NameMatcher>, name: Seq<char>, mode: MatchMode) -> bool {
    match mode {
        MatchMode::All => forall|i: int| 0 <= i < ms.len() ==> ms[i].spec_accepts(name),
        MatchMode::Any => exists|i: int| 0 <= i < ms.len() && ms[i].spec_accepts(name),
    }
}

/// Whether the name passes the matcher list under the mode.
pub fn matches_name(ms: &Vec<NameMatcher>, name: &str, mode: MatchMode) -> (r: bool)
    ensures
        r == name_matches(ms@, name@, mode),
{
    let len = ms.len();
    let mut i: usize = 0;
    match mode {
        MatchMode::All => {
            while i < len
                invariant
                    mode == MatchMode::All,
                    len == ms@.len(),
                    0 <= i <= len,
                    forall|j: int| 0 <= j < i ==> ms@[j].spec_accepts(name@),
                decreases len - i,
            {
                if !ms[i].matches(name) {
                    return false;
                }
                i = i + 1;
            }
            true
        },
        MatchMode::Any => {
            while i < len
                invariant
                    mode == MatchMode::Any,
                    len == ms@.len(),
                    0 <= i <= len,
                    forall|j: int| 0 <= j < i ==> !ms@[j].spec_accepts(name@),
                decreases len - i,
            {
                if ms[i].matches(name) {
                    return true;
                }
                i = i + 1;
            }
            false
        },
    }
}

/// The combination mode a run uses: the broadening `Any` exactly when the
/// multi flag is set, else the default narrowing `All`.
pub fn match_mode_for(multi: bool) -> (m: MatchMode)
    ensures
        m == (if multi {
            MatchMode::Any
        } else {
            MatchMode::All
        }),
{
    if multi {
        MatchMode::Any
    } else {
        MatchMode::All
    }
}

/// How a fixed string compiles: with a `.` it demands the exact name, and
/// without one it demands the string plus any unit-type suffix.
pub open spec fn fixed_matcher_spec(s: Seq<char>, m: NameMatcher) -> bool {
    if has_dot(s) {
        m matches NameMatcher::Exact(t) && t@ == s
    } else {
        m matches NameMatcher::AnyType(t) && t@ == s
    }
}

/// Compiles one fixed string into its anchored matcher.
pub fn build_fixed_matcher(s: &str) -> (m: NameMatcher)
    ensures
        fixed_matcher_spec(s@, m),
{
    if contains_dot(s) {
        NameMatcher::Exact(String::from_str(s))
    } else {
        NameMatcher::AnyType(String::from_str(s))
    }
}

/// Whether the string holds a `.` anywhere.
fn contains_dot(s: &str) -> (r: bool)
    ensures
        r == has_dot(s@),
{
    let len = s.unicode_len();
    let mut i: usize = 0;
    while i < len
        invariant
            len == s@.len(),
            0 <= i <= len,
            forall|j: int| 0 <= j < i ==> s@[j] != '.',
        decreases len - i,
    {
        if s.get_char(i) == '.' {
            assert(has_dot(s@)) by {
                assert(s@[i as int] == '.');
            }
            return true;
        }
        i = i + 1;
    }
    false
}

/// A raw pattern that the regular-expression engine rejected.
#[derive(Debug)]
pub struct PatternError {
    pub pattern: String,
}

impl PatternError {
    /// A human-readable diagnostic naming the rejected pattern.
    pub fn describe(&self) -> (r: String)
        ensures
            r@ == "invalid pattern "@ + self.pattern@,
    {
        String::from_str("invalid pattern ").concat(self.pattern.as_str())
    }
}

/// Whether a matcher is the raw pattern `pat`, used as supplied.
pub open spec fn is_pattern_for(m: NameMatcher, pat: Seq<char>) -> bool {
    m matches NameMatcher::Pattern(p) && p.pattern() == pat
}

/// Builds the effective matcher list: every fixed string compiled to its
/// anchored matcher, in argument order, then every raw pattern as supplied,
/// in argument order.  Fails on the first raw pattern the engine rejects.
pub fn build_pattern_filters(fixed_strings: &Vec<String>, raw_patterns: &Vec<String>) -> (r: Result<
    Vec<NameMatcher>,
    PatternError,
>)
    ensures
        r is Ok <==> (forall|i: int| 0 <= i < raw_patterns@.len() ==> regex_valid(
            raw_patterns@[i]@,
        )),
        r is Ok ==> {
            let ms = r->Ok_0@;
            &&& ms.len() == fixed_strings@.len() + raw_patterns@.len()
            &&& forall|i: int| 0 <= i < fixed_strings@.len() ==> fixed_matcher_spec(
                fixed_strings@[i]@,
                ms[i],
            )
            &&& forall|i: int|
                #![trigger raw_patterns@[i]]
                0 <= i < raw_patterns@.len() ==> is_pattern_for(
                    ms[fixed_strings@.len() + i],
                    raw_patterns@[i]@,
                )
        },
        r is Err ==> (exists|i: int| 0 <= i < raw_patterns@.len() && !regex_valid(
            raw_patterns@[i]@,
        ) && r->Err_0.pattern@ == raw_patterns@[i]@),
{
    let mut ms: Vec<NameMatcher> = Vec::new();
    let nfixed = fixed_strings.len();
    let mut i: usize = 0;
    while i < nfixed
        invariant
            nfixed == fixed_strings@.len(),
            0 <= i <= nfixed,
            ms@.len() == i,
            forall|j: int| 0 <= j < i ==> fixed_matcher_spec(fixed_strings@[j]@, ms@[j]),
        decreases nfixed - i,
    {
        ms.push(build_fixed_matcher(fixed_strings[i].as_str()));
        i = i + 1;
    }
    let nraw = raw_patterns.len();
    let mut k: usize = 0;
    while k < nraw
        invariant
            nfixed == fixed_strings@.len(),
            nraw == raw_patterns@.len(),
            0 <= k <= nraw,
            ms@.len() == nfixed + k,
            forall|j: int| 0 <= j < nfixed ==> fixed_matcher_spec(fixed_strings@[j]@, ms@[j]),
            forall|j: int|
                #![trigger raw_patterns@[j]]
                0 <= j < k ==> is_pattern_for(ms@[nfixed + j], raw_patterns@[j]@),
            forall|j: int| 0 <= j < k ==> regex_valid(raw_patterns@[j]@),
        decreases nraw - k,
    {
        match RegexMatcher::compile(raw_patterns[k].as_str()) {
            Some(p) => {
                let ghost gp = p;
                ms.push(NameMatcher::Pattern(p));
                proof {
                    assert(ms@[nfixed + k as int] == NameMatcher::Pattern(gp));
                    assert(is_pattern_for(ms@[nfixed + k as int], raw_patterns@[k as int]@));
                }
            },
            None => {
                return Err(PatternError { pattern: String::from_str(raw_patterns[k].as_str()) });
            },
        }
        k = k + 1;
    }
    Ok(ms)
}

/// Mode `All` over two matchers accepts exactly the names both accept;
/// mode `Any` accepts exactly the names either accepts.
pub proof fn lemma_match_modes(a: NameMatcher, b: NameMatcher, name: Seq<char>)
    ensures
        name_matches(seq![a, b], name, MatchMode::All) <==> (a.spec_accepts(name)
            && b.spec_accepts(name)),
        name_matches(seq![a, b], name, MatchMode::Any) <==> (a.spec_accepts(name)
            || b.spec_accepts(name)),
{
    let ms = seq![a, b];
    assert(ms.len() == 2 && ms[0] == a && ms[1] == b);
    if a.spec_accepts(name) {
        assert(name_matches(ms, name, MatchMode::Any)) by {
            assert(ms[0].spec_accepts(name));
        }
    }
    if b.spec_accepts(name) {
        assert(name_matches(ms, name, MatchMode::Any)) by {
            assert(ms[1].spec_accepts(name));
        }
    }
}

/// An empty matcher list narrows nothing: under mode `All` it matches every
/// name.
pub proof fn lemma_empty_matchers_match_all(name: Seq<char>)
    ensures
        name_matches(Seq::<NameMatcher>::empty(), name, MatchMode::All),
{
}

} // verus!
