//! Option names, declared option shapes, value validation, limit clamping,
//! and the registry of engine-advertised options.

use vstd::prelude::*;
use crate::text::ci_contains;
use crate::text::contains_ci;
use crate::text::int_literal_val;
use crate::text::is_int_literal;
use crate::text::parse_int;
use crate::text::str_eq;

verus! {

/// Normalized identifier of a configurable engine parameter.
#[derive(Debug, Clone, PartialEq, Eq)]
pub struct UciOptionName(pub String);

impl View for UciOptionName {
    type V = Seq<char>;

    open spec fn view(&self) -> Seq<char> {
        self.0@
    }
}

/// The safety policy over option names: a name that mentions a file or a
/// path (in any ASCII case) is classified unsafe, since such options let a
/// remote caller touch the host file system.
pub open spec fn spec_safe(name: Seq<char>) -> bool {
    !ci_contains(name, "file"@) && !ci_contains(name, "path"@)
}

impl UciOptionName {
    /// Whether the name is classified safe for remote-originated commands.
    pub fn is_safe(&self) -> (r: bool)
        ensures
            r == spec_safe(self@),
    {
        !(contains_ci(self.0.as_str(), "file") || contains_ci(self.0.as_str(), "path"))
    }

    /// A copy with the same view.
    pub fn duplicate(&self) -> (r: UciOptionName)
        ensures
            r@ == self@,
    {
        UciOptionName(self.0.clone())
    }
}

/// Declared shape of one configurable parameter.
#[derive(Debug, Clone, PartialEq, Eq)]
pub enum UciOption {
    /// A true/false switch.
    Boolean { default: bool },
    /// A number within declared inclusive bounds.
    Integer { default: i64, min: i64, max: i64 },
    /// One value out of a declared list.
    Enumerated { default: String, allowed: Vec<String> },
    /// A trigger that takes no value.
    Action,
    /// Free-form text.
    Text { default: String },
}

/// Mathematical shape of a declared option.
pub ghost enum OptView {
    Boolean { default: bool },
    Integer { default: int, min: int, max: int },
    Enumerated { default: Seq<char>, allowed: Seq<Seq<char>> },
    Action,
    Text { default: Seq<char> },
}

impl View for UciOption {
    type V = OptView;

    open spec fn view(&self) -> OptView {
        match self {
            UciOption::Boolean { default } => OptView::Boolean { default: *default },
            UciOption::Integer { default, min, max } => OptView::Integer {
                default: *default as int,
                min: *min as int,
                max: *max as int,
            },
            UciOption::Enumerated { default, allowed } => OptView::Enumerated {
                default: default@,
                allowed: allowed.deep_view(),
            },
            UciOption::Action => OptView::Action,
            UciOption::Text { default } => OptView::Text { default: default@ },
        }
    }
}

/// Whether a candidate value fits a declared shape.
pub open spec fn accepts(o: OptView, v: Option<Seq<char>>) -> bool {
    match o {
        OptView::Boolean { .. } => v == Some("true"@) || v == Some("false"@),
        OptView::Integer { min, max, .. } => match v {
            Some(s) => is_int_literal(s) && min <= int_literal_val(s) <= max,
            None => false,
        },
        OptView::Enumerated { allowed, .. } => match v {
            Some(s) => allowed.contains(s),
            None => false,
        },
        OptView::Action => v is None,
        OptView::Text { .. } => true,
    }
}

/// The declared maximum, lowered (never raised) to `lim` for a numeric shape.
pub open spec fn clamp_max(o: OptView, lim: int) -> OptView {
    match o {
        OptView::Integer { default, min, max } => OptView::Integer {
            default,
            min,
            max: if lim < max {
                lim
            } else {
                max
            },
        },
        _ => o,
    }
}

/// A copy of every string in the vector.
pub(crate) fn clone_strings(v: &Vec<String>) -> (r: Vec<String>)
    ensures
        r.deep_view() == v.deep_view(),
{
    let mut r: Vec<String> = Vec::new();
    let mut i: usize = 0;
    while i < v.len()
        invariant
            i <= v.len(),
            r@.len() == i,
            forall|j: int| 0 <= j < i ==> r@[j]@ == v@[j]@,
        decreases v.len() - i,
    {
        let s = &v[i];
        r.push(s.clone());
        i = i + 1;
    }
    proof {
        assert(r.deep_view() =~= v.deep_view());
    }
    r
}

impl UciOption {
    /// A copy with the same view.
    pub fn duplicate(&self) -> (r: UciOption)
        ensures
            r@ == self@,
    {
        match self {
            UciOption::Boolean { default } => UciOption::Boolean { default: *default },
            UciOption::Integer { default, min, max } => UciOption::Integer {
                default: *default,
                min: *min,
                max: *max,
            },
            UciOption::Enumerated { default, allowed } => UciOption::Enumerated {
                default: default.clone(),
                allowed: clone_strings(allowed),
            },
            UciOption::Action => UciOption::Action,
            UciOption::Text { default } => UciOption::Text { default: default.clone() },
        }
    }

    /// Whether `value` fits this declared shape.
    pub fn validate(&self, value: &Option<String>) -> (r: bool)
        ensures
            r == accepts(self@, value.deep_view()),
    {
        match self {
            UciOption::Boolean { .. } => match value {
                Some(s) => str_eq(s.as_str(), "true") || str_eq(s.as_str(), "false"),
                None => false,
            },
            UciOption::Integer { min, max, .. } => match value {
                Some(s) => match parse_int(s.as_str()) {
                    Some(n) => *min <= n && n <= *max,
                    None => false,
                },
                None => false,
            },
            UciOption::Enumerated { allowed, .. } => match value {
                Some(s) => {
                    let mut i: usize = 0;
                    let n = allowed.len();
                    let mut found = false;
                    while i < n
                        invariant
                            i <= n,
                            n == allowed@.len(),
                            found <==> exists|j: int| 0 <= j < i && allowed@[j]@ == s@,
                        decreases n - i,
                    {
                        if str_eq(allowed[i].as_str(), s.as_str()) {
                            found = true;
                        }
                        i = i + 1;
                    }
                    proof {
                        if found {
                            let j = choose|j: int| 0 <= j < n && allowed@[j]@ == s@;
                            assert(allowed.deep_view()[j] == s@);
                        } else {
                            if allowed.deep_view().contains(s@) {
                                let j = choose|j: int|
                                    0 <= j < allowed.deep_view().len() && allowed.deep_view()[j]
                                        == s@;
                                assert(allowed@[j]@ == s@);
                            }
                        }
                    }
                    found
                },
                None => false,
            },
            UciOption::Action => match value {
                Some(_) => false,
                None => true,
            },
            UciOption::Text { .. } => true,
        }
    }

    /// This shape with its declared maximum lowered (never raised) to `lim`.
    pub fn limit_max(self, lim: i64) -> (r: UciOption)
        ensures
            r@ == clamp_max(self@, lim as int),
    {
        match self {
            UciOption::Integer { default, min, max } => UciOption::Integer {
                default,
                min,
                max: if lim < max {
                    lim
                } else {
                    max
                },
            },
            other => other,
        }
    }

    /// The declared maximum of a numeric shape.
    pub fn max(&self) -> (r: Option<i64>)
        ensures
            match self@ {
                OptView::Integer { max, .. } => r matches Some(m) && m as int == max,
                _ => r is None,
            },
    {
        match self {
            UciOption::Integer { max, .. } => Some(*max),
            _ => None,
        }
    }

    /// The declared value list of an enumerated shape.
    pub fn var(&self) -> (r: Option<&Vec<String>>)
        ensures
            match self@ {
                OptView::Enumerated { allowed, .. } => r matches Some(v) && v.deep_view()
                    == allowed,
                _ => r is None,
            },
    {
        match self {
            UciOption::Enumerated { allowed, .. } => Some(allowed),
            _ => None,
        }
    }
}

/// Lookup by name in a sequence of registry entries; a later entry wins.
pub open spec fn reg_lookup(s: Seq<(UciOptionName, UciOption)>, k: Seq<char>) -> Option<OptView>
    decreases s.len(),
{
    if s.len() == 0 {
        None
    } else if s.last().0@ == k {
        Some(s.last().1@)
    } else {
        reg_lookup(s.drop_last(), k)
    }
}

proof fn lemma_lookup_remove(s: Seq<(UciOptionName, UciOption)>, i: int, k: Seq<char>)
    requires
        0 <= i < s.len(),
        s[i].0@ != k,
    ensures
        reg_lookup(s.remove(i), k) == reg_lookup(s, k),
    decreases s.len(),
{
    s.remove_ensures(i);
    if i == s.len() - 1 {
        assert(s.remove(i) =~= s.drop_last());
    } else {
        let t = s.drop_last();
        t.remove_ensures(i);
        assert(s.remove(i).last() == s.last());
        assert(s.remove(i).drop_last() =~= t.remove(i));
        lemma_lookup_remove(t, i, k);
    }
}

proof fn lemma_lookup_present(s: Seq<(UciOptionName, UciOption)>, i: int)
    requires
        0 <= i < s.len(),
        forall|p: int, q: int| 0 <= p < q < s.len() ==> s[p].0@ != s[q].0@,
    ensures
        reg_lookup(s, s[i].0@) == Some(s[i].1@),
    decreases s.len(),
{
    if i < s.len() - 1 {
        assert(s.last().0@ != s[i].0@);
        assert(forall|p: int, q: int|
            0 <= p < q < s.drop_last().len() ==> s.drop_last()[p].0@ != s.drop_last()[q].0@);
        lemma_lookup_present(s.drop_last(), i);
    }
}

proof fn lemma_lookup_absent(s: Seq<(UciOptionName, UciOption)>, k: Seq<char>)
    requires
        forall|j: int| 0 <= j < s.len() ==> s[j].0@ != k,
    ensures
        reg_lookup(s, k) is None,
    decreases s.len(),
{
    if s.len() > 0 {
        lemma_lookup_absent(s.drop_last(), k);
    }
}

/// Current knowledge of the engine-advertised configurable parameters.
///
/// Wholly discarded and rebuilt at the start of every handshake: stale
/// knowledge from a prior negotiation must never survive a restart.
pub struct OptionRegistry {
    entries: Vec<(UciOptionName, UciOption)>,
}

impl View for OptionRegistry {
    type V = Map<Seq<char>, OptView>;

    closed spec fn view(&self) -> Map<Seq<char>, OptView> {
        Map::new(
            |k: Seq<char>| reg_lookup(self.entries@, k) is Some,
            |k: Seq<char>| reg_lookup(self.entries@, k).unwrap(),
        )
    }
}

impl OptionRegistry {
    /// Entry names are pairwise distinct.
    pub closed spec fn wf(&self) -> bool {
        forall|p: int, q: int|
            0 <= p < q < self.entries@.len() ==> self.entries@[p].0@ != self.entries@[q].0@
    }

    /// An empty registry.
    pub fn new() -> (r: OptionRegistry)
        ensures
            r.wf(),
            r@ == Map::<Seq<char>, OptView>::empty(),
    {
        let r = OptionRegistry { entries: Vec::new() };
        proof {
            assert(r@ =~= Map::<Seq<char>, OptView>::empty());
        }
        r
    }

    /// Discards every entry.
    pub fn clear(&mut self)
        ensures
            final(self).wf(),
            final(self)@ == Map::<Seq<char>, OptView>::empty(),
    {
        self.entries.clear();
        proof {
            assert(self@ =~= Map::<Seq<char>, OptView>::empty());
        }
    }

    /// The declared shape recorded under `name`, if any.
    pub fn get(&self, name: &str) -> (r: Option<&UciOption>)
        requires
            self.wf(),
        ensures
            match r {
                Some(o) => self@.contains_key(name@) && o@ == self@[name@],
                None => !self@.contains_key(name@),
            },
    {
        let n = self.entries.len();
        let mut i: usize = 0;
        while i < n
            invariant
                i <= n,
                n == self.entries@.len(),
                self.wf(),
                forall|k: int| 0 <= k < i ==> self.entries@[k].0@ != name@,
            decreases n - i,
        {
            let entry = &self.entries[i];
            if str_eq(entry.0.0.as_str(), name) {
                proof {
                    lemma_lookup_present(self.entries@, i as int);
                }
                return Some(&entry.1);
            }
            i = i + 1;
        }
        proof {
            lemma_lookup_absent(self.entries@, name@);
        }
        None
    }

    /// Records `option` under `name`, replacing any prior entry.
    pub fn insert(&mut self, name: UciOptionName, option: UciOption)
        requires
            old(self).wf(),
        ensures
            final(self).wf(),
            final(self)@ == old(self)@.insert(name@, option@),
    {
        let ghost s0 = self.entries@;
        let n = self.entries.len();
        let mut i: usize = 0;
        let mut idx: usize = n;
        while i < n
            invariant
                i <= n,
                idx <= n,
                n == self.entries@.len(),
                self.entries@ == s0,
                idx == n ==> forall|k: int| 0 <= k < i ==> s0[k].0@ != name@,
                idx < n ==> idx < i && s0[idx as int].0@ == name@,
            decreases n - i,
        {
            if idx == n {
                let entry = &self.entries[i];
                if str_eq(entry.0.0.as_str(), name.0.as_str()) {
                    idx = i;
                }
            }
            i = i + 1;
        }
        if idx < n {
            let _prev = self.entries.remove(idx);
            self.entries.push((name, option));
            proof {
                let s1 = s0.remove(idx as int);
                let s2 = self.entries@;
                s0.remove_ensures(idx as int);
                assert forall|p: int| 0 <= p < s1.len() implies s1[p].0@ != name@ by {
                    if p < idx {
                        assert(s1[p] == s0[p]);
                    } else {
                        assert(s1[p] == s0[p + 1]);
                    }
                }
                assert forall|p: int, q: int| 0 <= p < q < s2.len() implies s2[p].0@ != s2[q].0@ by {
                    if q < s2.len() - 1 {
                        if p < idx && q < idx {
                            assert(s1[p] == s0[p] && s1[q] == s0[q]);
                        } else if p < idx {
                            assert(s1[p] == s0[p] && s1[q] == s0[q + 1]);
                        } else {
                            assert(s1[p] == s0[p + 1] && s1[q] == s0[q + 1]);
                        }
                    }
                }
                assert(reg_lookup(s2, name@) == Some(option@));
                assert forall|k: Seq<char>| k != name@ implies reg_lookup(s2, k) == reg_lookup(
                    s0,
                    k,
                ) by {
                    assert(s2.drop_last() =~= s1);
                    assert(reg_lookup(s2, k) == reg_lookup(s1, k));
                    lemma_lookup_remove(s0, idx as int, k);
                }
                assert(self@ =~= old(self)@.insert(name@, option@));
            }
        } else {
            self.entries.push((name, option));
            proof {
                let s2 = self.entries@;
                assert(s2.drop_last() =~= s0);
                assert(reg_lookup(s2, name@) == Some(option@));
                assert forall|k: Seq<char>| k != name@ implies reg_lookup(s2, k) == reg_lookup(
                    s0,
                    k,
                ) by {
                    assert(reg_lookup(s2, k) == reg_lookup(s2.drop_last(), k));
                }
                assert(self@ =~= old(self)@.insert(name@, option@));
            }
        }
    }
}

} // verus!
