//! Themes: a source colour with a light and a dark scheme, each scheme a
//! mapping from role name to colour.

use vstd::prelude::*;
use vstd::string::*;

use crate::color::Rgb;
use crate::roles::{role_name_at, ROLE_COUNT};
use crate::text::same_text;

verus! {

/// The mapping that a list of entries stands for: each name maps to the
/// colour of the last entry that bears it.
pub open spec fn entries_map(entries: Seq<(String, Rgb)>) -> Map<Seq<char>, Rgb>
    decreases entries.len(),
{
    if entries.len() == 0 {
        Map::empty()
    } else {
        entries_map(entries.drop_last()).insert(entries.last().0@, entries.last().1)
    }
}

/// Whether `scheme` has an entry for every role of the table.
pub open spec fn covers_roles(scheme: Map<Seq<char>, Rgb>) -> bool {
    forall|i: int| 0 <= i < ROLE_COUNT ==> scheme.contains_key(#[trigger] role_name_at(i))
}

/// The mapping of a list of entries holds a name exactly where an entry
/// bears it, and maps it to the colour of the last such entry. The order of
/// entries that bear different names is of no account.
pub proof fn lemma_last_entry_counts(entries: Seq<(String, Rgb)>, name: Seq<char>)
    ensures
        entries_map(entries).contains_key(name) <==> exists|i: int|
            0 <= i < entries.len() && (#[trigger] entries[i]).0@ == name,
        forall|i: int|
            0 <= i < entries.len() && (#[trigger] entries[i]).0@ == name && (forall|j: int|
                i < j < entries.len() ==> (#[trigger] entries[j]).0@ != name) ==> entries_map(
                entries,
            )[name] == entries[i].1,
    decreases entries.len(),
{
    if entries.len() > 0 {
        let front = entries.drop_last();
        lemma_last_entry_counts(front, name);
        let found = exists|i: int| 0 <= i < entries.len() && (#[trigger] entries[i]).0@ == name;
        if entries.last().0@ == name {
            assert(entries[entries.len() - 1].0@ == name);
        } else if entries_map(front).contains_key(name) {
            let i = choose|i: int| 0 <= i < front.len() && (#[trigger] front[i]).0@ == name;
            assert(entries[i].0@ == name);
        } else if found {
            let i = choose|i: int| 0 <= i < entries.len() && (#[trigger] entries[i]).0@ == name;
            assert(front[i].0@ == name);
        }
        assert forall|i: int|
            0 <= i < entries.len() && (#[trigger] entries[i]).0@ == name && (forall|j: int|
                i < j < entries.len() ==> (#[trigger] entries[j]).0@ != name) implies entries_map(
            entries,
        )[name] == entries[i].1 by {
            if i < entries.len() - 1 {
                assert(front[i].0@ == name);
                assert forall|j: int| i < j < front.len() implies (#[trigger] front[j]).0@
                    != name by {
                    assert(entries[j].0@ != name);
                }
            }
        }
    }
}

/// A colour scheme: a mapping from role name to colour.
pub struct Scheme {
    entries: Vec<(String, Rgb)>,
}

impl View for Scheme {
    type V = Map<Seq<char>, Rgb>;

    closed spec fn view(&self) -> Map<Seq<char>, Rgb> {
        entries_map(self.entries@)
    }
}

impl Scheme {
    /// The scheme without any entry.
    pub fn new() -> (scheme: Scheme)
        ensures
            scheme@ == Map::<Seq<char>, Rgb>::empty(),
    {
        Scheme { entries: Vec::new() }
    }

    /// The scheme that a list of named colours stands for. Where a name
    /// occurs more than once, its last entry counts.
    pub fn from_entries(entries: Vec<(String, Rgb)>) -> (scheme: Scheme)
        ensures
            scheme@ == entries_map(entries@),
    {
        Scheme { entries }
    }

    /// Maps `name` to `color`, replacing what `name` mapped to before.
    pub fn insert(&mut self, name: &str, color: Rgb)
        ensures
            final(self)@ == old(self)@.insert(name@, color),
    {
        let owned = name.to_owned();
        self.entries.push((owned, color));
        assert(self.entries@.drop_last() =~= old(self).entries@);
    }

    /// The colour that `name` maps to, if any.
    pub fn get(&self, name: &str) -> (found: Option<Rgb>)
        ensures
            found == if self@.contains_key(name@) {
                Some(self@[name@])
            } else {
                None
            },
    {
        let mut i: usize = self.entries.len();
        assert(self.entries@.take(i as int) =~= self.entries@);
        while i > 0
            invariant
                i <= self.entries.len(),
                self@.contains_key(name@) == entries_map(
                    self.entries@.take(i as int),
                ).contains_key(name@),
                self@.contains_key(name@) ==> self@[name@] == entries_map(
                    self.entries@.take(i as int),
                )[name@],
            decreases i,
        {
            i -= 1;
            assert(self.entries@.take(i + 1).drop_last() =~= self.entries@.take(i as int));
            if same_text(self.entries[i].0.as_str(), name) {
                return Some(self.entries[i].1);
            }
        }
        None
    }

    /// Whether the scheme has an entry for every role of the table.
    pub open spec fn covers_roles(&self) -> bool {
        covers_roles(self@)
    }
}

/// A theme: the colour it was derived from, and its two schemes.
pub struct Theme {
    pub source: Rgb,
    pub light: Scheme,
    pub dark: Scheme,
}

impl Theme {
    /// A theme from its parts.
    pub fn new(source: Rgb, light: Scheme, dark: Scheme) -> (theme: Theme)
        ensures
            theme.source == source,
            theme.light == light,
            theme.dark == dark,
    {
        Theme { source, light, dark }
    }

    /// The dark scheme if `is_dark`, else the light one.
    pub open spec fn selected(&self, is_dark: bool) -> Scheme {
        if is_dark {
            self.dark
        } else {
            self.light
        }
    }

    /// The dark scheme if `is_dark`, else the light one.
    pub fn scheme(&self, is_dark: bool) -> (scheme: &Scheme)
        ensures
            *scheme == self.selected(is_dark),
    {
        if is_dark {
            &self.dark
        } else {
            &self.light
        }
    }
}

} // verus!
