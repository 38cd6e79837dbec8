//! Flat property mappings.
//!
//! A snapshot instance stores its properties as a flat mapping from property
//! name to value.  The mapping is kept as a list of named entries whose names
//! are unique; its meaning is the `Map` from name to value built by
//! `entries_map`, and every operation is specified against that map.

use vstd::prelude::*;

verus! {

/// One named property value.
pub struct NamedProperty {
    /// The property name.
    pub name: String,
    /// The property value.
    pub value: serde_json::Value,
}

/// No two entries carry the same name.
pub open spec fn names_unique(entries: Seq<NamedProperty>) -> bool {
    forall|i: int, j: int|
        0 <= i < j < entries.len() ==> (#[trigger] entries[i].name@) != (#[trigger] entries[j].name@)
}

/// The mapping a list of entries stands for: name to value, later entries
/// winning.
pub open spec fn entries_map(entries: Seq<NamedProperty>) -> Map<Seq<char>, serde_json::Value>
    decreases entries.len(),
{
    if entries.len() == 0 {
        Map::empty()
    } else {
        entries_map(entries.drop_last()).insert(entries.last().name@, entries.last().value)
    }
}

/// A name is in the mapping exactly when some entry carries it.
pub proof fn lemma_entries_map_dom(entries: Seq<NamedProperty>, n: Seq<char>)
    ensures
        entries_map(entries).contains_key(n) <==> (exists|i: int|
            0 <= i < entries.len() && (#[trigger] entries[i].name@) == n),
    decreases entries.len(),
{
    if entries.len() > 0 {
        lemma_entries_map_dom(entries.drop_last(), n);
        if entries.last().name@ == n {
            assert(entries[entries.len() - 1].name@ == n);
        } else {
            assert(forall|i: int|
                0 <= i < entries.len() - 1 ==> entries.drop_last()[i] == entries[i]);
        }
    }
}

/// Under unique names, the mapping sends each entry's name to that entry's
/// value.
pub proof fn lemma_entries_map_at(entries: Seq<NamedProperty>, i: int)
    requires
        names_unique(entries),
        0 <= i < entries.len(),
    ensures
        entries_map(entries).contains_key(entries[i].name@),
        entries_map(entries)[entries[i].name@] == entries[i].value,
    decreases entries.len(),
{
    if i == entries.len() - 1 {
    } else {
        assert(names_unique(entries.drop_last()));
        assert(entries.drop_last()[i] == entries[i]);
        lemma_entries_map_at(entries.drop_last(), i);
        assert(entries[i].name@ != entries.last().name@);
    }
}

/// Appending an entry with a fresh name inserts it into the mapping and
/// keeps the names unique.
pub proof fn lemma_entries_map_push(entries: Seq<NamedProperty>, p: NamedProperty)
    requires
        names_unique(entries),
        !entries_map(entries).contains_key(p.name@),
    ensures
        names_unique(entries.push(p)),
        entries_map(entries.push(p)) == entries_map(entries).insert(p.name@, p.value),
{
    lemma_entries_map_dom(entries, p.name@);
    assert(entries.push(p).drop_last() =~= entries);
    assert(forall|i: int| 0 <= i < entries.len() ==> entries.push(p)[i] == entries[i]);
}

/// Replacing the entry at an index by one with the same name updates the
/// mapping at that name and keeps the names unique.
pub proof fn lemma_entries_map_update(entries: Seq<NamedProperty>, i: int, p: NamedProperty)
    requires
        names_unique(entries),
        0 <= i < entries.len(),
        p.name@ == entries[i].name@,
    ensures
        names_unique(entries.update(i, p)),
        entries_map(entries.update(i, p)) == entries_map(entries).insert(p.name@, p.value),
    decreases entries.len(),
{
    let updated = entries.update(i, p);
    assert(forall|k: int| 0 <= k < entries.len() && k != i ==> updated[k] == entries[k]);
    if i == entries.len() - 1 {
        assert(updated.drop_last() =~= entries.drop_last());
        assert(entries_map(updated) == entries_map(entries.drop_last()).insert(p.name@, p.value));
        assert(entries_map(entries).insert(p.name@, p.value) =~= entries_map(
            entries.drop_last(),
        ).insert(p.name@, p.value));
    } else {
        assert(names_unique(entries.drop_last()));
        assert(forall|k: int|
            0 <= k < entries.len() - 1 ==> entries.drop_last()[k] == entries[k]);
        lemma_entries_map_update(entries.drop_last(), i, p);
        assert(updated.drop_last() =~= entries.drop_last().update(i, p));
        assert(updated.last() == entries.last());
        assert(p.name@ != entries.last().name@);
        assert(entries_map(updated) =~= entries_map(entries).insert(p.name@, p.value));
    }
}

/// Two entry lists whose entries agree on name characters and values stand
/// for the same mapping.
pub proof fn lemma_entries_map_congruence(a: Seq<NamedProperty>, b: Seq<NamedProperty>)
    requires
        a.len() == b.len(),
        forall|i: int|
            0 <= i < a.len() ==> (#[trigger] a[i].name@) == b[i].name@ && a[i].value == b[i].value,
    ensures
        entries_map(a) == entries_map(b),
    decreases a.len(),
{
    if a.len() > 0 {
        assert(forall|i: int|
            0 <= i < a.len() - 1 ==> (#[trigger] a.drop_last()[i]) == a[i] && b.drop_last()[i]
                == b[i]);
        lemma_entries_map_congruence(a.drop_last(), b.drop_last());
        assert(entries_map(a) =~= entries_map(b));
    }
}

/// Two entry lists whose entries agree on name characters have unique names
/// together.
pub proof fn lemma_names_unique_congruence(a: Seq<NamedProperty>, b: Seq<NamedProperty>)
    requires
        a.len() == b.len(),
        forall|i: int| 0 <= i < a.len() ==> (#[trigger] a[i].name@) == b[i].name@,
    ensures
        names_unique(a) <==> names_unique(b),
{
    if names_unique(a) {
        assert forall|i: int, j: int| 0 <= i < j < b.len() implies (#[trigger] b[i].name@)
            != (#[trigger] b[j].name@) by {
            assert(a[i].name@ != a[j].name@);
        }
    }
    if names_unique(b) {
        assert forall|i: int, j: int| 0 <= i < j < a.len() implies (#[trigger] a[i].name@)
            != (#[trigger] a[j].name@) by {
            assert(b[i].name@ != b[j].name@);
        }
    }
}

/// A flat mapping of property name to value, with unique names.
pub struct PropertyMap {
    /// The named entries, in insertion order.
    pub entries: Vec<NamedProperty>,
}

impl View for PropertyMap {
    type V = Map<Seq<char>, serde_json::Value>;

    open spec fn view(&self) -> Map<Seq<char>, serde_json::Value> {
        entries_map(self.entries@)
    }
}

impl PropertyMap {
    /// The entry names are unique.
    pub open spec fn wf(self) -> bool {
        names_unique(self.entries@)
    }

    /// Builds an empty mapping.
    pub fn new() -> (r: PropertyMap)
        ensures
            r.wf(),
            r@ == Map::<Seq<char>, serde_json::Value>::empty(),
    {
        PropertyMap { entries: Vec::new() }
    }

    /// The index of the entry carrying a name, if one does.
    fn find(&self, name: &str) -> (r: Option<usize>)
        requires
            self.wf(),
        ensures
            match r {
                Some(i) => i < self.entries@.len() && self.entries@[i as int].name@ == name@
                    && self@.contains_key(name@),
                None => !self@.contains_key(name@),
            },
    {
        let mut i: usize = 0;
        while i < self.entries.len()
            invariant
                self.wf(),
                i <= self.entries@.len(),
                forall|j: int| 0 <= j < i ==> (#[trigger] self.entries@[j].name@) != name@,
            decreases self.entries@.len() - i,
        {
            if crate::strings::str_eq(self.entries[i].name.as_str(), name) {
                proof {
                    lemma_entries_map_at(self.entries@, i as int);
                }
                return Some(i);
            }
            i += 1;
        }
        proof {
            lemma_entries_map_dom(self.entries@, name@);
        }
        None
    }

    /// Whether a property of the given name is present.
    pub fn contains(&self, name: &str) -> (r: bool)
        requires
            self.wf(),
        ensures
            r == self@.contains_key(name@),
    {
        self.find(name).is_some()
    }

    /// The value of the named property, if present.
    pub fn get(&self, name: &str) -> (r: Option<serde_json::Value>)
        requires
            self.wf(),
        ensures
            match r {
                Some(v) => self@.contains_key(name@) && v == self@[name@],
                None => !self@.contains_key(name@),
            },
    {
        match self.find(name) {
            Some(i) => {
                proof {
                    lemma_entries_map_at(self.entries@, i as int);
                }
                Some(self.entries[i].value.clone())
            },
            None => None,
        }
    }

    /// Puts a value under a name: overwrites the present entry or appends a
    /// new one.
    pub fn insert(&mut self, name: String, value: serde_json::Value)
        requires
            old(self).wf(),
        ensures
            final(self).wf(),
            final(self)@ == old(self)@.insert(name@, value),
    {
        match self.find(name.as_str()) {
            Some(i) => {
                let p = NamedProperty { name, value };
                proof {
                    lemma_entries_map_update(self.entries@, i as int, p);
                }
                self.entries[i] = p;
            },
            None => {
                let p = NamedProperty { name, value };
                proof {
                    lemma_entries_map_push(self.entries@, p);
                }
                self.entries.push(p);
            },
        }
    }

    /// Writes the named property if it is declared; reports whether it was.
    /// Writing an undeclared property changes nothing and returns false, a
    /// recoverable signal for the caller.
    pub fn set(&mut self, name: &str, value: serde_json::Value) -> (r: bool)
        requires
            old(self).wf(),
        ensures
            final(self).wf(),
            r == old(self)@.contains_key(name@),
            r ==> final(self)@ == old(self)@.insert(name@, value),
            !r ==> final(self)@ == old(self)@,
    {
        match self.find(name) {
            Some(i) => {
                let p = NamedProperty { name: crate::strings::str_to_owned(name), value };
                proof {
                    lemma_entries_map_update(self.entries@, i as int, p);
                }
                self.entries[i] = p;
                true
            },
            None => false,
        }
    }
}

} // verus!
