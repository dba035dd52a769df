//! Typed scalar values and the flat key/value record handed to a reporter.
//!
//! A [`FlatRecord`] is a mapping from attribute name to typed scalar value,
//! produced fresh for every span or event.  Its only invariant is that keys
//! are unique; its mathematical view is a `Map<Seq<char>, ValueView>`.

use vstd::prelude::*;

verus! {

/// A typed scalar attribute value.
///
/// Floating-point values are carried as their raw IEEE-754 bit pattern; the
/// pipeline only moves them, it never computes with them.
#[derive(Clone, PartialEq, Debug)]
pub enum Value {
    /// Absent or explicit null value.
    Null,
    /// Boolean value.
    Bool(bool),
    /// Signed integer value.
    Int(i64),
    /// Floating-point value, as the raw bits of an IEEE-754 double.
    Float(u64),
    /// Text value.
    Text(String),
}

/// The mathematical value of a [`Value`].
pub enum ValueView {
    /// Absent or explicit null value.
    Null,
    /// Boolean value.
    Bool(bool),
    /// Signed integer value.
    Int(int),
    /// Floating-point value, as the raw bits of an IEEE-754 double.
    Float(u64),
    /// Text value.
    Text(Seq<char>),
}

impl View for Value {
    type V = ValueView;

    open spec fn view(&self) -> ValueView {
        match self {
            Value::Null => ValueView::Null,
            Value::Bool(b) => ValueView::Bool(*b),
            Value::Int(i) => ValueView::Int(*i as int),
            Value::Float(bits) => ValueView::Float(*bits),
            Value::Text(s) => ValueView::Text(s@),
        }
    }
}

/// The mapping described by a sequence of key/value entries, later entries
/// taking precedence.
pub open spec fn entries_map(s: Seq<(String, Value)>) -> Map<Seq<char>, ValueView>
    decreases s.len(),
{
    if s.len() == 0 {
        Map::empty()
    } else {
        entries_map(s.drop_last()).insert(s.last().0@, s.last().1@)
    }
}

/// Whether the keys of a sequence of entries are pairwise distinct.
pub open spec fn unique_keys(s: Seq<(String, Value)>) -> bool {
    forall|i: int, j: int| 0 <= i < j < s.len() ==> s[i].0@ != s[j].0@
}

/// A key is in the mapping exactly when some entry bears it.
proof fn lemma_entries_map_contains(s: Seq<(String, Value)>, k: Seq<char>)
    ensures
        entries_map(s).contains_key(k) <==> exists|j: int| 0 <= j < s.len() && s[j].0@ == k,
    decreases s.len(),
{
    if s.len() > 0 {
        lemma_entries_map_contains(s.drop_last(), k);
        if s.last().0@ == k {
            assert(s[s.len() - 1].0@ == k);
        } else if entries_map(s).contains_key(k) {
            let j = choose|j: int| 0 <= j < s.drop_last().len() && s.drop_last()[j].0@ == k;
            assert(s[j].0@ == k);
        } else {
            assert forall|j: int| 0 <= j < s.len() implies s[j].0@ != k by {
                if j < s.len() - 1 {
                    assert(s.drop_last()[j].0@ == s[j].0@);
                }
            }
        }
    }
}

/// With unique keys, the entry bearing a key gives the mapping's value at it.
proof fn lemma_entries_map_index(s: Seq<(String, Value)>, i: int)
    requires
        unique_keys(s),
        0 <= i < s.len(),
    ensures
        entries_map(s).contains_key(s[i].0@),
        entries_map(s)[s[i].0@] == s[i].1@,
    decreases s.len(),
{
    if i == s.len() - 1 {
    } else {
        assert(s.drop_last()[i] == s[i]);
        lemma_entries_map_index(s.drop_last(), i);
        assert(s[i].0@ != s.last().0@);
    }
}

/// With unique keys, removing the entry at `i` removes exactly its key from
/// the mapping.
proof fn lemma_entries_map_remove(s: Seq<(String, Value)>, i: int)
    requires
        unique_keys(s),
        0 <= i < s.len(),
    ensures
        entries_map(s.remove(i)) == entries_map(s).remove(s[i].0@),
    decreases s.len(),
{
    let k = s[i].0@;
    if i == s.len() - 1 {
        assert(s.remove(i) =~= s.drop_last());
        lemma_entries_map_contains(s.drop_last(), k);
        assert forall|j: int| 0 <= j < s.drop_last().len() implies s.drop_last()[j].0@ != k by {
            assert(s.drop_last()[j].0@ == s[j].0@);
        }
        assert(!entries_map(s.drop_last()).contains_key(k));
        assert(entries_map(s).remove(k) =~= entries_map(s.drop_last()));
    } else {
        let t = s.drop_last();
        assert(s.remove(i).drop_last() =~= t.remove(i));
        assert(s.remove(i).last() == s.last());
        assert(s.remove(i).len() > 0);
        lemma_entries_map_remove(t, i);
        assert(t[i] == s[i]);
        assert(entries_map(s.remove(i)) == entries_map(t.remove(i)).insert(
            s.last().0@,
            s.last().1@,
        ));
        assert(s.last().0@ != k);
        assert(entries_map(t).remove(k).insert(s.last().0@, s.last().1@) =~= entries_map(t).insert(
            s.last().0@,
            s.last().1@,
        ).remove(k));
        assert(entries_map(s.remove(i)) =~= entries_map(s).remove(k));
    }
}

/// In a well-formed record, the entry views bear pairwise distinct keys.
pub(crate) proof fn lemma_entry_views_unique(r: FlatRecord)
    requires
        r.wf(),
    ensures
        forall|i: int, j: int|
            0 <= i < j < r.entry_views().len() ==> r.entry_views()[i].0 != r.entry_views()[j].0,
{
    assert forall|i: int, j: int|
        0 <= i < j < r.entry_views().len() implies r.entry_views()[i].0
        != r.entry_views()[j].0 by {
        assert(r.entry_views()[i].0 == r.entries@[i].0@);
        assert(r.entry_views()[j].0 == r.entries@[j].0@);
    }
}

/// A flat mapping from attribute name to typed scalar value, with unique
/// keys, paired with nothing else: the value object handed to a reporter.
#[derive(Clone, PartialEq, Debug)]
pub struct FlatRecord {
    entries: Vec<(String, Value)>,
}

impl View for FlatRecord {
    type V = Map<Seq<char>, ValueView>;

    closed spec fn view(&self) -> Map<Seq<char>, ValueView> {
        entries_map(self.entries@)
    }
}

impl FlatRecord {
    /// The record's entries in storage order, as mathematical values.
    pub closed spec fn entry_views(self) -> Seq<(Seq<char>, ValueView)> {
        self.entries@.map_values(|p: (String, Value)| (p.0@, p.1@))
    }

    /// Keys are pairwise distinct.
    pub closed spec fn wf(self) -> bool {
        unique_keys(self.entries@)
    }

    /// Creates an empty record.
    pub fn new() -> (r: FlatRecord)
        ensures
            r.wf(),
            r@ == Map::<Seq<char>, ValueView>::empty(),
            r.entry_views() == Seq::<(Seq<char>, ValueView)>::empty(),
    {
        let r = FlatRecord { entries: Vec::new() };
        proof {
            assert(r.entry_views() =~= Seq::<(Seq<char>, ValueView)>::empty());
        }
        r
    }

    /// The number of entries, which equals the number of distinct keys.
    pub fn len(&self) -> (n: usize)
        ensures
            n == self.entry_views().len(),
    {
        self.entries.len()
    }

    /// The index of the entry bearing `key`, if any.
    fn find_index(&self, key: &String) -> (r: Option<usize>)
        ensures
            match r {
                Option::Some(i) => i < self.entries@.len() && self.entries@[i as int].0@ == key@,
                Option::None => forall|j: int|
                    0 <= j < self.entries@.len() ==> self.entries@[j].0@ != key@,
            },
    {
        let mut i: usize = 0;
        while i < self.entries.len()
            invariant
                i <= self.entries@.len(),
                forall|j: int| 0 <= j < i ==> self.entries@[j].0@ != key@,
            decreases self.entries@.len() - i,
        {
            if self.entries[i].0 == *key {
                return Option::Some(i);
            }
            i += 1;
        }
        Option::None
    }

    /// Inserts a value under a key, replacing any value the key already had.
    pub fn insert(&mut self, key: String, value: Value)
        requires
            old(self).wf(),
        ensures
            final(self).wf(),
            final(self)@ == old(self)@.insert(key@, value@),
    {
        let ghost pre = self.entries@;
        match self.find_index(&key) {
            Option::Some(i) => {
                self.entries.remove(i);
                proof {
                    lemma_entries_map_remove(pre, i as int);
                    assert forall|a: int, b: int|
                        0 <= a < b < self.entries@.len() implies self.entries@[a].0@
                        != self.entries@[b].0@ by {
                        if b < i {
                            assert(self.entries@[a] == pre[a] && self.entries@[b] == pre[b]);
                        } else if a < i {
                            assert(self.entries@[a] == pre[a] && self.entries@[b] == pre[b + 1]);
                        } else {
                            assert(self.entries@[a] == pre[a + 1] && self.entries@[b] == pre[b
                                + 1]);
                        }
                    }
                    lemma_entries_map_contains(self.entries@, key@);
                    assert forall|j: int| 0 <= j < self.entries@.len() implies self.entries@[j].0@
                        != key@ by {
                        if j < i {
                            assert(self.entries@[j] == pre[j]);
                        } else {
                            assert(self.entries@[j] == pre[j + 1]);
                        }
                    }
                }
                self.push_absent(key, value);
                proof {
                    assert(entries_map(pre).remove(key@).insert(key@, value@) =~= entries_map(
                        pre,
                    ).insert(key@, value@));
                }
            },
            Option::None => {
                proof {
                    lemma_entries_map_contains(self.entries@, key@);
                }
                self.push_absent(key, value);
            },
        }
    }

    /// Appends an entry whose key is not yet present.
    fn push_absent(&mut self, key: String, value: Value)
        requires
            old(self).wf(),
            forall|j: int|
                0 <= j < old(self).entries@.len() ==> old(self).entries@[j].0@ != key@,
        ensures
            final(self).wf(),
            final(self)@ == old(self)@.insert(key@, value@),
    {
        let ghost pre = self.entries@;
        self.entries.push((key, value));
        proof {
            assert(self.entries@.drop_last() =~= pre);
            assert forall|a: int, b: int|
                0 <= a < b < self.entries@.len() implies self.entries@[a].0@
                != self.entries@[b].0@ by {
                if b < self.entries@.len() - 1 {
                    assert(self.entries@[a] == pre[a] && self.entries@[b] == pre[b]);
                } else {
                    assert(self.entries@[a] == pre[a]);
                }
            }
        }
    }

    /// Looks a key up.
    pub fn get(&self, key: &String) -> (r: Option<&Value>)
        requires
            self.wf(),
        ensures
            match r {
                Option::Some(v) => self@.contains_key(key@) && v@ == self@[key@],
                Option::None => !self@.contains_key(key@),
            },
    {
        match self.find_index(key) {
            Option::Some(i) => {
                proof {
                    lemma_entries_map_index(self.entries@, i as int);
                }
                Option::Some(&self.entries[i].1)
            },
            Option::None => {
                proof {
                    lemma_entries_map_contains(self.entries@, key@);
                }
                Option::None
            },
        }
    }

    /// The entries in storage order, for rendering and conversion.
    pub fn entries(&self) -> (r: &Vec<(String, Value)>)
        ensures
            r@.map_values(|p: (String, Value)| (p.0@, p.1@)) == self.entry_views(),
    {
        &self.entries
    }
}

} // verus!
