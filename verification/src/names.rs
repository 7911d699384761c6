//! A small table keyed by name, kept in insertion order.

use crate::text::str_eq;
use vstd::prelude::*;

verus! {

/// The index of the first entry called `name`; the number of entries if there is none.
pub open spec fn entry_index<V>(entries: Seq<(String, V)>, name: Seq<char>) -> int
    decreases entries.len(),
{
    if entries.len() == 0 || entries[0].0@ == name {
        0
    } else {
        1 + entry_index(entries.drop_first(), name)
    }
}

/// The index lies within the entries or at their end, holds the name unless it
/// is the end, and no entry before it does.
pub proof fn lemma_entry_index_properties<V>(entries: Seq<(String, V)>, name: Seq<char>)
    ensures
        0 <= entry_index(entries, name) <= entries.len(),
        entry_index(entries, name) < entries.len() ==> entries[entry_index(entries, name)].0@
            == name,
        forall|i: int| 0 <= i < entry_index(entries, name) ==> #[trigger] entries[i].0@ != name,
    decreases entries.len(),
{
    if entries.len() > 0 && entries[0].0@ != name {
        let rest = entries.drop_first();
        lemma_entry_index_properties(rest, name);
        assert forall|i: int| 0 <= i < entry_index(entries, name) implies #[trigger] entries[i].0@
            != name by {
            if i > 0 {
                assert(rest[i - 1] == entries[i]);
            }
        }
    }
}

/// `k` is the index of the first entry called `name` exactly if the name stands
/// there, or the entries end there, and it does not occur before.
pub proof fn lemma_entry_index<V>(entries: Seq<(String, V)>, name: Seq<char>, k: int)
    requires
        0 <= k <= entries.len(),
        k < entries.len() ==> entries[k].0@ == name,
        forall|i: int| 0 <= i < k ==> #[trigger] entries[i].0@ != name,
    ensures
        entry_index(entries, name) == k,
{
    lemma_entry_index_properties(entries, name);
    let f = entry_index(entries, name);
    if f < k {
        assert(entries[f].0@ != name);
    }
    if k < f {
        assert(entries[k].0@ != name);
    }
}

/// Values keyed by name. Each name has at most one value.
#[derive(Debug, Clone)]
pub struct NameMap<V> {
    entries: Vec<(String, V)>,
}

impl<V> View for NameMap<V> {
    type V = Map<Seq<char>, V>;

    closed spec fn view(&self) -> Map<Seq<char>, V> {
        Map::new(
            |name: Seq<char>| entry_index(self.entries@, name) < self.entries@.len(),
            |name: Seq<char>| self.entries@[entry_index(self.entries@, name)].1,
        )
    }
}

impl<V> NameMap<V> {
    /// An empty table.
    pub fn new() -> (r: Self)
        ensures
            r@ == Map::<Seq<char>, V>::empty(),
    {
        let r = NameMap { entries: Vec::new() };
        assert(r@ =~= Map::<Seq<char>, V>::empty());
        r
    }

    /// Whether the table holds nothing.
    pub fn is_empty(&self) -> (r: bool)
        ensures
            r == (self@ == Map::<Seq<char>, V>::empty()),
    {
        proof {
            if self.entries@.len() == 0 {
                assert(self@ =~= Map::<Seq<char>, V>::empty());
            } else {
                let name = self.entries@[0].0@;
                assert(entry_index(self.entries@, name) == 0);
                assert(self@.contains_key(name));
                assert(!Map::<Seq<char>, V>::empty().contains_key(name));
            }
        }
        self.entries.len() == 0
    }

    /// The position of the first entry called `name`.
    fn position(&self, name: &str) -> (r: usize)
        ensures
            r == entry_index(self.entries@, name@),
            r <= self.entries@.len(),
    {
        let mut i: usize = 0;
        while i < self.entries.len()
            invariant
                i <= self.entries@.len(),
                forall|j: int| 0 <= j < i ==> #[trigger] self.entries@[j].0@ != name@,
            decreases self.entries@.len() - i,
        {
            if str_eq(self.entries[i].0.as_str(), name) {
                proof {
                    lemma_entry_index(self.entries@, name@, i as int);
                }
                return i;
            }
            i += 1;
        }
        proof {
            lemma_entry_index(self.entries@, name@, i as int);
        }
        i
    }

    /// The value of `name`.
    pub fn get(&self, name: &str) -> (r: Option<&V>)
        ensures
            match r {
                Some(v) => self@.contains_key(name@) && *v == self@[name@],
                None => !self@.contains_key(name@),
            },
    {
        let i: usize = self.position(name);
        if i < self.entries.len() {
            Some(&self.entries[i].1)
        } else {
            None
        }
    }

    /// Gives `name` the value `value`, in place of the one it had.
    pub fn insert(&mut self, name: String, value: V)
        ensures
            final(self)@ == old(self)@.insert(name@, value),
    {
        let ghost before = self.entries@;
        let ghost old_map = self@;
        let i: usize = self.position(name.as_str());
        let ghost key = name@;
        let ghost given = value;
        proof {
            lemma_entry_index_properties(before, key);
        }
        if i < self.entries.len() {
            self.entries.set(i, (name, value));
        } else {
            self.entries.push((name, value));
        }
        proof {
            let after = self.entries@;
            assert(entry_index(after, key) == i as int) by {
                assert forall|j: int| 0 <= j < i implies #[trigger] after[j].0@ != key by {
                    assert(before[j].0@ != key);
                }
                lemma_entry_index(after, key, i as int);
            }
            assert(self@.dom().contains(key) && self@[key] == given);
            let wanted = old_map.insert(key, given);
            assert forall|other: Seq<char>| #![trigger self@.dom().contains(other)]
                #![trigger wanted.dom().contains(other)]
                #![trigger self@[other]]
                self@.dom().contains(other) == wanted.dom().contains(other) && (self@.dom().contains(
                    other,
                ) ==> self@[other] == wanted[other]) by {
                if other != key {
                    lemma_entry_index_properties(before, other);
                    let k = entry_index(before, other);
                    assert forall|j: int| 0 <= j < k implies #[trigger] after[j].0@ != other by {
                        if j < before.len() {
                            assert(before[j].0@ != other);
                        }
                    }
                    if k < before.len() {
                        assert(after[k].0@ == other);
                        lemma_entry_index(after, other, k);
                    } else {
                        lemma_entry_index(after, other, after.len() as int);
                    }
                }
            }
            assert(self@ =~= wanted);
        }
    }
}

} // verus!
