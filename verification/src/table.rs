//! Values that are found by a name.

use vstd::prelude::*;

verus! {

/// A value for each of a number of names.
pub struct Table<V> {
    entries: Vec<(String, V)>,
}

/// What a list of assignments amounts to: of several to one name, the last one holds.
pub closed spec fn assigned<V>(entries: Seq<(String, V)>) -> Map<Seq<char>, V>
    decreases entries.len(),
{
    if entries.len() == 0 {
        Map::empty()
    } else {
        assigned(entries.drop_last()).insert(entries.last().0@, entries.last().1)
    }
}

impl<V> View for Table<V> {
    type V = Map<Seq<char>, V>;

    closed spec fn view(&self) -> Map<Seq<char>, V> {
        assigned(self.entries@)
    }
}

impl<V> Table<V> {
    /// A table without names.
    pub fn new() -> (table: Table<V>)
        ensures
            table@ == Map::<Seq<char>, V>::empty(),
    {
        Table { entries: Vec::new() }
    }

    /// Makes `value` the value of `name`, in place of the one it had.
    pub fn insert(&mut self, name: &str, value: V)
        ensures
            final(self)@ == old(self)@.insert(name@, value),
    {
        self.entries.push((name.to_owned(), value));
        assert(self.entries@.drop_last() =~= old(self).entries@);
    }

    /// The value of `name`, if it has one.
    pub fn get(&self, name: &str) -> (value: Option<&V>)
        ensures
            value is Some <==> self@.contains_key(name@),
            value matches Some(v) ==> *v == self@[name@],
    {
        let key: String = name.to_owned();
        let mut i: usize = self.entries.len();
        assert(self.entries@.take(i as int) =~= self.entries@);
        while i > 0
            invariant
                i <= self.entries@.len(),
                key@ == name@,
                self@.contains_key(key@) <==> assigned(self.entries@.take(i as int)).contains_key(
                    key@,
                ),
                self@.contains_key(key@) ==> self@[key@] == assigned(
                    self.entries@.take(i as int),
                )[key@],
            decreases i,
        {
            assert(self.entries@.take(i as int).drop_last() =~= self.entries@.take(i - 1));
            i = i - 1;
            if self.entries[i].0 == key {
                return Some(&self.entries[i].1);
            }
        }
        None
    }
}

} // verus!
