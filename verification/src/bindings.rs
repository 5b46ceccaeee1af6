//! A binding set: a mapping from variable identifiers to binary64 values
//! (carried as bit patterns), viewed in specifications as a
//! `Map<Seq<char>, u64>`.
//!
//! The entries live in a vector in insertion order; a later entry for the
//! same identifier shadows an earlier one, so `set` is simply a push and
//! the view is the fold of `insert` over the entries.

use vstd::prelude::*;

verus! {

/// The mapping that a sequence of (identifier, value) entries denotes:
/// later entries win.
pub open spec fn map_of(entries: Seq<(String, u64)>) -> Map<Seq<char>, u64>
    decreases entries.len(),
{
    if entries.len() == 0 {
        Map::empty()
    } else {
        map_of(entries.drop_last()).insert(entries.last().0@, entries.last().1)
    }
}

/// A set of named values: the evaluation context for one scope.
pub struct Bindings {
    pub entries: Vec<(String, u64)>,
}

impl View for Bindings {
    type V = Map<Seq<char>, u64>;

    open spec fn view(&self) -> Map<Seq<char>, u64> {
        map_of(self.entries@)
    }
}

impl Bindings {
    /// The empty binding set.
    pub fn new() -> (r: Bindings)
        ensures
            r@ == Map::<Seq<char>, u64>::empty(),
    {
        Bindings { entries: Vec::new() }
    }

    /// Bind `key` to `val`, shadowing any earlier binding of `key`.
    pub fn set(&mut self, key: String, val: u64)
        ensures
            final (self)@ == old(self)@.insert(key@, val),
    {
        self.entries.push((key, val));
        proof {
            assert(self.entries@.drop_last() =~= old(self).entries@);
        }
    }

    /// The value bound to `key`, or `None` if `key` is unbound.
    pub fn get(&self, key: &String) -> (r: Option<u64>)
        ensures
            match r {
                Some(v) => self@.contains_key(key@) && self@[key@] == v,
                None => !self@.contains_key(key@),
            },
    {
        let mut i: usize = self.entries.len();
        proof {
            assert(self.entries@.subrange(0, i as int) =~= self.entries@);
        }
        while i > 0
            invariant
                i <= self.entries@.len(),
                map_of(self.entries@).contains_key(key@) == map_of(
                    self.entries@.subrange(0, i as int),
                ).contains_key(key@),
                map_of(self.entries@).contains_key(key@) ==> map_of(self.entries@)[key@] == map_of(
                    self.entries@.subrange(0, i as int),
                )[key@],
            decreases i,
        {
            i = i - 1;
            proof {
                assert(self.entries@.subrange(0, i + 1).drop_last() =~= self.entries@.subrange(
                    0,
                    i as int,
                ));
                assert(self.entries@.subrange(0, i + 1).last() == self.entries@[i as int]);
            }
            if self.entries[i].0 == *key {
                return Some(self.entries[i].1);
            }
        }
        proof {
            assert(self.entries@.subrange(0, 0) =~= Seq::<(String, u64)>::empty());
        }
        None
    }
}

} // verus!
