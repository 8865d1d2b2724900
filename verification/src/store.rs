//! The INFO values of one record, held by the numeric id of their field.

use vstd::prelude::*;

use crate::value::{InfoValue, InfoValueView};

verus! {

/// A map from the numeric id of an INFO field to its values.
#[derive(Debug)]
pub struct InfoStore {
    slots: Vec<Option<InfoValue>>,
}

impl View for InfoStore {
    type V = Map<usize, InfoValueView>;

    closed spec fn view(&self) -> Map<usize, InfoValueView> {
        Map::new(
            |k: usize| k < self.slots.len() && self.slots@[k as int] is Some,
            |k: usize| self.slots@[k as int]->0@,
        )
    }
}

impl InfoStore {
    /// A store without values.
    pub fn new() -> (r: InfoStore)
        ensures
            r@ == Map::<usize, InfoValueView>::empty(),
    {
        let r = InfoStore { slots: Vec::new() };
        assert(r@ =~= Map::<usize, InfoValueView>::empty());
        r
    }

    /// The values held for `key`, if any.
    pub fn get(&self, key: usize) -> (r: Option<&InfoValue>)
        ensures
            match r {
                Some(v) => self@.contains_key(key) && v@ == self@[key],
                None => !self@.contains_key(key),
            },
    {
        if key < self.slots.len() {
            self.slots[key].as_ref()
        } else {
            None
        }
    }

    /// Holds `value` for `key`, in place of what was held for it.
    pub(crate) fn put(&mut self, key: usize, value: InfoValue)
        requires
            key < usize::MAX,
        ensures
            final(self)@ == old(self)@.insert(key, value@),
    {
        while self.slots.len() <= key
            invariant
                key < usize::MAX,
                self@ == old(self)@,
            decreases key + 1 - self.slots.len(),
        {
            let ghost before = self@;
            self.slots.push(None);
            assert(self@ =~= before);
        }
        let ghost before = self@;
        self.slots.set(key, Some(value));
        assert(self@ =~= before.insert(key, value@));
    }

    /// Holds nothing for `key` any more.
    pub fn remove(&mut self, key: usize)
        ensures
            final(self)@ == old(self)@.remove(key),
    {
        let ghost before = self@;
        if key < self.slots.len() {
            self.slots.set(key, None);
        }
        assert(self@ =~= before.remove(key));
    }
}

} // verus!
