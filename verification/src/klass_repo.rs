//! The class metadata repository: class descriptors by class id.

use vstd::prelude::*;
use std::collections::HashMap;
use crate::klass::{OtField, OtKlass};

verus! {

broadcast use vstd::std_specs::hash::group_hash_axioms;

/// The descriptors of the loaded classes, keyed by class id.
pub struct SharedKlassRepo {
    pub id_lookup: HashMap<usize, OtKlass>,
}

impl View for SharedKlassRepo {
    type V = Map<usize, Seq<OtField>>;

    /// The layout of each loaded class, by class id.
    open spec fn view(&self) -> Map<usize, Seq<OtField>> {
        self.id_lookup@.map_values(|k: OtKlass| k@)
    }
}

impl SharedKlassRepo {
    /// A repository that holds no class.
    pub fn of() -> (repo: SharedKlassRepo)
        ensures
            repo.id_lookup@ == Map::<usize, OtKlass>::empty(),
            repo@ == Map::<usize, Seq<OtField>>::empty(),
    {
        SharedKlassRepo { id_lookup: HashMap::new() }
    }

    /// Records `k` under its own id, in place of what stood there.
    pub fn add_klass(&mut self, k: OtKlass)
        ensures
            final(self).id_lookup@ == old(self).id_lookup@.insert(k.id, k),
            final(self)@ == old(self)@.insert(k.id, k@),
    {
        self.id_lookup.insert(k.id, k);
    }

    /// The descriptor recorded under `id`, if there is one.
    pub fn lookup_klass(&self, id: usize) -> (found: Option<&OtKlass>)
        ensures
            match found {
                Some(k) => self.id_lookup@.contains_key(id) && *k == self.id_lookup@[id],
                None => !self.id_lookup@.contains_key(id),
            },
            match found {
                Some(k) => self@.contains_key(id) && k@ == self@[id],
                None => !self@.contains_key(id),
            },
    {
        self.id_lookup.get(&id)
    }
}

} // verus!
