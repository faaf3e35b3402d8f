use vstd::prelude::*;
use std::collections::HashMap;
use vstd::std_specs::iter::IteratorSpec;

verus! {

broadcast use vstd::std_specs::hash::group_hash_axioms;

/// A runtime as the cache holds it.
#[derive(Debug, Clone)]
pub struct Runtime {
    pub name: String,
    pub source_file_name: String,
    pub is_compiled: bool,
}

/// The cache of installed runtimes, by id.
pub type Metadata = HashMap<u32, Runtime>;

/// Whether some runtime of `m` is called `name`.
pub open spec fn name_taken(m: Map<u32, Runtime>, name: Seq<char>) -> bool {
    exists|id: u32| #[trigger] m.contains_key(id) && m[id].name@ == name
}

/// Whether no two runtimes of `m` share a name.
pub open spec fn names_unique(m: Map<u32, Runtime>) -> bool {
    forall|a: u32, b: u32|
        #![trigger m[a], m[b]]
        m.contains_key(a) && m.contains_key(b) && a != b ==> m[a].name@ != m[b].name@
}

/// The in-memory mirror of the runtime table.
#[derive(Debug)]
pub struct RuntimeCache {
    pub runtimes: Metadata,
}

impl RuntimeCache {
    /// The runtimes by id.
    pub open spec fn view(&self) -> Map<u32, Runtime> {
        self.runtimes@
    }

    /// Names are unique across the cache.
    pub open spec fn wf(&self) -> bool {
        names_unique(self.runtimes@)
    }

    /// An empty cache.
    pub fn new() -> (r: RuntimeCache)
        ensures
            r.wf(),
            r.view() == Map::<u32, Runtime>::empty(),
    {
        RuntimeCache { runtimes: HashMap::new() }
    }

    /// The runtime of id `id`.
    pub fn get(&self, id: u32) -> (r: Option<&Runtime>)
        ensures
            match r {
                Some(rt) => self.view().contains_key(id) && *rt == self.view()[id],
                None => !self.view().contains_key(id),
            },
    {
        self.runtimes.get(&id)
    }

    /// Whether a runtime is called `name`.
    pub fn has_name(&self, name: &String) -> (r: bool)
        ensures
            r == name_taken(self.view(), name@),
    {
        let mut found = false;
        let ghost m = self.runtimes@;
        for entry in it: self.runtimes.iter()
            invariant
                m == self.runtimes@,
                it.seq() == vstd::std_specs::hash::spec_hash_map_iter(&self.runtimes).remaining(),
                found ==> name_taken(m, name@),
                !found ==> forall|j: int|
                    0 <= j < it.index() ==> (*(#[trigger] it.seq()[j]).1).name@ != name@,
        {
            let (id, rt) = entry;
            if rt.name == *name {
                assert(m.contains_key(*id));
                found = true;
            }
        }
        if !found {
            let ghost v = vstd::std_specs::hash::spec_hash_map_iter(&self.runtimes).remaining();
            assert forall|id: u32| #[trigger] m.contains_key(id) implies m[id].name@ != name@ by {
                assert(v.contains((&id, &m[id])));
            }
        }
        found
    }

    /// Every runtime's id and name.
    pub fn list(&self) -> (r: Vec<(u32, String)>)
        ensures
            r@.len() == self.view().dom().len(),
            forall|i: int|
                0 <= i < r@.len() ==> self.view().contains_key((#[trigger] r@[i]).0) && self.view()[r@[i].0].name@
                    == r@[i].1@,
            forall|id: u32|
                #[trigger] self.view().contains_key(id) ==> exists|i: int|
                    0 <= i < r@.len() && (#[trigger] r@[i]).0 == id,
    {
        let mut r: Vec<(u32, String)> = Vec::new();
        let ghost m = self.runtimes@;
        let ghost v = vstd::std_specs::hash::spec_hash_map_iter(&self.runtimes).remaining();
        for entry in it: self.runtimes.iter()
            invariant
                m == self.runtimes@,
                v == vstd::std_specs::hash::spec_hash_map_iter(&self.runtimes).remaining(),
                it.seq() == v,
                r@.len() == it.index(),
                forall|j: int|
                    0 <= j < r@.len() ==> (#[trigger] r@[j]).0 == *v[j].0 && r@[j].1@ == (*v[j].1).name@,
        {
            let (id, rt) = entry;
            r.push((*id, rt.name.clone()));
        }
        assert forall|id: u32| #[trigger] m.contains_key(id) implies exists|i: int|
            0 <= i < r@.len() && (#[trigger] r@[i]).0 == id by {
            assert(v.contains((&id, &m[id])));
            let i = choose|i: int| 0 <= i < v.len() && v[i] == (&id, &m[id]);
            assert(r@[i].0 == id);
        }
        r
    }

    /// Adds a runtime under a fresh id and a fresh name.
    pub fn insert(&mut self, id: u32, runtime: Runtime)
        requires
            old(self).wf(),
            !name_taken(old(self).view(), runtime.name@),
        ensures
            final(self).wf(),
            final(self).view() == old(self).view().insert(id, runtime),
    {
        self.runtimes.insert(id, runtime);
    }

    /// Removes the runtime of id `id`; whether there was one.
    pub fn remove(&mut self, id: u32) -> (r: bool)
        requires
            old(self).wf(),
        ensures
            final(self).wf(),
            final(self).view() == old(self).view().remove(id),
            r == old(self).view().contains_key(id),
    {
        self.runtimes.remove(&id).is_some()
    }
}

} // verus!
