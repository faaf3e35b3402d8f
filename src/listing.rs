use vstd::prelude::*;
use crate::registry::RuntimeCache;

verus! {

/// A runtime as listed: its id and name.
#[derive(Debug, Clone)]
pub struct Runtime {
    pub id: u32,
    pub name: String,
}

/// Every cached runtime's id and name, once each.
pub fn list_runtimes(cache: &RuntimeCache) -> (r: Vec<Runtime>)
    ensures
        r@.len() == cache.view().dom().len(),
        forall|i: int|
            0 <= i < r@.len() ==> cache.view().contains_key((#[trigger] r@[i]).id)
                && cache.view()[r@[i].id].name@ == r@[i].name@,
        forall|id: u32|
            #[trigger] cache.view().contains_key(id) ==> exists|i: int|
                0 <= i < r@.len() && (#[trigger] r@[i]).id == id,
{
    let pairs = cache.list();
    let mut r: Vec<Runtime> = Vec::new();
    let mut k: usize = 0;
    while k < pairs.len()
        invariant
            k <= pairs@.len(),
            r@.len() == k,
            forall|j: int|
                0 <= j < k ==> (#[trigger] r@[j]).id == pairs@[j].0 && r@[j].name@ == pairs@[j].1@,
        decreases pairs@.len() - k,
    {
        let (id, name) = (pairs[k].0, pairs[k].1.clone());
        r.push(Runtime { id, name });
        k = k + 1;
    }
    assert forall|id: u32| #[trigger] cache.view().contains_key(id) implies exists|i: int|
        0 <= i < r@.len() && (#[trigger] r@[i]).id == id by {
        let i = choose|i: int| 0 <= i < pairs@.len() && (#[trigger] pairs@[i]).0 == id;
        assert(r@[i].id == id);
    }
    r
}

} // verus!
