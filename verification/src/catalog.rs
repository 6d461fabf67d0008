//! Maintaining the application's list of saved macros: updating a macro
//! in place by its id, appending a new one, and deleting by id.
//!
//! Persisting the list is the surrounding application's business; only
//! the list manipulation itself lives here.

use vstd::prelude::*;

use crate::types::Macro;

verus! {

/// The index of the first macro carrying this id, or the length when
/// none does.
pub open spec fn spec_first_with_id(list: Seq<Macro>, id: Seq<char>) -> int
    decreases list.len(),
{
    if list.len() == 0 {
        0
    } else if list[0].id@ == id {
        0
    } else {
        1 + spec_first_with_id(list.skip(1), id)
    }
}

/// A scan that saw no match up to `k`, and a match at `k` if `k` is a
/// position at all, has found the first match.
proof fn lemma_first_with_id_at(list: Seq<Macro>, id: Seq<char>, k: int)
    requires
        0 <= k <= list.len(),
        forall|j: int| 0 <= j < k ==> (#[trigger] list[j]).id@ != id,
        k < list.len() ==> list[k].id@ == id,
    ensures
        spec_first_with_id(list, id) == k,
    decreases k,
{
    if list.len() == 0 {
    } else if k == 0 {
    } else {
        assert(list[0].id@ != id);
        lemma_first_with_id_at(list.skip(1), id, k - 1);
    }
}

/// The predicate deletion keeps: every macro whose id differs.
pub open spec fn keep_pred(id: Seq<char>) -> spec_fn(Macro) -> bool {
    |x: Macro| x.id@ != id
}

/// Save a macro into the list: replace the first entry carrying the same
/// id, or append when there is none.
pub fn upsert_macro(list: &mut Vec<Macro>, m: Macro)
    ensures
        ({
            let k = spec_first_with_id(old(list)@, m.id@);
            if k < old(list)@.len() {
                final(list)@ == old(list)@.update(k, m)
            } else {
                final(list)@ == old(list)@.push(m)
            }
        }),
{
    let mut i: usize = 0;
    while i < list.len()
        invariant
            i <= list@.len(),
            list@ == old(list)@,
            forall|j: int| 0 <= j < i ==> (#[trigger] list@[j]).id@ != m.id@,
        decreases list@.len() - i,
    {
        if list[i].id == m.id {
            proof {
                lemma_first_with_id_at(list@, m.id@, i as int);
            }
            list[i] = m;
            return;
        }
        i += 1;
    }
    proof {
        lemma_first_with_id_at(list@, m.id@, list@.len() as int);
    }
    list.push(m);
}

/// Delete every macro carrying this id, keeping the order of the rest.
pub fn remove_macro(list: &mut Vec<Macro>, id: &String)
    ensures
        final(list)@ == old(list)@.filter(keep_pred(id@)),
{
    let ghost pred = keep_pred(id@);
    let ghost orig = old(list)@;
    let mut kept: Vec<Macro> = Vec::new();
    let ghost mut done: int = 0;
    proof {
        reveal(Seq::filter);
        assert(list@ =~= orig.skip(0));
        assert(orig.take(0) =~= Seq::<Macro>::empty());
    }
    while list.len() > 0
        invariant
            0 <= done <= orig.len(),
            list@ == orig.skip(done),
            kept@ == orig.take(done).filter(pred),
            pred == keep_pred(id@),
        decreases list@.len(),
    {
        let entry = list.remove(0);
        proof {
            assert(entry == orig[done]);
            reveal(Seq::filter);
            assert(orig.take(done + 1).drop_last() =~= orig.take(done));
            assert(orig.take(done + 1).last() == orig[done]);
            assert(list@ =~= orig.skip(done + 1));
        }
        let keep = entry.id != *id;
        if keep {
            kept.push(entry);
        }
        proof {
            done = done + 1;
        }
    }
    proof {
        assert(orig.take(orig.len() as int) =~= orig);
    }
    core::mem::swap(list, &mut kept);
}

} // verus!
