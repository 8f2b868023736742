//! What holds of the task operations together: how ids are given out, what an update
//! leaves of the old task, and what a delete does where there is nothing to delete.

use vstd::prelude::*;
use crate::model::TodoView;
use crate::tasks::{added, deleted, first_with_id, has_id, id_key, is_first_with_id, max_id, updated, with_id};

verus! {

/// The collection after adding the tasks of `ts` one after the other to `s`.
pub open spec fn added_all(s: Seq<TodoView>, ts: Seq<TodoView>) -> Seq<TodoView>
    decreases ts.len(),
{
    if ts.len() == 0 {
        s
    } else {
        added(added_all(s, ts.drop_last()), ts.last())
    }
}

/// `max_id` is the greatest key of a collection that is not empty: no key is above it,
/// and some task has it. It always fits the type of an id.
pub proof fn lemma_max_id_is_greatest(s: Seq<TodoView>)
    ensures
        i64::MIN <= max_id(s) <= i64::MAX,
        forall|j: int| 0 <= j < s.len() ==> id_key(#[trigger] s[j]) <= max_id(s),
        s.len() > 0 ==> exists|i: int| 0 <= i < s.len() && id_key(#[trigger] s[i]) == max_id(s),
    decreases s.len(),
{
    if s.len() >= 2 {
        let rest = s.drop_last();
        lemma_max_id_is_greatest(rest);
        let i = choose|i: int| 0 <= i < rest.len() && id_key(#[trigger] rest[i]) == max_id(rest);
        assert(rest[i] == s[i]);
        assert forall|j: int| 0 <= j < s.len() implies id_key(#[trigger] s[j]) <= max_id(s) by {
            if j < rest.len() {
                assert(rest[j] == s[j]);
            }
        }
        if id_key(s.last()) > max_id(rest) {
            assert(id_key(s[s.len() - 1]) == max_id(s));
        } else {
            assert(id_key(s[i]) == max_id(s));
        }
    } else if s.len() == 1 {
        assert(id_key(s[0]) == max_id(s));
    }
}

/// A key that some task has and that no task exceeds is `max_id`.
pub proof fn lemma_greatest_is_max_id(s: Seq<TodoView>, m: int)
    requires
        exists|i: int| 0 <= i < s.len() && id_key(#[trigger] s[i]) == m,
        forall|j: int| 0 <= j < s.len() ==> id_key(#[trigger] s[j]) <= m,
    ensures
        max_id(s) == m,
{
    lemma_max_id_is_greatest(s);
}

/// An added task gets the id one above the greatest in use (1 in an empty collection),
/// stands last, keeps its other fields, and its id is then the greatest.
pub proof fn law_add_assigns_next_id(s: Seq<TodoView>, t: TodoView)
    requires
        max_id(s) < i64::MAX,
    ensures
        added(s, t).len() == s.len() + 1,
        added(s, t).last() == with_id(t, max_id(s) + 1),
        added(s, t).last().id == Some((max_id(s) + 1) as i64),
        s.len() == 0 ==> added(s, t).last().id == Some(1i64),
        forall|j: int| 0 <= j < s.len() ==> added(s, t)[j] == s[j],
        max_id(added(s, t)) == max_id(s) + 1,
{
    lemma_max_id_is_greatest(s);
    let a = added(s, t);
    assert(a.drop_last() =~= s);
    assert(id_key(a.last()) == max_id(s) + 1);
}

/// No two tasks of the collection carry the same id.
pub open spec fn ids_distinct(s: Seq<TodoView>) -> bool {
    forall|i: int, j: int|
        0 <= i < s.len() && 0 <= j < s.len() && i != j && (#[trigger] s[i]).id is Some ==> s[i].id != (#[trigger] s[j]).id
}

/// The id that an add gives is the id of no task that was there, so ids that were
/// pairwise distinct stay so.
pub proof fn law_add_gives_a_fresh_id(s: Seq<TodoView>, t: TodoView)
    requires
        max_id(s) < i64::MAX,
    ensures
        !has_id(s, (max_id(s) + 1) as i64),
        ids_distinct(s) ==> ids_distinct(added(s, t)),
{
    lemma_max_id_is_greatest(s);
    let fresh = (max_id(s) + 1) as i64;
    assert forall|i: int| 0 <= i < s.len() implies (#[trigger] s[i]).id != Some(fresh) by {
        assert(id_key(s[i]) <= max_id(s));
    }
    if ids_distinct(s) {
        let a = added(s, t);
        assert forall|i: int, j: int|
            0 <= i < a.len() && 0 <= j < a.len() && i != j && (#[trigger] a[i]).id is Some implies a[i].id != (
            #[trigger] a[j]).id by {
            if i < s.len() {
                assert(a[i] == s[i]);
            }
            if j < s.len() {
                assert(a[j] == s[j]);
            }
        }
    }
}

/// Adds to an empty collection give the ids 1, 2, 3 and so on, in the order of the adds.
pub proof fn law_sequential_adds(ts: Seq<TodoView>)
    requires
        ts.len() < i64::MAX,
    ensures
        added_all(Seq::<TodoView>::empty(), ts).len() == ts.len(),
        max_id(added_all(Seq::<TodoView>::empty(), ts)) == ts.len(),
        forall|i: int|
            0 <= i < ts.len() ==> #[trigger] added_all(Seq::<TodoView>::empty(), ts)[i] == with_id(ts[i], i + 1),
    decreases ts.len(),
{
    if ts.len() > 0 {
        let before = added_all(Seq::<TodoView>::empty(), ts.drop_last());
        law_sequential_adds(ts.drop_last());
        law_add_assigns_next_id(before, ts.last());
        let all = added_all(Seq::<TodoView>::empty(), ts);
        assert forall|i: int| 0 <= i < ts.len() implies #[trigger] all[i] == with_id(ts[i], i + 1) by {
            if i < ts.len() - 1 {
                assert(all[i] == before[i]);
                assert(ts.drop_last()[i] == ts[i]);
            }
        }
    }
}

/// What a delete keeps is what was there before, in no case more.
pub proof fn lemma_deleted_members(s: Seq<TodoView>, id: i64)
    ensures
        forall|i: int|
            0 <= i < deleted(s, id).len() ==> s.contains(#[trigger] deleted(s, id)[i]) && deleted(s, id)[i].id
                != Some(id),
        forall|j: int| 0 <= j < s.len() && s[j].id != Some(id) ==> deleted(s, id).contains(#[trigger] s[j]),
    decreases s.len(),
{
    reveal(Seq::filter);
    let keep = |t: TodoView| t.id != Some(id);
    if s.len() > 0 {
        let rest = s.drop_last();
        lemma_deleted_members(rest, id);
        let d = deleted(s, id);
        let dr = deleted(rest, id);
        assert forall|i: int| 0 <= i < d.len() implies s.contains(#[trigger] d[i]) && d[i].id != Some(id) by {
            if i < dr.len() {
                assert(d[i] == dr[i]);
                let j = choose|j: int| 0 <= j < rest.len() && rest[j] == dr[i];
                assert(s[j] == d[i]);
            } else {
                assert(d[i] == s[s.len() - 1]);
            }
        }
        assert forall|j: int| 0 <= j < s.len() && s[j].id != Some(id) implies d.contains(#[trigger] s[j]) by {
            if j < rest.len() {
                assert(rest[j] == s[j]);
                let i = choose|i: int| 0 <= i < dr.len() && dr[i] == rest[j];
                assert(d[i] == s[j]);
            } else {
                assert(d[d.len() - 1] == s[j]);
            }
        }
    }
}

/// A delete frees an id for the next add only if it was the greatest: after deleting any
/// other id the next id is what it was.
pub proof fn law_delete_keeps_next_id(s: Seq<TodoView>, id: i64)
    requires
        id != max_id(s),
    ensures
        max_id(deleted(s, id)) + 1 == max_id(s) + 1,
{
    let d = deleted(s, id);
    lemma_deleted_members(s, id);
    lemma_max_id_is_greatest(s);
    if s.len() == 0 {
        s.lemma_filter_len(|t: TodoView| t.id != Some(id));
    } else {
        let i = choose|i: int| 0 <= i < s.len() && id_key(#[trigger] s[i]) == max_id(s);
        assert(s[i].id != Some(id));
        assert(d.contains(s[i]));
        let k = choose|k: int| 0 <= k < d.len() && d[k] == s[i];
        assert(id_key(d[k]) == max_id(s));
        assert forall|j: int| 0 <= j < d.len() implies id_key(#[trigger] d[j]) <= max_id(s) by {
            assert(s.contains(d[j]));
            let q = choose|q: int| 0 <= q < s.len() && s[q] == d[j];
            assert(id_key(s[q]) <= max_id(s));
        }
        lemma_greatest_is_max_id(d, max_id(s));
    }
}

/// Where the add after a delete gives the deleted id again, that id is above every id
/// that is left, and if a task had it, it was the greatest id when it was deleted.
pub proof fn law_reused_id_was_greatest(s: Seq<TodoView>, id: i64)
    requires
        max_id(deleted(s, id)) + 1 == id,
    ensures
        forall|j: int| 0 <= j < deleted(s, id).len() ==> id_key(#[trigger] deleted(s, id)[j]) < id,
        has_id(s, id) ==> max_id(s) == id,
{
    lemma_max_id_is_greatest(deleted(s, id));
    lemma_max_id_is_greatest(s);
    if has_id(s, id) && id != max_id(s) {
        law_delete_keeps_next_id(s, id);
        let i = choose|i: int| 0 <= i < s.len() && (#[trigger] s[i]).id == Some(id);
        assert(id_key(s[i]) <= max_id(s));
    }
}

/// Deleting an id that no task has changes nothing.
pub proof fn law_delete_absent_id(s: Seq<TodoView>, id: i64)
    requires
        !has_id(s, id),
    ensures
        deleted(s, id) == s,
    decreases s.len(),
{
    reveal(Seq::filter);
    if s.len() > 0 {
        let rest = s.drop_last();
        assert forall|j: int| 0 <= j < rest.len() implies (#[trigger] rest[j]).id != Some(id) by {
            assert(s[j] == rest[j]);
        }
        law_delete_absent_id(rest, id);
        assert(s[s.len() - 1].id != Some(id));
        assert(deleted(s, id) =~= rest.push(s.last()));
        assert(rest.push(s.last()) =~= s);
    } else {
        assert(deleted(s, id) =~= s);
    }
}

/// A second delete of the same id changes nothing more.
pub proof fn law_delete_twice(s: Seq<TodoView>, id: i64)
    ensures
        !has_id(deleted(s, id), id),
        deleted(deleted(s, id), id) == deleted(s, id),
{
    lemma_deleted_members(s, id);
    law_delete_absent_id(deleted(s, id), id);
}

/// An update puts the payload, under the target id, where the first task with that id
/// stood: nothing of the old task is left, a field that the payload lacks is absent
/// afterwards, and every other task stays where and what it was.
pub proof fn law_update_replaces(s: Seq<TodoView>, id: i64, t: TodoView)
    requires
        has_id(s, id),
    ensures
        updated(s, id, t).len() == s.len(),
        is_first_with_id(s, id, first_with_id(s, id)),
        updated(s, id, t)[first_with_id(s, id)] == with_id(t, id as int),
        updated(s, id, t)[first_with_id(s, id)].id == Some(id),
        updated(s, id, t)[first_with_id(s, id)].assignee == t.assignee,
        forall|j: int| 0 <= j < s.len() && j != first_with_id(s, id) ==> #[trigger] updated(s, id, t)[j] == s[j],
{
    lemma_first_exists(s, id);
}

/// Where some task has the id, one of them is the first.
pub proof fn lemma_first_exists(s: Seq<TodoView>, id: i64)
    requires
        has_id(s, id),
    ensures
        is_first_with_id(s, id, first_with_id(s, id)),
    decreases s.len(),
{
    let w = choose|i: int| 0 <= i < s.len() && (#[trigger] s[i]).id == Some(id);
    if exists|j: int| 0 <= j < w && (#[trigger] s[j]).id == Some(id) {
        let rest = s.take(w);
        let j = choose|j: int| 0 <= j < w && (#[trigger] s[j]).id == Some(id);
        assert(rest[j].id == Some(id));
        lemma_first_exists(rest, id);
        let f = first_with_id(rest, id);
        assert(s[f] == rest[f]);
        assert forall|q: int| 0 <= q < f implies (#[trigger] s[q]).id != Some(id) by {
            assert(rest[q] == s[q]);
        }
        assert(is_first_with_id(s, id, f));
    } else {
        assert(is_first_with_id(s, id, w));
    }
}

} // verus!
