use vstd::prelude::*;

use crate::models::Todo;
use crate::rules::{listed, Reply};
use crate::table::{after_delete, after_toggle, contains_id, holds_id, index_of, rows_wf, toggle_row};

verus! {

/// Each create that succeeds adds its row to the end of the table: after the
/// creates that returned `created`, in order, listing from `start` gives
/// `start` followed by `created`, so `created.len()` more rows than before.
pub proof fn lemma_creates_add_rows(
    start: Seq<Todo>,
    states: Seq<Seq<Todo>>,
    created: Seq<Todo>,
)
    requires
        states.len() == created.len() + 1,
        states[0] == start,
        forall|k: int| 0 <= k < created.len() ==> #[trigger] states[k + 1] == states[k].push(
            created[k],
        ),
    ensures
        states.last() == start + created,
        states.last().len() == start.len() + created.len(),
    decreases created.len(),
{
    if created.len() > 0 {
        let n = created.len() - 1;
        lemma_creates_add_rows(start, states.drop_last(), created.drop_last());
        assert(states[n + 1] == states[n].push(created[n]));
        assert(start + created =~= (start + created.drop_last()).push(created[n]));
    } else {
        assert(start + created =~= start);
    }
}

/// Toggling the same public identifier twice leaves the rows as they were.
pub proof fn lemma_toggle_twice(rows: Seq<Todo>, public_id: Seq<char>)
    requires
        rows_wf(rows),
    ensures
        after_toggle(after_toggle(rows, public_id), public_id) == rows,
{
    let once = after_toggle(rows, public_id);
    let twice = after_toggle(once, public_id);
    assert forall|k: int| 0 <= k < rows.len() implies #[trigger] twice[k] == rows[k] by {
        assert(rows[k].wf());
        if rows[k].public_id@ == public_id {
            assert(once[k] == toggle_row(rows[k]));
        }
    }
    assert(twice =~= rows);
}

/// A delete removes exactly the row with the given public identifier: no
/// row has it afterwards, so a second delete finds nothing, and every other
/// row stays.
pub proof fn lemma_delete_removes_one(rows: Seq<Todo>, public_id: Seq<char>)
    requires
        rows_wf(rows),
    ensures
        !contains_id(after_delete(rows, public_id), public_id),
        after_delete(rows, public_id).len() == if contains_id(rows, public_id) {
            rows.len() - 1
        } else {
            rows.len() as int
        },
        forall|k: int|
            0 <= k < rows.len() && rows[k].public_id@ != public_id ==> after_delete(
                rows,
                public_id,
            ).contains(#[trigger] rows[k]),
        forall|t: Todo| #[trigger]
            after_delete(rows, public_id).contains(t) ==> rows.contains(t) && t.public_id@
                != public_id,
{
    let after = after_delete(rows, public_id);
    if contains_id(rows, public_id) {
        let i = index_of(rows, public_id);
        assert(holds_id(rows, public_id, i));
        assert forall|k: int| 0 <= k < rows.len() && rows[k].public_id@ != public_id implies after.contains(
            #[trigger] rows[k],
        ) by {
            if k < i {
                assert(after[k] == rows[k]);
            } else {
                assert(after[k - 1] == rows[k]);
            }
        }
        assert forall|t: Todo| #[trigger] after.contains(t) implies rows.contains(t)
            && t.public_id@ != public_id by {
            let m = choose|m: int| 0 <= m < after.len() && after[m] == t;
            if m < i {
                assert(rows[m] == t);
            } else {
                assert(rows[m + 1] == t);
            }
        }
        assert(!contains_id(after, public_id)) by {
            if contains_id(after, public_id) {
                let m = choose|m: int| holds_id(after, public_id, m);
                if m < i {
                    assert(rows[m] == after[m]);
                } else {
                    assert(rows[m + 1] == after[m]);
                }
            }
        }
    } else {
        assert forall|t: Todo| #[trigger] after.contains(t) implies rows.contains(t)
            && t.public_id@ != public_id by {
            let m = choose|m: int| 0 <= m < after.len() && after[m] == t;
            assert(!holds_id(rows, public_id, m));
        }
        assert forall|k: int| 0 <= k < rows.len() && rows[k].public_id@ != public_id implies after.contains(
            #[trigger] rows[k],
        ) by {
            assert(after[k] == rows[k]);
        }
    }
}

/// A listing of a cleared table, whose rows are none, carries no rows.
pub proof fn lemma_list_after_clear(r: Reply)
    requires
        listed(r, Seq::<Todo>::empty()),
    ensures
        r matches Reply::Listed { data } && data@.len() == 0,
{
}

} // verus!
