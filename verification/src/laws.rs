//! What holds of the operations taken together, and of the numbering of
//! tasks, proved over the model of the list.

use vstd::prelude::*;
use crate::model::{
    added, deleted, first_with_id, flipped, has_id, ids_distinct, ids_sequential,
    is_first_with_id, lemma_first_with_id, lemma_has_id_first, new_task, toggled,
};
use crate::task::TaskView;

verus! {

/// A status change touches one task only: the list keeps its length, the
/// first task numbered `id` has its flag negated and keeps its number and
/// description, and every other task stays as it was.
pub proof fn law_toggle_flips_one(s: Seq<TaskView>, id: int)
    requires
        has_id(s, id),
    ensures
        toggled(s, id).len() == s.len(),
        is_first_with_id(s, id, first_with_id(s, id)),
        toggled(s, id)[first_with_id(s, id)] == flipped(s[first_with_id(s, id)]),
        forall|j: int|
            0 <= j < s.len() && j != first_with_id(s, id) ==> toggled(s, id)[j] == s[j],
{
    lemma_has_id_first(s, id);
}

/// Changing the status of the same number twice gives the list back.
pub proof fn law_toggle_twice(s: Seq<TaskView>, id: int)
    ensures
        toggled(toggled(s, id), id) == s,
{
    if has_id(s, id) {
        lemma_has_id_first(s, id);
        lemma_first_with_id(toggled(s, id), id, first_with_id(s, id));
    }
}

/// A deletion takes one task out: the list is one shorter, the tasks before
/// the first one numbered `id` stay in place, and those after it move up by
/// one, each with its number, description and flag.
pub proof fn law_delete_removes_one(s: Seq<TaskView>, id: int)
    requires
        has_id(s, id),
    ensures
        deleted(s, id).len() == s.len() - 1,
        is_first_with_id(s, id, first_with_id(s, id)),
        forall|j: int| 0 <= j < first_with_id(s, id) ==> deleted(s, id)[j] == s[j],
        forall|j: int|
            first_with_id(s, id) <= j < s.len() - 1 ==> deleted(s, id)[j] == s[j + 1],
{
    lemma_has_id_first(s, id);
}

/// A number that no task bears changes nothing: neither a status change nor
/// a deletion alters the list.
pub proof fn law_absent_id_changes_nothing(s: Seq<TaskView>, id: int)
    requires
        !has_id(s, id),
    ensures
        toggled(s, id) == s,
        deleted(s, id) == s,
{
}

/// An addition makes the list one longer, leaves the tasks that were there
/// in place, and numbers the new task one past the former length.
pub proof fn law_add_extends(s: Seq<TaskView>, description: Seq<char>)
    ensures
        added(s, description).len() == s.len() + 1,
        added(s, description).last() == new_task(s, description),
        added(s, description).last().id == s.len() + 1,
        added(s, description).drop_last() == s,
{
}

/// A status change keeps the numbers of a list distinct.
pub proof fn law_toggle_keeps_ids_distinct(s: Seq<TaskView>, id: int)
    requires
        ids_distinct(s),
    ensures
        ids_distinct(toggled(s, id)),
{
    if has_id(s, id) {
        lemma_has_id_first(s, id);
    }
}

/// A deletion keeps the numbers of a list distinct, and in a list of
/// distinct numbers the deleted number is gone afterwards.
pub proof fn law_delete_keeps_ids_distinct(s: Seq<TaskView>, id: int)
    requires
        ids_distinct(s),
    ensures
        ids_distinct(deleted(s, id)),
        !has_id(deleted(s, id), id),
{
    if has_id(s, id) {
        lemma_has_id_first(s, id);
    }
}

/// A list numbered 1, 2, 3, ... has distinct numbers, and an addition keeps
/// it numbered so: a list that is only ever added to never repeats a number.
pub proof fn law_add_keeps_ids_sequential(s: Seq<TaskView>, description: Seq<char>)
    requires
        ids_sequential(s),
    ensures
        ids_distinct(s),
        ids_sequential(added(s, description)),
{
}

/// An addition keeps the numbers distinct exactly where no task already
/// bears the number one past the length. After a deletion there can be such
/// a task, and the new task then repeats its number.
pub proof fn law_add_repeats_taken_id(s: Seq<TaskView>, description: Seq<char>)
    requires
        ids_distinct(s),
    ensures
        ids_distinct(added(s, description)) <==> !has_id(s, s.len() as int + 1),
{
    let a = added(s, description);
    let n = s.len() as int;
    if has_id(s, n + 1) {
        let w = choose|i: int| 0 <= i < s.len() && (#[trigger] s[i]).id == n + 1;
        assert(a[w].id == n + 1);
        assert(a[n].id == n + 1);
    }
}

} // verus!
