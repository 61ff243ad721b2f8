//! The task list as a sequence of task views, and what each operation makes
//! of it.

use vstd::prelude::*;
use crate::decimal::decimal;
use crate::task::TaskView;

verus! {

/// Some task of `s` bears the number `id`.
pub open spec fn has_id(s: Seq<TaskView>, id: int) -> bool {
    exists|i: int| 0 <= i < s.len() && (#[trigger] s[i]).id == id
}

/// Position `i` holds the first task of `s` that bears the number `id`.
pub open spec fn is_first_with_id(s: Seq<TaskView>, id: int, i: int) -> bool {
    &&& 0 <= i < s.len()
    &&& s[i].id == id
    &&& forall|j: int| 0 <= j < i ==> (#[trigger] s[j]).id != id
}

/// The position of the first task of `s` that bears the number `id`.
/// Meaningful only where `has_id(s, id)`.
pub open spec fn first_with_id(s: Seq<TaskView>, id: int) -> int {
    choose|i: int| is_first_with_id(s, id, i)
}

/// The task that a new description becomes at the end of `s`: numbered one
/// past the current length, and pending.
pub open spec fn new_task(s: Seq<TaskView>, description: Seq<char>) -> TaskView {
    TaskView { id: s.len() as int + 1, description, done: false }
}

/// `s` with a new task for `description` at its end.
pub open spec fn added(s: Seq<TaskView>, description: Seq<char>) -> Seq<TaskView> {
    s.push(new_task(s, description))
}

/// `t` with its completion flag negated.
pub open spec fn flipped(t: TaskView) -> TaskView {
    TaskView { id: t.id, description: t.description, done: !t.done }
}

/// `s` with the first task numbered `id` flipped; `s` itself where no task
/// bears that number.
pub open spec fn toggled(s: Seq<TaskView>, id: int) -> Seq<TaskView> {
    if has_id(s, id) {
        let i = first_with_id(s, id);
        s.update(i, flipped(s[i]))
    } else {
        s
    }
}

/// `s` without the first task numbered `id`; `s` itself where no task bears
/// that number.
pub open spec fn deleted(s: Seq<TaskView>, id: int) -> Seq<TaskView> {
    if has_id(s, id) {
        s.remove(first_with_id(s, id))
    } else {
        s
    }
}

/// The word that stands for a completion flag in a listing.
pub open spec fn status_word(done: bool) -> Seq<char> {
    if done {
        "Completed"@
    } else {
        "Pending"@
    }
}

/// The line that shows one task: number, description and status, separated
/// by ` - `.
pub open spec fn line_of(t: TaskView) -> Seq<char> {
    decimal(t.id) + " - "@ + t.description + " - "@ + status_word(t.done)
}

/// The lines that show `s`: one per task, in order, or a single notice where
/// there is no task.
pub open spec fn listing(s: Seq<TaskView>) -> Seq<Seq<char>> {
    if s.len() == 0 {
        seq!["No tasks."@]
    } else {
        Seq::new(s.len(), |i: int| line_of(s[i]))
    }
}

/// No two tasks of `s` bear the same number.
pub open spec fn ids_distinct(s: Seq<TaskView>) -> bool {
    forall|i: int, j: int|
        0 <= i < j < s.len() ==> (#[trigger] s[i]).id != (#[trigger] s[j]).id
}

/// The tasks of `s` are numbered 1, 2, 3, ... in order: the state of a list
/// that has only ever been added to.
pub open spec fn ids_sequential(s: Seq<TaskView>) -> bool {
    forall|i: int| 0 <= i < s.len() ==> (#[trigger] s[i]).id == i + 1
}

/// A position that holds the first task numbered `id` is the one that
/// `first_with_id` names, and `has_id` holds.
pub proof fn lemma_first_with_id(s: Seq<TaskView>, id: int, i: int)
    requires
        is_first_with_id(s, id, i),
    ensures
        has_id(s, id),
        first_with_id(s, id) == i,
{
}

/// Where some task bears the number `id`, `first_with_id` names the first
/// such position.
pub proof fn lemma_has_id_first(s: Seq<TaskView>, id: int)
    requires
        has_id(s, id),
    ensures
        is_first_with_id(s, id, first_with_id(s, id)),
{
    let w = choose|i: int| 0 <= i < s.len() && (#[trigger] s[i]).id == id;
    lemma_least_with_id(s, id, w);
}

/// Below any position that bears `id` there is a first one.
proof fn lemma_least_with_id(s: Seq<TaskView>, id: int, w: int)
    requires
        0 <= w < s.len(),
        s[w].id == id,
    ensures
        exists|i: int| is_first_with_id(s, id, i),
    decreases w,
{
    if exists|j: int| 0 <= j < w && (#[trigger] s[j]).id == id {
        let j = choose|j: int| 0 <= j < w && (#[trigger] s[j]).id == id;
        lemma_least_with_id(s, id, j);
    } else {
        assert(is_first_with_id(s, id, w));
    }
}

} // verus!
