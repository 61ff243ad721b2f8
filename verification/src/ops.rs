//! The four operations on a task list.

use vstd::prelude::*;
use vstd::string::StringExecFns;
use crate::decimal::decimal_string;
use crate::model::{
    added, deleted, first_with_id, has_id, is_first_with_id, lemma_first_with_id, line_of,
    listing, toggled,
};
use crate::task::Task;

verus! {

/// Looks for the first task numbered `id`, from the front.
pub fn find_task(tasks: &Vec<Task>, id: i32) -> (at: Option<usize>)
    ensures
        match at {
            Some(i) => is_first_with_id(tasks.deep_view(), id as int, i as int),
            None => !has_id(tasks.deep_view(), id as int),
        },
{
    let mut i: usize = 0;
    while i < tasks.len()
        invariant
            i <= tasks.len(),
            forall|j: int| 0 <= j < i ==> (#[trigger] tasks.deep_view()[j]).id != id,
        decreases tasks.len() - i,
    {
        if tasks[i].id == id {
            return Some(i);
        }
        i += 1;
    }
    None
}

/// Appends a pending task for `description`, numbered one past the current
/// length of the list.
pub fn add_task(tasks: &mut Vec<Task>, description: String)
    requires
        old(tasks).len() < i32::MAX,
    ensures
        final(tasks).deep_view() == added(old(tasks).deep_view(), description@),
        final(tasks).len() == old(tasks).len() + 1,
        final(tasks)@.last().id == old(tasks).len() + 1,
        final(tasks)@.drop_last() == old(tasks)@,
{
    let id: i32 = (tasks.len() + 1) as i32;
    tasks.push(Task { id, description, done: false });
}

/// The line that shows one task.
fn task_line(task: &Task) -> (line: String)
    ensures
        line@ == line_of(task@),
{
    let mut line = decimal_string(task.id);
    line.append(" - ");
    line.append(task.description.as_str());
    line.append(" - ");
    if task.done {
        line.append("Completed");
    } else {
        line.append("Pending");
    }
    line
}

/// The lines that show the list: one per task, in order, or the notice
/// `No tasks.` for an empty list. The list itself is only read.
pub fn list_tasks(tasks: &Vec<Task>) -> (lines: Vec<String>)
    ensures
        lines.deep_view() == listing(tasks.deep_view()),
        lines.len() == listing(tasks.deep_view()).len(),
{
    let mut lines: Vec<String> = Vec::new();
    if tasks.len() == 0 {
        lines.push("No tasks.".to_owned());
        return lines;
    }
    let mut i: usize = 0;
    while i < tasks.len()
        invariant
            i <= tasks.len(),
            lines.len() == i,
            forall|j: int| 0 <= j < i ==> (#[trigger] lines@[j])@ == line_of(tasks@[j]@),
        decreases tasks.len() - i,
    {
        lines.push(task_line(&tasks[i]));
        i += 1;
    }
    lines
}

/// Negates the completion flag of the first task numbered `id` and says
/// whether there was one. Without such a task the list stays as it is.
pub fn change_task_status(tasks: &mut Vec<Task>, id: i32) -> (found: bool)
    ensures
        found == has_id(old(tasks).deep_view(), id as int),
        final(tasks).deep_view() == toggled(old(tasks).deep_view(), id as int),
        final(tasks).len() == old(tasks).len(),
        !found ==> final(tasks)@ == old(tasks)@,
        found ==> ({
            let i = first_with_id(old(tasks).deep_view(), id as int);
            &&& 0 <= i < old(tasks).len()
            &&& final(tasks)@[i].done == !old(tasks)@[i].done
            &&& final(tasks)@[i].id == old(tasks)@[i].id
            &&& final(tasks)@[i].description == old(tasks)@[i].description
            &&& forall|j: int|
                0 <= j < old(tasks).len() && j != i ==> final(tasks)@[j] == old(tasks)@[j]
        }),
{
    match find_task(tasks, id) {
        Some(i) => {
            proof {
                lemma_first_with_id(tasks.deep_view(), id as int, i as int);
            }
            let flag: bool = !tasks[i].done;
            tasks[i].done = flag;
            true
        },
        None => false,
    }
}

/// Removes the first task numbered `id` and says whether there was one. The
/// tasks that stay keep their numbers and their order. Without such a task
/// the list stays as it is.
pub fn delete_task(tasks: &mut Vec<Task>, id: i32) -> (found: bool)
    ensures
        found == has_id(old(tasks).deep_view(), id as int),
        final(tasks).deep_view() == deleted(old(tasks).deep_view(), id as int),
        !found ==> final(tasks)@ == old(tasks)@,
        found ==> ({
            let i = first_with_id(old(tasks).deep_view(), id as int);
            &&& 0 <= i < old(tasks).len()
            &&& final(tasks)@ == old(tasks)@.remove(i)
            &&& final(tasks).len() == old(tasks).len() - 1
        }),
{
    match find_task(tasks, id) {
        Some(i) => {
            proof {
                lemma_first_with_id(tasks.deep_view(), id as int, i as int);
            }
            tasks.remove(i);
            true
        },
        None => false,
    }
}

} // verus!
