//! One request against the task list, carried out in full: the change to
//! the list, the lines to show, and whether the list has to be stored anew.

use vstd::prelude::*;
use vstd::string::StringExecFns;
use crate::decimal::{decimal, decimal_string};
use crate::model::{added, deleted, has_id, listing, toggled};
use crate::ops::{add_task, change_task_status, delete_task, list_tasks};
use crate::task::{Task, TaskView};

verus! {

/// A request: add a task, show the list, flip a task's status, or delete a
/// task.
#[derive(Debug, PartialEq, Eq)]
pub enum Command {
    Add { description: String },
    List,
    ChangeStatus { id: i32 },
    Delete { id: i32 },
}

/// A request as plain mathematics.
pub ghost enum CommandView {
    Add { description: Seq<char> },
    List,
    ChangeStatus { id: int },
    Delete { id: int },
}

impl View for Command {
    type V = CommandView;

    open spec fn view(&self) -> CommandView {
        match *self {
            Command::Add { description } => CommandView::Add { description: description@ },
            Command::List => CommandView::List,
            Command::ChangeStatus { id } => CommandView::ChangeStatus { id: id as int },
            Command::Delete { id } => CommandView::Delete { id: id as int },
        }
    }
}

impl Clone for Command {
    /// A copy of the same request.
    fn clone(&self) -> (copy: Command)
        ensures
            copy == *self,
    {
        match self {
            Command::Add { description } => Command::Add { description: description.clone() },
            Command::List => Command::List,
            Command::ChangeStatus { id } => Command::ChangeStatus { id: *id },
            Command::Delete { id } => Command::Delete { id: *id },
        }
    }
}

/// What carrying out a request leaves for the caller to do: the lines to
/// show, in order, and whether to write the list back to its store.
#[derive(Debug, PartialEq, Eq)]
pub struct Report {
    pub lines: Vec<String>,
    pub save: bool,
}

/// The list after a request.
pub open spec fn state_after(s: Seq<TaskView>, command: CommandView) -> Seq<TaskView> {
    match command {
        CommandView::Add { description } => added(s, description),
        CommandView::List => s,
        CommandView::ChangeStatus { id } => toggled(s, id),
        CommandView::Delete { id } => deleted(s, id),
    }
}

/// The lines that a request shows, given the list before it.
pub open spec fn lines_of(s: Seq<TaskView>, command: CommandView) -> Seq<Seq<char>> {
    match command {
        CommandView::Add { .. } => seq!["Task added"@],
        CommandView::List => listing(s),
        CommandView::ChangeStatus { id } => if has_id(s, id) {
            seq!["Task status changed"@]
        } else {
            seq!["Task not found"@]
        },
        CommandView::Delete { id } => if has_id(s, id) {
            seq!["Task "@ + decimal(id) + " deleted"@]
        } else {
            seq!["Task not found"@]
        },
    }
}

/// Whether a request has the list stored anew: every addition does, a
/// listing never, a status change or a deletion where it found its task.
pub open spec fn stores(s: Seq<TaskView>, command: CommandView) -> bool {
    match command {
        CommandView::Add { .. } => true,
        CommandView::List => false,
        CommandView::ChangeStatus { id } => has_id(s, id),
        CommandView::Delete { id } => has_id(s, id),
    }
}

/// A report of one line.
fn notice(line: String, save: bool) -> (report: Report)
    ensures
        report.lines.deep_view() == seq![line@],
        report.save == save,
{
    let mut lines: Vec<String> = Vec::new();
    lines.push(line);
    Report { lines, save }
}

/// Carries out one request on the list and reports what to show and whether
/// to store the list.
pub fn execute(tasks: &mut Vec<Task>, command: Command) -> (report: Report)
    requires
        command is Add ==> old(tasks).len() < i32::MAX,
    ensures
        final(tasks).deep_view() == state_after(old(tasks).deep_view(), command@),
        report.lines.deep_view() == lines_of(old(tasks).deep_view(), command@),
        report.save == stores(old(tasks).deep_view(), command@),
        !report.save ==> final(tasks)@ == old(tasks)@,
{
    match command {
        Command::Add { description } => {
            add_task(tasks, description);
            notice("Task added".to_owned(), true)
        },
        Command::List => Report { lines: list_tasks(tasks), save: false },
        Command::ChangeStatus { id } => {
            if change_task_status(tasks, id) {
                notice("Task status changed".to_owned(), true)
            } else {
                notice("Task not found".to_owned(), false)
            }
        },
        Command::Delete { id } => {
            if delete_task(tasks, id) {
                let mut line = "Task ".to_owned();
                line.append(decimal_string(id).as_str());
                line.append(" deleted");
                notice(line, true)
            } else {
                notice("Task not found".to_owned(), false)
            }
        },
    }
}

} // verus!
