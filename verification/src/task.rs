use vstd::prelude::*;

verus! {

/// One entry of the task list.
#[derive(Debug, PartialEq, Eq)]
pub struct Task {
    pub id: i32,
    pub description: String,
    pub done: bool,
}

/// What a task is, as plain mathematics: its number, its text, its flag.
pub ghost struct TaskView {
    pub id: int,
    pub description: Seq<char>,
    pub done: bool,
}

impl View for Task {
    type V = TaskView;

    open spec fn view(&self) -> TaskView {
        TaskView { id: self.id as int, description: self.description@, done: self.done }
    }
}

impl Clone for Task {
    /// A copy with the same number, description and flag.
    fn clone(&self) -> (copy: Task)
        ensures
            copy == *self,
    {
        Task { id: self.id, description: self.description.clone(), done: self.done }
    }
}

impl DeepView for Task {
    type V = TaskView;

    open spec fn deep_view(&self) -> TaskView {
        self@
    }
}

} // verus!
