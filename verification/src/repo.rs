use vstd::prelude::*;
use crate::arena::Arena;
use crate::board::Board;
use crate::group::Group;
use crate::state::State;
use crate::task::Task;

verus! {

/// Key of a group in its arena.
pub type GroupKey = usize;

/// Key of a board in its arena.
pub type BoardKey = usize;

/// Key of a state in its arena.
pub type StateKey = usize;

/// Key of a task in its arena.
pub type TaskKey = usize;

/// The in-memory object graph: one arena per entity type.
///
/// Entities refer to their parents by key into the parent's arena, so a
/// parent that was removed is seen by its children as a plain lookup miss.
pub struct Repo {
    pub groups: Arena<Group>,
    pub boards: Arena<Board>,
    pub states: Arena<State>,
    pub tasks: Arena<Task>,
}

impl Repo {
    /// An empty object graph.
    pub fn new() -> (r: Repo)
        ensures
            r.groups.slots() == Seq::<Option<Group>>::empty(),
            r.boards.slots() == Seq::<Option<Board>>::empty(),
            r.states.slots() == Seq::<Option<State>>::empty(),
            r.tasks.slots() == Seq::<Option<Task>>::empty(),
    {
        Repo { groups: Arena::new(), boards: Arena::new(), states: Arena::new(), tasks: Arena::new() }
    }
}

} // verus!
