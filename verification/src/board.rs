use vstd::prelude::*;
use crate::bind::bind_opt_int;
use crate::bind::opt_int;
use crate::bind::BindValue;
use crate::contract::ModelQueryBuilder;
use crate::error::DbError;
use crate::group::Group;
use crate::repo::GroupKey;
use crate::repo::Repo;
use crate::repo::StateKey;
use crate::repo::TaskKey;

verus! {

/// A board inside a group: it owns an ordered sequence of states, references
/// a sequence of tasks, and sits at `position` among its siblings.
pub struct Board {
    /// Storage identity; absent until the first successful insert.
    pub id: Option<i64>,
    pub name: String,
    /// Keys of the states this board owns, in order.
    pub states: Vec<StateKey>,
    /// Keys of the tasks shown on this board, in order.
    pub tasks: Vec<TaskKey>,
    /// Sibling order within the group; advisory, not enforced by storage.
    pub position: u32,
    /// Back-reference to the owning group; never extends its lifetime.
    pub group: Option<GroupKey>,
}

impl Board {
    /// The group this board belongs to, if the back-reference resolves.
    pub open spec fn spec_group(self, repo: Repo) -> Option<Group> {
        match self.group {
            Some(k) => repo.groups.spec_get(k),
            None => None,
        }
    }

    /// Construct a board: no children yet.
    pub fn new(id: Option<i64>, name: String, group: Option<GroupKey>, position: u32) -> (b: Board)
        ensures
            b.id == id,
            b.name == name,
            b.states@ == Seq::<StateKey>::empty(),
            b.tasks@ == Seq::<TaskKey>::empty(),
            b.position == position,
            b.group == group,
    {
        Board { id, name, states: Vec::new(), tasks: Vec::new(), position, group }
    }

    /// The storage identifier, if the board has been persisted.
    pub fn get_id(&self) -> (r: Option<i64>)
        ensures
            r == self.id,
    {
        self.id
    }

    /// Set the storage identifier.
    pub fn set_id(&mut self, id: Option<i64>) -> (r: &mut Board)
        ensures
            *r == (Board {
                id,
                name: old(self).name,
                states: old(self).states,
                tasks: old(self).tasks,
                position: old(self).position,
                group: old(self).group,
            }),
            *final(self) == *final(r),
    {
        self.id = id;
        self
    }

    /// The board's name.
    pub fn get_name(&self) -> (r: &String)
        ensures
            r == self.name,
    {
        &self.name
    }

    /// Rename the board.
    pub fn set_name(&mut self, name: String) -> (r: &mut Board)
        ensures
            *r == (Board {
                id: old(self).id,
                name,
                states: old(self).states,
                tasks: old(self).tasks,
                position: old(self).position,
                group: old(self).group,
            }),
            *final(self) == *final(r),
    {
        self.name = name;
        self
    }

    /// The keys of the board's states, in order.
    pub fn get_states(&self) -> (r: &Vec<StateKey>)
        ensures
            r == self.states,
    {
        &self.states
    }

    /// Replace the board's state list.
    pub fn set_states(&mut self, states: Vec<StateKey>) -> (r: &mut Board)
        ensures
            *r == (Board {
                id: old(self).id,
                name: old(self).name,
                states,
                tasks: old(self).tasks,
                position: old(self).position,
                group: old(self).group,
            }),
            *final(self) == *final(r),
    {
        self.states = states;
        self
    }

    /// Append a state key to the board's state list.
    pub fn add_new_state(&mut self, state: StateKey) -> (r: &mut Board)
        ensures
            r.states@ == old(self).states@.push(state),
            r.id == old(self).id,
            r.name == old(self).name,
            r.tasks == old(self).tasks,
            r.position == old(self).position,
            r.group == old(self).group,
            *final(self) == *final(r),
    {
        self.states.push(state);
        self
    }

    /// The keys of the board's tasks, in order.
    pub fn get_tasks(&self) -> (r: &Vec<TaskKey>)
        ensures
            r == self.tasks,
    {
        &self.tasks
    }

    /// Replace the board's task list.
    pub fn set_tasks(&mut self, tasks: Vec<TaskKey>) -> (r: &mut Board)
        ensures
            *r == (Board {
                id: old(self).id,
                name: old(self).name,
                states: old(self).states,
                tasks,
                position: old(self).position,
                group: old(self).group,
            }),
            *final(self) == *final(r),
    {
        self.tasks = tasks;
        self
    }

    /// Append a task key to the board's task list.
    pub fn add_task(&mut self, task: TaskKey) -> (r: &mut Board)
        ensures
            r.tasks@ == old(self).tasks@.push(task),
            r.id == old(self).id,
            r.name == old(self).name,
            r.states == old(self).states,
            r.position == old(self).position,
            r.group == old(self).group,
            *final(self) == *final(r),
    {
        self.tasks.push(task);
        self
    }

    /// The board's position among its siblings.
    pub fn get_position(&self) -> (r: u32)
        ensures
            r == self.position,
    {
        self.position
    }

    /// Move the board to a new sibling position.
    pub fn set_position(&mut self, position: u32) -> (r: &mut Board)
        ensures
            *r == (Board {
                id: old(self).id,
                name: old(self).name,
                states: old(self).states,
                tasks: old(self).tasks,
                position,
                group: old(self).group,
            }),
            *final(self) == *final(r),
    {
        self.position = position;
        self
    }

    /// Resolve the back-reference to the owning group; a board without a
    /// group, or whose group has been removed, reports a missing parent
    /// rather than a stale value.
    pub fn get_group<'a>(&self, repo: &'a Repo) -> (r: Result<&'a Group, DbError>)
        ensures
            match self.spec_group(*repo) {
                Some(g) => r matches Ok(rg) && *rg == g,
                None => r matches Err(e) && e == DbError::MissingParent,
            },
    {
        match self.group {
            Some(k) => match repo.groups.get(k) {
                Some(g) => Ok(g),
                None => Err(DbError::MissingParent),
            },
            None => Err(DbError::MissingParent),
        }
    }

    /// Re-point the board at another group.
    pub fn set_group(&mut self, group: Option<GroupKey>) -> (r: &mut Board)
        ensures
            *r == (Board {
                id: old(self).id,
                name: old(self).name,
                states: old(self).states,
                tasks: old(self).tasks,
                position: old(self).position,
                group,
            }),
            *final(self) == *final(r),
    {
        self.group = group;
        self
    }
}

impl ModelQueryBuilder for Board {
    open spec fn spec_id(&self) -> Option<i64> {
        self.id
    }

    open spec fn spec_with_id(&self, id: i64) -> Board {
        Board { id: Some(id), ..*self }
    }

    open spec fn spec_insert_query(&self) -> Seq<char> {
        ("INSERT INTO boards(name, position, group_id) VALUES (?1, ?2, ?3);")@
    }

    open spec fn spec_update_query(&self) -> Seq<char> {
        ("UPDATE boards SET name = ?1, position = ?2, group_id = ?3 WHERE id = ?4;")@
    }

    open spec fn spec_delete_query(&self) -> Seq<char> {
        ("DELETE FROM boards WHERE id = ?1;")@
    }

    open spec fn spec_insert_binds(&self, repo: &Repo) -> Result<Seq<BindValue>, DbError> {
        match self.spec_group(*repo) {
            None => Err(DbError::MissingParent),
            Some(g) => Ok(
                seq![
                    BindValue::Text(self.name),
                    BindValue::Int(self.position as i64),
                    opt_int(g.id),
                ],
            ),
        }
    }

    open spec fn spec_update_binds(&self, repo: &Repo) -> Result<Seq<BindValue>, DbError> {
        match self.spec_group(*repo) {
            None => Err(DbError::MissingParent),
            Some(g) => match self.id {
                None => Err(DbError::NotPersisted),
                Some(id) => Ok(
                    seq![
                        BindValue::Text(self.name),
                        BindValue::Int(self.position as i64),
                        opt_int(g.id),
                        BindValue::Int(id),
                    ],
                ),
            },
        }
    }

    open spec fn spec_delete_binds(&self) -> Result<Seq<BindValue>, DbError> {
        match self.id {
            None => Err(DbError::NotPersisted),
            Some(id) => Ok(seq![BindValue::Int(id)]),
        }
    }

    fn insert_query(&self) -> &'static str {
        "INSERT INTO boards(name, position, group_id) VALUES (?1, ?2, ?3);"
    }

    fn update_query(&self) -> &'static str {
        "UPDATE boards SET name = ?1, position = ?2, group_id = ?3 WHERE id = ?4;"
    }

    fn delete_query(&self) -> &'static str {
        "DELETE FROM boards WHERE id = ?1;"
    }

    fn insert_binds(&self, repo: &Repo) -> Result<Vec<BindValue>, DbError> {
        let group_id: Option<i64> = match self.get_group(repo) {
            Ok(g) => g.id,
            Err(e) => {
                return Err(e);
            },
        };
        let mut binds: Vec<BindValue> = Vec::new();
        binds.push(BindValue::Text(self.name.clone()));
        binds.push(BindValue::Int(self.position as i64));
        binds.push(bind_opt_int(&group_id));
        Ok(binds)
    }

    fn update_binds(&self, repo: &Repo) -> Result<Vec<BindValue>, DbError> {
        let group_id: Option<i64> = match self.get_group(repo) {
            Ok(g) => g.id,
            Err(e) => {
                return Err(e);
            },
        };
        let id = match self.id {
            Some(id) => id,
            None => {
                return Err(DbError::NotPersisted);
            },
        };
        let mut binds: Vec<BindValue> = Vec::new();
        binds.push(BindValue::Text(self.name.clone()));
        binds.push(BindValue::Int(self.position as i64));
        binds.push(bind_opt_int(&group_id));
        binds.push(BindValue::Int(id));
        Ok(binds)
    }

    fn delete_binds(&self) -> Result<Vec<BindValue>, DbError> {
        let id = match self.id {
            Some(id) => id,
            None => {
                return Err(DbError::NotPersisted);
            },
        };
        let mut binds: Vec<BindValue> = Vec::new();
        binds.push(BindValue::Int(id));
        Ok(binds)
    }

    fn record_inserted_id(&mut self, id: i64) {
        self.id = Some(id);
    }

    proof fn lemma_with_id_sets_id(&self, id: i64) {
    }
}

} // verus!
