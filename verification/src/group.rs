use vstd::prelude::*;
use crate::bind::bind_opt_text;
use crate::bind::opt_text;
use crate::bind::BindValue;
use crate::contract::ModelQueryBuilder;
use crate::error::DbError;
use crate::repo::BoardKey;
use crate::repo::Repo;
use crate::repo::TaskKey;

verus! {

/// A top-level grouping: it owns an ordered sequence of boards and a
/// cross-cutting ordered sequence of tasks, and sits at `position` among its
/// sibling groups.
pub struct Group {
    /// Storage identity; absent until the first successful insert.
    pub id: Option<i64>,
    pub name: String,
    /// Path of the group's icon, if it has one.
    pub icon: Option<String>,
    /// Sibling order among groups; advisory, not enforced by storage.
    pub position: u32,
    /// Keys of the boards this group owns, in order.
    pub boards: Vec<BoardKey>,
    /// Keys of the tasks gathered under this group, in order.
    pub tasks: Vec<TaskKey>,
}

impl Group {
    /// Construct a transient group: no identity, no children.
    pub fn new(name: String, icon: Option<String>, position: u32) -> (g: Group)
        ensures
            g.id is None,
            g.name == name,
            g.icon == icon,
            g.position == position,
            g.boards@ == Seq::<BoardKey>::empty(),
            g.tasks@ == Seq::<TaskKey>::empty(),
    {
        Group { id: None, name, icon, position, boards: Vec::new(), tasks: Vec::new() }
    }

    /// The storage identifier, if the group has been persisted.
    pub fn get_id(&self) -> (r: Option<i64>)
        ensures
            r == self.id,
    {
        self.id
    }

    /// Set the storage identifier.
    pub fn set_id(&mut self, id: Option<i64>) -> (r: &mut Self)
        ensures
            *r == (Group {
                id,
                name: old(self).name,
                icon: old(self).icon,
                position: old(self).position,
                boards: old(self).boards,
                tasks: old(self).tasks,
            }),
            *final(self) == *final(r),
    {
        self.id = id;
        self
    }

    /// The group's name.
    pub fn get_name(&self) -> (r: &String)
        ensures
            r == self.name,
    {
        &self.name
    }

    /// Rename the group.
    pub fn set_name(&mut self, name: String) -> (r: &mut Self)
        ensures
            *r == (Group {
                id: old(self).id,
                name,
                icon: old(self).icon,
                position: old(self).position,
                boards: old(self).boards,
                tasks: old(self).tasks,
            }),
            *final(self) == *final(r),
    {
        self.name = name;
        self
    }

    /// The group's icon path, if any.
    pub fn get_icon(&self) -> (r: Option<String>)
        ensures
            r == self.icon,
    {
        match &self.icon {
            Some(v) => Some(v.clone()),
            None => None,
        }
    }

    /// Set or clear the group's icon path.
    pub fn set_icon(&mut self, icon: Option<String>) -> (r: &mut Self)
        ensures
            *r == (Group {
                id: old(self).id,
                name: old(self).name,
                icon,
                position: old(self).position,
                boards: old(self).boards,
                tasks: old(self).tasks,
            }),
            *final(self) == *final(r),
    {
        self.icon = icon;
        self
    }

    /// The group's position among its siblings.
    pub fn get_position(&self) -> (r: u32)
        ensures
            r == self.position,
    {
        self.position
    }

    /// Move the group to a new sibling position.
    pub fn set_position(&mut self, position: u32) -> (r: &mut Self)
        ensures
            *r == (Group {
                id: old(self).id,
                name: old(self).name,
                icon: old(self).icon,
                position,
                boards: old(self).boards,
                tasks: old(self).tasks,
            }),
            *final(self) == *final(r),
    {
        self.position = position;
        self
    }

    /// The keys of the group's boards, in order.
    pub fn get_boards(&self) -> (r: &Vec<BoardKey>)
        ensures
            r == self.boards,
    {
        &self.boards
    }

    /// Replace the group's board list.
    pub fn set_boards(&mut self, boards: Vec<BoardKey>) -> (r: &mut Self)
        ensures
            *r == (Group {
                id: old(self).id,
                name: old(self).name,
                icon: old(self).icon,
                position: old(self).position,
                boards,
                tasks: old(self).tasks,
            }),
            *final(self) == *final(r),
    {
        self.boards = boards;
        self
    }

    /// Append a board key to the group's board list.
    pub fn add_board(&mut self, board: BoardKey) -> (r: &mut Self)
        ensures
            r.boards@ == old(self).boards@.push(board),
            r.id == old(self).id,
            r.name == old(self).name,
            r.icon == old(self).icon,
            r.position == old(self).position,
            r.tasks == old(self).tasks,
            *final(self) == *final(r),
    {
        self.boards.push(board);
        self
    }

    /// The keys of the group's tasks, in order.
    pub fn get_tasks(&self) -> (r: &Vec<TaskKey>)
        ensures
            r == self.tasks,
    {
        &self.tasks
    }

    /// Replace the group's task list.
    pub fn set_tasks(&mut self, tasks: Vec<TaskKey>) -> (r: &mut Self)
        ensures
            *r == (Group {
                id: old(self).id,
                name: old(self).name,
                icon: old(self).icon,
                position: old(self).position,
                boards: old(self).boards,
                tasks,
            }),
            *final(self) == *final(r),
    {
        self.tasks = tasks;
        self
    }

    /// Append a task key to the group's task list.
    pub fn add_task(&mut self, task: TaskKey) -> (r: &mut Self)
        ensures
            r.tasks@ == old(self).tasks@.push(task),
            r.id == old(self).id,
            r.name == old(self).name,
            r.icon == old(self).icon,
            r.position == old(self).position,
            r.boards == old(self).boards,
            *final(self) == *final(r),
    {
        self.tasks.push(task);
        self
    }
}

impl ModelQueryBuilder for Group {
    open spec fn spec_id(&self) -> Option<i64> {
        self.id
    }

    open spec fn spec_with_id(&self, id: i64) -> Group {
        Group { id: Some(id), ..*self }
    }

    open spec fn spec_insert_query(&self) -> Seq<char> {
        ("INSERT INTO groups(name, icon, position) VALUES (?1, ?2, ?3);")@
    }

    open spec fn spec_update_query(&self) -> Seq<char> {
        ("UPDATE groups SET name = ?1, icon = ?2, position = ?3 WHERE id = ?4;")@
    }

    open spec fn spec_delete_query(&self) -> Seq<char> {
        ("DELETE FROM groups WHERE id = ?1;")@
    }

    open spec fn spec_insert_binds(&self, repo: &Repo) -> Result<Seq<BindValue>, DbError> {
        Ok(
            seq![
                BindValue::Text(self.name),
                opt_text(self.icon),
                BindValue::Int(self.position as i64),
            ],
        )
    }

    open spec fn spec_update_binds(&self, repo: &Repo) -> Result<Seq<BindValue>, DbError> {
        match self.id {
            None => Err(DbError::NotPersisted),
            Some(id) => Ok(
                seq![
                    BindValue::Text(self.name),
                    opt_text(self.icon),
                    BindValue::Int(self.position as i64),
                    BindValue::Int(id),
                ],
            ),
        }
    }

    open spec fn spec_delete_binds(&self) -> Result<Seq<BindValue>, DbError> {
        match self.id {
            None => Err(DbError::NotPersisted),
            Some(id) => Ok(seq![BindValue::Int(id)]),
        }
    }

    fn insert_query(&self) -> &'static str {
        "INSERT INTO groups(name, icon, position) VALUES (?1, ?2, ?3);"
    }

    fn update_query(&self) -> &'static str {
        "UPDATE groups SET name = ?1, icon = ?2, position = ?3 WHERE id = ?4;"
    }

    fn delete_query(&self) -> &'static str {
        "DELETE FROM groups WHERE id = ?1;"
    }

    fn insert_binds(&self, repo: &Repo) -> Result<Vec<BindValue>, DbError> {
        let mut binds: Vec<BindValue> = Vec::new();
        binds.push(BindValue::Text(self.name.clone()));
        binds.push(bind_opt_text(&self.icon));
        binds.push(BindValue::Int(self.position as i64));
        Ok(binds)
    }

    fn update_binds(&self, repo: &Repo) -> Result<Vec<BindValue>, DbError> {
        let id = match self.id {
            Some(id) => id,
            None => {
                return Err(DbError::NotPersisted);
            },
        };
        let mut binds: Vec<BindValue> = Vec::new();
        binds.push(BindValue::Text(self.name.clone()));
        binds.push(bind_opt_text(&self.icon));
        binds.push(BindValue::Int(self.position as i64));
        binds.push(BindValue::Int(id));
        Ok(binds)
    }

    fn delete_binds(&self) -> Result<Vec<BindValue>, DbError> {
        let id = match self.id {
            Some(id) => id,
            None => {
                return Err(DbError::NotPersisted);
            },
        };
        let mut binds: Vec<BindValue> = Vec::new();
        binds.push(BindValue::Int(id));
        Ok(binds)
    }

    fn record_inserted_id(&mut self, id: i64) {
        self.id = Some(id);
    }

    proof fn lemma_with_id_sets_id(&self, id: i64) {
    }
}

} // verus!
