use vstd::prelude::*;
use crate::bind::bind_opt_int;
use crate::bind::bind_opt_text;
use crate::bind::opt_int;
use crate::bind::opt_text;
use crate::bind::BindValue;
use crate::board::Board;
use crate::contract::ModelQueryBuilder;
use crate::error::DbError;
use crate::repo::BoardKey;
use crate::repo::Repo;

verus! {

/// A column of a board (a workflow state); tasks sit in exactly one state.
/// A state may be transient and unattached, with no board back-reference.
pub struct State {
    /// Storage identity; absent until the first successful insert.
    pub id: Option<i64>,
    pub name: String,
    /// Label color of the state, if it has one.
    pub color: Option<String>,
    /// Sibling order within the board; advisory, not enforced by storage.
    pub position: u32,
    /// Back-reference to the owning board; never extends its lifetime.
    pub board: Option<BoardKey>,
}

impl State {
    /// The board this state belongs to, if the back-reference resolves.
    pub open spec fn spec_board(self, repo: Repo) -> Option<Board> {
        match self.board {
            Some(k) => repo.boards.spec_get(k),
            None => None,
        }
    }

    /// Construct a state.
    pub fn new(
        id: Option<i64>,
        name: String,
        color: Option<String>,
        board: Option<BoardKey>,
        position: u32,
    ) -> (s: State)
        ensures
            s == (State { id, name, color, position, board }),
    {
        State { id, name, color, position, board }
    }

    /// Set the storage identifier.
    pub fn set_id(&mut self, id: Option<i64>) -> (r: &mut State)
        ensures
            *r == (State {
                id,
                name: old(self).name,
                color: old(self).color,
                position: old(self).position,
                board: old(self).board,
            }),
            *final(self) == *final(r),
    {
        self.id = id;
        self
    }

    /// The storage identifier, if the state has been persisted.
    pub fn get_id(&self) -> (r: Option<i64>)
        ensures
            r == self.id,
    {
        self.id
    }

    /// The state's name.
    pub fn get_name(&self) -> (r: &String)
        ensures
            r == self.name,
    {
        &self.name
    }

    /// Rename the state.
    pub fn set_name(&mut self, name: String) -> (r: &mut State)
        ensures
            *r == (State {
                id: old(self).id,
                name,
                color: old(self).color,
                position: old(self).position,
                board: old(self).board,
            }),
            *final(self) == *final(r),
    {
        self.name = name;
        self
    }

    /// The state's label color, if any.
    pub fn get_color(&self) -> (r: &Option<String>)
        ensures
            r == self.color,
    {
        &self.color
    }

    /// Set or clear the state's label color.
    pub fn set_color(&mut self, color: Option<String>) -> (r: &mut State)
        ensures
            *r == (State {
                id: old(self).id,
                name: old(self).name,
                color,
                position: old(self).position,
                board: old(self).board,
            }),
            *final(self) == *final(r),
    {
        self.color = color;
        self
    }

    /// The state's position within its board.
    pub fn get_position(&self) -> (r: u32)
        ensures
            r == self.position,
    {
        self.position
    }

    /// Move the state to a new position within its board.
    pub fn set_position(&mut self, position: u32) -> (r: &mut State)
        ensures
            *r == (State {
                id: old(self).id,
                name: old(self).name,
                color: old(self).color,
                position,
                board: old(self).board,
            }),
            *final(self) == *final(r),
    {
        self.position = position;
        self
    }

    /// Resolve the back-reference to the owning board. An unattached state
    /// resolves to nothing; a state whose board has been removed reports a
    /// missing parent rather than a stale value.
    pub fn get_board<'a>(&self, repo: &'a Repo) -> (r: Result<Option<&'a Board>, DbError>)
        ensures
            match self.board {
                None => r matches Ok(ob) && ob is None,
                Some(k) => match repo.boards.spec_get(k) {
                    Some(b) => r matches Ok(ob) && ob matches Some(rb) && *rb == b,
                    None => r matches Err(e) && e == DbError::MissingParent,
                },
            },
    {
        match self.board {
            None => Ok(None),
            Some(k) => match repo.boards.get(k) {
                Some(b) => Ok(Some(b)),
                None => Err(DbError::MissingParent),
            },
        }
    }

    /// Attach the state to a board.
    pub fn set_board(&mut self, board: BoardKey) -> (r: &mut State)
        ensures
            *r == (State {
                id: old(self).id,
                name: old(self).name,
                color: old(self).color,
                position: old(self).position,
                board: Some(board),
            }),
            *final(self) == *final(r),
    {
        self.board = Some(board);
        self
    }
}

impl ModelQueryBuilder for State {
    open spec fn spec_id(&self) -> Option<i64> {
        self.id
    }

    open spec fn spec_with_id(&self, id: i64) -> State {
        State { id: Some(id), ..*self }
    }

    open spec fn spec_insert_query(&self) -> Seq<char> {
        ("INSERT INTO states(name, color, position, board_id) VALUES (?1, ?2, ?3, ?4);")@
    }

    open spec fn spec_update_query(&self) -> Seq<char> {
        ("UPDATE states SET name = ?1, color = ?2, position = ?3 WHERE id = ?4;")@
    }

    open spec fn spec_delete_query(&self) -> Seq<char> {
        ("DELETE FROM states WHERE id = ?1;")@
    }

    open spec fn spec_insert_binds(&self, repo: &Repo) -> Result<Seq<BindValue>, DbError> {
        match self.spec_board(*repo) {
            None => Err(DbError::MissingParent),
            Some(b) => Ok(
                seq![
                    BindValue::Text(self.name),
                    opt_text(self.color),
                    BindValue::Int(self.position as i64),
                    opt_int(b.id),
                ],
            ),
        }
    }

    open spec fn spec_update_binds(&self, repo: &Repo) -> Result<Seq<BindValue>, DbError> {
        match self.id {
            None => Err(DbError::NotPersisted),
            Some(id) => Ok(
                seq![
                    BindValue::Text(self.name),
                    opt_text(self.color),
                    BindValue::Int(self.position as i64),
                    BindValue::Int(id),
                ],
            ),
        }
    }

    open spec fn spec_delete_binds(&self) -> Result<Seq<BindValue>, DbError> {
        match self.id {
            None => Err(DbError::NotPersisted),
            Some(id) => Ok(seq![BindValue::Int(id)]),
        }
    }

    fn insert_query(&self) -> &'static str {
        "INSERT INTO states(name, color, position, board_id) VALUES (?1, ?2, ?3, ?4);"
    }

    fn update_query(&self) -> &'static str {
        "UPDATE states SET name = ?1, color = ?2, position = ?3 WHERE id = ?4;"
    }

    fn delete_query(&self) -> &'static str {
        "DELETE FROM states WHERE id = ?1;"
    }

    fn insert_binds(&self, repo: &Repo) -> Result<Vec<BindValue>, DbError> {
        let board_id: Option<i64> = match self.get_board(repo) {
            Ok(Some(b)) => b.id,
            Ok(None) => {
                return Err(DbError::MissingParent);
            },
            Err(e) => {
                return Err(e);
            },
        };
        let mut binds: Vec<BindValue> = Vec::new();
        binds.push(BindValue::Text(self.name.clone()));
        binds.push(bind_opt_text(&self.color));
        binds.push(BindValue::Int(self.position as i64));
        binds.push(bind_opt_int(&board_id));
        Ok(binds)
    }

    fn update_binds(&self, repo: &Repo) -> Result<Vec<BindValue>, DbError> {
        let id = match self.id {
            Some(id) => id,
            None => {
                return Err(DbError::NotPersisted);
            },
        };
        let mut binds: Vec<BindValue> = Vec::new();
        binds.push(BindValue::Text(self.name.clone()));
        binds.push(bind_opt_text(&self.color));
        binds.push(BindValue::Int(self.position as i64));
        binds.push(BindValue::Int(id));
        Ok(binds)
    }

    fn delete_binds(&self) -> Result<Vec<BindValue>, DbError> {
        let id = match self.id {
            Some(id) => id,
            None => {
                return Err(DbError::NotPersisted);
            },
        };
        let mut binds: Vec<BindValue> = Vec::new();
        binds.push(BindValue::Int(id));
        Ok(binds)
    }

    fn record_inserted_id(&mut self, id: i64) {
        self.id = Some(id);
    }

    proof fn lemma_with_id_sets_id(&self, id: i64) {
    }
}

} // verus!
