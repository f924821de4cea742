use vstd::prelude::*;
use vstd::arithmetic::div_mod::lemma_fundamental_div_mod;
use crate::bind::bind_opt_text;
use crate::bind::bind_opt_u32;
use crate::bind::opt_text;
use crate::bind::opt_u32_int;
use crate::bind::BindValue;
use crate::board::Board;
use crate::contract::ModelQueryBuilder;
use crate::error::DbError;
use crate::priority::spec_code;
use crate::priority::Priority;
use crate::repo::BoardKey;
use crate::repo::Repo;
use crate::repo::StateKey;
use crate::state::State;

verus! {

/// A span of time, normalized to a minute count: under an hour it is a bare
/// minute value, otherwise an hours-and-minutes split.
#[derive(Debug, PartialEq, Eq, Structural, Clone, Copy)]
pub enum DurationInput {
    Minutes(u32),
    HoursAndMinutes(u32, u32),
}

/// The minute count a duration stands for.
pub open spec fn spec_value(d: DurationInput) -> int {
    match d {
        DurationInput::Minutes(v) => v as int,
        DurationInput::HoursAndMinutes(h, m) => h * 60 + m,
    }
}

/// The normal form of a minute count: bare minutes under an hour, otherwise
/// an hours-and-minutes split with the minute part under an hour.
pub open spec fn spec_from(value: u32) -> DurationInput {
    if value < 60 {
        DurationInput::Minutes(value)
    } else {
        DurationInput::HoursAndMinutes(value / 60, value % 60)
    }
}

impl DurationInput {
    /// The minute count this duration stands for.
    pub fn value(&self) -> (r: u32)
        requires
            spec_value(*self) <= u32::MAX,
        ensures
            r == spec_value(*self),
    {
        match self {
            DurationInput::Minutes(v) => *v,
            DurationInput::HoursAndMinutes(hours, minutes) => *hours * 60 + *minutes,
        }
    }

    /// Normalize a minute count.
    pub fn from(value: u32) -> (r: DurationInput)
        ensures
            r == spec_from(value),
            spec_value(r) == value,
    {
        proof {
            lemma_fundamental_div_mod(value as int, 60);
        }
        if value < 60 {
            DurationInput::Minutes(value)
        } else {
            DurationInput::HoursAndMinutes(value / 60, value % 60)
        }
    }
}

/// Round trip: normalizing a minute count and reading it back yields the
/// same count, for every count.
pub proof fn lemma_duration_round_trip(value: u32)
    ensures
        spec_value(spec_from(value)) == value,
{
    lemma_fundamental_div_mod(value as int, 60);
}

/// A unit of work: it sits in exactly one state, may be shown on a board,
/// and carries duration, priority, progress and write-once start and end
/// timestamps.
pub struct Task {
    /// Storage identity; absent until the first successful insert.
    pub id: Option<i64>,
    pub name: String,
    pub description: Option<String>,
    /// Duration in minutes.
    pub duration: u32,
    /// Completed share of the task in hundredths of the whole, if reported.
    pub progress: Option<u32>,
    pub priority: Priority,
    /// Reference to the state the task sits in; required.
    pub state: StateKey,
    /// Back-reference to the board the task appears on; optional and weak.
    pub board: Option<BoardKey>,
    /// Order within the task's state; advisory, not enforced by storage.
    pub position: u32,
    /// When work started; write-once.
    pub started_at: Option<String>,
    /// When work ended; write-once.
    pub ended_at: Option<String>,
}

/// A task with its start timestamp set, unless one was already set: a set
/// timestamp accepts no later value.
pub open spec fn spec_set_started(t: Task, v: String) -> Task {
    if t.started_at is Some {
        t
    } else {
        Task {
            id: t.id,
            name: t.name,
            description: t.description,
            duration: t.duration,
            progress: t.progress,
            priority: t.priority,
            state: t.state,
            board: t.board,
            position: t.position,
            started_at: Some(v),
            ended_at: t.ended_at,
        }
    }
}

/// A task with its end timestamp set, unless one was already set: a set
/// timestamp accepts no later value.
pub open spec fn spec_set_ended(t: Task, v: String) -> Task {
    if t.ended_at is Some {
        t
    } else {
        Task {
            id: t.id,
            name: t.name,
            description: t.description,
            duration: t.duration,
            progress: t.progress,
            priority: t.priority,
            state: t.state,
            board: t.board,
            position: t.position,
            started_at: t.started_at,
            ended_at: Some(v),
        }
    }
}

/// Setting the start timestamp is set-once: after one set, a second set with
/// any value changes nothing.
pub proof fn lemma_started_at_set_once(t: Task, first: String, second: String)
    ensures
        spec_set_started(spec_set_started(t, first), second) == spec_set_started(t, first),
{
}

/// Setting the end timestamp is set-once: after one set, a second set with
/// any value changes nothing.
pub proof fn lemma_ended_at_set_once(t: Task, first: String, second: String)
    ensures
        spec_set_ended(spec_set_ended(t, first), second) == spec_set_ended(t, first),
{
}

impl Task {
    /// The state the task sits in, if the reference resolves.
    pub open spec fn spec_state(self, repo: Repo) -> Option<State> {
        repo.states.spec_get(self.state)
    }

    /// The board the task appears on, if the back-reference resolves.
    pub open spec fn spec_board(self, repo: Repo) -> Option<Board> {
        match self.board {
            Some(k) => repo.boards.spec_get(k),
            None => None,
        }
    }

    /// Construct a transient task: no identity, no progress, no timestamps.
    pub fn new(
        name: String,
        description: Option<String>,
        duration: u32,
        priority: Priority,
        state: StateKey,
        board: Option<BoardKey>,
        position: u32,
    ) -> (t: Task)
        ensures
            t == (Task {
                id: None,
                name,
                description,
                duration,
                progress: None,
                priority,
                state,
                board,
                position,
                started_at: None,
                ended_at: None,
            }),
    {
        Task {
            id: None,
            name,
            description,
            duration,
            progress: None,
            priority,
            state,
            board,
            position,
            started_at: None,
            ended_at: None,
        }
    }

    /// The storage identifier, if the task has been persisted.
    pub fn get_id(&self) -> (r: Option<i64>)
        ensures
            r == self.id,
    {
        self.id
    }

    /// Set the storage identifier.
    pub fn set_id(&mut self, id: Option<i64>) -> (r: &mut Self)
        ensures
            *r == (Task { id, ..*old(self) }),
            *final(self) == *final(r),
    {
        self.id = id;
        self
    }

    /// The task's name.
    pub fn get_name(&self) -> (r: &String)
        ensures
            r == self.name,
    {
        &self.name
    }

    /// Rename the task.
    pub fn set_name(&mut self, name: String) -> (r: &mut Self)
        ensures
            *r == (Task { name, ..*old(self) }),
            *final(self) == *final(r),
    {
        self.name = name;
        self
    }

    /// The task's description, if any.
    pub fn get_description(&self) -> (r: &Option<String>)
        ensures
            r == self.description,
    {
        &self.description
    }

    /// Describe the task.
    pub fn set_description(&mut self, description: String) -> (r: &mut Self)
        ensures
            *r == (Task { description: Some(description), ..*old(self) }),
            *final(self) == *final(r),
    {
        self.description = Some(description);
        self
    }

    /// The task's duration in normal form.
    pub fn get_duration(&self) -> (r: DurationInput)
        ensures
            r == spec_from(self.duration),
            spec_value(r) == self.duration,
    {
        DurationInput::from(self.duration)
    }

    /// Set the task's duration; any input form is normalized to minutes.
    pub fn set_duration(&mut self, duration: DurationInput) -> (r: &mut Self)
        requires
            spec_value(duration) <= u32::MAX,
        ensures
            *r == (Task { duration: spec_value(duration) as u32, ..*old(self) }),
            *final(self) == *final(r),
    {
        self.duration = duration.value();
        self
    }

    /// The task's reported progress in hundredths of the whole, if any.
    pub fn get_progress(&self) -> (r: Option<u32>)
        ensures
            r == self.progress,
    {
        self.progress
    }

    /// Report or clear the task's progress, in hundredths of the whole.
    pub fn set_progress(&mut self, progress: Option<u32>) -> (r: &mut Self)
        ensures
            *r == (Task { progress, ..*old(self) }),
            *final(self) == *final(r),
    {
        self.progress = progress;
        self
    }

    /// The task's priority.
    pub fn get_priority(&self) -> (r: Priority)
        ensures
            r == self.priority,
    {
        match self.priority {
            Priority::High => Priority::High,
            Priority::Normal => Priority::Normal,
            Priority::Low => Priority::Low,
            Priority::Now => Priority::Now,
        }
    }

    /// Reprioritize the task.
    pub fn set_priority(&mut self, priority: Priority) -> (r: &mut Self)
        ensures
            *r == (Task { priority, ..*old(self) }),
            *final(self) == *final(r),
    {
        self.priority = priority;
        self
    }

    /// Resolve the reference to the task's state; a state that
    /// has been removed reports a missing parent rather than a stale value.
    pub fn get_state<'a>(&self, repo: &'a Repo) -> (r: Result<&'a State, DbError>)
        ensures
            match self.spec_state(*repo) {
                Some(s) => r matches Ok(rs) && *rs == s,
                None => r matches Err(e) && e == DbError::MissingParent,
            },
    {
        match repo.states.get(self.state) {
            Some(s) => Ok(s),
            None => Err(DbError::MissingParent),
        }
    }

    /// Move the task to another state.
    pub fn set_state(&mut self, state: StateKey) -> (r: &mut Self)
        ensures
            *r == (Task { state, ..*old(self) }),
            *final(self) == *final(r),
    {
        self.state = state;
        self
    }

    /// Resolve the back-reference to the task's board. A task
    /// without a board resolves to nothing; one whose board has been removed
    /// reports a missing parent rather than a stale value.
    pub fn get_board<'a>(&self, repo: &'a Repo) -> (r: Result<Option<&'a Board>, DbError>)
        ensures
            match self.board {
                None => r matches Ok(ob) && ob is None,
                Some(k) => match repo.boards.spec_get(k) {
                    Some(b) => r matches Ok(ob) && ob matches Some(rb) && *rb == b,
                    None => r matches Err(e) && e == DbError::MissingParent,
                },
            },
    {
        match self.board {
            None => Ok(None),
            Some(k) => match repo.boards.get(k) {
                Some(b) => Ok(Some(b)),
                None => Err(DbError::MissingParent),
            },
        }
    }

    /// Show the task on a board.
    pub fn set_board(&mut self, board: BoardKey) -> (r: &mut Self)
        ensures
            *r == (Task { board: Some(board), ..*old(self) }),
            *final(self) == *final(r),
    {
        self.board = Some(board);
        self
    }

    /// The task's position within its state.
    pub fn get_position(&self) -> (r: u32)
        ensures
            r == self.position,
    {
        self.position
    }

    /// Move the task to a new position within its state.
    pub fn set_position(&mut self, position: u32) -> (r: &mut Self)
        ensures
            *r == (Task { position, ..*old(self) }),
            *final(self) == *final(r),
    {
        self.position = position;
        self
    }

    /// When work on the task started, if recorded.
    pub fn get_started_at(&self) -> (r: &Option<String>)
        ensures
            r == self.started_at,
    {
        &self.started_at
    }

    /// Record when work started; a timestamp already recorded is kept and
    /// the new value is ignored.
    pub fn set_started_ed(&mut self, started_et: String) -> (r: &mut Self)
        ensures
            *r == spec_set_started(*old(self), started_et),
            *final(self) == *final(r),
    {
        if self.started_at.is_some() {
            return self;
        }
        self.started_at = Some(started_et);
        self
    }

    /// When work on the task ended, if recorded.
    pub fn get_ended_at(&self) -> (r: &Option<String>)
        ensures
            r == self.ended_at,
    {
        &self.ended_at
    }

    /// Record when work ended; a timestamp already recorded is kept and the
    /// new value is ignored.
    pub fn set_ended_ed(&mut self, ended_at: String) -> (r: &mut Self)
        ensures
            *r == spec_set_ended(*old(self), ended_at),
            *final(self) == *final(r),
    {
        if self.ended_at.is_some() {
            return self;
        }
        self.ended_at = Some(ended_at);
        self
    }
}

/// The resolved state and board identifiers a task binds as foreign keys,
/// or the missing parent that stops it: the task's state reference and
/// board back-reference must both resolve to persisted parents.
pub open spec fn spec_task_parent_ids(t: Task, repo: Repo) -> Result<(i64, i64), DbError> {
    match t.spec_state(repo) {
        None => Err(DbError::MissingParent),
        Some(s) => match s.id {
            None => Err(DbError::MissingParent),
            Some(state_id) => match t.spec_board(repo) {
                None => Err(DbError::MissingParent),
                Some(b) => match b.id {
                    None => Err(DbError::MissingParent),
                    Some(board_id) => Ok((state_id, board_id)),
                },
            },
        },
    }
}

impl Task {
    /// Resolve the state and board identifiers the task binds as foreign
    /// keys; both parents must be present and persisted.
    fn parent_ids(&self, repo: &Repo) -> (r: Result<(i64, i64), DbError>)
        ensures
            r == spec_task_parent_ids(*self, *repo),
    {
        let state_id: i64 = match self.get_state(repo) {
            Ok(s) => match s.id {
                Some(id) => id,
                None => {
                    return Err(DbError::MissingParent);
                },
            },
            Err(e) => {
                return Err(e);
            },
        };
        let board_id: i64 = match self.get_board(repo) {
            Ok(Some(b)) => match b.id {
                Some(id) => id,
                None => {
                    return Err(DbError::MissingParent);
                },
            },
            Ok(None) => {
                return Err(DbError::MissingParent);
            },
            Err(e) => {
                return Err(e);
            },
        };
        Ok((state_id, board_id))
    }
}

impl ModelQueryBuilder for Task {
    open spec fn spec_id(&self) -> Option<i64> {
        self.id
    }

    open spec fn spec_with_id(&self, id: i64) -> Task {
        Task { id: Some(id), ..*self }
    }

    open spec fn spec_insert_query(&self) -> Seq<char> {
        (
        "INSERT INTO tasks(name, description, duration, priority, state_id, board_id, position) VALUES (?1, ?2, ?3, ?4, ?5, ?6, ?7);"
        )@
    }

    open spec fn spec_update_query(&self) -> Seq<char> {
        (
        "UPDATE tasks SET name = ?1, description = ?2, duration = ?3, progress = ?4, priority = ?5, state_id = ?6, board_id = ?7, position = ?8, started_at = ?9, ended_at = ?10 WHERE id = ?11;"
        )@
    }

    open spec fn spec_delete_query(&self) -> Seq<char> {
        ("DELETE FROM tasks WHERE id = ?1;")@
    }

    open spec fn spec_insert_binds(&self, repo: &Repo) -> Result<Seq<BindValue>, DbError> {
        match spec_task_parent_ids(*self, *repo) {
            Err(e) => Err(e),
            Ok((state_id, board_id)) => Ok(
                seq![
                    BindValue::Text(self.name),
                    opt_text(self.description),
                    BindValue::Int(self.duration as i64),
                    BindValue::Int(spec_code(self.priority) as i64),
                    BindValue::Int(state_id),
                    BindValue::Int(board_id),
                    BindValue::Int(self.position as i64),
                ],
            ),
        }
    }

    open spec fn spec_update_binds(&self, repo: &Repo) -> Result<Seq<BindValue>, DbError> {
        match self.id {
            None => Err(DbError::NotPersisted),
            Some(id) => match spec_task_parent_ids(*self, *repo) {
                Err(e) => Err(e),
                Ok((state_id, board_id)) => Ok(
                    seq![
                        BindValue::Text(self.name),
                        opt_text(self.description),
                        BindValue::Int(self.duration as i64),
                        opt_u32_int(self.progress),
                        BindValue::Int(spec_code(self.priority) as i64),
                        BindValue::Int(state_id),
                        BindValue::Int(board_id),
                        BindValue::Int(self.position as i64),
                        opt_text(self.started_at),
                        opt_text(self.ended_at),
                        BindValue::Int(id),
                    ],
                ),
            },
        }
    }

    open spec fn spec_delete_binds(&self) -> Result<Seq<BindValue>, DbError> {
        match self.id {
            None => Err(DbError::NotPersisted),
            Some(id) => Ok(seq![BindValue::Int(id)]),
        }
    }

    fn insert_query(&self) -> &'static str {
        "INSERT INTO tasks(name, description, duration, priority, state_id, board_id, position) VALUES (?1, ?2, ?3, ?4, ?5, ?6, ?7);"
    }

    fn update_query(&self) -> &'static str {
        "UPDATE tasks SET name = ?1, description = ?2, duration = ?3, progress = ?4, priority = ?5, state_id = ?6, board_id = ?7, position = ?8, started_at = ?9, ended_at = ?10 WHERE id = ?11;"
    }

    fn delete_query(&self) -> &'static str {
        "DELETE FROM tasks WHERE id = ?1;"
    }

    fn insert_binds(&self, repo: &Repo) -> Result<Vec<BindValue>, DbError> {
        let (state_id, board_id) = match self.parent_ids(repo) {
            Ok(ids) => ids,
            Err(e) => {
                return Err(e);
            },
        };
        let minutes = self.get_duration().value();
        let code = self.get_priority().code();
        let mut binds: Vec<BindValue> = Vec::new();
        binds.push(BindValue::Text(self.name.clone()));
        binds.push(bind_opt_text(&self.description));
        binds.push(BindValue::Int(minutes as i64));
        binds.push(BindValue::Int(code as i64));
        binds.push(BindValue::Int(state_id));
        binds.push(BindValue::Int(board_id));
        binds.push(BindValue::Int(self.position as i64));
        Ok(binds)
    }

    fn update_binds(&self, repo: &Repo) -> Result<Vec<BindValue>, DbError> {
        let id = match self.id {
            Some(id) => id,
            None => {
                return Err(DbError::NotPersisted);
            },
        };
        let (state_id, board_id) = match self.parent_ids(repo) {
            Ok(ids) => ids,
            Err(e) => {
                return Err(e);
            },
        };
        let minutes = self.get_duration().value();
        let code = self.get_priority().code();
        let mut binds: Vec<BindValue> = Vec::new();
        binds.push(BindValue::Text(self.name.clone()));
        binds.push(bind_opt_text(&self.description));
        binds.push(BindValue::Int(minutes as i64));
        binds.push(bind_opt_u32(&self.progress));
        binds.push(BindValue::Int(code as i64));
        binds.push(BindValue::Int(state_id));
        binds.push(BindValue::Int(board_id));
        binds.push(BindValue::Int(self.position as i64));
        binds.push(bind_opt_text(&self.started_at));
        binds.push(bind_opt_text(&self.ended_at));
        binds.push(BindValue::Int(id));
        Ok(binds)
    }

    fn delete_binds(&self) -> Result<Vec<BindValue>, DbError> {
        let id = match self.id {
            Some(id) => id,
            None => {
                return Err(DbError::NotPersisted);
            },
        };
        let mut binds: Vec<BindValue> = Vec::new();
        binds.push(BindValue::Int(id));
        Ok(binds)
    }

    fn record_inserted_id(&mut self, id: i64) {
        self.id = Some(id);
    }

    proof fn lemma_with_id_sets_id(&self, id: i64) {
    }
}

} // verus!
