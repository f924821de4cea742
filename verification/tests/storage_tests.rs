use my_board::bind::BindValue;
use my_board::contract::finish_insert;
use my_board::contract::finish_modify;
use my_board::error::DbError;
use my_board::repo::Repo;
use my_board::schema::table_queries;
use my_board::Board;
use my_board::DurationInput;
use my_board::Group;
use my_board::ModelQueryBuilder;
use my_board::Priority;
use my_board::State;
use my_board::Task;

fn open_db() -> rusqlite::Connection {
    let conn = rusqlite::Connection::open_in_memory().expect("in-memory database should open");
    for q in table_queries() {
        conn.execute(q, []).expect("table creation should succeed");
    }
    conn
}

fn to_sql_values(binds: &[BindValue]) -> Vec<rusqlite::types::Value> {
    binds
        .iter()
        .map(|b| match b {
            BindValue::Null => rusqlite::types::Value::Null,
            BindValue::Int(i) => rusqlite::types::Value::Integer(*i),
            BindValue::Text(s) => rusqlite::types::Value::Text(s.clone()),
        })
        .collect()
}

fn run(conn: &rusqlite::Connection, sql: &str, binds: &[BindValue]) -> Result<usize, String> {
    conn.execute(sql, rusqlite::params_from_iter(to_sql_values(binds)))
        .map_err(|e| e.to_string())
}

fn insert<M: ModelQueryBuilder>(
    conn: &rusqlite::Connection,
    repo: &Repo,
    model: &mut M,
) -> Result<bool, DbError> {
    let binds = model.insert_binds(repo)?;
    let executed = match run(conn, model.insert_query(), &binds) {
        Ok(_) => {
            let row_id = conn.last_insert_rowid();
            if row_id > 0 {
                Ok(row_id)
            } else {
                Err(String::from("no generated row identifier"))
            }
        }
        Err(e) => Err(e),
    };
    finish_insert(model, executed)
}

fn update<M: ModelQueryBuilder>(
    conn: &rusqlite::Connection,
    repo: &Repo,
    model: &M,
) -> Result<bool, DbError> {
    let binds = model.update_binds(repo)?;
    finish_modify(run(conn, model.update_query(), &binds))
}

fn delete<M: ModelQueryBuilder>(conn: &rusqlite::Connection, model: &M) -> Result<bool, DbError> {
    let binds = model.delete_binds()?;
    finish_modify(run(conn, model.delete_query(), &binds))
}

#[test]
fn test_schema_is_idempotent() {
    let conn = open_db();
    for q in table_queries() {
        conn.execute(q, []).expect("re-running table creation should succeed");
    }
}

#[test]
fn test_insert_assigns_positive_id() {
    let conn = open_db();
    let repo = Repo::new();
    let mut g = Group::new(String::from("Work"), None, 0);
    assert_eq!(None, g.get_id());
    assert_eq!(Ok(true), insert(&conn, &repo, &mut g));
    let id = g.get_id().expect("id should be assigned");
    assert!(id > 0);
}

#[test]
fn test_update_unknown_id_reports_not_found() {
    let conn = open_db();
    let repo = Repo::new();
    let mut g = Group::new(String::from("Work"), None, 0);
    g.set_id(Some(424242));
    assert_eq!(Ok(false), update(&conn, &repo, &g));
}

#[test]
fn test_delete_then_update_reports_not_found() {
    let conn = open_db();
    let repo = Repo::new();
    let mut g = Group::new(String::from("Work"), None, 0);
    assert_eq!(Ok(true), insert(&conn, &repo, &mut g));
    assert_eq!(Ok(true), delete(&conn, &g));
    assert_eq!(Ok(false), update(&conn, &repo, &g));
    assert_eq!(Ok(false), delete(&conn, &g));
    assert_eq!(Ok(false), delete(&conn, &g));
}

#[test]
fn test_inserted_group_row_matches_fields() {
    let conn = open_db();
    let repo = Repo::new();
    let mut g = Group::new(String::from("Work"), Some(String::from("w.png")), 3);
    assert_eq!(Ok(true), insert(&conn, &repo, &mut g));
    let id = g.get_id().expect("id should be assigned");
    let (name, icon, position): (String, Option<String>, u32) = conn
        .query_row(
            "SELECT name, icon, position FROM groups WHERE id = ?1;",
            [id],
            |row| Ok((row.get(0)?, row.get(1)?, row.get(2)?)),
        )
        .expect("inserted row should be readable");
    assert_eq!("Work", name);
    assert_eq!(Some(String::from("w.png")), icon);
    assert_eq!(3, position);
}

#[test]
fn test_update_rewrites_fields() {
    let conn = open_db();
    let repo = Repo::new();
    let mut g = Group::new(String::from("Work"), None, 0);
    assert_eq!(Ok(true), insert(&conn, &repo, &mut g));
    g.set_name(String::from("Deep Work")).set_position(5);
    assert_eq!(Ok(true), update(&conn, &repo, &g));
    let (name, position): (String, u32) = conn
        .query_row(
            "SELECT name, position FROM groups WHERE id = ?1;",
            [g.get_id().expect("id should be assigned")],
            |row| Ok((row.get(0)?, row.get(1)?)),
        )
        .expect("updated row should be readable");
    assert_eq!("Deep Work", name);
    assert_eq!(5, position);
}

#[test]
fn test_engine_failure_surfaces_as_storage_error() {
    let conn = open_db();
    let mut repo = Repo::new();
    // the group is present but unpersisted, so its key binds NULL into a
    // NOT NULL column and the engine rejects the row
    let gk = repo.groups.add(Group::new(String::from("Work"), None, 0));
    let mut b = Board::new(None, String::from("Sprint"), Some(gk), 0);
    match insert(&conn, &repo, &mut b) {
        Err(DbError::Storage(_)) => {}
        other => panic!("expected a storage error, got {:?}", other),
    }
    assert_eq!(None, b.get_id());
}

#[test]
fn test_inserted_task_row_matches_fields() {
    let conn = open_db();
    let mut repo = Repo::new();
    let mut group = Group::new(String::from("Work"), None, 0);
    assert_eq!(Ok(true), insert(&conn, &repo, &mut group));
    let gk = repo.groups.add(group);
    let mut board = Board::new(None, String::from("Sprint 1"), Some(gk), 0);
    assert_eq!(Ok(true), insert(&conn, &repo, &mut board));
    let board_id = board.get_id().expect("board id should be assigned");
    let bk = repo.boards.add(board);
    let mut state = State::new(None, String::from("Todo"), None, Some(bk), 0);
    assert_eq!(Ok(true), insert(&conn, &repo, &mut state));
    let state_id = state.get_id().expect("state id should be assigned");
    let sk = repo.states.add(state);
    let mut task = Task::new(
        String::from("Write it down"),
        None,
        75,
        Priority::High,
        sk,
        Some(bk),
        2,
    );
    assert_eq!(Ok(true), insert(&conn, &repo, &mut task));
    let row: (String, u32, i64, i64, i64, u32) = conn
        .query_row(
            "SELECT name, duration, priority, state_id, board_id, position FROM tasks WHERE id = ?1;",
            [task.get_id().expect("task id should be assigned")],
            |row| {
                Ok((
                    row.get(0)?,
                    row.get(1)?,
                    row.get(2)?,
                    row.get(3)?,
                    row.get(4)?,
                    row.get(5)?,
                ))
            },
        )
        .expect("inserted row should be readable");
    assert_eq!(
        (String::from("Write it down"), 75, 3, state_id, board_id, 2),
        row
    );
}

#[test]
fn test_full_scenario() {
    let conn = open_db();
    let mut repo = Repo::new();

    let mut group = Group::new(String::from("Work"), None, 0);
    assert_eq!(Ok(true), insert(&conn, &repo, &mut group));
    assert!(group.get_id().expect("group id should be assigned") > 0);
    let gk = repo.groups.add(group);

    let mut board = Board::new(None, String::from("Sprint 1"), Some(gk), 0);
    assert_eq!(
        "Work",
        board.get_group(&repo).expect("group back-reference should resolve").get_name()
    );
    assert_eq!(Ok(true), insert(&conn, &repo, &mut board));
    let bk = repo.boards.add(board);

    let mut state = State::new(None, String::from("Todo"), None, Some(bk), 0);
    assert_eq!(Ok(true), insert(&conn, &repo, &mut state));
    let sk = repo.states.add(state);

    let mut task = Task::new(
        String::from("Write spec"),
        None,
        DurationInput::HoursAndMinutes(1, 30).value(),
        Priority::Normal,
        sk,
        Some(bk),
        0,
    );
    assert_eq!(DurationInput::HoursAndMinutes(1, 30), task.get_duration());
    assert_eq!(Ok(true), insert(&conn, &repo, &mut task));

    task.set_progress(Some(50));
    assert_eq!(Ok(true), update(&conn, &repo, &task));

    let dead_state = repo.states.remove(sk).expect("state should be present");
    assert_eq!(Ok(true), delete(&conn, &dead_state));
    assert_eq!(Err(DbError::MissingParent), update(&conn, &repo, &task));
}
