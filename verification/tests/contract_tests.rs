use my_board::bind::BindValue;
use my_board::error::DbError;
use my_board::repo::Repo;
use my_board::Board;
use my_board::Group;
use my_board::ModelQueryBuilder;
use my_board::Priority;
use my_board::State;
use my_board::Task;

#[test]
fn test_group_query_texts() {
    let g = Group::new(String::from("g"), None, 0);
    assert_eq!("INSERT INTO groups(name, icon, position) VALUES (?1, ?2, ?3);", g.insert_query());
    assert_eq!(
        "UPDATE groups SET name = ?1, icon = ?2, position = ?3 WHERE id = ?4;",
        g.update_query()
    );
    assert_eq!("DELETE FROM groups WHERE id = ?1;", g.delete_query());
}

#[test]
fn test_task_query_texts_target_tasks_table() {
    let t = Task::new(String::from("t"), None, 5, Priority::Low, 0, None, 0);
    assert!(t.insert_query().starts_with("INSERT INTO tasks("));
    assert!(t.update_query().starts_with("UPDATE tasks SET"));
    assert_eq!("DELETE FROM tasks WHERE id = ?1;", t.delete_query());
}

#[test]
fn test_state_query_texts_are_well_formed() {
    let s = State::new(None, String::from("s"), None, None, 0);
    assert_eq!(
        "INSERT INTO states(name, color, position, board_id) VALUES (?1, ?2, ?3, ?4);",
        s.insert_query()
    );
    assert_eq!("DELETE FROM states WHERE id = ?1;", s.delete_query());
}

#[test]
fn test_group_insert_binds_values() {
    let repo = Repo::new();
    let g = Group::new(String::from("Work"), Some(String::from("w.png")), 3);
    let binds = g.insert_binds(&repo).expect("insert binds should build");
    assert_eq!(
        vec![
            BindValue::Text(String::from("Work")),
            BindValue::Text(String::from("w.png")),
            BindValue::Int(3),
        ],
        binds
    );
}

#[test]
fn test_group_insert_binds_null_icon() {
    let repo = Repo::new();
    let g = Group::new(String::from("Work"), None, 0);
    let binds = g.insert_binds(&repo).expect("insert binds should build");
    assert_eq!(BindValue::Null, binds[1]);
}

#[test]
fn test_group_update_binds_require_id() {
    let repo = Repo::new();
    let mut g = Group::new(String::from("Work"), None, 0);
    assert_eq!(Err(DbError::NotPersisted), g.update_binds(&repo));
    assert_eq!(Err(DbError::NotPersisted), g.delete_binds());
    g.set_id(Some(12));
    let binds = g.update_binds(&repo).expect("update binds should build");
    assert_eq!(BindValue::Int(12), binds[3]);
    let del = g.delete_binds().expect("delete binds should build");
    assert_eq!(vec![BindValue::Int(12)], del);
}

#[test]
fn test_board_insert_binds_resolve_group() {
    let mut repo = Repo::new();
    let mut parent = Group::new(String::from("Work"), None, 0);
    parent.set_id(Some(7));
    let gk = repo.groups.add(parent);
    let b = Board::new(None, String::from("Sprint"), Some(gk), 1);
    let binds = b.insert_binds(&repo).expect("insert binds should build");
    assert_eq!(
        vec![
            BindValue::Text(String::from("Sprint")),
            BindValue::Int(1),
            BindValue::Int(7),
        ],
        binds
    );
}

#[test]
fn test_board_insert_binds_missing_group() {
    let repo = Repo::new();
    let b = Board::new(None, String::from("Sprint"), None, 0);
    assert_eq!(Err(DbError::MissingParent), b.insert_binds(&repo));
    let b2 = Board::new(None, String::from("Sprint"), Some(42), 0);
    assert_eq!(Err(DbError::MissingParent), b2.insert_binds(&repo));
}

#[test]
fn test_board_unpersisted_group_binds_null() {
    let mut repo = Repo::new();
    let gk = repo.groups.add(Group::new(String::from("Work"), None, 0));
    let b = Board::new(None, String::from("Sprint"), Some(gk), 0);
    let binds = b.insert_binds(&repo).expect("insert binds should build");
    assert_eq!(BindValue::Null, binds[2]);
}

#[test]
fn test_state_insert_binds_resolve_board() {
    let mut repo = Repo::new();
    let mut board = Board::new(None, String::from("Sprint"), None, 0);
    board.set_id(Some(4));
    let bk = repo.boards.add(board);
    let mut s = State::new(None, String::from("Todo"), Some(String::from("#0f0")), None, 2);
    assert_eq!(Err(DbError::MissingParent), s.insert_binds(&repo));
    s.set_board(bk);
    let binds = s.insert_binds(&repo).expect("insert binds should build");
    assert_eq!(
        vec![
            BindValue::Text(String::from("Todo")),
            BindValue::Text(String::from("#0f0")),
            BindValue::Int(2),
            BindValue::Int(4),
        ],
        binds
    );
}

#[test]
fn test_task_insert_binds_values() {
    let mut repo = Repo::new();
    let mut board = Board::new(None, String::from("Sprint"), None, 0);
    board.set_id(Some(9));
    let bk = repo.boards.add(board);
    let state = State::new(Some(5), String::from("Todo"), None, Some(bk), 0);
    let sk = repo.states.add(state);
    let t = Task::new(
        String::from("Write spec"),
        Some(String::from("the document")),
        90,
        Priority::Normal,
        sk,
        Some(bk),
        0,
    );
    let binds = t.insert_binds(&repo).expect("insert binds should build");
    assert_eq!(
        vec![
            BindValue::Text(String::from("Write spec")),
            BindValue::Text(String::from("the document")),
            BindValue::Int(90),
            BindValue::Int(2),
            BindValue::Int(5),
            BindValue::Int(9),
            BindValue::Int(0),
        ],
        binds
    );
}

#[test]
fn test_task_insert_binds_missing_parents() {
    let mut repo = Repo::new();
    let t = Task::new(String::from("t"), None, 5, Priority::Low, 3, None, 0);
    assert_eq!(Err(DbError::MissingParent), t.insert_binds(&repo));

    let sk = repo.states.add(State::new(None, String::from("Todo"), None, None, 0));
    let unpersisted_state = Task::new(String::from("t"), None, 5, Priority::Low, sk, None, 0);
    assert_eq!(Err(DbError::MissingParent), unpersisted_state.insert_binds(&repo));

    let mut state = State::new(None, String::from("Doing"), None, None, 0);
    state.set_id(Some(1));
    let sk2 = repo.states.add(state);
    let no_board = Task::new(String::from("t"), None, 5, Priority::Low, sk2, None, 0);
    assert_eq!(Err(DbError::MissingParent), no_board.insert_binds(&repo));
}

#[test]
fn test_task_update_binds_full_row() {
    let mut repo = Repo::new();
    let mut board = Board::new(None, String::from("Sprint"), None, 0);
    board.set_id(Some(2));
    let bk = repo.boards.add(board);
    let state = State::new(Some(6), String::from("Todo"), None, Some(bk), 0);
    let sk = repo.states.add(state);
    let mut t = Task::new(String::from("t"), None, 75, Priority::High, sk, Some(bk), 1);
    assert_eq!(Err(DbError::NotPersisted), t.update_binds(&repo));
    t.set_id(Some(8));
    t.set_progress(Some(50));
    t.set_started_ed(String::from("2024-01-01"));
    let binds = t.update_binds(&repo).expect("update binds should build");
    assert_eq!(
        vec![
            BindValue::Text(String::from("t")),
            BindValue::Null,
            BindValue::Int(75),
            BindValue::Int(50),
            BindValue::Int(3),
            BindValue::Int(6),
            BindValue::Int(2),
            BindValue::Int(1),
            BindValue::Text(String::from("2024-01-01")),
            BindValue::Null,
            BindValue::Int(8),
        ],
        binds
    );
}

#[test]
fn test_finish_modify_decides_not_found() {
    assert_eq!(Ok(true), my_board::contract::finish_modify(Ok(3)));
    assert_eq!(Ok(false), my_board::contract::finish_modify(Ok(0)));
    assert_eq!(
        Err(DbError::Storage(String::from("disk full"))),
        my_board::contract::finish_modify(Err(String::from("disk full")))
    );
}

#[test]
fn test_finish_insert_writes_back_id() {
    let mut g = Group::new(String::from("Work"), None, 0);
    let r = my_board::contract::finish_insert(&mut g, Ok(21));
    assert_eq!(Ok(true), r);
    assert_eq!(Some(21), g.get_id());

    let mut h = Group::new(String::from("Home"), None, 1);
    let r = my_board::contract::finish_insert(&mut h, Err(String::from("constraint failed")));
    assert_eq!(Err(DbError::Storage(String::from("constraint failed"))), r);
    assert_eq!(None, h.get_id());
}
