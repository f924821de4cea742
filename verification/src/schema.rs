use vstd::prelude::*;

verus! {

/// The statement that provisions the `groups` table.
pub open spec fn spec_groups_table_query() -> Seq<char> {
    (
    "CREATE TABLE IF NOT EXISTS groups(id INTEGER PRIMARY KEY, name VARCHAR(255) NOT NULL, icon VARCHAR(255) DEFAULT NULL, position INTEGER NOT NULL)"
    )@
}

/// The statement that provisions the `boards` table.
pub open spec fn spec_boards_table_query() -> Seq<char> {
    (
    "CREATE TABLE IF NOT EXISTS boards(id INTEGER PRIMARY KEY, name VARCHAR(255) NOT NULL, position INTEGER NOT NULL, group_id BIGINT NOT NULL)"
    )@
}

/// The statement that provisions the `states` table.
pub open spec fn spec_states_table_query() -> Seq<char> {
    (
    "CREATE TABLE IF NOT EXISTS states(id INTEGER PRIMARY KEY, name VARCHAR(255) NOT NULL, color VARCHAR(50) DEFAULT NULL, position INTEGER NOT NULL, board_id UNSIGNED INTEGER NOT NULL)"
    )@
}

/// The statement that provisions the `tasks` table.
pub open spec fn spec_tasks_table_query() -> Seq<char> {
    (
    "CREATE TABLE IF NOT EXISTS tasks(id INTEGER PRIMARY KEY, name VARCHAR(255) NOT NULL, description LONGTEXT DEFAULT NULL, duration INTEGER NOT NULL, progress INTEGER DEFAULT NULL, priority TINYINT, state_id INTEGER NOT NULL, board_id BIGINT NOT NULL, position INTEGER NOT NULL, started_at TEXT DEFAULT NULL, ended_at TEXT DEFAULT NULL)"
    )@
}

/// Table creation for the `groups` table; `IF NOT EXISTS` makes it
/// idempotent.
pub fn groups_table_query() -> (q: &'static str)
    ensures
        q@ == spec_groups_table_query(),
{
    "CREATE TABLE IF NOT EXISTS groups(id INTEGER PRIMARY KEY, name VARCHAR(255) NOT NULL, icon VARCHAR(255) DEFAULT NULL, position INTEGER NOT NULL)"
}

/// Table creation for the `boards` table; `IF NOT EXISTS` makes it
/// idempotent.
pub fn boards_table_query() -> (q: &'static str)
    ensures
        q@ == spec_boards_table_query(),
{
    "CREATE TABLE IF NOT EXISTS boards(id INTEGER PRIMARY KEY, name VARCHAR(255) NOT NULL, position INTEGER NOT NULL, group_id BIGINT NOT NULL)"
}

/// Table creation for the `states` table; `IF NOT EXISTS` makes it
/// idempotent.
pub fn states_table_query() -> (q: &'static str)
    ensures
        q@ == spec_states_table_query(),
{
    "CREATE TABLE IF NOT EXISTS states(id INTEGER PRIMARY KEY, name VARCHAR(255) NOT NULL, color VARCHAR(50) DEFAULT NULL, position INTEGER NOT NULL, board_id UNSIGNED INTEGER NOT NULL)"
}

/// Table creation for the `tasks` table; `IF NOT EXISTS` makes it
/// idempotent.
pub fn tasks_table_query() -> (q: &'static str)
    ensures
        q@ == spec_tasks_table_query(),
{
    "CREATE TABLE IF NOT EXISTS tasks(id INTEGER PRIMARY KEY, name VARCHAR(255) NOT NULL, description LONGTEXT DEFAULT NULL, duration INTEGER NOT NULL, progress INTEGER DEFAULT NULL, priority TINYINT, state_id INTEGER NOT NULL, board_id BIGINT NOT NULL, position INTEGER NOT NULL, started_at TEXT DEFAULT NULL, ended_at TEXT DEFAULT NULL)"
}

/// All four table-creation statements, in dependency order; running them
/// against a fresh or an already-provisioned database is equally safe.
pub fn table_queries() -> (qs: Vec<&'static str>)
    ensures
        qs@.len() == 4,
        qs@[0]@ == spec_groups_table_query(),
        qs@[1]@ == spec_boards_table_query(),
        qs@[2]@ == spec_states_table_query(),
        qs@[3]@ == spec_tasks_table_query(),
{
    let mut qs: Vec<&'static str> = Vec::new();
    qs.push(groups_table_query());
    qs.push(boards_table_query());
    qs.push(states_table_query());
    qs.push(tasks_table_query());
    qs
}

} // verus!
