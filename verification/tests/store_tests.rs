use desk_core::errors::CommandError;
use desk_core::store::{init_db, schema_statements};

#[test]
fn schema_is_the_fixed_ddl() {
    let statements = schema_statements();
    assert_eq!(statements.len(), 2);
    assert_eq!(
        statements[0],
        "CREATE TABLE IF NOT EXISTS projects (\n      id TEXT PRIMARY KEY,\n      name TEXT NOT NULL,\n      created_at INTEGER NOT NULL\n    )"
    );
    assert_eq!(
        statements[1],
        "CREATE TABLE IF NOT EXISTS files (\n      id TEXT PRIMARY KEY,\n      project_id TEXT,\n      path TEXT NOT NULL,\n      content TEXT,\n      FOREIGN KEY (project_id) REFERENCES projects (id)\n    )"
    );
}

#[test]
fn init_db_creates_a_fresh_store() {
    let dir = tempfile::tempdir().unwrap();
    let path = dir.path().join("store.db");
    let path = path.to_str().unwrap();
    assert!(init_db(path).is_ok());

    let conn = rusqlite::Connection::open(path).unwrap();
    let projects: i64 = conn
        .query_row("SELECT count(*) FROM projects", [], |row| row.get(0))
        .unwrap();
    let files: i64 = conn
        .query_row("SELECT count(*) FROM files", [], |row| row.get(0))
        .unwrap();
    assert_eq!(projects, 0);
    assert_eq!(files, 0);
}

#[test]
fn init_db_twice_on_the_same_path_succeeds_both_times() {
    let dir = tempfile::tempdir().unwrap();
    let path = dir.path().join("store.db");
    let path = path.to_str().unwrap();
    assert!(init_db(path).is_ok());
    assert!(init_db(path).is_ok());
}

#[test]
fn init_db_again_keeps_existing_rows() {
    let dir = tempfile::tempdir().unwrap();
    let path = dir.path().join("store.db");
    let path = path.to_str().unwrap();
    assert!(init_db(path).is_ok());

    {
        let conn = rusqlite::Connection::open(path).unwrap();
        conn.execute(
            "INSERT INTO projects (id, name, created_at) VALUES ('p1', 'demo', 7)",
            [],
        )
        .unwrap();
        conn.execute(
            "INSERT INTO files (id, project_id, path, content) VALUES ('f1', 'p1', '/a', 'x')",
            [],
        )
        .unwrap();
    }

    assert!(init_db(path).is_ok());

    let conn = rusqlite::Connection::open(path).unwrap();
    let name: String = conn
        .query_row("SELECT name FROM projects WHERE id = 'p1'", [], |row| {
            row.get(0)
        })
        .unwrap();
    assert_eq!(name, "demo");
    let content: String = conn
        .query_row("SELECT content FROM files WHERE id = 'f1'", [], |row| {
            row.get(0)
        })
        .unwrap();
    assert_eq!(content, "x");
}

#[test]
fn init_db_on_an_impossible_path_is_a_store_error() {
    let dir = tempfile::tempdir().unwrap();
    let path = dir.path().join("missing").join("deeper").join("store.db");
    let r = init_db(path.to_str().unwrap());
    assert!(matches!(r, Err(CommandError::StoreError(_))));
}
