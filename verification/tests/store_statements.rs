use proxy_stats::report::Statistics;
use proxy_stats::store::{
    clock_sql, crates_sql, find_crate_sql, find_version_sql, insert_crate_sql, insert_event_sql,
    insert_version_sql, one_number, opened, read_snapshot, resolve_step, schema_texts, sum_sql,
    ResolveStep, StoreError, SCHEMA_STATEMENTS,
};

#[test]
fn the_schema_is_three_tables_and_two_unique_indexes() {
    let texts = schema_texts();
    assert_eq!(SCHEMA_STATEMENTS, 5);
    assert_eq!(texts.len(), 5);
    assert_eq!(
        texts[0],
        "CREATE TABLE IF NOT EXISTS crates (id INTEGER PRIMARY KEY AUTOINCREMENT, name TEXT)"
    );
    assert_eq!(
        texts[1],
        "CREATE TABLE IF NOT EXISTS crate_versions (id INTEGER PRIMARY KEY AUTOINCREMENT, version TEXT, crate_id INTEGER)"
    );
    assert_eq!(
        texts[2],
        "CREATE TABLE IF NOT EXISTS downloads (version_id INTEGER, time TIMESTAMP, hit BOOLEAN, size BIGINT)"
    );
    assert_eq!(texts[3], "CREATE UNIQUE INDEX IF NOT EXISTS unique_crate_names ON crates (name)");
    assert_eq!(
        texts[4],
        "CREATE UNIQUE INDEX IF NOT EXISTS unique_crate_versions ON crate_versions (crate_id, version)"
    );
}

#[test]
fn the_schema_statements_run_on_an_empty_store_and_again() {
    let conn = rusqlite::Connection::open_in_memory().unwrap();
    for round in 0..2 {
        for text in schema_texts() {
            assert!(conn.execute(text, []).is_ok(), "round {}: {}", round, text);
        }
    }
    let tables: i64 = conn
        .query_row(
            "SELECT count(*) FROM sqlite_master WHERE type = 'table' AND name IN ('crates', 'crate_versions', 'downloads')",
            [],
            |row| row.get(0),
        )
        .unwrap();
    assert_eq!(tables, 3);
    let indexes: i64 = conn
        .query_row(
            "SELECT count(*) FROM sqlite_master WHERE type = 'index' AND name IN ('unique_crate_names', 'unique_crate_versions')",
            [],
            |row| row.get(0),
        )
        .unwrap();
    assert_eq!(indexes, 2);
}

#[test]
fn the_queries_read_as_written() {
    assert_eq!(clock_sql(), "SELECT CAST(strftime('%s', 'now') AS INTEGER)");
    assert_eq!(
        sum_sql(),
        "SELECT COALESCE(sum(size), 0) FROM downloads WHERE time > ?1 AND time <= ?2 AND hit = 1"
    );
    assert_eq!(crates_sql(), "SELECT id, name FROM crates");
    assert_eq!(find_crate_sql(), "SELECT id FROM crates WHERE name = ?1");
    assert_eq!(
        find_version_sql(),
        "SELECT id FROM crate_versions WHERE version = ?1 AND crate_id = ?2"
    );
}

#[test]
fn the_inserts_read_as_written() {
    assert_eq!(insert_crate_sql(), "INSERT OR IGNORE INTO crates (name) VALUES (?1)");
    assert_eq!(
        insert_version_sql(),
        "INSERT OR IGNORE INTO crate_versions (version, crate_id) VALUES (?1, ?2)"
    );
    assert_eq!(
        insert_event_sql(),
        "INSERT INTO downloads (version_id, time, hit, size) VALUES (?1, CAST(strftime('%s', 'now') AS INTEGER), ?2, ?3)"
    );
}

#[test]
fn one_number_holds_the_number() {
    assert_eq!(one_number(12), vec![12]);
    assert_eq!(one_number(i64::MIN), vec![i64::MIN]);
}

#[test]
fn a_row_that_is_found_is_returned_and_an_absent_one_inserted() {
    assert_eq!(resolve_step(Some(4)), ResolveStep::Return(4));
    assert_eq!(resolve_step(Some(-9)), ResolveStep::Return(-9));
    assert_eq!(resolve_step(None), ResolveStep::InsertThenLookUp);
}

#[test]
fn a_refused_opening_is_an_open_fault() {
    assert!(opened(rusqlite::Connection::open_in_memory()).is_ok());
    let r = opened(Err(rusqlite::Error::InvalidQuery));
    assert!(matches!(r, Err(StoreError::Open(_))));
}

#[test]
fn three_answers_make_a_snapshot() {
    assert_eq!(
        read_snapshot(Ok(2), Ok(1), Ok(2048)),
        Ok(Statistics { downloads: 2, hits: 1, misses: 1, bandwidth_saved: 2048 })
    );
    assert_eq!(
        read_snapshot(Ok(0), Ok(0), Ok(0)),
        Ok(Statistics { downloads: 0, hits: 0, misses: 0, bandwidth_saved: 0 })
    );
    assert_eq!(
        read_snapshot(Ok(3), Ok(5), Ok(-7)),
        Ok(Statistics { downloads: 3, hits: 5, misses: -2, bandwidth_saved: -7 })
    );
}

#[test]
fn a_failed_answer_is_a_fault_and_never_a_zero() {
    let gone = StoreError::Query(String::from("no such table"));
    assert_eq!(read_snapshot(Err(gone.clone()), Ok(1), Ok(2048)), Err(gone.clone()));
    assert_eq!(read_snapshot(Ok(2), Err(gone.clone()), Ok(2048)), Err(gone.clone()));
    assert_eq!(read_snapshot(Ok(2), Ok(1), Err(gone.clone())), Err(gone.clone()));
    assert_eq!(
        read_snapshot(Err(StoreError::OutOfRange(1 << 40)), Err(gone.clone()), Err(gone.clone())),
        Err(StoreError::OutOfRange(1 << 40))
    );
    assert_eq!(
        read_snapshot(Ok(2), Err(StoreError::Missing), Err(gone)),
        Err(StoreError::Missing)
    );
}
