//! The event store: packages, their versions and the log of downloads, kept
//! in a SQLite database.
//!
//! Three tables hold the data. `crates` has one row per package name,
//! `crate_versions` one row per version of a package, and `downloads` one row
//! per observed download, stamped with the store's clock in seconds. What the
//! database answers is not modelled here. A function that asks the store
//! takes the statement and its values from functions that fix them, and
//! hands the answer to a function that says what each answer means; its own
//! contract says what holds whatever the answer was.

use vstd::prelude::*;
use crate::report::Statistics;

verus! {

/// A connection of the `rusqlite` crate, carried as an opaque value.
#[verifier::external_type_specification]
#[verifier::external_body]
pub struct ExConnection(rusqlite::Connection);

/// The error type of the `rusqlite` crate, carried as an opaque value.
#[verifier::external_type_specification]
#[verifier::external_body]
pub struct ExSqlError(rusqlite::Error);

/// Where the store lives when no target is given: an in-memory database that
/// the connections of one process share.
pub const SHARED_MEMORY_TARGET: &'static str = "file::memory:?cache=shared";

/// A day, the usual reporting window, in seconds.
pub const DAY_SECONDS: i64 = 86400;

/// Why a store operation failed.
#[derive(Debug, Clone, PartialEq, Eq)]
pub enum StoreError {
    /// The connection could not be opened.
    Open(String),
    /// A table or an index could not be created.
    Schema(String),
    /// An insert was refused.
    Write(String),
    /// A select was refused or a row could not be read.
    Query(String),
    /// A count that the store returned does not fit the counter's type.
    OutOfRange(i64),
    /// A row that was just inserted, or the clock, could not be read back.
    Missing,
}

/// A failure that a read of the store may report.
pub open spec fn is_read_fault(e: StoreError) -> bool {
    e is Query || e is OutOfRange || e is Missing
}

/// A failure that recording an event may report.
pub open spec fn is_write_fault(e: StoreError) -> bool {
    e is Write || e is Query || e is Missing
}

/// A failure that opening the store may report.
pub open spec fn is_startup_fault(e: StoreError) -> bool {
    e is Open || e is Schema
}

/// Which download events a count takes in.
#[derive(Debug, Clone, Copy, PartialEq, Eq)]
pub enum HitFilter {
    /// Every event.
    Any,
    /// Only events served from the cache.
    HitsOnly,
}

/// One row of the package table.
#[derive(Debug, Clone)]
pub struct Crate {
    id: i64,
    name: String,
}

/// The event store, holding its one connection.
pub struct Database {
    conn: rusqlite::Connection,
}

/// Calls `rusqlite::Connection::open` on `target`, with the crate's default
/// flags. Nothing is claimed of the outcome.
#[verifier::external_body]
fn open_connection(target: &str) -> (r: Result<rusqlite::Connection, rusqlite::Error>) {
    rusqlite::Connection::open(target)
}

/// Calls `rusqlite::Connection::execute` with one statement. The values bind
/// to the numbered placeholders in order, the texts first and the numbers
/// after them. Nothing is claimed of the outcome.
#[verifier::external_body]
fn run_statement(
    conn: &rusqlite::Connection,
    sql: &str,
    texts: &Vec<String>,
    numbers: &Vec<i64>,
) -> (r: Result<usize, rusqlite::Error>) {
    let texts = texts.iter().map(|t| rusqlite::types::Value::Text(t.clone()));
    let numbers = numbers.iter().map(|n| rusqlite::types::Value::Integer(*n));
    conn.execute(sql, rusqlite::params_from_iter(texts.chain(numbers)))
}

/// Calls `rusqlite::Connection::prepare` and `rusqlite::Statement::query_map`
/// and hands back the first column of each row as an integer, in the order
/// the rows came. The values bind as in `run_statement`. Nothing is claimed of
/// the outcome.
#[verifier::external_body]
fn query_integers(
    conn: &rusqlite::Connection,
    sql: &str,
    texts: &Vec<String>,
    numbers: &Vec<i64>,
) -> (r: Result<Vec<i64>, rusqlite::Error>) {
    let texts = texts.iter().map(|t| rusqlite::types::Value::Text(t.clone()));
    let numbers = numbers.iter().map(|n| rusqlite::types::Value::Integer(*n));
    let mut statement = conn.prepare(sql)?;
    let rows = statement.query_map(
        rusqlite::params_from_iter(texts.chain(numbers)),
        |row| row.get::<usize, i64>(0),
    )?;
    rows.collect()
}

/// Calls `rusqlite::Connection::prepare` and `rusqlite::Statement::query_map`
/// on a select without parameters and hands back the first two columns of
/// each row, an integer and a text. Nothing is claimed of the outcome.
#[verifier::external_body]
fn query_labelled(conn: &rusqlite::Connection, sql: &str) -> (r: Result<
    Vec<(i64, String)>,
    rusqlite::Error,
>) {
    let mut statement = conn.prepare(sql)?;
    let rows = statement.query_map(
        [],
        |row| Ok((row.get::<usize, i64>(0)?, row.get::<usize, String>(1)?)),
    )?;
    rows.collect()
}

/// Calls `to_string` on a `rusqlite::Error`: the text that the crate's
/// `Display` impl writes for it. Nothing is claimed of the text.
#[verifier::external_body]
fn error_text(e: &rusqlite::Error) -> (text: String) {
    e.to_string()
}

/// Whether a number of the store fits a 32-bit counter.
pub open spec fn fits_counter(v: i64) -> bool {
    i32::MIN <= v <= i32::MAX
}

/// What a count query's rows mean: no row counts as zero, otherwise the first
/// row is the count, which has to fit the counter.
pub open spec fn count_of(rows: Seq<i64>) -> Result<i32, StoreError> {
    if rows.len() == 0 {
        Ok(0i32)
    } else if fits_counter(rows[0]) {
        Ok(rows[0] as i32)
    } else {
        Err(StoreError::OutOfRange(rows[0]))
    }
}

/// What a sum query's rows mean: no row sums to zero, otherwise the first row
/// is the sum.
pub open spec fn sum_of(rows: Seq<i64>) -> i64 {
    if rows.len() == 0 {
        0
    } else {
        rows[0]
    }
}

/// What a lookup's rows mean: the first row's identity, if there is a row.
pub open spec fn id_of(rows: Seq<i64>) -> Option<i64> {
    if rows.len() == 0 {
        None
    } else {
        Some(rows[0])
    }
}

/// The instant at which a window of `window` seconds that ends at `as_of`
/// begins, held within the range of the clock.
pub open spec fn window_start_of(as_of: i64, window: i64) -> int {
    if as_of - window < i64::MIN {
        i64::MIN as int
    } else if as_of - window > i64::MAX {
        i64::MAX as int
    } else {
        as_of - window
    }
}

/// What a row that has to be there means: its value, or the fault that it
/// is missing.
pub open spec fn present(found: Option<i64>) -> Result<i64, StoreError> {
    match found {
        Some(v) => Ok(v),
        None => Err(StoreError::Missing),
    }
}

/// Whether an event at `time` lies in the window of `window` seconds that
/// ends at `as_of`: after the window's start and not after its end.
pub open spec fn in_window(time: i64, as_of: i64, window: i64) -> bool {
    window_start_of(as_of, window) < time <= as_of
}

/// Reads the rows of a count query.
pub fn first_count(rows: &Vec<i64>) -> (r: Result<i32, StoreError>)
    ensures
        r == count_of(rows@),
{
    if rows.len() == 0 {
        Ok(0)
    } else {
        let v: i64 = rows[0];
        if -2147483648 <= v && v <= 2147483647 {
            Ok(v as i32)
        } else {
            Err(StoreError::OutOfRange(v))
        }
    }
}

/// Reads the rows of a sum query.
pub fn first_sum(rows: &Vec<i64>) -> (r: i64)
    ensures
        r == sum_of(rows@),
{
    if rows.len() == 0 {
        0
    } else {
        rows[0]
    }
}

/// Reads the rows of a lookup by name.
pub fn first_id(rows: &Vec<i64>) -> (r: Option<i64>)
    ensures
        r == id_of(rows@),
{
    if rows.len() == 0 {
        None
    } else {
        Some(rows[0])
    }
}

/// Insists on a row that has to be there.
pub fn require_row(found: Option<i64>) -> (r: Result<i64, StoreError>)
    ensures
        r == present(found),
{
    match found {
        Some(v) => Ok(v),
        None => Err(StoreError::Missing),
    }
}

/// Computes where a window begins, without overflow.
pub fn window_start(as_of: i64, window: i64) -> (start: i64)
    ensures
        start == window_start_of(as_of, window),
{
    if window >= 0 {
        if as_of < i64::MIN + window {
            i64::MIN
        } else {
            as_of - window
        }
    } else {
        if as_of > i64::MAX + window {
            i64::MAX
        } else {
            as_of - window
        }
    }
}

/// The two instants that a window query is given: where the window begins
/// and where it ends. An event lies in the window exactly when its time is
/// after the first and not after the second, which is the test that the
/// window queries make.
pub fn window_bounds(as_of: i64, window: i64) -> (bounds: Vec<i64>)
    ensures
        bounds@ == seq![window_start_of(as_of, window) as i64, as_of],
        forall|time: i64| #[trigger]
            in_window(time, as_of, window) <==> bounds@[0] < time <= bounds@[1],
{
    let mut bounds: Vec<i64> = Vec::new();
    bounds.push(window_start(as_of, window));
    bounds.push(as_of);
    assert(bounds@ =~= seq![window_start_of(as_of, window) as i64, as_of]);
    bounds
}

/// A window takes in no event later than its end, and none at all when it
/// has no length; where its start is on the clock, it takes in exactly the
/// events that are less than its length before its end.
pub proof fn window_leaves_out(time: i64, as_of: i64, window: i64)
    ensures
        time > as_of ==> !in_window(time, as_of, window),
        window <= 0 ==> !in_window(time, as_of, window),
        window > 0 && as_of - window >= i64::MIN ==> (in_window(time, as_of, window) <==> 0
            <= as_of - time < window),
{
}

impl Crate {
    /// The row's identity.
    pub closed spec fn spec_id(&self) -> i64 {
        self.id
    }

    /// The package's name.
    pub closed spec fn spec_name(&self) -> Seq<char> {
        self.name@
    }

    /// The row's identity.
    pub fn id(&self) -> (id: i64)
        ensures
            id == self.spec_id(),
    {
        self.id
    }

    /// The package's name.
    pub fn name(&self) -> (name: &str)
        ensures
            name@ == self.spec_name(),
    {
        self.name.as_str()
    }

    /// Turns the rows of a select over the package table into records, one
    /// for each row and in the same order.
    pub fn from_rows(rows: &Vec<(i64, String)>) -> (crates: Vec<Crate>)
        ensures
            crates@.len() == rows@.len(),
            forall|i: int|
                0 <= i < rows@.len() ==> #[trigger] crates@[i].spec_id() == rows@[i].0
                    && crates@[i].spec_name() == rows@[i].1@,
    {
        let mut crates: Vec<Crate> = Vec::new();
        let mut i: usize = 0;
        while i < rows.len()
            invariant
                i <= rows@.len(),
                crates@.len() == i,
                forall|k: int|
                    0 <= k < i ==> #[trigger] crates@[k].spec_id() == rows@[k].0
                        && crates@[k].spec_name() == rows@[k].1@,
            decreases rows@.len() - i,
        {
            let name: String = rows[i].1.clone();
            crates.push(Crate { id: rows[i].0, name });
            i += 1;
        }
        crates
    }
}

/// The target that the store is opened at: the one given, or the shared
/// in-memory store where none is given.
pub fn target_of<'a>(connection_string: Option<&'a str>) -> (target: &'a str)
    ensures
        connection_string is Some ==> target@ == connection_string->Some_0@,
        connection_string is None ==> target@ == SHARED_MEMORY_TARGET@,
{
    match connection_string {
        Some(s) => s,
        None => SHARED_MEMORY_TARGET,
    }
}

/// The text of the count query for a filter. Its two placeholders take the
/// window's bounds, start first.
pub open spec fn count_sql_of(filter: HitFilter) -> Seq<char> {
    match filter {
        HitFilter::Any => "SELECT count(*) FROM downloads WHERE time > ?1 AND time <= ?2"@,
        HitFilter::HitsOnly => "SELECT count(*) FROM downloads WHERE time > ?1 AND time <= ?2 AND hit = 1"@,
    }
}

/// Picks the count query for a filter.
pub fn count_sql(filter: HitFilter) -> (sql: &'static str)
    ensures
        sql@ == count_sql_of(filter),
{
    match filter {
        HitFilter::Any => "SELECT count(*) FROM downloads WHERE time > ?1 AND time <= ?2",
        HitFilter::HitsOnly => "SELECT count(*) FROM downloads WHERE time > ?1 AND time <= ?2 AND hit = 1",
    }
}

/// The numbers that an event is inserted with: the version's identity, one
/// for a hit and zero for a miss, and the size.
pub fn event_values(version_id: i64, hit: bool, size: i64) -> (values: Vec<i64>)
    ensures
        values@ == seq![version_id, if hit { 1i64 } else { 0i64 }, size],
{
    let flag: i64 = if hit {
        1
    } else {
        0
    };
    let mut values: Vec<i64> = Vec::new();
    values.push(version_id);
    values.push(flag);
    values.push(size);
    assert(values@ =~= seq![version_id, if hit { 1i64 } else { 0i64 }, size]);
    values
}

/// The one text that a lookup or an insert by name is given.
pub fn one_text(text: &str) -> (texts: Vec<String>)
    ensures
        texts@.len() == 1,
        texts@[0]@ == text@,
{
    let mut texts: Vec<String> = Vec::new();
    texts.push(text.to_owned());
    texts
}

/// Reads the answer to a statement of the schema: a refusal is a schema
/// fault, anything else is success.
pub fn created(outcome: Result<usize, rusqlite::Error>) -> (r: Result<(), StoreError>)
    ensures
        outcome is Ok <==> r is Ok,
        outcome is Err ==> r->Err_0 is Schema,
{
    match outcome {
        Ok(_) => Ok(()),
        Err(e) => Err(StoreError::Schema(error_text(&e))),
    }
}

/// Reads the answer to an insert: a refusal is a write fault, anything else
/// is success.
pub fn written(outcome: Result<usize, rusqlite::Error>) -> (r: Result<(), StoreError>)
    ensures
        outcome is Ok <==> r is Ok,
        outcome is Err ==> r->Err_0 is Write,
{
    match outcome {
        Ok(_) => Ok(()),
        Err(e) => Err(StoreError::Write(error_text(&e))),
    }
}

/// Reads the answer to a count query: a refusal is a query fault, rows are
/// read as `count_of` says.
pub fn read_count(outcome: Result<Vec<i64>, rusqlite::Error>) -> (r: Result<i32, StoreError>)
    ensures
        outcome is Ok ==> r == count_of(outcome->Ok_0@),
        outcome is Err ==> r is Err && r->Err_0 is Query,
{
    match outcome {
        Ok(rows) => first_count(&rows),
        Err(e) => Err(StoreError::Query(error_text(&e))),
    }
}

/// Reads the answer to a sum query: a refusal is a query fault, rows are
/// read as `sum_of` says.
pub fn read_sum(outcome: Result<Vec<i64>, rusqlite::Error>) -> (r: Result<i64, StoreError>)
    ensures
        outcome is Ok ==> r == Ok::<i64, StoreError>(sum_of(outcome->Ok_0@)),
        outcome is Err ==> r is Err && r->Err_0 is Query,
{
    match outcome {
        Ok(rows) => Ok(first_sum(&rows)),
        Err(e) => Err(StoreError::Query(error_text(&e))),
    }
}

/// Reads the answer to a lookup: a refusal is a query fault, rows are read
/// as `id_of` says.
pub fn read_id(outcome: Result<Vec<i64>, rusqlite::Error>) -> (r: Result<Option<i64>, StoreError>)
    ensures
        outcome is Ok ==> r == Ok::<Option<i64>, StoreError>(id_of(outcome->Ok_0@)),
        outcome is Err ==> r is Err && r->Err_0 is Query,
{
    match outcome {
        Ok(rows) => Ok(first_id(&rows)),
        Err(e) => Err(StoreError::Query(error_text(&e))),
    }
}

/// Reads the answer to the clock query: a refusal is a query fault, no row
/// means the clock is missing, otherwise the first row is the time.
pub fn read_clock(outcome: Result<Vec<i64>, rusqlite::Error>) -> (r: Result<i64, StoreError>)
    ensures
        outcome is Ok ==> r == present(id_of(outcome->Ok_0@)),
        outcome is Err ==> r is Err && r->Err_0 is Query,
{
    match outcome {
        Ok(rows) => require_row(first_id(&rows)),
        Err(e) => Err(StoreError::Query(error_text(&e))),
    }
}

/// Reads the answer to the select over the package table: a refusal is a
/// query fault, otherwise each row becomes a record, in the same order.
pub fn read_crates(outcome: Result<Vec<(i64, String)>, rusqlite::Error>) -> (r: Result<
    Vec<Crate>,
    StoreError,
>)
    ensures
        outcome is Ok <==> r is Ok,
        outcome is Err ==> r->Err_0 is Query,
        outcome is Ok ==> r->Ok_0@.len() == outcome->Ok_0@.len() && forall|i: int|
            0 <= i < outcome->Ok_0@.len() ==> #[trigger] r->Ok_0@[i].spec_id()
                == outcome->Ok_0@[i].0 && r->Ok_0@[i].spec_name() == outcome->Ok_0@[i].1@,
{
    match outcome {
        Ok(rows) => Ok(Crate::from_rows(&rows)),
        Err(e) => Err(StoreError::Query(error_text(&e))),
    }
}

/// The one number that a lookup or an insert by identity is given.
pub fn one_number(number: i64) -> (numbers: Vec<i64>)
    ensures
        numbers@ == seq![number],
{
    let mut numbers: Vec<i64> = Vec::new();
    numbers.push(number);
    assert(numbers@ =~= seq![number]);
    numbers
}

/// How many statements set the schema up.
pub const SCHEMA_STATEMENTS: usize = 5;

/// The statements that set the schema up, in the order in which they run:
/// the three tables, then the index that keeps package names unique and the
/// index that keeps the versions of a package unique. Each leaves what is
/// already there alone.
pub fn schema_texts() -> (texts: Vec<&'static str>)
    ensures
        texts@.len() == SCHEMA_STATEMENTS,
        texts@[0]@ == "CREATE TABLE IF NOT EXISTS crates (id INTEGER PRIMARY KEY AUTOINCREMENT, name TEXT)"@,
        texts@[1]@ == "CREATE TABLE IF NOT EXISTS crate_versions (id INTEGER PRIMARY KEY AUTOINCREMENT, version TEXT, crate_id INTEGER)"@,
        texts@[2]@ == "CREATE TABLE IF NOT EXISTS downloads (version_id INTEGER, time TIMESTAMP, hit BOOLEAN, size BIGINT)"@,
        texts@[3]@ == "CREATE UNIQUE INDEX IF NOT EXISTS unique_crate_names ON crates (name)"@,
        texts@[4]@ == "CREATE UNIQUE INDEX IF NOT EXISTS unique_crate_versions ON crate_versions (crate_id, version)"@,
{
    let mut texts: Vec<&'static str> = Vec::new();
    texts.push(
        "CREATE TABLE IF NOT EXISTS crates (id INTEGER PRIMARY KEY AUTOINCREMENT, name TEXT)",
    );
    texts.push(
        "CREATE TABLE IF NOT EXISTS crate_versions (id INTEGER PRIMARY KEY AUTOINCREMENT, version TEXT, crate_id INTEGER)",
    );
    texts.push(
        "CREATE TABLE IF NOT EXISTS downloads (version_id INTEGER, time TIMESTAMP, hit BOOLEAN, size BIGINT)",
    );
    texts.push("CREATE UNIQUE INDEX IF NOT EXISTS unique_crate_names ON crates (name)");
    texts.push(
        "CREATE UNIQUE INDEX IF NOT EXISTS unique_crate_versions ON crate_versions (crate_id, version)",
    );
    texts
}

/// The query for the store's clock, in whole seconds.
pub fn clock_sql() -> (sql: &'static str)
    ensures
        sql@ == "SELECT CAST(strftime('%s', 'now') AS INTEGER)"@,
{
    "SELECT CAST(strftime('%s', 'now') AS INTEGER)"
}

/// The query for the bytes saved: the sizes of the hits in the window,
/// summed, and zero where there is none. Its two placeholders take the
/// window's bounds, start first.
pub fn sum_sql() -> (sql: &'static str)
    ensures
        sql@ == "SELECT COALESCE(sum(size), 0) FROM downloads WHERE time > ?1 AND time <= ?2 AND hit = 1"@,
{
    "SELECT COALESCE(sum(size), 0) FROM downloads WHERE time > ?1 AND time <= ?2 AND hit = 1"
}

/// The query for every row of the package table.
pub fn crates_sql() -> (sql: &'static str)
    ensures
        sql@ == "SELECT id, name FROM crates"@,
{
    "SELECT id, name FROM crates"
}

/// The lookup of a package by its name, which is its one text.
pub fn find_crate_sql() -> (sql: &'static str)
    ensures
        sql@ == "SELECT id FROM crates WHERE name = ?1"@,
{
    "SELECT id FROM crates WHERE name = ?1"
}

/// The lookup of a version: its text is the version, its number the
/// package's identity.
pub fn find_version_sql() -> (sql: &'static str)
    ensures
        sql@ == "SELECT id FROM crate_versions WHERE version = ?1 AND crate_id = ?2"@,
{
    "SELECT id FROM crate_versions WHERE version = ?1 AND crate_id = ?2"
}

/// The insert of a package, which leaves a row of that name alone.
pub fn insert_crate_sql() -> (sql: &'static str)
    ensures
        sql@ == "INSERT OR IGNORE INTO crates (name) VALUES (?1)"@,
{
    "INSERT OR IGNORE INTO crates (name) VALUES (?1)"
}

/// The insert of a version, which leaves a row of that package and version
/// alone.
pub fn insert_version_sql() -> (sql: &'static str)
    ensures
        sql@ == "INSERT OR IGNORE INTO crate_versions (version, crate_id) VALUES (?1, ?2)"@,
{
    "INSERT OR IGNORE INTO crate_versions (version, crate_id) VALUES (?1, ?2)"
}

/// The insert of one download event, stamped with the store's clock. Its
/// numbers are those of `event_values`.
pub fn insert_event_sql() -> (sql: &'static str)
    ensures
        sql@ == "INSERT INTO downloads (version_id, time, hit, size) VALUES (?1, CAST(strftime('%s', 'now') AS INTEGER), ?2, ?3)"@,
{
    "INSERT INTO downloads (version_id, time, hit, size) VALUES (?1, CAST(strftime('%s', 'now') AS INTEGER), ?2, ?3)"
}

/// What follows the first lookup of a package or a version.
#[derive(Debug, Clone, Copy, PartialEq, Eq)]
pub enum ResolveStep {
    /// The row is there: its identity is the answer and nothing is inserted.
    Return(i64),
    /// The row is not there: insert it, look it up again and insist on it.
    InsertThenLookUp,
}

/// The step that a lookup's answer calls for.
pub open spec fn step_after(found: Option<i64>) -> ResolveStep {
    match found {
        Some(id) => ResolveStep::Return(id),
        None => ResolveStep::InsertThenLookUp,
    }
}

/// Decides what follows the first lookup.
pub fn resolve_step(found: Option<i64>) -> (step: ResolveStep)
    ensures
        step == step_after(found),
{
    match found {
        Some(id) => ResolveStep::Return(id),
        None => ResolveStep::InsertThenLookUp,
    }
}

/// Reads the answer to opening a connection: a refusal is an open fault,
/// otherwise the connection is handed on as it is.
pub fn opened(outcome: Result<rusqlite::Connection, rusqlite::Error>) -> (r: Result<
    rusqlite::Connection,
    StoreError,
>)
    ensures
        outcome is Ok <==> r is Ok,
        outcome is Ok ==> r->Ok_0 == outcome->Ok_0,
        outcome is Err ==> r->Err_0 is Open,
{
    match outcome {
        Ok(conn) => Ok(conn),
        Err(e) => Err(StoreError::Open(error_text(&e))),
    }
}

/// The snapshot that three answers make: the first fault among the
/// downloads, the hits and the bytes saved, in that order, or else the
/// snapshot of the three figures, with the misses derived from them.
pub open spec fn snapshot_of(
    downloads: Result<i32, StoreError>,
    hits: Result<i32, StoreError>,
    saved: Result<i64, StoreError>,
) -> Result<Statistics, StoreError> {
    match downloads {
        Err(e) => Err(e),
        Ok(d) => match hits {
            Err(e) => Err(e),
            Ok(h) => match saved {
                Err(e) => Err(e),
                Ok(b) => Ok(
                    Statistics {
                        downloads: d as i64,
                        hits: h as i64,
                        misses: (d - h) as i64,
                        bandwidth_saved: b,
                    },
                ),
            },
        },
    }
}

/// Puts the three answers of a snapshot together. A fault of any of them is
/// the result: a failed query never shows as a zero.
pub fn read_snapshot(
    downloads: Result<i32, StoreError>,
    hits: Result<i32, StoreError>,
    saved: Result<i64, StoreError>,
) -> (r: Result<Statistics, StoreError>)
    ensures
        r == snapshot_of(downloads, hits, saved),
{
    match downloads {
        Err(e) => Err(e),
        Ok(d) => match hits {
            Err(e) => Err(e),
            Ok(h) => match saved {
                Err(e) => Err(e),
                Ok(b) => Ok(Statistics::from_counts(d, h, b)),
            },
        },
    }
}

impl Database {
    /// Opens the store at `connection_string`, or the shared in-memory store
    /// where none is given, and runs the statements of the schema in order.
    /// The first refusal, of the opening or of a statement, ends it: a store
    /// that is not set up is not handed out.
    pub fn new(connection_string: Option<&str>) -> (r: Result<Database, StoreError>)
        ensures
            r is Err ==> is_startup_fault(r->Err_0),
    {
        let conn = opened(open_connection(target_of(connection_string)))?;
        let texts: Vec<&'static str> = schema_texts();
        let no_texts: Vec<String> = Vec::new();
        let no_numbers: Vec<i64> = Vec::new();
        let mut i: usize = 0;
        while i < texts.len()
            invariant
                i <= texts@.len(),
            decreases texts@.len() - i,
        {
            created(run_statement(&conn, texts[i], &no_texts, &no_numbers))?;
            i += 1;
        }
        Ok(Database { conn })
    }

    /// The store's clock, in seconds.
    pub fn now(&self) -> (r: Result<i64, StoreError>)
        ensures
            r is Err ==> r->Err_0 is Query || r->Err_0 is Missing,
    {
        let no_texts: Vec<String> = Vec::new();
        let no_numbers: Vec<i64> = Vec::new();
        read_clock(query_integers(&self.conn, clock_sql(), &no_texts, &no_numbers))
    }

    /// Counts the download events whose time lies after the start of the
    /// window and not after `as_of`, all of them or the cache hits alone.
    pub fn count_events(&self, as_of: i64, window: i64, filter: HitFilter) -> (r: Result<
        i32,
        StoreError,
    >)
        ensures
            r is Err ==> r->Err_0 is Query || r->Err_0 is OutOfRange,
    {
        let no_texts: Vec<String> = Vec::new();
        let bounds: Vec<i64> = window_bounds(as_of, window);
        read_count(query_integers(&self.conn, count_sql(filter), &no_texts, &bounds))
    }

    /// Sums the sizes of the cache hits whose time lies after the start of
    /// the window and not after `as_of`; zero where there is none.
    pub fn saved_bytes(&self, as_of: i64, window: i64) -> (r: Result<i64, StoreError>)
        ensures
            r is Err ==> r->Err_0 is Query,
    {
        let no_texts: Vec<String> = Vec::new();
        let bounds: Vec<i64> = window_bounds(as_of, window);
        read_sum(query_integers(&self.conn, sum_sql(), &no_texts, &bounds))
    }

    /// The snapshot of the window of `window` seconds that ends at `as_of`.
    /// The downloads, the hits and the bytes saved are asked of the store;
    /// the misses are never counted: they are the downloads less the hits.
    pub fn stats_at(&self, as_of: i64, window: i64) -> (r: Result<Statistics, StoreError>)
        ensures
            r is Ok ==> r->Ok_0.downloads == r->Ok_0.hits + r->Ok_0.misses,
            r is Ok ==> fits_counter(r->Ok_0.downloads) && fits_counter(r->Ok_0.hits),
            r is Err ==> r->Err_0 is Query || r->Err_0 is OutOfRange,
    {
        let no_texts: Vec<String> = Vec::new();
        let bounds: Vec<i64> = window_bounds(as_of, window);
        let downloads = read_count(
            query_integers(&self.conn, count_sql(HitFilter::Any), &no_texts, &bounds),
        );
        let hits = read_count(
            query_integers(&self.conn, count_sql(HitFilter::HitsOnly), &no_texts, &bounds),
        );
        let saved = read_sum(query_integers(&self.conn, sum_sql(), &no_texts, &bounds));
        read_snapshot(downloads, hits, saved)
    }

    /// The snapshot of the trailing window of `window` seconds, by the
    /// store's clock.
    pub fn stats(&self, window: i64) -> (r: Result<Statistics, StoreError>)
        ensures
            r is Ok ==> r->Ok_0.downloads == r->Ok_0.hits + r->Ok_0.misses,
            r is Ok ==> fits_counter(r->Ok_0.downloads) && fits_counter(r->Ok_0.hits),
            r is Err ==> is_read_fault(r->Err_0),
    {
        let no_texts: Vec<String> = Vec::new();
        let no_numbers: Vec<i64> = Vec::new();
        let as_of: i64 = read_clock(
            query_integers(&self.conn, clock_sql(), &no_texts, &no_numbers),
        )?;
        let bounds: Vec<i64> = window_bounds(as_of, window);
        let downloads = read_count(
            query_integers(&self.conn, count_sql(HitFilter::Any), &no_texts, &bounds),
        );
        let hits = read_count(
            query_integers(&self.conn, count_sql(HitFilter::HitsOnly), &no_texts, &bounds),
        );
        let saved = read_sum(query_integers(&self.conn, sum_sql(), &no_texts, &bounds));
        read_snapshot(downloads, hits, saved)
    }

    /// The number of downloads in the trailing window of `window` seconds.
    pub fn downloads(&self, window: i64) -> (r: Result<i32, StoreError>)
        ensures
            r is Err ==> is_read_fault(r->Err_0),
    {
        let no_texts: Vec<String> = Vec::new();
        let no_numbers: Vec<i64> = Vec::new();
        let as_of: i64 = read_clock(
            query_integers(&self.conn, clock_sql(), &no_texts, &no_numbers),
        )?;
        let bounds: Vec<i64> = window_bounds(as_of, window);
        read_count(query_integers(&self.conn, count_sql(HitFilter::Any), &no_texts, &bounds))
    }

    /// The number of cache hits in the trailing window of `window` seconds.
    pub fn hits(&self, window: i64) -> (r: Result<i32, StoreError>)
        ensures
            r is Err ==> is_read_fault(r->Err_0),
    {
        let no_texts: Vec<String> = Vec::new();
        let no_numbers: Vec<i64> = Vec::new();
        let as_of: i64 = read_clock(
            query_integers(&self.conn, clock_sql(), &no_texts, &no_numbers),
        )?;
        let bounds: Vec<i64> = window_bounds(as_of, window);
        read_count(
            query_integers(&self.conn, count_sql(HitFilter::HitsOnly), &no_texts, &bounds),
        )
    }

    /// The bytes that cache hits saved in the trailing window of `window`
    /// seconds. A query that fails is a fault, never a zero.
    pub fn bandwidth_saved(&self, window: i64) -> (r: Result<i64, StoreError>)
        ensures
            r is Err ==> is_read_fault(r->Err_0),
    {
        let no_texts: Vec<String> = Vec::new();
        let no_numbers: Vec<i64> = Vec::new();
        let as_of: i64 = read_clock(
            query_integers(&self.conn, clock_sql(), &no_texts, &no_numbers),
        )?;
        let bounds: Vec<i64> = window_bounds(as_of, window);
        read_sum(query_integers(&self.conn, sum_sql(), &no_texts, &bounds))
    }

    /// Every row of the package table, in no particular order.
    pub fn crates(&self) -> (r: Result<Vec<Crate>, StoreError>)
        ensures
            r is Err ==> r->Err_0 is Query,
    {
        read_crates(query_labelled(&self.conn, crates_sql()))
    }

    /// Looks a package up by its name.
    fn crate_id(&self, name: &str) -> (r: Result<Option<i64>, StoreError>)
        ensures
            r is Err ==> r->Err_0 is Query,
    {
        let texts: Vec<String> = one_text(name);
        let no_numbers: Vec<i64> = Vec::new();
        read_id(query_integers(&self.conn, find_crate_sql(), &texts, &no_numbers))
    }

    /// Looks a version of a package up.
    fn version_id(&self, crate_id: i64, version: &str) -> (r: Result<Option<i64>, StoreError>)
        ensures
            r is Err ==> r->Err_0 is Query,
    {
        let texts: Vec<String> = one_text(version);
        let numbers: Vec<i64> = one_number(crate_id);
        read_id(query_integers(&self.conn, find_version_sql(), &texts, &numbers))
    }

    /// The identity of the package `name`: the row that is there, or else a
    /// new row, which is inserted and then looked up again.
    pub fn resolve_crate(&self, name: &str) -> (r: Result<i64, StoreError>)
        ensures
            r is Err ==> is_write_fault(r->Err_0),
    {
        match resolve_step(self.crate_id(name)?) {
            ResolveStep::Return(id) => Ok(id),
            ResolveStep::InsertThenLookUp => {
                let texts: Vec<String> = one_text(name);
                let no_numbers: Vec<i64> = Vec::new();
                written(run_statement(&self.conn, insert_crate_sql(), &texts, &no_numbers))?;
                require_row(self.crate_id(name)?)
            },
        }
    }

    /// The identity of the version `version` of the package `crate_id`: the
    /// row that is there, or else a new row, which is inserted and then
    /// looked up again.
    pub fn resolve_version(&self, crate_id: i64, version: &str) -> (r: Result<i64, StoreError>)
        ensures
            r is Err ==> is_write_fault(r->Err_0),
    {
        match resolve_step(self.version_id(crate_id, version)?) {
            ResolveStep::Return(id) => Ok(id),
            ResolveStep::InsertThenLookUp => {
                let texts: Vec<String> = one_text(version);
                let numbers: Vec<i64> = one_number(crate_id);
                written(run_statement(&self.conn, insert_version_sql(), &texts, &numbers))?;
                require_row(self.version_id(crate_id, version)?)
            },
        }
    }

    /// Records one download: resolves the package and the version, creating
    /// either where it is new, and appends one event stamped with the
    /// store's clock. A refusal of any of the steps is reported.
    pub fn add_request(&self, crate_name: &str, crate_version: &str, hit: bool, size: i64) -> (r:
        Result<(), StoreError>)
        ensures
            r is Err ==> is_write_fault(r->Err_0),
    {
        let crate_id: i64 = self.resolve_crate(crate_name)?;
        let version_id: i64 = self.resolve_version(crate_id, crate_version)?;
        let no_texts: Vec<String> = Vec::new();
        let numbers: Vec<i64> = event_values(version_id, hit, size);
        written(run_statement(&self.conn, insert_event_sql(), &no_texts, &numbers))
    }
}

} // verus!
