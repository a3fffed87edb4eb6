//! The durable session log, kept in an SQLite database.
use vstd::prelude::*;
use vstd::string::*;
use crate::history::{in_range, newest_first, opt_str_view, select_history, views, within};
use crate::timer::{EventView, TimerEvent, copy_opt_text, copy_text, now_text, opt_text_view, Origin, Session, SessionStatus, SessionView};

verus! {

#[verifier::external_type_specification]
#[verifier::external_body]
pub struct ExConnection(rusqlite::Connection);

#[verifier::external_type_specification]
#[verifier::external_body]
pub struct ExSqlError(rusqlite::Error);

/// Why a store operation failed.
pub enum StoreError {
    /// The database refused the operation.
    Database(rusqlite::Error),
    /// A value lies outside what its column accepts.
    OutOfRange,
}

/// A value bound to a statement parameter.
pub enum SqlArg {
    Text(String),
    Int(i64),
    Null,
}

/// One row of the `sessions` table, as the database holds it.
pub struct StoredRow {
    pub id: String,
    pub label: String,
    pub duration_secs: i64,
    pub started_at: String,
    pub ended_at: Option<String>,
    pub origin: String,
    pub status: String,
}

/// The mathematical value of a [`StoredRow`].
pub struct RowView {
    pub id: Seq<char>,
    pub label: Seq<char>,
    pub duration_secs: i64,
    pub started_at: Seq<char>,
    pub ended_at: Option<Seq<char>>,
    pub origin: Seq<char>,
    pub status: Seq<char>,
}

impl View for StoredRow {
    type V = RowView;

    open spec fn view(&self) -> RowView {
        RowView {
            id: self.id@,
            label: self.label@,
            duration_secs: self.duration_secs,
            started_at: self.started_at@,
            ended_at: opt_text_view(self.ended_at),
            origin: self.origin@,
            status: self.status@,
        }
    }
}

/// How an origin is written in the `origin` column.
pub open spec fn origin_text(o: Origin) -> Seq<char> {
    match o {
        Origin::Human => seq!['H', 'u', 'm', 'a', 'n'],
        Origin::Agent => seq!['A', 'g', 'e', 'n', 't'],
    }
}

/// How a status is written in the `status` column.
pub open spec fn status_text(s: SessionStatus) -> Seq<char> {
    match s {
        SessionStatus::Running => seq!['R', 'u', 'n', 'n', 'i', 'n', 'g'],
        SessionStatus::Completed => seq!['C', 'o', 'm', 'p', 'l', 'e', 't', 'e', 'd'],
        SessionStatus::Stopped => seq!['S', 't', 'o', 'p', 'p', 'e', 'd'],
    }
}

/// The origin a column text stands for; anything unknown reads as `Human`.
pub open spec fn origin_of_text(t: Seq<char>) -> Origin {
    if t == origin_text(Origin::Agent) {
        Origin::Agent
    } else {
        Origin::Human
    }
}

/// The status a column text stands for; anything unknown reads as `Running`.
pub open spec fn status_of_text(t: Seq<char>) -> SessionStatus {
    if t == status_text(SessionStatus::Completed) {
        SessionStatus::Completed
    } else if t == status_text(SessionStatus::Stopped) {
        SessionStatus::Stopped
    } else {
        SessionStatus::Running
    }
}

/// What the table accepts of a session: a label of 1 to 64 characters and
/// a positive duration that fits its integer column.
pub open spec fn fits_row(s: SessionView) -> bool {
    &&& 1 <= s.label.len() <= 64
    &&& 0 < s.duration_secs <= i64::MAX
}

/// The row that stores session `s`.
pub open spec fn row_of(s: SessionView) -> RowView {
    RowView {
        id: s.id,
        label: s.label,
        duration_secs: s.duration_secs as i64,
        started_at: s.started_at,
        ended_at: s.ended_at,
        origin: origin_text(s.origin),
        status: status_text(s.status),
    }
}

/// The session that row `r` stores.
pub open spec fn session_of(r: RowView) -> SessionView {
    SessionView {
        id: r.id,
        label: r.label,
        duration_secs: r.duration_secs as u64,
        started_at: r.started_at,
        ended_at: r.ended_at,
        origin: origin_of_text(r.origin),
        status: status_of_text(r.status),
    }
}

/// Whether two texts are equal, character by character.
pub fn text_eq(a: &str, b: &str) -> (r: bool)
    ensures
        r == (a@ == b@),
{
    let n = a.unicode_len();
    if n != b.unicode_len() {
        return false;
    }
    let mut i: usize = 0;
    while i < n
        invariant
            n == a@.len(),
            n == b@.len(),
            i <= n,
            forall|j: int| 0 <= j < i ==> a@[j] == b@[j],
        decreases n - i,
    {
        if a.get_char(i) != b.get_char(i) {
            return false;
        }
        i += 1;
    }
    assert(a@ =~= b@);
    true
}

/// The column text of an origin.
pub fn origin_code(o: Origin) -> (r: String)
    ensures
        r@ == origin_text(o),
{
    match o {
        Origin::Human => {
            let r = "Human".to_string();
            proof {
                reveal_strlit("Human");
            }
            assert(r@ =~= origin_text(o));
            r
        },
        Origin::Agent => {
            let r = "Agent".to_string();
            proof {
                reveal_strlit("Agent");
            }
            assert(r@ =~= origin_text(o));
            r
        },
    }
}

/// The column text of a status.
pub fn status_code(s: SessionStatus) -> (r: String)
    ensures
        r@ == status_text(s),
{
    match s {
        SessionStatus::Running => {
            let r = "Running".to_string();
            proof {
                reveal_strlit("Running");
            }
            assert(r@ =~= status_text(s));
            r
        },
        SessionStatus::Completed => {
            let r = "Completed".to_string();
            proof {
                reveal_strlit("Completed");
            }
            assert(r@ =~= status_text(s));
            r
        },
        SessionStatus::Stopped => {
            let r = "Stopped".to_string();
            proof {
                reveal_strlit("Stopped");
            }
            assert(r@ =~= status_text(s));
            r
        },
    }
}

/// The origin that a column text stands for.
pub fn parse_origin(t: &str) -> (r: Origin)
    ensures
        r == origin_of_text(t@),
{
    let agent = origin_code(Origin::Agent);
    if text_eq(t, agent.as_str()) {
        Origin::Agent
    } else {
        Origin::Human
    }
}

/// The status that a column text stands for.
pub fn parse_status(t: &str) -> (r: SessionStatus)
    ensures
        r == status_of_text(t@),
{
    let completed = status_code(SessionStatus::Completed);
    let stopped = status_code(SessionStatus::Stopped);
    if text_eq(t, completed.as_str()) {
        SessionStatus::Completed
    } else if text_eq(t, stopped.as_str()) {
        SessionStatus::Stopped
    } else {
        SessionStatus::Running
    }
}

/// Writing an origin or a status to its column and reading it back gives
/// the same value.
pub proof fn lemma_codes_round_trip(o: Origin, s: SessionStatus)
    ensures
        origin_of_text(origin_text(o)) == o,
        status_of_text(status_text(s)) == s,
{
    assert(origin_text(Origin::Human) != origin_text(Origin::Agent)) by {
        assert(origin_text(Origin::Human)[0] != origin_text(Origin::Agent)[0]);
    }
    assert(status_text(SessionStatus::Running) != status_text(SessionStatus::Completed)) by {
        assert(status_text(SessionStatus::Running)[0] != status_text(SessionStatus::Completed)[0]);
    }
    assert(status_text(SessionStatus::Running) != status_text(SessionStatus::Stopped)) by {
        assert(status_text(SessionStatus::Running)[0] != status_text(SessionStatus::Stopped)[0]);
    }
    assert(status_text(SessionStatus::Completed) != status_text(SessionStatus::Stopped)) by {
        assert(status_text(SessionStatus::Completed)[0] != status_text(SessionStatus::Stopped)[0]);
    }
}

/// Storing a session as a row and reading the row back gives the same
/// session: identifier, label, duration, times, origin and status.
pub proof fn lemma_row_round_trip(s: SessionView)
    requires
        fits_row(s),
    ensures
        session_of(row_of(s)) == s,
{
    lemma_codes_round_trip(s.origin, s.status);
}

/// The row that stores `s`, or `OutOfRange` when the table does not accept it.
pub fn session_row(s: &Session) -> (r: Result<StoredRow, StoreError>)
    ensures
        match r {
            Ok(row) => fits_row(s@) && row@ == row_of(s@),
            Err(e) => !fits_row(s@) && e is OutOfRange,
        },
{
    let n = s.label.as_str().unicode_len();
    if n < 1 || n > 64 || s.duration_secs == 0 || s.duration_secs > i64::MAX as u64 {
        return Err(StoreError::OutOfRange);
    }
    let snap = s.snapshot();
    Ok(StoredRow {
        id: snap.id,
        label: snap.label,
        duration_secs: s.duration_secs as i64,
        started_at: snap.started_at,
        ended_at: snap.ended_at,
        origin: origin_code(s.origin),
        status: status_code(s.status),
    })
}

/// The session that a row stores, or `OutOfRange` for a negative duration.
pub fn row_session(row: &StoredRow) -> (r: Result<Session, StoreError>)
    ensures
        match r {
            Ok(s) => row@.duration_secs >= 0 && s@ == session_of(row@),
            Err(e) => row@.duration_secs < 0 && e is OutOfRange,
        },
{
    if row.duration_secs < 0 {
        return Err(StoreError::OutOfRange);
    }
    let origin = parse_origin(row.origin.as_str());
    let status = parse_status(row.status.as_str());
    Ok(Session {
        id: copy_text(&row.id),
        label: copy_text(&row.label),
        duration_secs: row.duration_secs as u64,
        started_at: copy_text(&row.started_at),
        ended_at: copy_opt_text(&row.ended_at),
        origin,
        status,
    })
}


/// Whether some row holds a negative duration.
pub open spec fn has_negative_duration(rows: Seq<StoredRow>) -> bool {
    exists|i: int| 0 <= i < rows.len() && (#[trigger] rows[i])@.duration_secs < 0
}

/// The sessions that `rows` store, in the same order.
pub open spec fn sessions_of(rows: Seq<StoredRow>) -> Seq<SessionView> {
    rows.map_values(|w: StoredRow| session_of(w@))
}

/// The sessions that `rows` store, in the same order, or `OutOfRange`
/// exactly when one of them holds a negative duration.
pub fn rows_sessions(rows: &Vec<StoredRow>) -> (r: Result<Vec<Session>, StoreError>)
    ensures
        match r {
            Ok(v) => !has_negative_duration(rows@) && views(v@) == sessions_of(rows@),
            Err(e) => has_negative_duration(rows@) && e is OutOfRange,
        },
{
    let mut v: Vec<Session> = Vec::new();
    let mut i: usize = 0;
    while i < rows.len()
        invariant
            i <= rows.len(),
            forall|k: int| 0 <= k < i ==> (#[trigger] rows@[k])@.duration_secs >= 0,
            views(v@) == sessions_of(rows@.subrange(0, i as int)),
        decreases rows.len() - i,
    {
        let s = match row_session(&rows[i]) {
            Ok(s) => s,
            Err(e) => {
                assert(rows@[i as int]@.duration_secs < 0);
                return Err(e);
            },
        };
        let ghost old_v = v@;
        v.push(s);
        assert(views(v@) =~= views(old_v).push(s@));
        assert(rows@.subrange(0, i + 1) =~= rows@.subrange(0, i as int).push(rows@[i as int]));
        assert(views(v@) =~= sessions_of(rows@.subrange(0, i + 1)));
        i += 1;
    }
    assert(rows@.subrange(0, rows.len() as int) =~= rows@);
    Ok(v)
}

/// The history that `rows` hold: the sessions that start within the
/// inclusive bounds, latest start first; or `OutOfRange` exactly when a row
/// holds a negative duration.
pub fn history_from_rows(rows: &Vec<StoredRow>, start: Option<&str>, end: Option<&str>) -> (r:
    Result<Vec<Session>, StoreError>)
    ensures
        match r {
            Ok(v) => {
                &&& !has_negative_duration(rows@)
                &&& newest_first(views(v@))
                &&& forall|k: int|
                    0 <= k < v@.len() ==> in_range(
                        #[trigger] views(v@)[k],
                        opt_str_view(start),
                        opt_str_view(end),
                    )
                &&& views(v@).to_multiset() == within(
                    sessions_of(rows@),
                    opt_str_view(start),
                    opt_str_view(end),
                ).to_multiset()
            },
            Err(e) => has_negative_duration(rows@) && e is OutOfRange,
        },
{
    let sessions = match rows_sessions(rows) {
        Ok(v) => v,
        Err(e) => return Err(e),
    };
    Ok(select_history(&sessions, start, end))
}

/// The value of a statement argument.
pub enum ArgView {
    Text(Seq<char>),
    Int(i64),
    Null,
}

impl View for SqlArg {
    type V = ArgView;

    open spec fn view(&self) -> ArgView {
        match self {
            SqlArg::Text(t) => ArgView::Text(t@),
            SqlArg::Int(n) => ArgView::Int(*n),
            SqlArg::Null => ArgView::Null,
        }
    }
}

pub open spec fn args_view(v: Seq<SqlArg>) -> Seq<ArgView> {
    v.map_values(|a: SqlArg| a@)
}

pub open spec fn opt_text_arg(o: Option<Seq<char>>) -> ArgView {
    match o {
        Some(t) => ArgView::Text(t),
        None => ArgView::Null,
    }
}

/// A statement and the values of its numbered parameters.
pub struct SqlStatement {
    pub sql: &'static str,
    pub args: Vec<SqlArg>,
}

/// The table of sessions and its indexes on start time and status.
pub const CREATE_SCHEMA: &'static str = "CREATE TABLE IF NOT EXISTS sessions (
                id TEXT PRIMARY KEY NOT NULL,
                label TEXT NOT NULL CHECK(length(label) >= 1 AND length(label) <= 64),
                duration_secs INTEGER NOT NULL CHECK(duration_secs > 0),
                started_at TEXT NOT NULL,
                ended_at TEXT,
                origin TEXT NOT NULL CHECK(origin IN ('Human', 'Agent')),
                status TEXT NOT NULL CHECK(status IN ('Running', 'Completed', 'Stopped'))
            );
            CREATE INDEX IF NOT EXISTS idx_sessions_started_at ON sessions(started_at);
            CREATE INDEX IF NOT EXISTS idx_sessions_status ON sessions(status);";

/// Inserts one row: id, label, duration, start, end, origin, status.
pub const INSERT_SESSION: &'static str = "INSERT INTO sessions (id, label, duration_secs, started_at, ended_at, origin, status) VALUES (?1, ?2, ?3, ?4, ?5, ?6, ?7)";

/// Sets status and end time of the row with the given id.
pub const UPDATE_SESSION: &'static str = "UPDATE sessions SET status = ?1, ended_at = ?2 WHERE id = ?3";

/// Sets status and end time of every row with the given status.
pub const END_BY_STATUS: &'static str = "UPDATE sessions SET status = ?1, ended_at = ?2 WHERE status = ?3";

/// Every row, seven columns each.
pub const SELECT_SESSIONS: &'static str = "SELECT id, label, duration_secs, started_at, ended_at, origin, status FROM sessions";

/// The statement that inserts `row`.
pub fn insert_statement(row: &StoredRow) -> (r: SqlStatement)
    ensures
        r.sql == INSERT_SESSION,
        args_view(r.args@) == seq![
            ArgView::Text(row@.id),
            ArgView::Text(row@.label),
            ArgView::Int(row@.duration_secs),
            ArgView::Text(row@.started_at),
            opt_text_arg(row@.ended_at),
            ArgView::Text(row@.origin),
            ArgView::Text(row@.status),
        ],
{
    let mut args: Vec<SqlArg> = Vec::new();
    args.push(SqlArg::Text(copy_text(&row.id)));
    args.push(SqlArg::Text(copy_text(&row.label)));
    args.push(SqlArg::Int(row.duration_secs));
    args.push(SqlArg::Text(copy_text(&row.started_at)));
    args.push(
        match &row.ended_at {
            Some(t) => SqlArg::Text(copy_text(t)),
            None => SqlArg::Null,
        },
    );
    args.push(SqlArg::Text(copy_text(&row.origin)));
    args.push(SqlArg::Text(copy_text(&row.status)));
    assert(args_view(args@) =~= seq![
        ArgView::Text(row@.id),
        ArgView::Text(row@.label),
        ArgView::Int(row@.duration_secs),
        ArgView::Text(row@.started_at),
        opt_text_arg(row@.ended_at),
        ArgView::Text(row@.origin),
        ArgView::Text(row@.status),
    ]);
    SqlStatement { sql: INSERT_SESSION, args }
}

/// The statement that ends the session `id` with `status` at `ended_at`.
pub fn update_statement(id: &str, status: SessionStatus, ended_at: &str) -> (r: SqlStatement)
    ensures
        r.sql == UPDATE_SESSION,
        args_view(r.args@) == seq![
            ArgView::Text(status_text(status)),
            ArgView::Text(ended_at@),
            ArgView::Text(id@),
        ],
{
    let mut args: Vec<SqlArg> = Vec::new();
    args.push(SqlArg::Text(status_code(status)));
    args.push(SqlArg::Text(ended_at.to_string()));
    args.push(SqlArg::Text(id.to_string()));
    assert(args_view(args@) =~= seq![
        ArgView::Text(status_text(status)),
        ArgView::Text(ended_at@),
        ArgView::Text(id@),
    ]);
    SqlStatement { sql: UPDATE_SESSION, args }
}

/// The statement that marks every `Running` row as `Stopped` at `now`.
pub fn recover_statement(now: &str) -> (r: SqlStatement)
    ensures
        r.sql == END_BY_STATUS,
        args_view(r.args@) == seq![
            ArgView::Text(status_text(SessionStatus::Stopped)),
            ArgView::Text(now@),
            ArgView::Text(status_text(SessionStatus::Running)),
        ],
{
    let mut args: Vec<SqlArg> = Vec::new();
    args.push(SqlArg::Text(status_code(SessionStatus::Stopped)));
    args.push(SqlArg::Text(now.to_string()));
    args.push(SqlArg::Text(status_code(SessionStatus::Running)));
    assert(args_view(args@) =~= seq![
        ArgView::Text(status_text(SessionStatus::Stopped)),
        ArgView::Text(now@),
        ArgView::Text(status_text(SessionStatus::Running)),
    ]);
    SqlStatement { sql: END_BY_STATUS, args }
}

/// Relies on rusqlite's `Connection::open`: opens, or creates, the database file.
#[verifier::external_body]
fn open_file(path: &str) -> (r: Result<rusqlite::Connection, rusqlite::Error>) {
    rusqlite::Connection::open(path)
}

/// Relies on rusqlite's `Connection::open_in_memory`: a fresh, empty database.
#[verifier::external_body]
fn open_memory() -> (r: Result<rusqlite::Connection, rusqlite::Error>) {
    rusqlite::Connection::open_in_memory()
}

/// Relies on rusqlite's `Connection::execute_batch`: runs each statement of `sql`.
#[verifier::external_body]
fn run_batch(conn: &rusqlite::Connection, sql: &str) -> (r: Result<(), rusqlite::Error>) {
    conn.execute_batch(sql)
}

/// Relies on rusqlite's `Connection::execute`: runs `sql` with `args` bound
/// to its numbered parameters, and counts the rows changed.
#[verifier::external_body]
fn run_statement(conn: &rusqlite::Connection, sql: &str, args: Vec<SqlArg>) -> (r: Result<
    usize,
    rusqlite::Error,
>) {
    let values = args.into_iter().map(|a| match a {
        SqlArg::Text(t) => rusqlite::types::Value::Text(t),
        SqlArg::Int(n) => rusqlite::types::Value::Integer(n),
        SqlArg::Null => rusqlite::types::Value::Null,
    });
    conn.execute(sql, rusqlite::params_from_iter(values))
}

/// Relies on rusqlite's `Connection::prepare` and `Statement::query_map`:
/// reads each row of `sql`'s result as seven columns.
#[verifier::external_body]
fn fetch_rows(conn: &rusqlite::Connection, sql: &str) -> (r: Result<Vec<StoredRow>, rusqlite::Error>) {
    let mut stmt = conn.prepare(sql)?;
    let rows = stmt.query_map([], |w| {
        Ok(StoredRow { id: w.get(0)?, label: w.get(1)?, duration_secs: w.get(2)?,
            started_at: w.get(3)?, ended_at: w.get(4)?, origin: w.get(5)?, status: w.get(6)? })
    })?;
    rows.collect()
}

/// The durable, query-able log of every session.
pub struct StateManager {
    conn: rusqlite::Connection,
}

pub open spec fn db_failure<T>(r: Result<T, StoreError>) -> bool {
    r matches Err(StoreError::Database(_))
}

impl StateManager {
    /// Opens, or creates, the store in the database file at `db_path`.
    pub fn new(db_path: &str) -> (r: Result<StateManager, StoreError>)
        ensures
            r is Ok || db_failure(r),
    {
        match open_file(db_path) {
            Ok(conn) => StateManager::with_connection(conn),
            Err(e) => Err(StoreError::Database(e)),
        }
    }

    /// A store in a fresh in-memory database.
    pub fn in_memory() -> (r: Result<StateManager, StoreError>)
        ensures
            r is Ok || db_failure(r),
    {
        match open_memory() {
            Ok(conn) => StateManager::with_connection(conn),
            Err(e) => Err(StoreError::Database(e)),
        }
    }

    fn with_connection(conn: rusqlite::Connection) -> (r: Result<StateManager, StoreError>)
        ensures
            r is Ok || db_failure(r),
    {
        let manager = StateManager { conn };
        match manager.run_migrations() {
            Ok(()) => Ok(manager),
            Err(e) => Err(e),
        }
    }

    /// Runs [`CREATE_SCHEMA`]: the `sessions` table and its indexes, where
    /// they are missing.
    fn run_migrations(&self) -> (r: Result<(), StoreError>)
        ensures
            r is Ok || db_failure(r),
    {
        match run_batch(&self.conn, CREATE_SCHEMA) {
            Ok(()) => Ok(()),
            Err(e) => Err(StoreError::Database(e)),
        }
    }

    /// Runs a statement, counting the rows it changed.
    fn run(&self, st: SqlStatement) -> (r: Result<usize, StoreError>)
        ensures
            r is Ok || db_failure(r),
    {
        match run_statement(&self.conn, st.sql, st.args) {
            Ok(n) => Ok(n),
            Err(e) => Err(StoreError::Database(e)),
        }
    }

    /// Inserts `session` as a new row, by [`insert_statement`] of
    /// [`session_row`]; a session that the table does not accept is refused
    /// with `OutOfRange` before the database is asked.
    pub fn save_session(&self, session: &Session) -> (r: Result<(), StoreError>)
        ensures
            (r matches Err(StoreError::OutOfRange)) <==> !fits_row(session@),
            r is Ok || db_failure(r) || !fits_row(session@),
    {
        let row = match session_row(session) {
            Ok(row) => row,
            Err(e) => return Err(e),
        };
        match self.run(insert_statement(&row)) {
            Ok(_) => Ok(()),
            Err(e) => Err(e),
        }
    }

    /// Sets the status and end time of the session `id`, by
    /// [`update_statement`]; an unknown `id` matches no row.
    pub fn update_session(&self, id: &str, status: &SessionStatus, ended_at: &str) -> (r: Result<
        (),
        StoreError,
    >)
        ensures
            r is Ok || db_failure(r),
    {
        match self.run(update_statement(id, *status, ended_at)) {
            Ok(_) => Ok(()),
            Err(e) => Err(e),
        }
    }

    /// The stored sessions that start within the inclusive bounds that are
    /// given, latest start first: [`history_from_rows`] of the rows that
    /// [`SELECT_SESSIONS`] reads.
    pub fn get_history(&self, start_date: Option<&str>, end_date: Option<&str>) -> (r: Result<
        Vec<Session>,
        StoreError,
    >)
        ensures
            match r {
                Ok(v) => {
                    &&& newest_first(views(v@))
                    &&& forall|k: int|
                        0 <= k < v@.len() ==> in_range(
                            #[trigger] views(v@)[k],
                            opt_str_view(start_date),
                            opt_str_view(end_date),
                        )
                },
                Err(e) => e is Database || e is OutOfRange,
            },
    {
        let rows = match fetch_rows(&self.conn, SELECT_SESSIONS) {
            Ok(rows) => rows,
            Err(e) => return Err(StoreError::Database(e)),
        };
        history_from_rows(&rows, start_date, end_date)
    }

    /// Marks every row still `Running`, left by an unclean shutdown, as
    /// `Stopped` now, by [`recover_statement`], and counts them.
    pub fn cleanup_stale_running(&self) -> (r: Result<usize, StoreError>)
        ensures
            r is Ok || db_failure(r),
    {
        let now = now_text();
        self.run(recover_statement(now.as_str()))
    }
}


/// What the store records for one published event.
pub enum StoreAction {
    /// Save the session that started.
    Insert(Session),
    /// Record how and when the session `id` ended.
    End { id: String, status: SessionStatus, ended_at: String },
    /// Nothing to record.
    Skip,
}

/// The store's part in an event: a start is saved, a completion or a stop
/// with its end time updates the row, a tick is not recorded.
pub fn store_action(event: &TimerEvent) -> (r: StoreAction)
    ensures
        match event@ {
            EventView::Started { session } => r matches StoreAction::Insert(s) && s@ == session,
            EventView::Completed { session } | EventView::Stopped { session } => match session.ended_at {
                Some(t) => r matches StoreAction::End { id, status, ended_at } && id@ == session.id
                    && status == session.status && ended_at@ == t,
                None => r is Skip,
            },
            EventView::Tick { .. } => r is Skip,
        },
{
    match event {
        TimerEvent::Started { session } => StoreAction::Insert(session.snapshot()),
        TimerEvent::Completed { session } | TimerEvent::Stopped { session } => match &session.ended_at {
            Some(t) => StoreAction::End {
                id: copy_text(&session.id),
                status: session.status,
                ended_at: copy_text(t),
            },
            None => StoreAction::Skip,
        },
        TimerEvent::Tick { .. } => StoreAction::Skip,
    }
}

} // verus!
