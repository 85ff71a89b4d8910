//! The type database: the tables it holds, and the records of maps read back
//! from it.
use vstd::prelude::*;
use crate::case::LowerSnakeIdent;
use crate::primitives::_Primitive;

verus! {

/// An open `sqlite` connection, carried through unread.
#[verifier::external_type_specification]
#[verifier::external_body]
pub struct ExConnection(sqlite::Connection);

/// An error as the `sqlite` crate reports one: it carries a result code, a
/// message or both, and a result code it carries is never SQLite's success
/// code `SQLITE_OK` (0).
pub open spec fn reported_failure(code: Option<isize>, message: Option<String>) -> bool {
    &&& code is Some || message is Some
    &&& code matches Some(k) ==> k != 0
}

/// Calls `sqlite::Connection::execute`, which runs one or more statements
/// without reading any rows; an error is handed back as its two public
/// fields, the SQLite result code and the message.
///
/// Trusted: an error is one as the crate reports them (its source builds
/// every error either from a failing SQLite result code, with the last
/// message where SQLite has one, or from a message of its own); a statement
/// holding a NUL character cannot be handed to SQLite and fails. Whether
/// another statement succeeds depends on the database on disk and on
/// SQLite's reading of it, and is not stated.
#[verifier::external_body]
fn execute(conn: &sqlite::Connection, statement: &str) -> (r: Result<(), (Option<isize>, Option<String>)>)
    ensures
        r matches Err(e) ==> reported_failure(e.0, e.1),
        statement@.contains('\0') ==> r is Err,
{
    match conn.execute(statement) {
        Ok(()) => Ok(()),
        Err(e) => Err((e.code, e.message)),
    }
}

/// A prepared `sqlite` statement, carried through unread.
#[verifier::external_type_specification]
#[verifier::external_body]
pub struct ExStatement<'l>(sqlite::Statement<'l>);

/// Calls `sqlite::Connection::prepare`, which compiles one statement.
///
/// Trusted: an error is one as the crate reports them, and a statement
/// holding a NUL character fails; whether another statement compiles depends
/// on the database's schema and on SQLite's reading of it, and is not stated.
#[verifier::external_body]
fn prepare<'a>(conn: &'a sqlite::Connection, statement: &str) -> (r: Result<
    sqlite::Statement<'a>,
    (Option<isize>, Option<String>),
>)
    requires
        is_library_query(statement@),
    ensures
        r matches Err(e) ==> reported_failure(e.0, e.1),
        statement@.contains('\0') ==> r is Err,
{
    match conn.prepare(statement) {
        Ok(s) => Ok(s),
        Err(e) => Err((e.code, e.message)),
    }
}

/// Calls `sqlite::Statement::bind` with a text value for the parameter at
/// `index` (the first parameter has index 1).
///
/// Trusted: an error is one as the crate reports them, and index 0 fails
/// (parameters are counted from 1); whether another index can be bound
/// depends on the statement and is not stated, nor is the statement
/// afterwards.
#[verifier::external_body]
fn bind_text(statement: &mut sqlite::Statement, index: usize, value: &str) -> (r: Result<
    (),
    (Option<isize>, Option<String>),
>)
    ensures
        r matches Err(e) ==> reported_failure(e.0, e.1),
        index == 0 ==> r is Err,
{
    match statement.bind((index, value)) {
        Ok(()) => Ok(()),
        Err(e) => Err((e.code, e.message)),
    }
}

/// Calls `sqlite::Statement::next`, which steps the statement: `true` when a
/// row is available to read (`State::Row`), `false` when the statement is
/// done (`State::Done`).
///
/// Trusted: an error is one as the crate reports them; which outcome comes
/// depends on the database and is not stated.
#[verifier::external_body]
fn next_row(statement: &mut sqlite::Statement) -> (r: Result<bool, (Option<isize>, Option<String>)>)
    ensures
        r matches Err(e) ==> reported_failure(e.0, e.1),
{
    match statement.next() {
        Ok(sqlite::State::Row) => Ok(true),
        Ok(sqlite::State::Done) => Ok(false),
        Err(e) => Err((e.code, e.message)),
    }
}

/// Calls `sqlite::Statement::read` for the text in column `column` of the
/// current row (the first column has index 0).
///
/// Trusted: an error is one as the crate reports them; the text read
/// depends on the database and is not stated.
#[verifier::external_body]
fn read_text(statement: &sqlite::Statement, column: usize) -> (r: Result<String, (Option<isize>, Option<String>)>)
    ensures
        r matches Err(e) ==> reported_failure(e.0, e.1),
{
    match statement.read::<String, usize>(column) {
        Ok(text) => Ok(text),
        Err(e) => Err((e.code, e.message)),
    }
}

/// `c` is a lower-case hexadecimal digit.
pub open spec fn is_lower_hex(c: char) -> bool {
    ('0' <= c <= '9') || ('a' <= c <= 'f')
}

/// `s` is the text of a random (version 4, RFC 4122 variant) identifier in
/// its lower-case hyphenated form: 36 characters, hyphens at positions 8, 13,
/// 18 and 23, lower-case hexadecimal digits elsewhere, the version digit `4`
/// at position 14 and a variant digit `8`, `9`, `a` or `b` at position 19.
pub open spec fn is_v4_uuid_text(s: Seq<char>) -> bool {
    &&& s.len() == 36
    &&& forall|i: int|
        0 <= i < 36 ==> if i == 8 || i == 13 || i == 18 || i == 23 {
            #[trigger] s[i] == '-'
        } else {
            is_lower_hex(s[i])
        }
    &&& s[14] == '4'
    &&& s[19] == '8' || s[19] == '9' || s[19] == 'a' || s[19] == 'b'
}

/// Calls `uuid::Uuid::new_v4` and formats the identifier in its hyphenated
/// form.
///
/// Trusted: the bits are random and not stated; the form is, as the crate's
/// source builds it: `new_v4` sets the version bits to 4 and the variant bits
/// to RFC 4122, and `Display` writes the lower-case hyphenated form.
#[verifier::external_body]
fn new_uuid() -> (r: String)
    ensures
        is_v4_uuid_text(r@),
{
    uuid::Uuid::new_v4().to_string()
}

/// An error of the type database.
#[derive(Debug, Clone)]
pub enum DbError {
    /// SQLite refused a statement or could not run it, with its result code
    /// and message where it gave them.
    Sqlite { code: Option<isize>, message: Option<String> },
}

impl DbError {
    /// The error is one SQLite reported: see `reported_failure`.
    pub open spec fn is_reported(&self) -> bool {
        match *self {
            DbError::Sqlite { code, message } => reported_failure(code, message),
        }
    }
}

/// A call handed to SQLite, with its outcome.
pub enum SqlCall {
    /// A statement run without reading rows, and whether it succeeded.
    Execute { statement: Seq<char>, ok: bool },
    /// A statement prepared for reading, and whether it compiled.
    Prepare { statement: Seq<char>, ok: bool },
    /// A text bound to the parameter at `index` of the prepared statement.
    Bind { index: usize, value: Seq<char>, ok: bool },
    /// A step of the prepared statement: a row (`Some(true)`), done
    /// (`Some(false)`), or a failure (`None`).
    Step { row: Option<bool> },
    /// The text of column `column` of the current row, or a failure.
    Read { column: usize, text: Option<Seq<char>> },
}

/// The call succeeded.
pub open spec fn call_ok(c: SqlCall) -> bool {
    match c {
        SqlCall::Execute { ok, .. } => ok,
        SqlCall::Prepare { ok, .. } => ok,
        SqlCall::Bind { ok, .. } => ok,
        SqlCall::Step { row } => row is Some,
        SqlCall::Read { text, .. } => text is Some,
    }
}

/// The call is the planned one, whatever its outcome.
pub open spec fn as_planned(c: SqlCall, p: SqlCall) -> bool {
    match (c, p) {
        (SqlCall::Execute { statement: a, .. }, SqlCall::Execute { statement: b, .. }) => a == b,
        (SqlCall::Prepare { statement: a, .. }, SqlCall::Prepare { statement: b, .. }) => a == b,
        (SqlCall::Bind { index: i, value: v, .. }, SqlCall::Bind { index: j, value: w, .. }) => i == j
            && v == w,
        (SqlCall::Step { .. }, SqlCall::Step { .. }) => true,
        (SqlCall::Read { column: i, .. }, SqlCall::Read { column: j, .. }) => i == j,
        _ => false,
    }
}

/// The outcome of `calls` as a run of `plan` that stops at the first
/// failure: `Some(true)` when every planned call was made and succeeded,
/// `Some(false)` when the planned calls were made up to one that failed,
/// `None` when `calls` are not such a run.
pub open spec fn chain_result(calls: Seq<SqlCall>, plan: Seq<SqlCall>) -> Option<bool> {
    if !(0 < calls.len() <= plan.len()) {
        None
    } else if !(forall|i: int| 0 <= i < calls.len() ==> #[trigger] as_planned(calls[i], plan[i])) {
        None
    } else if !(forall|i: int| 0 <= i < calls.len() - 1 ==> #[trigger] call_ok(calls[i])) {
        None
    } else if call_ok(calls.last()) {
        if calls.len() == plan.len() {
            Some(true)
        } else {
            None
        }
    } else {
        Some(false)
    }
}

/// The statements of the maps table: `DROP_MAPS` and `CREATE_MAPS`, run in
/// turn.
pub open spec fn run_plan(first: Seq<char>, second: Seq<char>) -> Seq<SqlCall> {
    seq![SqlCall::Execute { statement: first, ok: true }, SqlCall::Execute { statement: second, ok: true }]
}

/// The calls of a lookup of `name` with `statement`: prepare it, bind the
/// name to its first parameter, step once.
pub open spec fn lookup_plan(statement: Seq<char>, name: Seq<char>) -> Seq<SqlCall> {
    seq![
        SqlCall::Prepare { statement, ok: true },
        SqlCall::Bind { index: 1, value: name, ok: true },
        SqlCall::Step { row: Some(true) },
    ]
}

/// The outcome of `calls` as a lookup of `name` with `statement`, which
/// reads column 0 when a row came: `Ok(Some(text))` for the text read,
/// `Ok(None)` when no row came, `Err(())` on a failure, and `None` when
/// `calls` are not such a lookup.
pub open spec fn lookup_outcome(calls: Seq<SqlCall>, statement: Seq<char>, name: Seq<char>) -> Option<
    Result<Option<Seq<char>>, ()>,
> {
    let plan = lookup_plan(statement, name);
    if calls.len() <= 3 {
        match chain_result(calls, plan) {
            Some(false) => Some(Err(())),
            Some(true) => if calls[2] == (SqlCall::Step { row: Some(false) }) {
                Some(Ok(None))
            } else {
                None
            },
            None => None,
        }
    } else if calls.len() == 4 && chain_result(calls.take(3), plan) == Some(true) && calls[2] == (
    SqlCall::Step { row: Some(true) }) {
        match calls[3] {
            SqlCall::Read { column, text } => if column != 0 {
                None
            } else {
                match text {
                    Some(t) => Some(Ok(Some(t))),
                    None => Some(Err(())),
                }
            },
            _ => None,
        }
    } else {
        None
    }
}

/// The calls that record a primitive: prepare `INSERT_PRIMITIVE`, bind the
/// identifier, the name and the span to its three parameters, step once.
pub open spec fn insert_plan(uuid: Seq<char>, name: Seq<char>, span: Seq<char>) -> Seq<SqlCall> {
    seq![
        SqlCall::Prepare { statement: INSERT_PRIMITIVE@, ok: true },
        SqlCall::Bind { index: 1, value: uuid, ok: true },
        SqlCall::Bind { index: 2, value: name, ok: true },
        SqlCall::Bind { index: 3, value: span, ok: true },
        SqlCall::Step { row: Some(true) },
    ]
}

/// `calls` record the primitive `name` as `add_primitive_if_not_exists`
/// does, with the outcome `out` (the identifier and name returned, or a
/// failure): a lookup of the name with `SELECT_PRIMITIVE`; when it read an
/// identifier, that identifier; when no row came, an insert of a fresh
/// identifier with the name and `span`, giving that identifier when it
/// succeeded (a fresh identifier is a random one in its hyphenated text
/// form); a failure anywhere stops the calls and fails.
pub open spec fn adds_primitive(
    calls: Seq<SqlCall>,
    name: Seq<char>,
    span: Seq<char>,
    out: Result<(Seq<char>, Seq<char>), ()>,
) -> bool {
    ||| match lookup_outcome(calls, SELECT_PRIMITIVE@, name) {
        Some(Ok(Some(u))) => out == Ok::<(Seq<char>, Seq<char>), ()>((u, name)),
        Some(Err(())) => out is Err,
        _ => false,
    }
    ||| {
        &&& calls.len() > 3
        &&& lookup_outcome(calls.take(3), SELECT_PRIMITIVE@, name) == Some(
            Ok::<Option<Seq<char>>, ()>(None),
        )
        &&& match out {
            Ok((u, n)) => n == name && is_v4_uuid_text(u) && chain_result(
                calls.skip(3),
                insert_plan(u, name, span),
            ) == Some(true),
            Err(()) => exists|u: Seq<char>|
                chain_result(calls.skip(3), insert_plan(u, name, span)) == Some(false),
        }
    }
}

/// The type database, over an open connection, with the calls handed to
/// SQLite through it so far.
pub struct TypeDb {
    conn: sqlite::Connection,
    calls: Ghost<Seq<SqlCall>>,
}

/// The statement that removes the maps table.
pub const DROP_MAPS: &'static str = "DROP TABLE IF EXISTS maps";

/// The statement that creates the maps table.
pub const CREATE_MAPS: &'static str = "CREATE TABLE maps (
                uuid TEXT NOT NULL PRIMARY KEY,     // Unique identifier
                ident TEXT NOT NULL,                // Map identifier
                span TEXT NOT NULL                  // Span information (only the ident)
            )";

/// The statement that removes the primitives table.
pub const DROP_PRIMITIVES: &'static str = "DROP TABLE IF EXISTS primitives";

/// The statement that creates the primitives table.
pub const CREATE_PRIMITIVES: &'static str = "CREATE TABLE primitives (
                uuid TEXT NOT NULL PRIMARY KEY,     // Unique identifier
                ident TEXT NOT NULL,                // Primitive identifier
                span TEXT NOT NULL                  // Span information
            )";

/// The statement that finds a primitive's identifier by its name; its one
/// result column is named by an alias.
pub const SELECT_PRIMITIVE_UUID: &'static str = "SELECT uuid AS uuid FROM primitives WHERE ident = ?";

/// The statement that finds a primitive by its name; each result column is
/// named by an alias.
pub const SELECT_PRIMITIVE: &'static str = "SELECT uuid AS uuid, ident AS ident, span AS span FROM primitives WHERE ident = ?";

/// The statement that records a primitive.
pub const INSERT_PRIMITIVE: &'static str = "INSERT INTO primitives (uuid, ident, span) VALUES (?, ?, ?)";

/// The statements that the library prepares for reading. Each names its
/// result columns by ASCII aliases, or has none.
pub open spec fn is_library_query(s: Seq<char>) -> bool {
    s == SELECT_PRIMITIVE_UUID@ || s == SELECT_PRIMITIVE@ || s == INSERT_PRIMITIVE@
}

/// `new` is `old` with calls appended.
pub open spec fn extends(new: Seq<SqlCall>, old: Seq<SqlCall>) -> bool {
    new.len() >= old.len() && new.take(old.len() as int) == old
}

/// The database error made of what SQLite reported.
fn sqlite_error(e: (Option<isize>, Option<String>)) -> (r: DbError)
    ensures
        r == (DbError::Sqlite { code: e.0, message: e.1 }),
{
    let (code, message) = e;
    DbError::Sqlite { code, message }
}

/// Runs `statement`, recording the call.
fn run_logged(conn: &sqlite::Connection, calls: &mut Ghost<Seq<SqlCall>>, statement: &str) -> (r:
    Result<(), DbError>)
    ensures
        final(calls)@ == old(calls)@.push(SqlCall::Execute { statement: statement@, ok: r is Ok }),
        r matches Err(e) ==> e.is_reported(),
        statement@.contains('\0') ==> r is Err,
{
    let r = execute(conn, statement);
    *calls = Ghost(calls@.push(SqlCall::Execute { statement: statement@, ok: r is Ok }));
    match r {
        Ok(()) => Ok(()),
        Err(e) => Err(sqlite_error(e)),
    }
}

/// Prepares one of the library's statements, recording the call.
fn prepare_logged<'a>(conn: &'a sqlite::Connection, calls: &mut Ghost<Seq<SqlCall>>, statement: &str) -> (r:
    Result<sqlite::Statement<'a>, DbError>)
    requires
        is_library_query(statement@),
    ensures
        final(calls)@ == old(calls)@.push(SqlCall::Prepare { statement: statement@, ok: r is Ok }),
        r matches Err(e) ==> e.is_reported(),
{
    let r = prepare(conn, statement);
    *calls = Ghost(calls@.push(SqlCall::Prepare { statement: statement@, ok: r is Ok }));
    match r {
        Ok(s) => Ok(s),
        Err(e) => Err(sqlite_error(e)),
    }
}

/// Binds a text to a parameter, recording the call.
fn bind_logged(statement: &mut sqlite::Statement, calls: &mut Ghost<Seq<SqlCall>>, index: usize, value: &str) -> (r:
    Result<(), DbError>)
    ensures
        final(calls)@ == old(calls)@.push(SqlCall::Bind { index, value: value@, ok: r is Ok }),
        r matches Err(e) ==> e.is_reported(),
{
    let r = bind_text(statement, index, value);
    *calls = Ghost(calls@.push(SqlCall::Bind { index, value: value@, ok: r is Ok }));
    match r {
        Ok(()) => Ok(()),
        Err(e) => Err(sqlite_error(e)),
    }
}

/// Steps a statement, recording the call.
fn step_logged(statement: &mut sqlite::Statement, calls: &mut Ghost<Seq<SqlCall>>) -> (r: Result<
    bool,
    DbError,
>)
    ensures
        final(calls)@ == old(calls)@.push(
            SqlCall::Step {
                row: match r {
                    Ok(b) => Some(b),
                    Err(_) => None,
                },
            },
        ),
        r matches Err(e) ==> e.is_reported(),
{
    let r = next_row(statement);
    *calls = Ghost(
        calls@.push(
            SqlCall::Step {
                row: match r {
                    Ok(b) => Some(b),
                    Err(_) => None,
                },
            },
        ),
    );
    match r {
        Ok(b) => Ok(b),
        Err(e) => Err(sqlite_error(e)),
    }
}

/// Reads the text of a column, recording the call.
fn read_logged(statement: &sqlite::Statement, calls: &mut Ghost<Seq<SqlCall>>, column: usize) -> (r: Result<
    String,
    DbError,
>)
    ensures
        final(calls)@ == old(calls)@.push(
            SqlCall::Read {
                column,
                text: match r {
                    Ok(t) => Some(t@),
                    Err(_) => None,
                },
            },
        ),
        r matches Err(e) ==> e.is_reported(),
{
    let r = read_text(statement, column);
    *calls = Ghost(
        calls@.push(
            SqlCall::Read { column, text: if r is Ok { Some(r->Ok_0@) } else { None } },
        ),
    );
    match r {
        Ok(t) => Ok(t),
        Err(e) => Err(sqlite_error(e)),
    }
}

/// Runs `first` and, if it succeeded, `second`; the first failure is
/// returned.
fn execute_both(conn: &sqlite::Connection, calls: &mut Ghost<Seq<SqlCall>>, first: &str, second: &str) -> (r:
    Result<(), DbError>)
    ensures
        extends(final(calls)@, old(calls)@),
        chain_result(final(calls)@.skip(old(calls)@.len() as int), run_plan(first@, second@)) == Some(
            r is Ok,
        ),
        r matches Err(e) ==> e.is_reported(),
        first@.contains('\0') || second@.contains('\0') ==> r is Err,
{
    let ghost start = calls@;
    let r = match run_logged(conn, calls, first) {
        Err(e) => Err(e),
        Ok(()) => run_logged(conn, calls, second),
    };
    proof {
        let added = calls@.skip(start.len() as int);
        assert(calls@.take(start.len() as int) =~= start);
        if added.len() == 1 {
            assert(added =~= seq![SqlCall::Execute { statement: first@, ok: false }]);
        } else {
            assert(added =~= seq![
                SqlCall::Execute { statement: first@, ok: true },
                SqlCall::Execute { statement: second@, ok: r is Ok },
            ]);
            assert(as_planned(added[0], run_plan(first@, second@)[0]));
            assert(as_planned(added[1], run_plan(first@, second@)[1]));
        }
    }
    r
}

impl TypeDb {
    /// The database over an open connection; no call has been made through
    /// it yet.
    pub fn from_connection(conn: sqlite::Connection) -> (db: TypeDb)
        ensures
            db.connection() == conn,
            db.calls() == Seq::<SqlCall>::empty(),
    {
        TypeDb { conn, calls: Ghost(Seq::empty()) }
    }

    /// The connection the database works over.
    pub closed spec fn connection(&self) -> sqlite::Connection {
        self.conn
    }

    /// The calls handed to SQLite through the database so far, in order,
    /// with their outcomes.
    pub closed spec fn calls(&self) -> Seq<SqlCall> {
        self.calls@
    }

    /// Replaces the maps table with an empty one: runs `DROP_MAPS`, then,
    /// only if that succeeded, `CREATE_MAPS`; it succeeds when both did.
    /// Whether they succeed rests on the database; a failure is the one
    /// SQLite reported.
    pub fn new_maps(&mut self) -> (r: Result<(), DbError>)
        ensures
            final(self).connection() == old(self).connection(),
            extends(final(self).calls(), old(self).calls()),
            chain_result(
                final(self).calls().skip(old(self).calls().len() as int),
                run_plan(DROP_MAPS@, CREATE_MAPS@),
            ) == Some(r is Ok),
            r matches Err(e) ==> e.is_reported(),
    {
        execute_both(&self.conn, &mut self.calls, DROP_MAPS, CREATE_MAPS)
    }

    /// Replaces the primitives table with an empty one: runs
    /// `DROP_PRIMITIVES`, then, only if that succeeded, `CREATE_PRIMITIVES`;
    /// it succeeds when both did. Whether they succeed rests on the database;
    /// a failure is the one SQLite reported.
    pub fn new_primitives(&mut self) -> (r: Result<(), DbError>)
        ensures
            final(self).connection() == old(self).connection(),
            extends(final(self).calls(), old(self).calls()),
            chain_result(
                final(self).calls().skip(old(self).calls().len() as int),
                run_plan(DROP_PRIMITIVES@, CREATE_PRIMITIVES@),
            ) == Some(r is Ok),
            r matches Err(e) ==> e.is_reported(),
    {
        execute_both(&self.conn, &mut self.calls, DROP_PRIMITIVES, CREATE_PRIMITIVES)
    }

    /// The identifier recorded for the primitive, looked up by its name with
    /// `SELECT_PRIMITIVE_UUID`: the text of the first row's column, or `None`
    /// when no row matches. What is recorded rests on the database; a
    /// failure is the one SQLite reported.
    pub fn get_primitive_uuid(&mut self, prim: &_Primitive) -> (r: Result<Option<String>, DbError>)
        ensures
            final(self).connection() == old(self).connection(),
            extends(final(self).calls(), old(self).calls()),
            lookup_outcome(
                final(self).calls().skip(old(self).calls().len() as int),
                SELECT_PRIMITIVE_UUID@,
                prim.name(),
            ) == Some(
                match r {
                    Ok(Some(u)) => Ok::<Option<Seq<char>>, ()>(Some(u@)),
                    Ok(None) => Ok::<Option<Seq<char>>, ()>(None),
                    Err(_) => Err::<Option<Seq<char>>, ()>(()),
                },
            ),
            r matches Err(e) ==> e.is_reported(),
    {
        let ghost start = self.calls@;
        let r = lookup(&self.conn, &mut self.calls, SELECT_PRIMITIVE_UUID, prim.ident.0.as_str());
        r
    }

    /// The primitive named `lower_ident` as recorded: looked up by its name
    /// with `SELECT_PRIMITIVE`; when a row comes, with the identifier read
    /// from its first column; when none does, recorded with
    /// `INSERT_PRIMITIVE`, a fresh random identifier and `span` (the text of
    /// where the name was written), and returned with that identifier. The
    /// primitive returned carries the name given; a failure anywhere is the
    /// one SQLite reported.
    pub fn add_primitive_if_not_exists(&mut self, lower_ident: LowerSnakeIdent, span: &str) -> (r: Result<
        DbPrimitive,
        DbError,
    >)
        ensures
            final(self).connection() == old(self).connection(),
            extends(final(self).calls(), old(self).calls()),
            adds_primitive(
                final(self).calls().skip(old(self).calls().len() as int),
                lower_ident.0@,
                span@,
                match r {
                    Ok(p) => Ok::<(Seq<char>, Seq<char>), ()>((p.uuid@, p.ident@)),
                    Err(_) => Err::<(Seq<char>, Seq<char>), ()>(()),
                },
            ),
            r matches Ok(p) ==> p.ident@ == lower_ident.0@,
            r matches Err(e) ==> e.is_reported(),
    {
        let ghost start = self.calls@;
        let ident_str = lower_ident.0;
        let found = lookup(&self.conn, &mut self.calls, SELECT_PRIMITIVE, ident_str.as_str());
        let ghost mid = self.calls@;
        match found {
            Err(e) => Err(e),
            Ok(Some(uuid)) => Ok(DbPrimitive { uuid, ident: ident_str }),
            Ok(None) => {
                let uuid = new_uuid();
                let r = insert(&self.conn, &mut self.calls, uuid.as_str(), ident_str.as_str(), span);
                proof {
                    let added = self.calls@.skip(start.len() as int);
                    assert(mid.take(start.len() as int) =~= start);
                    assert(self.calls@.take(mid.len() as int) =~= mid);
                    assert(self.calls@.take(start.len() as int) =~= start);
                    assert(added.take(3) =~= mid.skip(start.len() as int));
                    assert(added.skip(3) =~= self.calls@.skip(mid.len() as int));
                    if r is Err {
                        assert(chain_result(added.skip(3), insert_plan(uuid@, ident_str@, span@)) == Some(false));
                    }
                }
                match r {
                    Ok(()) => Ok(DbPrimitive { uuid, ident: ident_str }),
                    Err(e) => Err(e),
                }
            },
        }
    }
}

/// Looks `name` up with `statement`: prepares it, binds the name to its
/// first parameter, steps once and, when a row came, reads column 0.
fn lookup(conn: &sqlite::Connection, calls: &mut Ghost<Seq<SqlCall>>, statement: &str, name: &str) -> (r:
    Result<Option<String>, DbError>)
    requires
        is_library_query(statement@),
    ensures
        extends(final(calls)@, old(calls)@),
        lookup_outcome(final(calls)@.skip(old(calls)@.len() as int), statement@, name@) == Some(
            match r {
                Ok(Some(u)) => Ok::<Option<Seq<char>>, ()>(Some(u@)),
                Ok(None) => Ok::<Option<Seq<char>>, ()>(None),
                Err(_) => Err::<Option<Seq<char>>, ()>(()),
            },
        ),
        r matches Err(e) ==> e.is_reported(),
{
    let ghost start = calls@;
    let ghost plan = lookup_plan(statement@, name@);
    let r = match prepare_logged(conn, calls, statement) {
        Err(e) => Err(e),
        Ok(mut st) => match bind_logged(&mut st, calls, 1, name) {
            Err(e) => Err(e),
            Ok(()) => match step_logged(&mut st, calls) {
                Err(e) => Err(e),
                Ok(false) => Ok(None),
                Ok(true) => match read_logged(&st, calls, 0) {
                    Ok(t) => Ok(Some(t)),
                    Err(e) => Err(e),
                },
            },
        },
    };
    proof {
        let added = calls@.skip(start.len() as int);
        assert(calls@.take(start.len() as int) =~= start);
        assert forall|i: int| 0 <= i < added.len() && i < 3 implies #[trigger] as_planned(added[i], plan[i]) by {}
        if added.len() == 4 {
            assert(added.take(3).len() == 3);
            assert forall|i: int| 0 <= i < 3 implies #[trigger] as_planned(added.take(3)[i], plan[i]) by {
                assert(added.take(3)[i] == added[i]);
            }
        }
    }
    r
}

/// Records a primitive with `INSERT_PRIMITIVE`: prepares it, binds the
/// identifier, the name and the span, steps once.
fn insert(conn: &sqlite::Connection, calls: &mut Ghost<Seq<SqlCall>>, uuid: &str, name: &str, span: &str) -> (r:
    Result<(), DbError>)
    ensures
        extends(final(calls)@, old(calls)@),
        chain_result(final(calls)@.skip(old(calls)@.len() as int), insert_plan(uuid@, name@, span@))
            == Some(r is Ok),
        r matches Err(e) ==> e.is_reported(),
{
    let ghost start = calls@;
    let ghost plan = insert_plan(uuid@, name@, span@);
    let r = match prepare_logged(conn, calls, INSERT_PRIMITIVE) {
        Err(e) => Err(e),
        Ok(mut st) => match bind_logged(&mut st, calls, 1, uuid) {
            Err(e) => Err(e),
            Ok(()) => match bind_logged(&mut st, calls, 2, name) {
                Err(e) => Err(e),
                Ok(()) => match bind_logged(&mut st, calls, 3, span) {
                    Err(e) => Err(e),
                    Ok(()) => match step_logged(&mut st, calls) {
                        Err(e) => Err(e),
                        Ok(_) => Ok(()),
                    },
                },
            },
        },
    };
    proof {
        let added = calls@.skip(start.len() as int);
        assert(calls@.take(start.len() as int) =~= start);
        assert forall|i: int| 0 <= i < added.len() implies #[trigger] as_planned(added[i], plan[i]) by {}
    }
    r
}

/// A primitive type as recorded in the database.
#[derive(Debug, Clone)]
pub struct DbPrimitive {
    pub uuid: String,
    pub ident: String,
}

/// The input and output types of one argument of a recorded map.
#[derive(Debug, Clone)]
pub struct DbInOut {
    pub input: Option<DbPrimitive>,
    pub output: Option<DbPrimitive>,
}

/// A map as recorded in the database: its name, its source text and its
/// argument types.
#[derive(Debug, Clone)]
pub struct DbMap {
    pub uuid: String,
    pub ident: String,
    pub content: String,
    pub in_outs: Vec<DbInOut>,
}

} // verus!
