//! Narrow capabilities of a data store. A function asks for the ones it
//! uses: a copy needs to query one store and execute on another, a backup
//! needs to query inside a transaction. No store has to offer more than it can.
use vstd::prelude::*;

verus! {

/// Can answer a query with rows.
pub trait Queryable {
    /// Whether `rows` is an answer this store may give to `sql`.
    spec fn may_answer(&self, sql: Seq<char>, rows: Seq<String>) -> bool;

    /// Whether this store may fail to answer `sql`, with `error`.
    spec fn may_fail(&self, sql: Seq<char>, error: Seq<char>) -> bool;

    fn query(&self, sql: &str) -> (res: Result<Vec<String>, String>)
        ensures
            res matches Ok(rows) ==> self.may_answer(sql@, rows@),
            res matches Err(error) ==> self.may_fail(sql@, error@),
    ;
}

/// Can carry out a command.
pub trait Executable {
    /// The commands carried out so far, oldest first.
    spec fn executed(&self) -> Seq<Seq<char>>;

    /// Whether this store, as it stands, may refuse `command` with `error`.
    spec fn may_refuse(&self, command: Seq<char>, error: Seq<char>) -> bool;

    /// Carries out `command`. A command reported as done is the latest of
    /// the commands carried out.
    fn execute(&mut self, command: &str) -> (res: Result<(), String>)
        ensures
            res is Ok ==> final(self).executed() == old(self).executed().push(command@),
            res matches Err(error) ==> old(self).may_refuse(command@, error@),
    ;
}

/// Can open a transaction.
pub trait Transactional {
    /// Whether opening a transaction may turn this store into `after`.
    spec fn may_become(&self, after: &Self) -> bool;

    /// Whether this store, as it stands, may refuse to open a transaction,
    /// with `error`.
    spec fn may_stay_closed(&self, error: Seq<char>) -> bool;

    fn begin_transaction(&mut self) -> (res: Result<Transaction, String>)
        ensures
            res is Ok ==> old(self).may_become(final(self)),
            res matches Err(error) ==> old(self).may_stay_closed(error@),
    ;
}

/// A transaction that is open until it is committed.
pub struct Transaction;

impl Transaction {
    /// Ends the transaction. Nothing can make it fail.
    pub fn commit(self) -> (res: Result<(), String>)
        ensures
            res is Ok,
    {
        Ok(())
    }
}

/// The rows that `DatabaseConnection` answers every query with.
pub open spec fn sample_rows(rows: Seq<String>) -> bool {
    rows.len() == 2 && rows[0]@ == "row1"@ && rows[1]@ == "row2"@
}

/// Stands for a connection to a database: it answers every query with the
/// same two rows and opens a transaction whenever asked.
pub struct DatabaseConnection;

impl Queryable for DatabaseConnection {
    open spec fn may_answer(&self, sql: Seq<char>, rows: Seq<String>) -> bool {
        sample_rows(rows)
    }

    /// This connection answers every query.
    open spec fn may_fail(&self, sql: Seq<char>, error: Seq<char>) -> bool {
        false
    }

    fn query(&self, sql: &str) -> (res: Result<Vec<String>, String>)
        ensures
            res is Ok,
    {
        let mut rows: Vec<String> = Vec::new();
        rows.push("row1".to_owned());
        rows.push("row2".to_owned());
        Ok(rows)
    }
}

impl Transactional for DatabaseConnection {
    /// Opening a transaction leaves the connection as it was.
    open spec fn may_become(&self, after: &Self) -> bool {
        *after == *self
    }

    /// This connection opens a transaction whenever asked.
    open spec fn may_stay_closed(&self, error: Seq<char>) -> bool {
        false
    }

    fn begin_transaction(&mut self) -> (res: Result<Transaction, String>)
        ensures
            res is Ok,
    {
        Ok(Transaction)
    }
}

/// A copy of `rows`.
pub fn copy_rows(rows: &Vec<String>) -> (res: Vec<String>)
    ensures
        res@ == rows@,
{
    let n = rows.len();
    let mut out: Vec<String> = Vec::new();
    let mut i: usize = 0;
    while i < n
        invariant
            i <= n,
            n == rows@.len(),
            out@ == rows@.take(i as int),
        decreases n - i,
    {
        out.push(rows[i].clone());
        i = i + 1;
    }
    out
}

/// The texts of `rows`, in order.
pub open spec fn texts(rows: Seq<String>) -> Seq<Seq<char>> {
    Seq::new(rows.len(), |i: int| rows[i]@)
}

/// A store that keeps its rows in memory: a query answers with all of them,
/// and a command becomes a row.
pub struct MemoryStorage {
    pub data: Vec<String>,
}

impl Queryable for MemoryStorage {
    open spec fn may_answer(&self, sql: Seq<char>, rows: Seq<String>) -> bool {
        rows == self.data@
    }

    /// This store answers every query.
    open spec fn may_fail(&self, sql: Seq<char>, error: Seq<char>) -> bool {
        false
    }

    fn query(&self, _sql: &str) -> (res: Result<Vec<String>, String>)
        ensures
            res is Ok,
    {
        Ok(copy_rows(&self.data))
    }
}

impl Executable for MemoryStorage {
    open spec fn executed(&self) -> Seq<Seq<char>> {
        texts(self.data@)
    }

    /// This store refuses no command.
    open spec fn may_refuse(&self, command: Seq<char>, error: Seq<char>) -> bool {
        false
    }

    fn execute(&mut self, command: &str) -> (res: Result<(), String>)
        ensures
            res is Ok,
    {
        self.data.push(command.to_owned());
        Ok(())
    }
}

/// The command that inserts `row`.
pub open spec fn insert_text(row: Seq<char>) -> Seq<char> {
    "INSERT INTO table VALUES ("@ + row + ")"@
}

/// The commands that insert `rows`, one command for each row, in order.
pub open spec fn insert_texts(rows: Seq<String>) -> Seq<Seq<char>> {
    Seq::new(rows.len(), |i: int| insert_text(rows[i]@))
}

/// Writes `insert_text`.
pub fn insert_command(row: &str) -> (res: String)
    ensures
        res@ == insert_text(row@),
{
    "INSERT INTO table VALUES (".to_owned().concat(row).concat(")")
}

/// The insertion of `rows` into a store that began as `before` may stop at
/// the row `at` with `error`: `mid`, a store that has carried out the
/// commands of `before` and those of the rows ahead of `at`, may refuse the
/// command of that row with that error.
pub open spec fn stops_at<C: Executable>(
    before: C,
    rows: Seq<String>,
    error: Seq<char>,
    at: int,
    mid: C,
) -> bool {
    &&& 0 <= at < rows.len()
    &&& mid.executed() == before.executed() + insert_texts(rows.take(at))
    &&& mid.may_refuse(insert_text(rows[at]@), error)
}

/// The insertion of `rows` into a store that began as `before` may stop
/// with `error` at one of the rows.
pub open spec fn insertion_may_stop<C: Executable>(
    before: C,
    rows: Seq<String>,
    error: Seq<char>,
) -> bool {
    exists|at: int, mid: C| #[trigger] stops_at(before, rows, error, at, mid)
}

/// Inserts `rows` into `dest`, one command for each row, in order. Where
/// `dest` carries out every command, each row is inserted; the first command
/// that `dest` refuses ends the insertion with the error of the refusal.
/// Without rows nothing is asked of `dest`, and nothing can fail.
pub fn insert_rows<C: Executable>(dest: &mut C, rows: &Vec<String>) -> (res: Result<(), String>)
    ensures
        match res {
            Ok(_) => final(dest).executed() == old(dest).executed() + insert_texts(rows@),
            Err(error) => insertion_may_stop(*old(dest), rows@, error@),
        },
{
    let n = rows.len();
    let mut i: usize = 0;
    while i < n
        invariant
            i <= n,
            n == rows@.len(),
            dest.executed() == old(dest).executed() + insert_texts(rows@.take(i as int)),
        decreases n - i,
    {
        let ghost mid = *dest;
        let cmd = insert_command(rows[i].as_str());
        match dest.execute(cmd.as_str()) {
            Ok(_) => {},
            Err(error) => {
                assert(stops_at(*old(dest), rows@, error@, i as int, mid));
                return Err(error);
            },
        }
        assert(insert_texts(rows@.take(i + 1)) =~= insert_texts(rows@.take(i as int)).push(
            insert_text(rows@[i as int]@),
        ));
        i = i + 1;
    }
    Ok(())
}

/// Copies what `source` holds into `dest`: queries `source` for its rows and
/// inserts each into `dest`. `source` is left as it was. Where the query
/// fails, `dest` is left as it was too; where a command is refused, the
/// rows ahead of it have been inserted.
pub fn replicate<C>(source: &mut C, dest: &mut C) -> (res: Result<(), String>) where
    C: Queryable + Executable,

    ensures
        *final(source) == *old(source),
        match res {
            Ok(_) => exists|rows: Seq<String>|
                old(source).may_answer("SELECT * FROM table"@, rows) && final(dest).executed()
                    == old(dest).executed() + #[trigger] insert_texts(rows),
            Err(error) => {
                ||| {
                    &&& old(source).may_fail("SELECT * FROM table"@, error@)
                    &&& *final(dest) == *old(dest)
                }
                ||| exists|rows: Seq<String>|
                    old(source).may_answer("SELECT * FROM table"@, rows)
                        && #[trigger] insertion_may_stop(*old(dest), rows, error@)
            },
        },
{
    let data = match source.query("SELECT * FROM table") {
        Ok(data) => data,
        Err(error) => {
            return Err(error);
        },
    };
    insert_rows(dest, &data)
}

/// The line that reports the backup of `row`.
pub open spec fn backup_text(row: Seq<char>) -> Seq<char> {
    "Backing up: "@ + row
}

/// The lines that report the backup of `rows`, one line for each row.
pub open spec fn backup_texts(rows: Seq<String>) -> Seq<Seq<char>> {
    Seq::new(rows.len(), |i: int| backup_text(rows[i]@))
}

/// Writes `backup_texts`.
pub fn backup_lines(rows: &Vec<String>) -> (res: Vec<String>)
    ensures
        texts(res@) == backup_texts(rows@),
{
    let n = rows.len();
    let mut out: Vec<String> = Vec::new();
    let mut i: usize = 0;
    while i < n
        invariant
            i <= n,
            n == rows@.len(),
            out@.len() == i,
            forall|j: int| 0 <= j < i ==> #[trigger] out@[j]@ == backup_text(rows@[j]@),
        decreases n - i,
    {
        out.push("Backing up: ".to_owned().concat(rows[i].as_str()));
        i = i + 1;
    }
    out
}

/// Backs up what `conn` holds: opens a transaction, queries the rows, and
/// commits. Returns one line for each row that was backed up: the rows are
/// those that `conn` answers with once the transaction is open. It fails
/// where the transaction cannot be opened or the query fails, with the error
/// of the store.
pub fn backup_data<C: Queryable + Transactional>(conn: &mut C) -> (res: Result<Vec<String>, String>)
    ensures
        match res {
            Ok(lines) => old(conn).may_become(final(conn)) && exists|rows: Seq<String>|
                final(conn).may_answer("SELECT * FROM important_table"@, rows) && texts(lines@)
                    == #[trigger] backup_texts(rows),
            Err(error) => {
                ||| old(conn).may_stay_closed(error@)
                ||| {
                    &&& old(conn).may_become(final(conn))
                    &&& final(conn).may_fail("SELECT * FROM important_table"@, error@)
                }
            },
        },
{
    let tx = match conn.begin_transaction() {
        Ok(tx) => tx,
        Err(error) => {
            return Err(error);
        },
    };
    let data = match conn.query("SELECT * FROM important_table") {
        Ok(data) => data,
        Err(error) => {
            return Err(error);
        },
    };
    let lines = backup_lines(&data);
    match tx.commit() {
        Ok(_) => Ok(lines),
        Err(error) => Err(error),
    }
}

} // verus!
