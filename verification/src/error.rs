//! The four kinds of failure, and how a failure of the store is sorted into
//! them.

use vstd::prelude::*;

verus! {

#[verifier::external_type_specification]
#[verifier::external_body]
pub struct ExDbError(rusqlite::Error);

/// The extended SQLite result code that a `rusqlite::Error` carries, if it
/// reports a failure of SQLite itself.
pub uninterp spec fn failure_code(e: rusqlite::Error) -> Option<i32>;

/// Whether a `rusqlite::Error` is the report that a query gave no row.
pub uninterp spec fn is_no_rows(e: rusqlite::Error) -> bool;

/// The text that a `rusqlite::Error` displays as.
pub uninterp spec fn error_text(e: rusqlite::Error) -> Seq<char>;

/// Trusted: `Error::sqlite_extended_error_code`, which gives the extended
/// result code of an `Error::SqliteFailure` and nothing for any other error.
#[verifier::external_body]
pub(crate) fn extended_code(e: &rusqlite::Error) -> (c: Option<i32>)
    ensures
        c == failure_code(*e),
{
    e.sqlite_extended_error_code()
}

/// Trusted: tells the variant `Error::QueryReturnedNoRows` from all others.
#[verifier::external_body]
pub(crate) fn reports_no_rows(e: &rusqlite::Error) -> (b: bool)
    ensures
        b == is_no_rows(*e),
{
    match e {
        rusqlite::Error::QueryReturnedNoRows => true,
        _ => false,
    }
}

/// Trusted: the `Display` text of a `rusqlite::Error`.
#[verifier::external_body]
pub(crate) fn display_text(e: &rusqlite::Error) -> (s: String)
    ensures
        s@ == error_text(*e),
{
    e.to_string()
}

/// What went wrong, as far as a caller can act on it.
#[derive(Clone, Copy, Debug, PartialEq, Eq, Structural)]
pub enum ErrorKind {
    /// The store file or its directory could not be created, opened, read or
    /// written.
    Io,
    /// A foreign key, a uniqueness rule or another constraint refused the
    /// change.
    Constraint,
    /// The row that was asked for does not exist.
    NotFound,
    /// A statement failed for any other reason.
    Query,
}

/// The primary result code inside an extended one: its low eight bits.
pub open spec fn primary_code(code: i32) -> int {
    code as int % 256
}

/// The kind of a failure that SQLite reported with the given extended code.
/// Constraint violations are code 19; permission, read-only, I/O, disk-full
/// and cannot-open failures are codes 3, 8, 10, 13 and 14.
pub open spec fn kind_of_code(code: i32) -> ErrorKind {
    if code < 0 {
        ErrorKind::Query
    } else if primary_code(code) == 19 {
        ErrorKind::Constraint
    } else if primary_code(code) == 3 || primary_code(code) == 8 || primary_code(code) == 10
        || primary_code(code) == 13 || primary_code(code) == 14 {
        ErrorKind::Io
    } else {
        ErrorKind::Query
    }
}

/// The kind of a failure of the store. A missing row is told apart first;
/// then the result code decides; a failure without a code is a query error.
pub open spec fn kind_of(no_rows: bool, code: Option<i32>) -> ErrorKind {
    if no_rows {
        ErrorKind::NotFound
    } else {
        match code {
            Some(c) => kind_of_code(c),
            None => ErrorKind::Query,
        }
    }
}

impl ErrorKind {
    /// Sorts a failure by whether it reports a missing row and by its result
    /// code.
    pub fn classify(no_rows: bool, code: Option<i32>) -> (k: ErrorKind)
        ensures
            k == kind_of(no_rows, code),
    {
        if no_rows {
            return ErrorKind::NotFound;
        }
        match code {
            None => ErrorKind::Query,
            Some(c) => {
                if c < 0 {
                    ErrorKind::Query
                } else {
                    let primary: i32 = c % 256;
                    if primary == 19 {
                        ErrorKind::Constraint
                    } else if primary == 3 || primary == 8 || primary == 10 || primary == 13
                        || primary == 14 {
                        ErrorKind::Io
                    } else {
                        ErrorKind::Query
                    }
                }
            },
        }
    }
}

/// A failure of a ledger operation: its kind, and a message for people.
#[derive(Debug)]
pub struct StoreError {
    pub kind: ErrorKind,
    pub message: String,
}

impl StoreError {
    /// Whether this is the failure that the given error of the store stands
    /// for.
    pub open spec fn stands_for(&self, e: rusqlite::Error) -> bool {
        self.kind == kind_of(is_no_rows(e), failure_code(e)) && self.message@ == error_text(e)
    }

    /// Whether this failure was reported by the store while a statement ran.
    pub open spec fn from_statement(&self) -> bool {
        exists|e: rusqlite::Error| self.stands_for(e)
    }

    /// Whether this is the failure that the given error of the store stands
    /// for while the store is being opened: an I/O error with the error's
    /// text.
    pub open spec fn stands_for_opening(&self, e: rusqlite::Error) -> bool {
        self.kind == ErrorKind::Io && self.message@ == error_text(e)
    }

    /// Whether this failure was reported by the store while it was being
    /// opened.
    pub open spec fn from_opening(&self) -> bool {
        exists|e: rusqlite::Error| self.stands_for_opening(e)
    }

    /// Whether this is the store's report that a query found no row.
    pub open spec fn reports_no_row(&self) -> bool {
        exists|e: rusqlite::Error| is_no_rows(e) && self.stands_for(e)
    }

    /// A failure that the store reported while a statement ran is of kind
    /// `NotFound` exactly when it is the report that a query found no row.
    pub proof fn lemma_not_found_is_no_row(&self)
        requires
            self.from_statement(),
        ensures
            self.kind == ErrorKind::NotFound <==> self.reports_no_row(),
    {
        let e = choose|e: rusqlite::Error| self.stands_for(e);
        if self.kind == ErrorKind::NotFound {
            assert(is_no_rows(e) && self.stands_for(e));
        }
    }

    /// The failure that a `rusqlite::Error` stands for while a statement
    /// runs: sorted by `kind_of`, with the error's own text as its message.
    pub fn from_db(e: &rusqlite::Error) -> (r: StoreError)
        ensures
            r.stands_for(*e),
            r.from_statement(),
    {
        let kind = ErrorKind::classify(reports_no_rows(e), extended_code(e));
        let r = StoreError { kind, message: display_text(e) };
        assert(r.stands_for(*e));
        r
    }

    /// The failure that a `rusqlite::Error` stands for while the store is
    /// being opened: always an I/O error, with the error's own text.
    pub fn from_open(e: &rusqlite::Error) -> (r: StoreError)
        ensures
            r.kind == ErrorKind::Io,
            r.message@ == error_text(*e),
            r.from_opening(),
    {
        let r = StoreError { kind: ErrorKind::Io, message: display_text(e) };
        assert(r.stands_for_opening(*e));
        r
    }

    /// The failure of reading a row whose shape is not the expected one.
    pub fn malformed(what: &str) -> (r: StoreError)
        ensures
            r.kind == ErrorKind::Query,
            r.message@ == what@,
    {
        StoreError { kind: ErrorKind::Query, message: what.to_string() }
    }

    /// The message, as the command surface hands it to its caller.
    pub fn to_string(&self) -> (s: String)
        ensures
            s@ == self.message@,
    {
        self.message.clone()
    }
}

} // verus!
