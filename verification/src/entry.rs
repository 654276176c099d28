//! Entries: dated line items under a note.

use vstd::prelude::*;
use crate::db::{
    data_of,
    execute,
    last_insert_rowid,
    now_seconds,
    query_map,
    query_row,
    run,
    Statement,
};
use crate::error::{ErrorKind, StoreError};
use crate::value::{
    copy_value,
    inspect,
    integer_value,
    is_numeric,
    number_of,
    text_value,
    Amount,
    Cell,
    Datum,
    Number,
};

verus! {

/// One spending line under the note `note_id`. The store assigns `id`;
/// `created_at` is the time of creation in seconds since the epoch.
#[derive(Debug)]
pub struct Entry {
    pub id: i64,
    pub note_id: i64,
    pub description: String,
    pub amount: Amount,
    pub created_at: i64,
}

/// An entry as plain data.
pub ghost struct EntryView {
    pub id: i64,
    pub note_id: i64,
    pub description: Seq<char>,
    pub amount: Number,
    pub created_at: i64,
}

impl View for Entry {
    type V = EntryView;

    open spec fn view(&self) -> EntryView {
        EntryView {
            id: self.id,
            note_id: self.note_id,
            description: self.description@,
            amount: self.amount@,
            created_at: self.created_at,
        }
    }
}

pub const INSERT_ENTRY: &'static str =
    "INSERT INTO entries (note_id, description, amount, created_at) VALUES (?1, ?2, ?3, ?4)";

pub const SELECT_ENTRIES: &'static str =
    "SELECT id, note_id, description, amount, created_at FROM entries WHERE note_id = ?1 ORDER BY created_at DESC";

pub const UPDATE_ENTRY: &'static str =
    "UPDATE entries SET description = ?1, amount = ?2 WHERE id = ?3";

pub const DELETE_ENTRY: &'static str = "DELETE FROM entries WHERE id = ?1";

pub const SUM_ENTRIES: &'static str = "SELECT IFNULL(SUM(amount), 0) FROM entries";

pub const SUM_ENTRIES_OF_NOTE: &'static str =
    "SELECT IFNULL(SUM(amount), 0) FROM entries WHERE note_id = ?1";

/// The message of the failure to read a single amount from a row.
pub const NOT_AN_AMOUNT: &'static str = "the store returned a value that is not a number";

/// Whether a row of the entries table can be read as an entry: integer id and
/// note id, a text description, a numeric amount and an integer time, in that
/// order.
pub open spec fn is_entry_row(row: Seq<Datum>) -> bool {
    row.len() >= 5 && row[0] is Integer && row[1] is Integer && row[2] is Text && is_numeric(
        row[3],
    ) && row[4] is Integer
}

/// The entry that a readable row holds.
pub open spec fn entry_of_row(row: Seq<Datum>) -> EntryView
    recommends
        is_entry_row(row),
{
    EntryView {
        id: row[0]->Integer_0,
        note_id: row[1]->Integer_0,
        description: row[2]->Text_0,
        amount: number_of(row[3]),
        created_at: row[4]->Integer_0,
    }
}

/// What one outcome of stepping through the entries contributes to a listing:
/// the entry of a readable row, and nothing for a row that failed or cannot
/// be read.
pub open spec fn entry_of_outcome(
    outcome: Result<Vec<rusqlite::types::Value>, rusqlite::Error>,
) -> Option<EntryView> {
    match outcome {
        Ok(row) => if is_entry_row(data_of(row@)) {
            Some(entry_of_row(data_of(row@)))
        } else {
            None
        },
        Err(_) => None,
    }
}

/// The entries of a listing, as plain data.
pub open spec fn views_of(entries: Seq<Entry>) -> Seq<EntryView> {
    entries.map_values(|e: Entry| e@)
}

/// Whether a row holds a single amount: it starts with a number.
pub open spec fn is_amount_row(row: Seq<Datum>) -> bool {
    row.len() >= 1 && is_numeric(row[0])
}

/// What reading a single amount comes to, for each outcome of the query: the
/// number that the row starts with; a query error if the row does not start
/// with a number; or the store's own failure.
pub fn amount_of(outcome: Result<Vec<rusqlite::types::Value>, rusqlite::Error>) -> (r: Result<
    Amount,
    StoreError,
>)
    ensures
        match outcome {
            Ok(row) => if is_amount_row(data_of(row@)) {
                r matches Ok(a) && a@ == number_of(data_of(row@)[0])
            } else {
                r matches Err(err) && err.kind == ErrorKind::Query && err.message@
                    == NOT_AN_AMOUNT@
            },
            Err(e) => r matches Err(err) && err.stands_for(e),
        },
{
    match outcome {
        Err(e) => Err(StoreError::from_db(&e)),
        Ok(row) => {
            if row.len() < 1 {
                return Err(StoreError::malformed(NOT_AN_AMOUNT));
            }
            match Amount::from_value(copy_value(&row[0])) {
                Some(a) => Ok(a),
                None => Err(StoreError::malformed(NOT_AN_AMOUNT)),
            }
        },
    }
}

/// What the insertion of an entry binds: its note, its description, its
/// amount, then its time.
pub open spec fn inserted_entry(
    note_id: i64,
    description: Seq<char>,
    amount: Number,
    now: i64,
) -> Seq<Datum> {
    seq![Datum::Integer(note_id), Datum::Text(description), amount.datum(), Datum::Integer(now)]
}

/// An id followed by what the insertion of an entry binds is a readable row,
/// and it reads as the entry with that id, note, description, amount and
/// time.
pub proof fn lemma_entry_reads_back(
    id: i64,
    note_id: i64,
    description: Seq<char>,
    amount: Number,
    now: i64,
)
    ensures
        is_entry_row(
            seq![Datum::Integer(id)] + inserted_entry(note_id, description, amount, now),
        ),
        entry_of_row(seq![Datum::Integer(id)] + inserted_entry(note_id, description, amount, now))
            == (EntryView { id, note_id, description, amount, created_at: now }),
{
}

impl Entry {
    /// The statement that adds an entry.
    pub fn insert_statement(note_id: i64, description: &str, amount: &Amount, now: i64) -> (s:
        Statement)
        ensures
            s.holds(INSERT_ENTRY, inserted_entry(note_id, description@, amount@, now)),
    {
        let mut params: Vec<rusqlite::types::Value> = Vec::new();
        params.push(integer_value(note_id));
        params.push(text_value(description));
        params.push(amount.to_value());
        params.push(integer_value(now));
        assert(data_of(params@) =~= seq![
            Datum::Integer(note_id),
            Datum::Text(description@),
            amount@.datum(),
            Datum::Integer(now),
        ]);
        Statement { sql: INSERT_ENTRY, params }
    }

    /// The query that lists the entries of one note, newest first.
    pub fn select_statement(note_id: i64) -> (s: Statement)
        ensures
            s.holds(SELECT_ENTRIES, seq![Datum::Integer(note_id)]),
    {
        let mut params: Vec<rusqlite::types::Value> = Vec::new();
        params.push(integer_value(note_id));
        assert(data_of(params@) =~= seq![Datum::Integer(note_id)]);
        Statement { sql: SELECT_ENTRIES, params }
    }

    /// The statement that rewrites the description and amount of the entry
    /// `id`.
    pub fn update_statement(id: i64, description: &str, amount: &Amount) -> (s: Statement)
        ensures
            s.holds(
                UPDATE_ENTRY,
                seq![Datum::Text(description@), amount@.datum(), Datum::Integer(id)],
            ),
    {
        let mut params: Vec<rusqlite::types::Value> = Vec::new();
        params.push(text_value(description));
        params.push(amount.to_value());
        params.push(integer_value(id));
        assert(data_of(params@) =~= seq![
            Datum::Text(description@),
            amount@.datum(),
            Datum::Integer(id),
        ]);
        Statement { sql: UPDATE_ENTRY, params }
    }

    /// The statement that removes the entry `id`.
    pub fn delete_statement(id: i64) -> (s: Statement)
        ensures
            s.holds(DELETE_ENTRY, seq![Datum::Integer(id)]),
    {
        let mut params: Vec<rusqlite::types::Value> = Vec::new();
        params.push(integer_value(id));
        assert(data_of(params@) =~= seq![Datum::Integer(id)]);
        Statement { sql: DELETE_ENTRY, params }
    }

    /// The query that totals the amounts of every entry.
    pub fn sum_all_statement() -> (s: Statement)
        ensures
            s.holds(SUM_ENTRIES, Seq::empty()),
    {
        let params: Vec<rusqlite::types::Value> = Vec::new();
        assert(data_of(params@) =~= Seq::empty());
        Statement { sql: SUM_ENTRIES, params }
    }

    /// The query that totals the amounts of the entries of one note.
    pub fn sum_for_note_statement(note_id: i64) -> (s: Statement)
        ensures
            s.holds(SUM_ENTRIES_OF_NOTE, seq![Datum::Integer(note_id)]),
    {
        let mut params: Vec<rusqlite::types::Value> = Vec::new();
        params.push(integer_value(note_id));
        assert(data_of(params@) =~= seq![Datum::Integer(note_id)]);
        Statement { sql: SUM_ENTRIES_OF_NOTE, params }
    }

    /// Reads a row as an entry, if it can be read as one.
    pub fn from_row(row: &Vec<rusqlite::types::Value>) -> (r: Option<Entry>)
        ensures
            r is Some <==> is_entry_row(data_of(row@)),
            r matches Some(e) ==> e@ == entry_of_row(data_of(row@)),
    {
        if row.len() < 5 {
            return None;
        }
        let id = match inspect(&row[0]) {
            Cell::Integer(i) => i,
            _ => { return None; },
        };
        let note_id = match inspect(&row[1]) {
            Cell::Integer(i) => i,
            _ => { return None; },
        };
        let description = match inspect(&row[2]) {
            Cell::Text(s) => s,
            _ => { return None; },
        };
        let amount = match Amount::from_value(copy_value(&row[3])) {
            Some(a) => a,
            None => { return None; },
        };
        let created_at = match inspect(&row[4]) {
            Cell::Integer(i) => i,
            _ => { return None; },
        };
        Some(Entry { id, note_id, description, amount, created_at })
    }

    /// Reads the outcomes of stepping through the entries. Rows that failed
    /// or cannot be read are left out; the others keep their order.
    pub fn from_rows(rows: &Vec<Result<Vec<rusqlite::types::Value>, rusqlite::Error>>) -> (entries:
        Vec<Entry>)
        ensures
            views_of(entries@) == rows@.filter_map(|o| entry_of_outcome(o)),
    {
        let ghost f = |o: Result<Vec<rusqlite::types::Value>, rusqlite::Error>| entry_of_outcome(o);
        let mut entries: Vec<Entry> = Vec::new();
        let mut i: usize = 0;
        assert(rows@.take(0).filter_map(f) =~= Seq::empty());
        while i < rows.len()
            invariant
                i <= rows.len(),
                f == |o: Result<Vec<rusqlite::types::Value>, rusqlite::Error>| entry_of_outcome(o),
                views_of(entries@) =~= rows@.take(i as int).filter_map(f),
            decreases rows.len() - i,
        {
            proof {
                rows@.lemma_filter_map_take_succ(f, i as int);
            }
            let ghost before = entries@;
            match &rows[i] {
                Ok(row) => {
                    match Entry::from_row(row) {
                        Some(entry) => {
                            entries.push(entry);
                            assert(views_of(entries@) =~= views_of(before) + seq![entry@]);
                        },
                        None => {},
                    }
                },
                Err(_) => {},
            }
            i += 1;
        }
        assert(rows@.take(rows.len() as int) =~= rows@);
        entries
    }

    /// What adding an entry comes to, for each outcome of the insertion: the
    /// entry with the row id that the store assigned, or the store's failure.
    pub fn created(
        note_id: i64,
        description: &str,
        amount: Amount,
        now: i64,
        outcome: Result<i64, rusqlite::Error>,
    ) -> (r: Result<Entry, StoreError>)
        ensures
            match outcome {
                Ok(id) => r matches Ok(entry) && entry@ == (EntryView {
                    id,
                    note_id,
                    description: description@,
                    amount: amount@,
                    created_at: now,
                }),
                Err(e) => r matches Err(err) && err.stands_for(e),
            },
    {
        match outcome {
            Ok(id) => Ok(
                Entry { id, note_id, description: description.to_string(), amount, created_at: now },
            ),
            Err(e) => Err(StoreError::from_db(&e)),
        }
    }

    /// What listing entries comes to, for each outcome of the query: the
    /// entries of the rows that can be read, in the order in which the store
    /// gave them, or the store's failure.
    pub fn listed(
        outcome: Result<Vec<Result<Vec<rusqlite::types::Value>, rusqlite::Error>>, rusqlite::Error>,
    ) -> (r: Result<Vec<Entry>, StoreError>)
        ensures
            match outcome {
                Ok(rows) => r matches Ok(entries) && views_of(entries@) == rows@.filter_map(
                    |o| entry_of_outcome(o),
                ),
                Err(e) => r matches Err(err) && err.stands_for(e),
            },
    {
        match outcome {
            Ok(rows) => Ok(Entry::from_rows(&rows)),
            Err(e) => Err(StoreError::from_db(&e)),
        }
    }

    /// Adds an entry under the note `note_id`, with the given time of
    /// creation in seconds since the epoch. The store refuses an entry whose
    /// note does not exist.
    pub fn create_at(
        conn: &rusqlite::Connection,
        note_id: i64,
        description: &str,
        amount: Amount,
        now: i64,
    ) -> (r: Result<Entry, StoreError>)
        ensures
            r matches Ok(entry) ==> entry.note_id == note_id && entry.description@ == description@
                && entry.amount@ == amount@ && entry.created_at == now,
            r matches Err(err) ==> err.from_statement(),
    {
        let statement = Entry::insert_statement(note_id, description, &amount, now);
        let outcome = match execute(conn, statement.sql, &statement.params) {
            Ok(_) => Ok(last_insert_rowid(conn)),
            Err(e) => Err(e),
        };
        Entry::created(note_id, description, amount, now, outcome)
    }

    /// Adds an entry under the note `note_id`, created now. The store refuses
    /// an entry whose note does not exist.
    pub fn create(conn: &rusqlite::Connection, note_id: i64, description: &str, amount: Amount) -> (r:
        Result<Entry, StoreError>)
        ensures
            r matches Ok(entry) ==> entry.note_id == note_id && entry.description@ == description@
                && entry.amount@ == amount@,
            r matches Err(err) ==> err.from_statement(),
    {
        Entry::create_at(conn, note_id, description, amount, now_seconds())
    }

    /// Lists the entries of the note `note_id`, newest first. Rows that
    /// cannot be read as entries are left out rather than failing the
    /// listing; a note without entries, or no such note, gives an empty list.
    pub fn all_for_note(conn: &rusqlite::Connection, note_id: i64) -> (r: Result<
        Vec<Entry>,
        StoreError,
    >)
        ensures
            r matches Err(err) ==> err.from_statement(),
    {
        let statement = Entry::select_statement(note_id);
        Entry::listed(query_map(conn, statement.sql, &statement.params))
    }

    /// Rewrites the description and amount of the entry `id`. An entry that
    /// does not exist is left alone, and that is no failure.
    pub fn update(conn: &rusqlite::Connection, id: i64, description: &str, amount: Amount) -> (r:
        Result<(), StoreError>)
        ensures
            r matches Err(err) ==> err.from_statement(),
    {
        run(conn, &Entry::update_statement(id, description, &amount))
    }

    /// Removes the entry `id`. An entry that does not exist is left alone,
    /// and that is no failure.
    pub fn delete(conn: &rusqlite::Connection, id: i64) -> (r: Result<(), StoreError>)
        ensures
            r matches Err(err) ==> err.from_statement(),
    {
        run(conn, &Entry::delete_statement(id))
    }

    /// The total of the amounts of every entry; zero when there is none.
    pub fn sum_all(conn: &rusqlite::Connection) -> (r: Result<Amount, StoreError>)
        ensures
            r matches Err(err) ==> err.from_statement() || (err.kind == ErrorKind::Query
                && err.message@ == NOT_AN_AMOUNT@),
    {
        let statement = Entry::sum_all_statement();
        amount_of(query_row(conn, statement.sql, &statement.params))
    }

    /// The total of the amounts of the entries of one note; zero when it has
    /// none.
    pub fn sum_for_note(conn: &rusqlite::Connection, note_id: i64) -> (r: Result<
        Amount,
        StoreError,
    >)
        ensures
            r matches Err(err) ==> err.from_statement() || (err.kind == ErrorKind::Query
                && err.message@ == NOT_AN_AMOUNT@),
    {
        let statement = Entry::sum_for_note_statement(note_id);
        amount_of(query_row(conn, statement.sql, &statement.params))
    }
}

} // verus!
