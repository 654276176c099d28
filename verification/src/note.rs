//! Notes: named spending logs.

use vstd::prelude::*;
use crate::db::{data_of, execute, last_insert_rowid, now_seconds, query_map, run, Statement};
use crate::error::StoreError;
use crate::value::{inspect, integer_value, text_value, Cell, Datum};

verus! {

/// A named spending log. The store assigns `id`; `created_at` is the time of
/// creation in seconds since the epoch.
#[derive(Debug)]
pub struct Note {
    pub id: i64,
    pub title: String,
    pub created_at: i64,
}

/// A note as plain data.
pub ghost struct NoteView {
    pub id: i64,
    pub title: Seq<char>,
    pub created_at: i64,
}

impl View for Note {
    type V = NoteView;

    open spec fn view(&self) -> NoteView {
        NoteView { id: self.id, title: self.title@, created_at: self.created_at }
    }
}

pub const INSERT_NOTE: &'static str = "INSERT INTO notes (title, created_at) VALUES (?1, ?2)";

pub const SELECT_NOTES: &'static str =
    "SELECT id, title, created_at FROM notes ORDER BY created_at DESC";

pub const UPDATE_NOTE: &'static str = "UPDATE notes SET title = ?1 WHERE id = ?2";

pub const DELETE_NOTE: &'static str = "DELETE FROM notes WHERE id = ?1";

/// Whether a row of the notes table can be read as a note: an integer id, a
/// text title and an integer time, in that order.
pub open spec fn is_note_row(row: Seq<Datum>) -> bool {
    row.len() >= 3 && row[0] is Integer && row[1] is Text && row[2] is Integer
}

/// The note that a readable row holds.
pub open spec fn note_of_row(row: Seq<Datum>) -> NoteView
    recommends
        is_note_row(row),
{
    NoteView { id: row[0]->Integer_0, title: row[1]->Text_0, created_at: row[2]->Integer_0 }
}

/// What one outcome of stepping through the notes contributes to a listing:
/// the note of a readable row, and nothing for a row that failed or cannot be
/// read.
pub open spec fn note_of_outcome(
    outcome: Result<Vec<rusqlite::types::Value>, rusqlite::Error>,
) -> Option<NoteView> {
    match outcome {
        Ok(row) => if is_note_row(data_of(row@)) {
            Some(note_of_row(data_of(row@)))
        } else {
            None
        },
        Err(_) => None,
    }
}

/// The notes of a listing, as plain data.
pub open spec fn views_of(notes: Seq<Note>) -> Seq<NoteView> {
    notes.map_values(|n: Note| n@)
}

/// What the insertion of a note binds: its title, then its time.
pub open spec fn inserted_note(title: Seq<char>, now: i64) -> Seq<Datum> {
    seq![Datum::Text(title), Datum::Integer(now)]
}

/// An id followed by what the insertion of a note binds is a readable row,
/// and it reads as the note with that id, that title and that time.
pub proof fn lemma_note_reads_back(id: i64, title: Seq<char>, now: i64)
    ensures
        is_note_row(seq![Datum::Integer(id)] + inserted_note(title, now)),
        note_of_row(seq![Datum::Integer(id)] + inserted_note(title, now)) == (NoteView {
            id,
            title,
            created_at: now,
        }),
{
}

impl Note {
    /// The statement that adds a note.
    pub fn insert_statement(title: &str, now: i64) -> (s: Statement)
        ensures
            s.holds(INSERT_NOTE, inserted_note(title@, now)),
    {
        let mut params: Vec<rusqlite::types::Value> = Vec::new();
        params.push(text_value(title));
        params.push(integer_value(now));
        assert(data_of(params@) =~= seq![Datum::Text(title@), Datum::Integer(now)]);
        Statement { sql: INSERT_NOTE, params }
    }

    /// The query that lists every note, newest first.
    pub fn select_statement() -> (s: Statement)
        ensures
            s.holds(SELECT_NOTES, Seq::empty()),
    {
        let params: Vec<rusqlite::types::Value> = Vec::new();
        assert(data_of(params@) =~= Seq::empty());
        Statement { sql: SELECT_NOTES, params }
    }

    /// The statement that gives the note `id` a new title.
    pub fn update_statement(id: i64, title: &str) -> (s: Statement)
        ensures
            s.holds(UPDATE_NOTE, seq![Datum::Text(title@), Datum::Integer(id)]),
    {
        let mut params: Vec<rusqlite::types::Value> = Vec::new();
        params.push(text_value(title));
        params.push(integer_value(id));
        assert(data_of(params@) =~= seq![Datum::Text(title@), Datum::Integer(id)]);
        Statement { sql: UPDATE_NOTE, params }
    }

    /// The statement that removes the note `id`.
    pub fn delete_statement(id: i64) -> (s: Statement)
        ensures
            s.holds(DELETE_NOTE, seq![Datum::Integer(id)]),
    {
        let mut params: Vec<rusqlite::types::Value> = Vec::new();
        params.push(integer_value(id));
        assert(data_of(params@) =~= seq![Datum::Integer(id)]);
        Statement { sql: DELETE_NOTE, params }
    }

    /// Reads a row as a note, if it can be read as one.
    pub fn from_row(row: &Vec<rusqlite::types::Value>) -> (r: Option<Note>)
        ensures
            r is Some <==> is_note_row(data_of(row@)),
            r matches Some(n) ==> n@ == note_of_row(data_of(row@)),
    {
        if row.len() < 3 {
            return None;
        }
        let id = match inspect(&row[0]) {
            Cell::Integer(i) => i,
            _ => { return None; },
        };
        let title = match inspect(&row[1]) {
            Cell::Text(s) => s,
            _ => { return None; },
        };
        let created_at = match inspect(&row[2]) {
            Cell::Integer(i) => i,
            _ => { return None; },
        };
        Some(Note { id, title, created_at })
    }

    /// Reads the outcomes of stepping through the notes. Rows that failed or
    /// cannot be read are left out; the others keep their order.
    pub fn from_rows(rows: &Vec<Result<Vec<rusqlite::types::Value>, rusqlite::Error>>) -> (notes:
        Vec<Note>)
        ensures
            views_of(notes@) == rows@.filter_map(|o| note_of_outcome(o)),
    {
        let ghost f = |o: Result<Vec<rusqlite::types::Value>, rusqlite::Error>| note_of_outcome(o);
        let mut notes: Vec<Note> = Vec::new();
        let mut i: usize = 0;
        assert(rows@.take(0).filter_map(f) =~= Seq::empty());
        while i < rows.len()
            invariant
                i <= rows.len(),
                f == |o: Result<Vec<rusqlite::types::Value>, rusqlite::Error>| note_of_outcome(o),
                views_of(notes@) =~= rows@.take(i as int).filter_map(f),
            decreases rows.len() - i,
        {
            proof {
                rows@.lemma_filter_map_take_succ(f, i as int);
            }
            let ghost before = notes@;
            match &rows[i] {
                Ok(row) => {
                    match Note::from_row(row) {
                        Some(note) => {
                            notes.push(note);
                            assert(views_of(notes@) =~= views_of(before) + seq![note@]);
                        },
                        None => {},
                    }
                },
                Err(_) => {},
            }
            i += 1;
        }
        assert(rows@.take(rows.len() as int) =~= rows@);
        notes
    }

    /// What adding a note comes to, for each outcome of the insertion: the
    /// note with the row id that the store assigned, or the store's failure.
    pub fn created(title: &str, now: i64, outcome: Result<i64, rusqlite::Error>) -> (r: Result<
        Note,
        StoreError,
    >)
        ensures
            match outcome {
                Ok(id) => r matches Ok(n) && n@ == (NoteView {
                    id,
                    title: title@,
                    created_at: now,
                }),
                Err(e) => r matches Err(err) && err.stands_for(e),
            },
    {
        match outcome {
            Ok(id) => Ok(Note { id, title: title.to_string(), created_at: now }),
            Err(e) => Err(StoreError::from_db(&e)),
        }
    }

    /// What listing the notes comes to, for each outcome of the query: the
    /// notes of the rows that can be read, in the order in which the store
    /// gave them, or the store's failure.
    pub fn listed(
        outcome: Result<Vec<Result<Vec<rusqlite::types::Value>, rusqlite::Error>>, rusqlite::Error>,
    ) -> (r: Result<Vec<Note>, StoreError>)
        ensures
            match outcome {
                Ok(rows) => r matches Ok(notes) && views_of(notes@) == rows@.filter_map(
                    |o| note_of_outcome(o),
                ),
                Err(e) => r matches Err(err) && err.stands_for(e),
            },
    {
        match outcome {
            Ok(rows) => Ok(Note::from_rows(&rows)),
            Err(e) => Err(StoreError::from_db(&e)),
        }
    }

    /// Adds a note with the given title and the given time of creation, in
    /// seconds since the epoch.
    pub fn create_at(conn: &rusqlite::Connection, title: &str, now: i64) -> (r: Result<
        Note,
        StoreError,
    >)
        ensures
            r matches Ok(n) ==> n.title@ == title@ && n.created_at == now,
            r matches Err(err) ==> err.from_statement(),
    {
        let statement = Note::insert_statement(title, now);
        let outcome = match execute(conn, statement.sql, &statement.params) {
            Ok(_) => Ok(last_insert_rowid(conn)),
            Err(e) => Err(e),
        };
        Note::created(title, now, outcome)
    }

    /// Adds a note with the given title, created now.
    pub fn create(conn: &rusqlite::Connection, title: &str) -> (r: Result<Note, StoreError>)
        ensures
            r matches Ok(n) ==> n.title@ == title@,
            r matches Err(err) ==> err.from_statement(),
    {
        Note::create_at(conn, title, now_seconds())
    }

    /// Lists every note, newest first. Rows that cannot be read as notes are
    /// left out rather than failing the listing.
    pub fn all(conn: &rusqlite::Connection) -> (r: Result<Vec<Note>, StoreError>)
        ensures
            r matches Err(err) ==> err.from_statement(),
    {
        let statement = Note::select_statement();
        Note::listed(query_map(conn, statement.sql, &statement.params))
    }

    /// Gives the note `id` a new title. A note that does not exist is left
    /// alone, and that is no failure.
    pub fn update(conn: &rusqlite::Connection, id: i64, title: &str) -> (r: Result<(), StoreError>)
        ensures
            r matches Err(err) ==> err.from_statement(),
    {
        run(conn, &Note::update_statement(id, title))
    }

    /// Removes the note `id`, and with it its entries and its budget. A note
    /// that does not exist is left alone, and that is no failure.
    pub fn delete(conn: &rusqlite::Connection, id: i64) -> (r: Result<(), StoreError>)
        ensures
            r matches Err(err) ==> err.from_statement(),
    {
        run(conn, &Note::delete_statement(id))
    }
}

} // verus!
