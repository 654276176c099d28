//! Budgets: one spending ceiling per note.
//!
//! A budget is keyed by its note. Setting it writes the row or overwrites it
//! in a single statement; there is no budget until one is set, and asking for
//! one that was never set is a failure of kind `NotFound`, not a zero.

use vstd::prelude::*;
use crate::db::{data_of, query_row, run, Statement};
use crate::entry::{amount_of, is_amount_row, Entry, NOT_AN_AMOUNT};
use crate::error::{ErrorKind, StoreError};
use crate::value::{integer_value, number_of, Amount, Datum, Number};

verus! {

/// The budget operations. A budget has no data of its own outside the store.
pub struct Budget;

/// What is left of a budget, as the two numbers whose difference it is. The
/// difference itself is a matter of double arithmetic and is taken by the
/// caller: `initial` minus `spent`.
#[derive(Debug)]
pub struct Remaining {
    pub initial: Amount,
    pub spent: Amount,
}

pub const SET_BUDGET: &'static str =
    "INSERT INTO budgets (note_id, initial_amount) VALUES (?1, ?2) ON CONFLICT(note_id) DO UPDATE SET initial_amount = excluded.initial_amount";

pub const GET_BUDGET: &'static str = "SELECT initial_amount FROM budgets WHERE note_id = ?1";

/// What setting a budget binds: the note, then the amount.
pub open spec fn set_budget(note_id: i64, amount: Number) -> Seq<Datum> {
    seq![Datum::Integer(note_id), amount.datum()]
}

/// The amount that setting a budget binds is what reading a budget reads:
/// the bound values without the note are a row that holds a single amount,
/// and that amount is the one that was set.
pub proof fn lemma_budget_reads_back(note_id: i64, amount: Number)
    ensures
        is_amount_row(set_budget(note_id, amount).skip(1)),
        number_of(set_budget(note_id, amount).skip(1)[0]) == amount,
{
}

impl Budget {
    /// The statement that sets the budget of a note, whether or not it had
    /// one.
    pub fn set_statement(note_id: i64, amount: &Amount) -> (s: Statement)
        ensures
            s.holds(SET_BUDGET, set_budget(note_id, amount@)),
    {
        let mut params: Vec<rusqlite::types::Value> = Vec::new();
        params.push(integer_value(note_id));
        params.push(amount.to_value());
        assert(data_of(params@) =~= seq![Datum::Integer(note_id), amount@.datum()]);
        Statement { sql: SET_BUDGET, params }
    }

    /// The query that reads the budget of a note.
    pub fn get_statement(note_id: i64) -> (s: Statement)
        ensures
            s.holds(GET_BUDGET, seq![Datum::Integer(note_id)]),
    {
        let mut params: Vec<rusqlite::types::Value> = Vec::new();
        params.push(integer_value(note_id));
        assert(data_of(params@) =~= seq![Datum::Integer(note_id)]);
        Statement { sql: GET_BUDGET, params }
    }

    /// What is left of a budget of `initial`, for each outcome of totalling
    /// the spending: both numbers, or the failure of the total.
    pub fn remaining_of(initial: Amount, spent: Result<Amount, StoreError>) -> (r: Result<
        Remaining,
        StoreError,
    >)
        ensures
            match spent {
                Ok(total) => r matches Ok(left) && left.initial@ == initial@ && left.spent@
                    == total@,
                Err(err) => r == Err::<Remaining, StoreError>(err),
            },
    {
        match spent {
            Ok(total) => Ok(Remaining { initial, spent: total }),
            Err(err) => Err(err),
        }
    }

    /// What is left of the budget of the note `note_id`, for each outcome of
    /// reading that budget. A failure to read it is returned as it came, and
    /// nothing is totalled; a budget that was read goes into the result
    /// unchanged, beside the total of the note's entries.
    pub fn remaining_after(
        initial: Result<Amount, StoreError>,
        conn: &rusqlite::Connection,
        note_id: i64,
    ) -> (r: Result<Remaining, StoreError>)
        ensures
            match initial {
                Err(err) => r == Err::<Remaining, StoreError>(err),
                Ok(budget) => (r matches Ok(left) ==> left.initial@ == budget@) && (r matches Err(
                    err,
                ) ==> err.from_statement() || (err.kind == ErrorKind::Query && err.message@
                    == NOT_AN_AMOUNT@)),
            },
    {
        match initial {
            Err(err) => Err(err),
            Ok(budget) => Budget::remaining_of(budget, Entry::sum_for_note(conn, note_id)),
        }
    }

    /// Sets the budget of the note `note_id`. The store refuses a budget
    /// whose note does not exist.
    pub fn set(conn: &rusqlite::Connection, note_id: i64, amount: Amount) -> (r: Result<
        (),
        StoreError,
    >)
        ensures
            r matches Err(err) ==> err.from_statement(),
    {
        run(conn, &Budget::set_statement(note_id, &amount))
    }

    /// The budget of the note `note_id`. A note without a budget gives the
    /// store's report that the query found no row, which is of kind
    /// `NotFound`.
    pub fn get(conn: &rusqlite::Connection, note_id: i64) -> (r: Result<Amount, StoreError>)
        ensures
            r matches Err(err) ==> err.from_statement() || (err.kind == ErrorKind::Query
                && err.message@ == NOT_AN_AMOUNT@),
            r matches Err(err) ==> (err.kind == ErrorKind::NotFound <==> err.reports_no_row()),
    {
        let statement = Budget::get_statement(note_id);
        let r = amount_of(query_row(conn, statement.sql, &statement.params));
        proof {
            if r is Err && r->Err_0.from_statement() {
                r->Err_0.lemma_not_found_is_no_row();
            }
        }
        r
    }

    /// What is left of the budget of the note `note_id`: the budget and the
    /// total of the note's entries. A note without a budget fails as `get`
    /// does, before anything is totalled; a note without entries has spent
    /// zero.
    pub fn remaining(conn: &rusqlite::Connection, note_id: i64) -> (r: Result<
        Remaining,
        StoreError,
    >)
        ensures
            r matches Err(err) ==> err.from_statement() || (err.kind == ErrorKind::Query
                && err.message@ == NOT_AN_AMOUNT@),
            r matches Err(err) ==> (err.kind == ErrorKind::NotFound <==> err.reports_no_row()),
    {
        let r = Budget::remaining_after(Budget::get(conn, note_id), conn, note_id);
        proof {
            if r is Err && r->Err_0.from_statement() {
                r->Err_0.lemma_not_found_is_no_row();
            }
        }
        r
    }
}

} // verus!
