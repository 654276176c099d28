use rusqlite::types::Value;
use spendlog::budget::Budget;
use spendlog::db::{init_db, lay_out};
use spendlog::entry::Entry;
use spendlog::error::ErrorKind;
use spendlog::note::Note;
use spendlog::value::{Amount, Number};

fn money(x: f64) -> Amount {
    Amount::from_value(Value::Real(x)).unwrap()
}

fn as_f64(a: &Amount) -> f64 {
    match a.number() {
        Number::Whole(i) => i as f64,
        Number::Real(bits) => f64::from_bits(bits),
    }
}

fn store() -> rusqlite::Connection {
    init_db(":memory:").unwrap()
}

#[test]
fn created_note_is_listed_once() {
    let conn = store();
    let before = chrono::Utc::now().timestamp();
    let note = Note::create(&conn, "groceries").unwrap();
    let after = chrono::Utc::now().timestamp();
    assert_eq!(note.title, "groceries");
    assert!(before <= note.created_at && note.created_at <= after);
    let notes = Note::all(&conn).unwrap();
    assert_eq!(notes.len(), 1);
    assert_eq!(notes[0].id, note.id);
    assert_eq!(notes[0].title, "groceries");
    assert_eq!(notes[0].created_at, note.created_at);
}

#[test]
fn empty_store_lists_nothing() {
    let conn = store();
    assert!(Note::all(&conn).unwrap().is_empty());
    assert!(Entry::all_for_note(&conn, 1).unwrap().is_empty());
}

#[test]
fn notes_get_distinct_ids() {
    let conn = store();
    let a = Note::create(&conn, "a").unwrap();
    let b = Note::create(&conn, "b").unwrap();
    assert_ne!(a.id, b.id);
    assert_eq!(Note::all(&conn).unwrap().len(), 2);
}

#[test]
fn notes_are_listed_newest_first() {
    let conn = store();
    conn.execute("INSERT INTO notes (title, created_at) VALUES ('old', 100)", ()).unwrap();
    conn.execute("INSERT INTO notes (title, created_at) VALUES ('new', 300)", ()).unwrap();
    conn.execute("INSERT INTO notes (title, created_at) VALUES ('mid', 200)", ()).unwrap();
    let notes = Note::all(&conn).unwrap();
    let titles: Vec<&str> = notes.iter().map(|n| n.title.as_str()).collect();
    assert_eq!(titles, vec!["new", "mid", "old"]);
    assert_eq!(notes[0].created_at, 300);
}

#[test]
fn unreadable_note_rows_are_left_out() {
    let conn = store();
    conn.execute("INSERT INTO notes (title, created_at) VALUES ('good', 100)", ()).unwrap();
    conn.execute("INSERT INTO notes (title, created_at) VALUES ('bad', 'yesterday')", ()).unwrap();
    let notes = Note::all(&conn).unwrap();
    assert_eq!(notes.len(), 1);
    assert_eq!(notes[0].title, "good");
}

#[test]
fn update_note_changes_the_title_only() {
    let conn = store();
    let note = Note::create(&conn, "before").unwrap();
    Note::update(&conn, note.id, "after").unwrap();
    let notes = Note::all(&conn).unwrap();
    assert_eq!(notes.len(), 1);
    assert_eq!(notes[0].id, note.id);
    assert_eq!(notes[0].title, "after");
    assert_eq!(notes[0].created_at, note.created_at);
}

#[test]
fn created_entry_is_listed_under_its_note() {
    let conn = store();
    let note = Note::create(&conn, "trip").unwrap();
    let other = Note::create(&conn, "home").unwrap();
    let entry = Entry::create(&conn, note.id, "train", money(42.5)).unwrap();
    assert_eq!(entry.note_id, note.id);
    assert_eq!(entry.description, "train");
    assert_eq!(entry.amount.number(), Number::Real(42.5f64.to_bits()));
    let entries = Entry::all_for_note(&conn, note.id).unwrap();
    assert_eq!(entries.len(), 1);
    assert_eq!(entries[0].id, entry.id);
    assert_eq!(entries[0].note_id, note.id);
    assert_eq!(entries[0].description, "train");
    assert_eq!(as_f64(&entries[0].amount), 42.5);
    assert_eq!(entries[0].created_at, entry.created_at);
    assert!(Entry::all_for_note(&conn, other.id).unwrap().is_empty());
}

#[test]
fn entries_are_listed_newest_first() {
    let conn = store();
    let note = Note::create(&conn, "n").unwrap();
    conn.execute(
        "INSERT INTO entries (note_id, description, amount, created_at) VALUES (?1, 'a', 1.0, 10)",
        (note.id,),
    )
    .unwrap();
    conn.execute(
        "INSERT INTO entries (note_id, description, amount, created_at) VALUES (?1, 'c', 3.0, 30)",
        (note.id,),
    )
    .unwrap();
    conn.execute(
        "INSERT INTO entries (note_id, description, amount, created_at) VALUES (?1, 'b', 2.0, 20)",
        (note.id,),
    )
    .unwrap();
    let entries = Entry::all_for_note(&conn, note.id).unwrap();
    let names: Vec<&str> = entries.iter().map(|e| e.description.as_str()).collect();
    assert_eq!(names, vec!["c", "b", "a"]);
}

#[test]
fn whole_amounts_are_stored_as_reals() {
    let conn = store();
    let note = Note::create(&conn, "n").unwrap();
    Entry::create(&conn, note.id, "round", Amount::whole(7)).unwrap();
    let entries = Entry::all_for_note(&conn, note.id).unwrap();
    assert_eq!(entries[0].amount.number(), Number::Real(7.0f64.to_bits()));
}

#[test]
fn sum_for_note_is_the_sum_of_its_amounts() {
    let conn = store();
    let note = Note::create(&conn, "a").unwrap();
    let other = Note::create(&conn, "b").unwrap();
    let amounts = [30.0, 20.5, -5.25, 0.125];
    for x in amounts {
        Entry::create(&conn, note.id, "item", money(x)).unwrap();
    }
    Entry::create(&conn, other.id, "elsewhere", money(1000.0)).unwrap();
    let expected: f64 = amounts.iter().sum();
    assert_eq!(expected, 45.375);
    let sum = as_f64(&Entry::sum_for_note(&conn, note.id).unwrap());
    assert!((sum - expected).abs() <= 1e-9);
    assert_eq!(sum, 45.375);
    assert_eq!(as_f64(&Entry::sum_for_note(&conn, other.id).unwrap()), 1000.0);
    assert_eq!(as_f64(&Entry::sum_all(&conn).unwrap()), 1045.375);
}

#[test]
fn sums_of_nothing_are_zero() {
    let conn = store();
    let note = Note::create(&conn, "empty").unwrap();
    assert_eq!(as_f64(&Entry::sum_all(&conn).unwrap()), 0.0);
    assert_eq!(as_f64(&Entry::sum_for_note(&conn, note.id).unwrap()), 0.0);
    assert_eq!(as_f64(&Entry::sum_for_note(&conn, 999).unwrap()), 0.0);
    assert_eq!(Entry::sum_all(&conn).unwrap().number(), Number::Whole(0));
}

#[test]
fn update_entry_rewrites_description_and_amount() {
    let conn = store();
    let note = Note::create(&conn, "n").unwrap();
    let entry = Entry::create(&conn, note.id, "tea", money(3.0)).unwrap();
    Entry::update(&conn, entry.id, "coffee", money(4.5)).unwrap();
    let entries = Entry::all_for_note(&conn, note.id).unwrap();
    assert_eq!(entries.len(), 1);
    assert_eq!(entries[0].id, entry.id);
    assert_eq!(entries[0].description, "coffee");
    assert_eq!(as_f64(&entries[0].amount), 4.5);
    assert_eq!(entries[0].created_at, entry.created_at);
}

#[test]
fn delete_entry_removes_only_that_entry() {
    let conn = store();
    let note = Note::create(&conn, "n").unwrap();
    let a = Entry::create(&conn, note.id, "a", money(1.0)).unwrap();
    let b = Entry::create(&conn, note.id, "b", money(2.0)).unwrap();
    Entry::delete(&conn, a.id).unwrap();
    let entries = Entry::all_for_note(&conn, note.id).unwrap();
    assert_eq!(entries.len(), 1);
    assert_eq!(entries[0].id, b.id);
    assert_eq!(as_f64(&Entry::sum_for_note(&conn, note.id).unwrap()), 2.0);
}

#[test]
fn deleting_a_note_removes_its_entries_and_budget() {
    let conn = store();
    let note = Note::create(&conn, "gone").unwrap();
    let kept = Note::create(&conn, "kept").unwrap();
    Entry::create(&conn, note.id, "a", money(1.0)).unwrap();
    Entry::create(&conn, note.id, "b", money(2.0)).unwrap();
    Entry::create(&conn, kept.id, "c", money(4.0)).unwrap();
    Budget::set(&conn, note.id, money(10.0)).unwrap();
    Budget::set(&conn, kept.id, money(20.0)).unwrap();
    Note::delete(&conn, note.id).unwrap();
    assert!(Entry::all_for_note(&conn, note.id).unwrap().is_empty());
    assert_eq!(as_f64(&Entry::sum_all(&conn).unwrap()), 4.0);
    assert_eq!(Budget::get(&conn, note.id).unwrap_err().kind, ErrorKind::NotFound);
    let notes = Note::all(&conn).unwrap();
    assert_eq!(notes.len(), 1);
    assert_eq!(notes[0].id, kept.id);
    assert_eq!(Entry::all_for_note(&conn, kept.id).unwrap().len(), 1);
    assert_eq!(as_f64(&Budget::get(&conn, kept.id).unwrap()), 20.0);
}

#[test]
fn remaining_is_budget_minus_spending() {
    let conn = store();
    let note = Note::create(&conn, "n").unwrap();
    Budget::set(&conn, note.id, money(100.0)).unwrap();
    Entry::create(&conn, note.id, "desc", money(30.0)).unwrap();
    Entry::create(&conn, note.id, "desc", money(20.0)).unwrap();
    let left = Budget::remaining(&conn, note.id).unwrap();
    assert_eq!(as_f64(&left.initial), 100.0);
    assert_eq!(as_f64(&left.spent), 50.0);
    assert_eq!(as_f64(&left.initial) - as_f64(&left.spent), 50.0);
}

#[test]
fn remaining_counts_only_the_entries_of_its_note() {
    let conn = store();
    let note = Note::create(&conn, "n").unwrap();
    let other = Note::create(&conn, "m").unwrap();
    Budget::set(&conn, note.id, money(10.0)).unwrap();
    Entry::create(&conn, other.id, "elsewhere", money(7.0)).unwrap();
    let left = Budget::remaining(&conn, note.id).unwrap();
    assert_eq!(as_f64(&left.initial) - as_f64(&left.spent), 10.0);
    assert_eq!(left.spent.number(), Number::Whole(0));
}

#[test]
fn budget_is_not_found_until_it_is_set() {
    let conn = store();
    let note = Note::create(&conn, "n").unwrap();
    let err = Budget::get(&conn, note.id).unwrap_err();
    assert_eq!(err.kind, ErrorKind::NotFound);
    assert_eq!(err.to_string(), "Query returned no rows");
    assert_eq!(Budget::remaining(&conn, note.id).unwrap_err().kind, ErrorKind::NotFound);
    Budget::set(&conn, note.id, money(12.34)).unwrap();
    let got = Budget::get(&conn, note.id).unwrap();
    assert_eq!(got.number(), Number::Real(12.34f64.to_bits()));
}

#[test]
fn setting_a_budget_again_overwrites_it() {
    let conn = store();
    let note = Note::create(&conn, "n").unwrap();
    Budget::set(&conn, note.id, money(1.5)).unwrap();
    Budget::set(&conn, note.id, money(2.5)).unwrap();
    assert_eq!(as_f64(&Budget::get(&conn, note.id).unwrap()), 2.5);
    let rows: i64 = conn.query_row("SELECT COUNT(*) FROM budgets", (), |r| r.get(0)).unwrap();
    assert_eq!(rows, 1);
}

#[test]
fn budget_of_a_missing_note_is_refused() {
    let conn = store();
    let err = Budget::set(&conn, 77, money(1.0)).unwrap_err();
    assert_eq!(err.kind, ErrorKind::Constraint);
    assert_eq!(Budget::get(&conn, 77).unwrap_err().kind, ErrorKind::NotFound);
}

#[test]
fn changes_to_missing_rows_are_silent() {
    let conn = store();
    let note = Note::create(&conn, "only").unwrap();
    let entry = Entry::create(&conn, note.id, "one", money(1.0)).unwrap();
    Note::update(&conn, note.id + 100, "ghost").unwrap();
    Note::delete(&conn, note.id + 100).unwrap();
    Entry::update(&conn, entry.id + 100, "ghost", money(9.0)).unwrap();
    Entry::delete(&conn, entry.id + 100).unwrap();
    let notes = Note::all(&conn).unwrap();
    assert_eq!(notes.len(), 1);
    assert_eq!(notes[0].title, "only");
    let entries = Entry::all_for_note(&conn, note.id).unwrap();
    assert_eq!(entries.len(), 1);
    assert_eq!(entries[0].description, "one");
    assert_eq!(as_f64(&entries[0].amount), 1.0);
}

#[test]
fn entry_of_a_missing_note_is_refused() {
    let conn = store();
    let err = Entry::create(&conn, 5, "orphan", money(1.0)).unwrap_err();
    assert_eq!(err.kind, ErrorKind::Constraint);
    assert_eq!(err.to_string(), "FOREIGN KEY constraint failed");
    assert!(Entry::all_for_note(&conn, 5).unwrap().is_empty());
    let rows: i64 = conn.query_row("SELECT COUNT(*) FROM entries", (), |r| r.get(0)).unwrap();
    assert_eq!(rows, 0);
}

#[test]
fn laying_out_again_keeps_everything() {
    let conn = store();
    let note = Note::create(&conn, "kept").unwrap();
    Entry::create(&conn, note.id, "line", money(3.5)).unwrap();
    Budget::set(&conn, note.id, money(9.0)).unwrap();
    lay_out(&conn).unwrap();
    lay_out(&conn).unwrap();
    let notes = Note::all(&conn).unwrap();
    assert_eq!(notes.len(), 1);
    assert_eq!(notes[0].id, note.id);
    assert_eq!(Entry::all_for_note(&conn, note.id).unwrap().len(), 1);
    assert_eq!(as_f64(&Budget::get(&conn, note.id).unwrap()), 9.0);
    let tables: i64 = conn
        .query_row(
            "SELECT COUNT(*) FROM sqlite_master WHERE type = 'table' AND name IN ('notes', 'entries', 'budgets')",
            (),
            |r| r.get(0),
        )
        .unwrap();
    assert_eq!(tables, 3);
}

#[test]
fn opening_again_reaches_the_same_store() {
    let path = "file:spendlog_reopened?mode=memory&cache=shared";
    let first = init_db(path).unwrap();
    let note = Note::create(&first, "shared").unwrap();
    Entry::create(&first, note.id, "line", money(2.0)).unwrap();
    Budget::set(&first, note.id, money(5.0)).unwrap();
    let second = init_db(path).unwrap();
    let notes = Note::all(&second).unwrap();
    assert_eq!(notes.len(), 1);
    assert_eq!(notes[0].id, note.id);
    assert_eq!(notes[0].title, "shared");
    assert_eq!(Entry::all_for_note(&second, note.id).unwrap().len(), 1);
    assert_eq!(as_f64(&Budget::get(&second, note.id).unwrap()), 5.0);
    assert_eq!(Note::all(&first).unwrap().len(), 1);
}

#[test]
fn a_store_that_cannot_be_opened_is_an_io_error() {
    let err = init_db("/no-such-directory/for/sure/ledger.db").unwrap_err();
    assert_eq!(err.kind, ErrorKind::Io);
    assert!(!err.to_string().is_empty());
}

#[test]
fn a_statement_on_missing_tables_is_a_query_error() {
    let conn = rusqlite::Connection::open_in_memory().unwrap();
    assert_eq!(Note::all(&conn).unwrap_err().kind, ErrorKind::Query);
    assert_eq!(Note::create(&conn, "x").unwrap_err().kind, ErrorKind::Query);
    assert_eq!(Entry::sum_all(&conn).unwrap_err().kind, ErrorKind::Query);
    lay_out(&conn).unwrap();
    assert!(Note::all(&conn).unwrap().is_empty());
}

#[test]
fn a_total_that_is_not_a_number_is_a_query_error() {
    let conn = rusqlite::Connection::open_in_memory().unwrap();
    conn.execute_batch("CREATE TABLE budgets (note_id INTEGER PRIMARY KEY, initial_amount);")
        .unwrap();
    conn.execute("INSERT INTO budgets VALUES (1, 'plenty')", ()).unwrap();
    let err = Budget::get(&conn, 1).unwrap_err();
    assert_eq!(err.kind, ErrorKind::Query);
    assert_eq!(err.to_string(), "the store returned a value that is not a number");
}

#[test]
fn a_failure_to_read_the_budget_is_handed_on_as_it_came() {
    let conn = store();
    let note = Note::create(&conn, "n").unwrap();
    Entry::create(&conn, note.id, "line", money(4.0)).unwrap();
    let missing = Budget::get(&conn, note.id);
    let err = Budget::remaining_after(missing, &conn, note.id).unwrap_err();
    assert_eq!(err.kind, ErrorKind::NotFound);
    assert_eq!(err.message, "Query returned no rows");
    let made_up = spendlog::error::StoreError::malformed("kept word for word");
    let err = Budget::remaining_after(Err(made_up), &conn, note.id).unwrap_err();
    assert_eq!(err.kind, ErrorKind::Query);
    assert_eq!(err.message, "kept word for word");
}

#[test]
fn a_budget_that_was_read_goes_beside_the_total() {
    let conn = store();
    let note = Note::create(&conn, "n").unwrap();
    Entry::create(&conn, note.id, "a", money(4.0)).unwrap();
    Entry::create(&conn, note.id, "b", money(1.5)).unwrap();
    let left = Budget::remaining_after(Ok(money(10.0)), &conn, note.id).unwrap();
    assert_eq!(left.initial.number(), Number::Real(10.0f64.to_bits()));
    assert_eq!(as_f64(&left.spent), 5.5);
    let bare = rusqlite::Connection::open_in_memory().unwrap();
    let err = Budget::remaining_after(Ok(money(10.0)), &bare, note.id).unwrap_err();
    assert_eq!(err.kind, ErrorKind::Query);
}

#[test]
fn a_failure_to_open_carries_the_words_of_the_store() {
    let err = init_db("/no-such-directory/for/sure/ledger.db").unwrap_err();
    assert_eq!(err.kind, ErrorKind::Io);
    assert_eq!(err.message, "unable to open database file: /no-such-directory/for/sure/ledger.db");
}

#[test]
fn creation_time_is_the_clock_in_seconds() {
    let conn = store();
    let before = std::time::SystemTime::now()
        .duration_since(std::time::UNIX_EPOCH)
        .unwrap()
        .as_secs() as i64;
    let note = Note::create(&conn, "n").unwrap();
    let entry = Entry::create(&conn, note.id, "e", money(1.0)).unwrap();
    let after = std::time::SystemTime::now()
        .duration_since(std::time::UNIX_EPOCH)
        .unwrap()
        .as_secs() as i64;
    assert!(before <= note.created_at && note.created_at <= entry.created_at);
    assert!(entry.created_at <= after);
}

#[test]
fn a_note_created_at_a_given_time_is_listed_with_it() {
    let conn = store();
    let old = Note::create_at(&conn, "old", 1000).unwrap();
    let new = Note::create_at(&conn, "new", 2000).unwrap();
    assert_eq!(old.title, "old");
    assert_eq!(old.created_at, 1000);
    assert_eq!(new.created_at, 2000);
    let notes = Note::all(&conn).unwrap();
    assert_eq!(notes.len(), 2);
    assert_eq!((notes[0].id, notes[0].title.as_str(), notes[0].created_at), (new.id, "new", 2000));
    assert_eq!((notes[1].id, notes[1].title.as_str(), notes[1].created_at), (old.id, "old", 1000));
    assert_eq!(notes.iter().filter(|n| n.id == old.id).count(), 1);
}

#[test]
fn an_entry_created_at_a_given_time_is_listed_with_it() {
    let conn = store();
    let note = Note::create_at(&conn, "n", -5).unwrap();
    assert_eq!(note.created_at, -5);
    let first = Entry::create_at(&conn, note.id, "first", money(1.25), 10).unwrap();
    let second = Entry::create_at(&conn, note.id, "second", money(2.5), 20).unwrap();
    assert_eq!(first.created_at, 10);
    assert_eq!(first.note_id, note.id);
    assert_eq!(first.description, "first");
    assert_eq!(first.amount.number(), Number::Real(1.25f64.to_bits()));
    let entries = Entry::all_for_note(&conn, note.id).unwrap();
    let seen: Vec<(i64, i64)> = entries.iter().map(|e| (e.id, e.created_at)).collect();
    assert_eq!(seen, vec![(second.id, 20), (first.id, 10)]);
    let err = Entry::create_at(&conn, note.id + 1, "orphan", money(1.0), 30).unwrap_err();
    assert_eq!(err.kind, ErrorKind::Constraint);
}
