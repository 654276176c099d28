//! A personal spending ledger kept in an embedded SQLite store.
//!
//! Notes are named spending logs, entries are dated line items under a note,
//! and each note may carry a budget against which its entries are compared.
//! The store itself is SQLite; this crate builds every statement that is sent
//! to it, decodes every row that comes back, and sorts every failure into one
//! of four kinds. Those three things are verified; the calls into SQLite are
//! the trusted boundary and are gathered in `value`, `error` and `db`.

pub mod budget;
pub mod db;
pub mod entry;
pub mod error;
pub mod note;
pub mod value;
