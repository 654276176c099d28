//! Values as SQLite holds them, and the amounts of money built on them.
//!
//! A `rusqlite::types::Value` is carried through this crate unopened. What it
//! holds is named by [`datum_of`]; the small trusted functions below are the
//! only places where a value is made or taken apart.

use vstd::prelude::*;

verus! {

#[verifier::external_type_specification]
#[verifier::external_body]
pub struct ExValue(rusqlite::types::Value);

/// The content of a stored value. A real number is held as the bit pattern of
/// its IEEE-754 double, so that two reals are equal here exactly when they are
/// the same double.
pub ghost enum Datum {
    Null,
    Integer(i64),
    Real(u64),
    Text(Seq<char>),
    Blob(Seq<u8>),
}

/// What a `rusqlite::types::Value` holds.
pub uninterp spec fn datum_of(v: rusqlite::types::Value) -> Datum;

/// A stored value taken apart into plain data.
#[derive(Debug)]
pub enum Cell {
    Null,
    Integer(i64),
    Real(u64),
    Text(String),
    Blob(Vec<u8>),
}

impl View for Cell {
    type V = Datum;

    open spec fn view(&self) -> Datum {
        match *self {
            Cell::Null => Datum::Null,
            Cell::Integer(i) => Datum::Integer(i),
            Cell::Real(bits) => Datum::Real(bits),
            Cell::Text(s) => Datum::Text(s@),
            Cell::Blob(b) => Datum::Blob(b@),
        }
    }
}

/// Trusted: reads the variant of a `rusqlite::types::Value` and moves its
/// field into the matching `Cell`; a real is handed out as `f64::to_bits`
/// gives it. The contract claims that the cell holds exactly what the value
/// holds.
#[verifier::external_body]
pub(crate) fn inspect(v: &rusqlite::types::Value) -> (c: Cell)
    ensures
        c@ == datum_of(*v),
{
    match v {
        rusqlite::types::Value::Null => Cell::Null,
        rusqlite::types::Value::Integer(i) => Cell::Integer(*i),
        rusqlite::types::Value::Real(x) => Cell::Real(x.to_bits()),
        rusqlite::types::Value::Text(s) => Cell::Text(s.clone()),
        rusqlite::types::Value::Blob(b) => Cell::Blob(b.clone()),
    }
}

/// Trusted: `Value::from` on an `i64`, which rusqlite defines as
/// `Value::Integer` of that number.
#[verifier::external_body]
pub(crate) fn integer_value(i: i64) -> (v: rusqlite::types::Value)
    ensures
        datum_of(v) == Datum::Integer(i),
{
    rusqlite::types::Value::from(i)
}

/// Trusted: `Value::from` on a `String`, which rusqlite defines as
/// `Value::Text` of that string.
#[verifier::external_body]
pub(crate) fn text_value(s: &str) -> (v: rusqlite::types::Value)
    ensures
        datum_of(v) == Datum::Text(s@),
{
    rusqlite::types::Value::from(s.to_string())
}

/// Trusted: `Value::clone`, which rusqlite derives; the copy holds what the
/// value it was made from holds.
#[verifier::external_body]
pub(crate) fn copy_value(v: &rusqlite::types::Value) -> (c: rusqlite::types::Value)
    ensures
        datum_of(c) == datum_of(*v),
{
    v.clone()
}

/// A number as the store holds one: a whole number, or a real given by the
/// bits of its double.
#[derive(Clone, Copy, Debug, PartialEq, Eq, Structural)]
pub enum Number {
    Whole(i64),
    Real(u64),
}

impl Number {
    /// The stored content that stands for this number.
    pub open spec fn datum(self) -> Datum {
        match self {
            Number::Whole(i) => Datum::Integer(i),
            Number::Real(bits) => Datum::Real(bits),
        }
    }
}

/// Whether a stored content is a number.
pub open spec fn is_numeric(d: Datum) -> bool {
    d is Integer || d is Real
}

/// The number that a numeric content stands for.
pub open spec fn number_of(d: Datum) -> Number
    recommends
        is_numeric(d),
{
    match d {
        Datum::Integer(i) => Number::Whole(i),
        Datum::Real(bits) => Number::Real(bits),
        _ => Number::Whole(0),
    }
}

/// Writing a number as stored content and reading that content back gives
/// the same number: nothing is lost on the way to the store and back.
pub proof fn lemma_number_round_trip(n: Number)
    ensures
        is_numeric(n.datum()),
        number_of(n.datum()) == n,
{
}

/// An amount of money. It wraps the stored value itself, so that a double
/// travels to the store and back without ever being rewritten; the invariant
/// is that the value is a number.
#[derive(Debug)]
pub struct Amount {
    value: rusqlite::types::Value,
}

impl Amount {
    #[verifier::type_invariant]
    spec fn numeric(self) -> bool {
        is_numeric(datum_of(self.value))
    }

    /// The number this amount stands for.
    pub closed spec fn view(self) -> Number {
        number_of(datum_of(self.value))
    }

    /// Accepts a stored value as an amount exactly when it is a number.
    pub fn from_value(value: rusqlite::types::Value) -> (r: Option<Amount>)
        ensures
            r is Some <==> is_numeric(datum_of(value)),
            r matches Some(a) ==> a@ == number_of(datum_of(value)),
    {
        match inspect(&value) {
            Cell::Integer(_) => Some(Amount { value }),
            Cell::Real(_) => Some(Amount { value }),
            _ => None,
        }
    }

    /// The amount of a whole number of units.
    pub fn whole(units: i64) -> (a: Amount)
        ensures
            a@ == Number::Whole(units),
    {
        Amount { value: integer_value(units) }
    }

    /// The number this amount stands for, as plain data.
    pub fn number(&self) -> (n: Number)
        ensures
            n == self@,
    {
        proof {
            use_type_invariant(self);
        }
        match inspect(&self.value) {
            Cell::Integer(i) => Number::Whole(i),
            Cell::Real(bits) => Number::Real(bits),
            _ => Number::Whole(0),
        }
    }

    /// A fresh stored value holding this amount, ready to be bound to a
    /// statement.
    pub fn to_value(&self) -> (v: rusqlite::types::Value)
        ensures
            datum_of(v) == self@.datum(),
    {
        proof {
            use_type_invariant(self);
        }
        copy_value(&self.value)
    }
}

impl Clone for Amount {
    fn clone(&self) -> (c: Self)
        ensures
            c@ == self@,
    {
        proof {
            use_type_invariant(self);
        }
        Amount { value: copy_value(&self.value) }
    }
}

} // verus!
