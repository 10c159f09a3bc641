use vstd::prelude::*;

verus! {

/// One cell of a stored row, or one bound statement parameter.
///
/// `Decimal` holds a number with two fractional digits, scaled by one hundred
/// (`2000` stands for `20.00`).
#[derive(Clone, Debug, PartialEq)]
pub enum Value {
    Null,
    Integer(i64),
    Decimal(i64),
    Text(String),
}

/// What a column of a row is expected to hold.
#[derive(Clone, Copy, Debug, PartialEq, Eq, Structural)]
pub enum ColumnKind {
    Integer,
    Decimal,
    Text,
    OptText,
}

/// Why a row could not be read back as a record.
#[derive(Clone, Copy, Debug, PartialEq, Eq, Structural)]
pub enum DecodeError {
    /// The row has `found` columns where `expected` were asked for.
    ColumnCount { expected: usize, found: usize },
    /// The value in `column` is not of the kind that the column holds.
    ColumnType { column: usize },
}

/// Why a lookup of a single record failed.
#[derive(Clone, Copy, Debug, PartialEq, Eq, Structural)]
pub enum LookupError {
    /// No row matched.
    NotFound,
    /// The matching row does not describe a record.
    Decode(DecodeError),
}

pub open spec fn fits(k: ColumnKind, v: Value) -> bool {
    match k {
        ColumnKind::Integer => v is Integer,
        ColumnKind::Decimal => v is Decimal,
        ColumnKind::Text => v is Text,
        ColumnKind::OptText => v is Text || v is Null,
    }
}

/// Every column of `row` holds a value of the kind that `kinds` gives it.
pub open spec fn row_fits(kinds: Seq<ColumnKind>, row: Seq<Value>) -> bool {
    &&& row.len() == kinds.len()
    &&& forall|i: int| 0 <= i < row.len() ==> #[trigger] fits(kinds[i], row[i])
}

/// `e` is the error that reading `row` against `kinds` reports: a wrong
/// column count first, else the first column of the wrong kind.
pub open spec fn is_row_error(kinds: Seq<ColumnKind>, row: Seq<Value>, e: DecodeError) -> bool {
    match e {
        DecodeError::ColumnCount { expected, found } => {
            &&& row.len() != kinds.len()
            &&& expected == kinds.len()
            &&& found == row.len()
        },
        DecodeError::ColumnType { column } => {
            &&& row.len() == kinds.len()
            &&& column < row.len()
            &&& !fits(kinds[column as int], row[column as int])
            &&& forall|j: int| 0 <= j < column ==> #[trigger] fits(kinds[j], row[j])
        },
    }
}

/// The cell that stores an optional text.
pub open spec fn opt_text(o: Option<String>) -> Value {
    match o {
        Some(s) => Value::Text(s),
        None => Value::Null,
    }
}

/// The optional text that a cell stores.
pub open spec fn opt_text_of(v: Value) -> Option<String> {
    match v {
        Value::Text(s) => Some(s),
        _ => None,
    }
}

/// Checks the shape of `row` against `kinds`.
pub fn check_row(row: &Vec<Value>, kinds: &Vec<ColumnKind>) -> (r: Result<(), DecodeError>)
    ensures
        r is Ok <==> row_fits(kinds@, row@),
        r matches Err(e) ==> is_row_error(kinds@, row@, e),
{
    if row.len() != kinds.len() {
        return Err(DecodeError::ColumnCount { expected: kinds.len(), found: row.len() });
    }
    let mut i: usize = 0;
    while i < row.len()
        invariant
            row@.len() == kinds@.len(),
            i <= row@.len(),
            forall|j: int| 0 <= j < i ==> #[trigger] fits(kinds@[j], row@[j]),
        decreases row@.len() - i,
    {
        let ok = match (kinds[i], &row[i]) {
            (ColumnKind::Integer, Value::Integer(_)) => true,
            (ColumnKind::Decimal, Value::Decimal(_)) => true,
            (ColumnKind::Text, Value::Text(_)) => true,
            (ColumnKind::OptText, Value::Text(_)) => true,
            (ColumnKind::OptText, Value::Null) => true,
            _ => false,
        };
        assert(ok == fits(kinds@[i as int], row@[i as int]));
        if !ok {
            return Err(DecodeError::ColumnType { column: i });
        }
        i = i + 1;
    }
    Ok(())
}

/// The cell for an optional text.
pub fn opt_text_value(o: &Option<String>) -> (r: Value)
    ensures
        r == opt_text(*o),
{
    match o {
        Some(s) => Value::Text(s.clone()),
        None => Value::Null,
    }
}

pub(crate) fn integer_at(row: &Vec<Value>, i: usize) -> (r: i64)
    requires
        i < row@.len(),
        row@[i as int] is Integer,
    ensures
        r == row@[i as int]->Integer_0,
{
    match &row[i] {
        Value::Integer(n) => *n,
        _ => 0,
    }
}

pub(crate) fn decimal_at(row: &Vec<Value>, i: usize) -> (r: i64)
    requires
        i < row@.len(),
        row@[i as int] is Decimal,
    ensures
        r == row@[i as int]->Decimal_0,
{
    match &row[i] {
        Value::Decimal(n) => *n,
        _ => 0,
    }
}

pub(crate) fn text_at(row: &Vec<Value>, i: usize) -> (r: String)
    requires
        i < row@.len(),
        row@[i as int] is Text,
    ensures
        r == row@[i as int]->Text_0,
{
    match &row[i] {
        Value::Text(s) => s.clone(),
        _ => String::new(),
    }
}

pub(crate) fn opt_text_at(row: &Vec<Value>, i: usize) -> (r: Option<String>)
    requires
        i < row@.len(),
    ensures
        r == opt_text_of(row@[i as int]),
{
    match &row[i] {
        Value::Text(s) => Some(s.clone()),
        _ => None,
    }
}

} // verus!
