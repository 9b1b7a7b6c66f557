//! Column kinds, typed values and schema descriptors.
use vstd::prelude::*;

verus! {

/// The kinds of column a table can declare.
#[derive(Clone, Copy, Debug, PartialEq, Eq, Structural)]
pub enum ColumnType {
    Text,
    Integer,
    BigInt,
    Double,
}

/// The name the host uses for a column kind.
pub open spec fn kind_name(kind: ColumnType) -> Seq<char> {
    match kind {
        ColumnType::Text => seq!['T', 'E', 'X', 'T'],
        ColumnType::Integer => seq!['I', 'N', 'T', 'E', 'G', 'E', 'R'],
        ColumnType::BigInt => seq!['B', 'I', 'G', 'I', 'N', 'T'],
        ColumnType::Double => seq!['D', 'O', 'U', 'B', 'L', 'E'],
    }
}

impl ColumnType {
    /// The kind's name on the wire: `TEXT`, `INTEGER`, `BIGINT` or `DOUBLE`.
    pub fn as_str(&self) -> (r: &'static str)
        ensures
            r@ == kind_name(*self),
    {
        match self {
            ColumnType::Text => {
                proof { reveal_strlit("TEXT"); }
                "TEXT"
            },
            ColumnType::Integer => {
                proof { reveal_strlit("INTEGER"); }
                "INTEGER"
            },
            ColumnType::BigInt => {
                proof { reveal_strlit("BIGINT"); }
                "BIGINT"
            },
            ColumnType::Double => {
                proof { reveal_strlit("DOUBLE"); }
                "DOUBLE"
            },
        }
    }
}


/// A digit's character.
pub open spec fn digit_char(d: nat) -> char {
    if d == 0 { '0' } else if d == 1 { '1' } else if d == 2 { '2' } else if d == 3 { '3' }
    else if d == 4 { '4' } else if d == 5 { '5' } else if d == 6 { '6' } else if d == 7 { '7' }
    else if d == 8 { '8' } else { '9' }
}

/// The decimal digits of a natural number, most significant first.
pub open spec fn nat_decimal(n: nat) -> Seq<char>
    decreases n,
{
    if n < 10 {
        seq![digit_char(n)]
    } else {
        nat_decimal(n / 10).push(digit_char(n % 10))
    }
}

/// The decimal text of an integer, with a leading `-` when it is negative.
pub open spec fn int_decimal(i: int) -> Seq<char> {
    if i < 0 {
        seq!['-'] + nat_decimal((-i) as nat)
    } else {
        nat_decimal(i as nat)
    }
}

/// Relies on `i64`'s `Display` (through `ToString::to_string`): base ten, a `-`
/// before a negative value, no sign before any other.
#[verifier::external_body]
pub(crate) fn decimal_text(v: i64) -> (r: String)
    ensures
        r@ == int_decimal(v as int),
{
    v.to_string()
}

/// A value of one column of one row; each variant carries the value of one
/// `ColumnType`. A double is carried as its decimal text (the shortest text
/// that reads back as the same `f64`), which is all the wire ever sees of it.
#[derive(Clone, Debug, PartialEq)]
pub enum ColumnValue {
    Text(String),
    Integer(i32),
    BigInt(i64),
    Double(String),
}

impl ColumnValue {
    /// The kind of the value.
    pub open spec fn spec_kind(&self) -> ColumnType {
        match self {
            ColumnValue::Text(_) => ColumnType::Text,
            ColumnValue::Integer(_) => ColumnType::Integer,
            ColumnValue::BigInt(_) => ColumnType::BigInt,
            ColumnValue::Double(_) => ColumnType::Double,
        }
    }

    /// The value's text on the wire.
    pub open spec fn spec_text(&self) -> Seq<char> {
        match self {
            ColumnValue::Text(s) => s@,
            ColumnValue::Integer(i) => int_decimal(*i as int),
            ColumnValue::BigInt(i) => int_decimal(*i as int),
            ColumnValue::Double(s) => s@,
        }
    }

    pub fn text(v: &str) -> (r: ColumnValue)
        ensures
            r matches ColumnValue::Text(s) && s@ == v@,
            r.spec_kind() == ColumnType::Text,
    {
        ColumnValue::Text(String::from_str(v))
    }

    pub fn integer(v: i32) -> (r: ColumnValue)
        ensures
            r == ColumnValue::Integer(v),
            r.spec_kind() == ColumnType::Integer,
    {
        ColumnValue::Integer(v)
    }

    pub fn big_int(v: i64) -> (r: ColumnValue)
        ensures
            r == ColumnValue::BigInt(v),
            r.spec_kind() == ColumnType::BigInt,
    {
        ColumnValue::BigInt(v)
    }

    /// A double, given by its decimal text.
    pub fn double(decimal: String) -> (r: ColumnValue)
        ensures
            r == ColumnValue::Double(decimal),
            r.spec_kind() == ColumnType::Double,
    {
        ColumnValue::Double(decimal)
    }

    /// The kind of the value: one case per variant.
    pub fn kind(&self) -> (r: ColumnType)
        ensures
            r == self.spec_kind(),
    {
        match self {
            ColumnValue::Text(_) => ColumnType::Text,
            ColumnValue::Integer(_) => ColumnType::Integer,
            ColumnValue::BigInt(_) => ColumnType::BigInt,
            ColumnValue::Double(_) => ColumnType::Double,
        }
    }

    /// The value's canonical text: decimal for the integers, the text itself
    /// for text and for a double.
    pub fn to_string(&self) -> (r: String)
        ensures
            r@ == self.spec_text(),
    {
        match self {
            ColumnValue::Text(s) => s.clone(),
            ColumnValue::Integer(i) => decimal_text(*i as i64),
            ColumnValue::BigInt(i) => decimal_text(*i),
            ColumnValue::Double(s) => s.clone(),
        }
    }
}

/// A value built from the native value of a column's kind projects back to
/// that kind, whichever kind the column declares.
pub proof fn lemma_constructed_value_kind(c: Column, text: String, integer: i32, big_int: i64, double: String)
    ensures
        c.kind == ColumnType::Text ==> ColumnValue::Text(text).spec_kind() == c.kind,
        c.kind == ColumnType::Integer ==> ColumnValue::Integer(integer).spec_kind() == c.kind,
        c.kind == ColumnType::BigInt ==> ColumnValue::BigInt(big_int).spec_kind() == c.kind,
        c.kind == ColumnType::Double ==> ColumnValue::Double(double).spec_kind() == c.kind,
{
}

/// A declared column: its name and its kind.
#[derive(Clone, Debug, PartialEq)]
pub struct Column {
    pub name: String,
    pub kind: ColumnType,
}

impl Column {
    pub fn text(name: &str) -> (r: Column)
        ensures
            r.name@ == name@,
            r.kind == ColumnType::Text,
    {
        Column { name: String::from_str(name), kind: ColumnType::Text }
    }

    pub fn integer(name: &str) -> (r: Column)
        ensures
            r.name@ == name@,
            r.kind == ColumnType::Integer,
    {
        Column { name: String::from_str(name), kind: ColumnType::Integer }
    }

    pub fn big_int(name: &str) -> (r: Column)
        ensures
            r.name@ == name@,
            r.kind == ColumnType::BigInt,
    {
        Column { name: String::from_str(name), kind: ColumnType::BigInt }
    }

    pub fn double(name: &str) -> (r: Column)
        ensures
            r.name@ == name@,
            r.kind == ColumnType::Double,
    {
        Column { name: String::from_str(name), kind: ColumnType::Double }
    }

    /// The column's name and the wire name of its kind.
    pub fn to_pair(&self) -> (r: (String, String))
        ensures
            r.0@ == self.name@,
            r.1@ == kind_name(self.kind),
    {
        (self.name.clone(), String::from_str(self.kind.as_str()))
    }
}

} // verus!
