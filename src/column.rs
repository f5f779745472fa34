//! Typed column handles, each holding a qualified `"table"."column"`
//! reference, and the select-list helpers built from them.
use vstd::prelude::*;
use crate::schema::{ColumnKind, TableSchema};
use crate::text::{qualified, quote};

verus! {

/// Anything that renders as a column reference.
pub trait ToColumn {
    /// The reference text.
    spec fn column_ref(&self) -> Seq<char>;

    fn to_column(&self) -> (r: &str)
        ensures
            r@ == self.column_ref(),
    ;
}

/// A handle on a `text` column.
#[derive(Clone, Debug)]
pub struct Text(String);

/// A handle on a `blob` column.
#[derive(Clone, Debug)]
pub struct Blob(String);

/// A handle on an `integer` column.
#[derive(Clone, Debug)]
pub struct Integer(String);

/// A handle on a `real` column.
#[derive(Clone, Debug)]
pub struct Real(String);

impl ToColumn for Text {
    closed spec fn column_ref(&self) -> Seq<char> {
        self.0@
    }

    fn to_column(&self) -> (r: &str) {
        self.0.as_str()
    }
}

impl ToColumn for Blob {
    closed spec fn column_ref(&self) -> Seq<char> {
        self.0@
    }

    fn to_column(&self) -> (r: &str) {
        self.0.as_str()
    }
}

impl ToColumn for Integer {
    closed spec fn column_ref(&self) -> Seq<char> {
        self.0@
    }

    fn to_column(&self) -> (r: &str) {
        self.0.as_str()
    }
}

impl ToColumn for Real {
    closed spec fn column_ref(&self) -> Seq<char> {
        self.0@
    }

    fn to_column(&self) -> (r: &str) {
        self.0.as_str()
    }
}

/// The qualified reference to column `i` of `t`.
pub open spec fn column_ref_of(t: &TableSchema, i: int) -> Seq<char> {
    qualified(t@.name, t@.columns[i].name)
}

impl TableSchema {
    /// The qualified reference `"t"."c"` to column `i`.
    pub fn qualified_column(&self, i: usize) -> (r: String)
        requires
            i < self@.columns.len(),
        ensures
            r@ == column_ref_of(self, i as int),
    {
        let mut r = quote(self.name.as_str());
        r.append(".");
        r.append(quote(self.columns[i].name.as_str()).as_str());
        proof {
            reveal_strlit(".");
            assert(r@ =~= column_ref_of(self, i as int));
        }
        r
    }

    /// The handle on column `i`, a `text` column.
    pub fn text_column(&self, i: usize) -> (r: Text)
        requires
            i < self@.columns.len(),
            self@.columns[i as int].kind == ColumnKind::Text,
        ensures
            r.column_ref() == column_ref_of(self, i as int),
    {
        Text(self.qualified_column(i))
    }

    /// The handle on column `i`, a `blob` column.
    pub fn blob_column(&self, i: usize) -> (r: Blob)
        requires
            i < self@.columns.len(),
            self@.columns[i as int].kind == ColumnKind::Blob,
        ensures
            r.column_ref() == column_ref_of(self, i as int),
    {
        Blob(self.qualified_column(i))
    }

    /// The handle on column `i`, an `integer` column.
    pub fn integer_column(&self, i: usize) -> (r: Integer)
        requires
            i < self@.columns.len(),
            self@.columns[i as int].kind == ColumnKind::Integer,
        ensures
            r.column_ref() == column_ref_of(self, i as int),
    {
        Integer(self.qualified_column(i))
    }

    /// The handle on column `i`, a `real` column.
    pub fn real_column(&self, i: usize) -> (r: Real)
        requires
            i < self@.columns.len(),
            self@.columns[i as int].kind == ColumnKind::Real,
        ensures
            r.column_ref() == column_ref_of(self, i as int),
    {
        Real(self.qualified_column(i))
    }
}

/// The select list `*`.
pub fn star() -> (r: String)
    ensures
        r@ == "*"@,
{
    String::from_str("*")
}

/// `count(<column>) as count`
pub open spec fn count_text(column: Seq<char>) -> Seq<char> {
    "count("@ + column + ") as count"@
}

/// The select list `count(<column>) as count`.
pub fn count<C: ToColumn>(column: &C) -> (r: String)
    ensures
        r@ == count_text(column.column_ref()),
{
    let mut r = String::from_str("count(");
    r.append(column.to_column());
    r.append(") as count");
    r
}

} // verus!
