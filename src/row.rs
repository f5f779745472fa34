//! Row descriptors: the ordered values of one row and the `values` and `set`
//! fragments that bind them, column for column.
use vstd::prelude::*;
use crate::text::{
    append_joined, join, lemma_no_placeholders, lemma_placeholders_concat, lemma_views_push,
    placeholders, quote, quoted, views,
};
use crate::value::{all_bindable, duplicate_all, models, Value, ValueModel};

verus! {

/// The model of a row: bare column names and the values for them, in order.
pub struct RowModel {
    pub columns: Seq<Seq<char>>,
    pub values: Seq<ValueModel>,
}

/// `n` placeholders.
pub open spec fn question_marks(n: nat) -> Seq<Seq<char>> {
    Seq::new(n, |i: int| "?"@)
}

/// `("c1","c2",...) values (?,?,...)`
pub open spec fn values_clause_text(columns: Seq<Seq<char>>) -> Seq<char> {
    "("@ + join(columns.map_values(|c: Seq<char>| quoted(c)), ","@) + ") values ("@ + join(
        question_marks(columns.len()),
        ","@,
    ) + ")"@
}

/// `"c" = ?`
pub open spec fn assignment(c: Seq<char>) -> Seq<char> {
    quoted(c) + " = ?"@
}

/// `"c1" = ?, "c2" = ?, ...`
pub open spec fn set_clause_text(columns: Seq<Seq<char>>) -> Seq<char> {
    join(columns.map_values(|c: Seq<char>| assignment(c)), ", "@)
}

/// Behaviour every row descriptor offers: its values and the fragments that
/// bind them, all in one column order.
pub trait Row {
    /// The row this descriptor stands for.
    spec fn row_model(&self) -> RowModel;

    /// The row's values, in column order: one bindable value per column.
    fn values(&self) -> (r: Vec<Value>)
        ensures
            models(r@) == self.row_model().values,
            self.row_model().values.len() == self.row_model().columns.len(),
            all_bindable(self.row_model().values),
    ;

    /// `("c1","c2",...) values (?,?,...)`
    fn insert_sql(&self) -> (r: String)
        ensures
            r@ == values_clause_text(self.row_model().columns),
    ;

    /// `"c1" = ?, "c2" = ?, ...`
    fn set_sql(&self) -> (r: String)
        ensures
            r@ == set_clause_text(self.row_model().columns),
    ;
}

/// The placeholders of all parts together.
pub open spec fn total_placeholders(ps: Seq<Seq<char>>) -> nat
    decreases ps.len(),
{
    if ps.len() == 0 {
        0
    } else {
        total_placeholders(ps.drop_last()) + placeholders(ps.last())
    }
}

proof fn lemma_join_placeholders(ps: Seq<Seq<char>>, sep: Seq<char>)
    requires
        placeholders(sep) == 0,
    ensures
        placeholders(join(ps, sep)) == total_placeholders(ps),
    decreases ps.len(),
{
    if ps.len() == 1 {
        assert(ps.drop_last().len() == 0);
        assert(ps.last() == ps[0]);
        assert(total_placeholders(ps.drop_last()) == 0);
    } else if ps.len() > 1 {
        lemma_join_placeholders(ps.drop_last(), sep);
        lemma_placeholders_concat(join(ps.drop_last(), sep), sep);
        lemma_placeholders_concat(join(ps.drop_last(), sep) + sep, ps.last());
    }
}

proof fn lemma_quoted_placeholders(c: Seq<char>)
    ensures
        placeholders(quoted(c)) == placeholders(c),
{
    let q = seq!['"'];
    lemma_no_placeholders(q);
    lemma_placeholders_concat(q, c);
    lemma_placeholders_concat(q + c, q);
}

proof fn lemma_totals(columns: Seq<Seq<char>>)
    requires
        forall|i: int| 0 <= i < columns.len() ==> placeholders(#[trigger] columns[i]) == 0,
    ensures
        total_placeholders(columns.map_values(|c: Seq<char>| quoted(c))) == 0,
        total_placeholders(columns.map_values(|c: Seq<char>| assignment(c))) == columns.len(),
        total_placeholders(question_marks(columns.len())) == columns.len(),
    decreases columns.len(),
{
    if columns.len() > 0 {
        let init = columns.drop_last();
        let c = columns.last();
        assert(placeholders(columns[columns.len() - 1]) == 0);
        lemma_totals(init);
        assert(columns.map_values(|c: Seq<char>| quoted(c)).drop_last() =~= init.map_values(
            |c: Seq<char>| quoted(c),
        ));
        assert(columns.map_values(|c: Seq<char>| assignment(c)).drop_last() =~= init.map_values(
            |c: Seq<char>| assignment(c),
        ));
        assert(question_marks(columns.len()).drop_last() =~= question_marks(init.len()));
        lemma_quoted_placeholders(c);
        reveal_strlit(" = ?");
        reveal_strlit("?");
        lemma_placeholders_concat(quoted(c), " = ?"@);
        assert(" = ?"@.drop_last() =~= seq![' ', '=', ' ']);
        lemma_no_placeholders(" = ?"@.drop_last());
        assert("?"@.drop_last() =~= Seq::<char>::empty());
        assert(placeholders("?"@.drop_last()) == 0);
        assert("?"@.last() == '?');
        assert(placeholders("?"@) == 1);
        assert(question_marks(columns.len()).last() == "?"@);
    }
}

/// With column names free of `?`, a row's `values` fragment and its `set`
/// fragment each hold exactly one placeholder per column, so the row's
/// values, one per column, bind them in order.
pub proof fn row_fragments_align(columns: Seq<Seq<char>>)
    requires
        forall|i: int| 0 <= i < columns.len() ==> placeholders(#[trigger] columns[i]) == 0,
    ensures
        placeholders(values_clause_text(columns)) == columns.len(),
        placeholders(set_clause_text(columns)) == columns.len(),
{
    reveal_strlit(",");
    reveal_strlit(", ");
    reveal_strlit("(");
    reveal_strlit(") values (");
    reveal_strlit(")");
    lemma_no_placeholders(","@);
    lemma_no_placeholders(", "@);
    lemma_no_placeholders("("@);
    lemma_no_placeholders(") values ("@);
    lemma_no_placeholders(")"@);
    lemma_totals(columns);
    let names = join(columns.map_values(|c: Seq<char>| quoted(c)), ","@);
    let marks = join(question_marks(columns.len()), ","@);
    lemma_join_placeholders(columns.map_values(|c: Seq<char>| quoted(c)), ","@);
    lemma_join_placeholders(question_marks(columns.len()), ","@);
    lemma_join_placeholders(columns.map_values(|c: Seq<char>| assignment(c)), ", "@);
    lemma_placeholders_concat("("@, names);
    lemma_placeholders_concat("("@ + names, ") values ("@);
    lemma_placeholders_concat("("@ + names + ") values ("@, marks);
    lemma_placeholders_concat("("@ + names + ") values ("@ + marks, ")"@);
}

/// A row given at run time: bare column names and one bindable value for
/// each.
#[derive(Debug)]
pub struct RowData {
    columns: Vec<String>,
    values: Vec<Value>,
}

impl RowData {
    #[verifier::type_invariant]
    spec fn inv(&self) -> bool {
        &&& self.columns@.len() == self.values@.len()
        &&& all_bindable(models(self.values@))
    }

    /// The row with the given columns and values; `None` unless there is one
    /// value per column and no value is a raw SQL literal.
    pub fn new(columns: Vec<String>, values: Vec<Value>) -> (r: Option<RowData>)
        ensures
            r is Some <==> columns@.len() == values@.len() && all_bindable(models(values@)),
            r matches Some(row) ==> row.row_model() == (RowModel {
                columns: views(columns@),
                values: models(values@),
            }),
    {
        if columns.len() != values.len() {
            return None;
        }
        let mut i: usize = 0;
        while i < values.len()
            invariant
                i <= values@.len(),
                forall|j: int| 0 <= j < i ==> (#[trigger] models(values@)[j]).is_bindable(),
            decreases values@.len() - i,
        {
            if !values[i].is_bindable() {
                assert(!models(values@)[i as int].is_bindable());
                return None;
            }
            i = i + 1;
        }
        Some(RowData { columns, values })
    }
}

impl Row for RowData {
    closed spec fn row_model(&self) -> RowModel {
        RowModel { columns: views(self.columns@), values: models(self.values@) }
    }

    fn values(&self) -> (r: Vec<Value>) {
        proof {
            use_type_invariant(self);
        }
        duplicate_all(&self.values)
    }

    fn insert_sql(&self) -> (r: String) {
        let ghost cols = views(self.columns@);
        let mut names: Vec<String> = Vec::new();
        let mut marks: Vec<String> = Vec::new();
        let mut i: usize = 0;
        while i < self.columns.len()
            invariant
                cols == views(self.columns@),
                i <= cols.len(),
                views(names@) == cols.map_values(|c: Seq<char>| quoted(c)).subrange(0, i as int),
                views(marks@) == question_marks(cols.len()).subrange(0, i as int),
            decreases cols.len() - i,
        {
            let q = quote(self.columns[i].as_str());
            let m = String::from_str("?");
            proof {
                lemma_views_push(names@, q);
                lemma_views_push(marks@, m);
            }
            names.push(q);
            marks.push(m);
            proof {
                assert(views(names@) =~= cols.map_values(|c: Seq<char>| quoted(c)).subrange(
                    0,
                    i + 1,
                ));
                assert(views(marks@) =~= question_marks(cols.len()).subrange(0, i + 1));
            }
            i = i + 1;
        }
        proof {
            assert(cols.map_values(|c: Seq<char>| quoted(c)).subrange(0, i as int)
                =~= cols.map_values(|c: Seq<char>| quoted(c)));
            assert(question_marks(cols.len()).subrange(0, i as int) =~= question_marks(
                cols.len(),
            ));
        }
        let mut r = String::from_str("(");
        append_joined(&mut r, &names, ",");
        r.append(") values (");
        append_joined(&mut r, &marks, ",");
        r.append(")");
        r
    }

    fn set_sql(&self) -> (r: String) {
        let ghost cols = views(self.columns@);
        let mut parts: Vec<String> = Vec::new();
        let mut i: usize = 0;
        while i < self.columns.len()
            invariant
                cols == views(self.columns@),
                i <= cols.len(),
                views(parts@) == cols.map_values(|c: Seq<char>| assignment(c)).subrange(
                    0,
                    i as int,
                ),
            decreases cols.len() - i,
        {
            let mut a = quote(self.columns[i].as_str());
            a.append(" = ?");
            proof {
                lemma_views_push(parts@, a);
            }
            parts.push(a);
            proof {
                assert(views(parts@) =~= cols.map_values(|c: Seq<char>| assignment(c)).subrange(
                    0,
                    i + 1,
                ));
            }
            i = i + 1;
        }
        proof {
            assert(cols.map_values(|c: Seq<char>| assignment(c)).subrange(0, i as int)
                =~= cols.map_values(|c: Seq<char>| assignment(c)));
        }
        let mut r = String::new();
        append_joined(&mut r, &parts, ", ");
        assert(r@ =~= set_clause_text(cols));
        r
    }
}

} // verus!
