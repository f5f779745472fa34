//! The statement builder: clause slots filled in any order, rendered in one
//! fixed order, with one positional parameter list kept beside them.
use vstd::prelude::*;
use crate::error::Error;
use crate::predicate::{WhereModel, WherePart};
use crate::row::{set_clause_text, values_clause_text, Row, RowModel};
use crate::schema::{delete_text, insert_into_text, opt_view, update_text, Table, TableModel};
use crate::text::{append_decimal, append_joined, decimal, join, lemma_views_push, quoted, views};
use crate::value::{all_bindable, duplicate_all, models, Value, ValueModel};

verus! {

/// The model of a statement under construction: each clause slot, and the
/// parameters in binding order.
pub struct QueryModel {
    pub select: Option<Seq<char>>,
    pub from: Option<Seq<char>>,
    pub insert_into: Option<Seq<char>>,
    pub values_sql: Option<Seq<char>>,
    pub update: Option<Seq<char>>,
    pub set_sql: Option<Seq<char>>,
    pub delete: Option<Seq<char>>,
    pub where_clause: Option<Seq<char>>,
    pub returning: Option<Seq<char>>,
    pub limit: Option<Seq<char>>,
    pub params: Seq<ValueModel>,
}

/// The statement with no clause and no parameter.
pub open spec fn empty_query() -> QueryModel {
    QueryModel {
        select: None,
        from: None,
        insert_into: None,
        values_sql: None,
        update: None,
        set_sql: None,
        delete: None,
        where_clause: None,
        returning: None,
        limit: None,
        params: seq![],
    }
}

/// The slots in rendering order.
pub open spec fn slots(q: QueryModel) -> Seq<Option<Seq<char>>> {
    seq![
        q.select,
        q.from,
        q.insert_into,
        q.values_sql,
        q.update,
        q.set_sql,
        q.delete,
        q.where_clause,
        q.returning,
        q.limit,
    ]
}

/// The texts of the filled slots, in order.
pub open spec fn present(s: Seq<Option<Seq<char>>>) -> Seq<Seq<char>>
    decreases s.len(),
{
    if s.len() == 0 {
        seq![]
    } else {
        let r = present(s.drop_last());
        match s.last() {
            Some(t) => r.push(t),
            None => r,
        }
    }
}

/// The statement's SQL: the filled slots in fixed order, joined by spaces.
pub open spec fn render(q: QueryModel) -> Seq<char> {
    join(present(slots(q)), " "@)
}

pub open spec fn select_step(q: QueryModel, columns: Seq<char>) -> QueryModel {
    QueryModel { select: Some("select "@ + columns), ..q }
}

pub open spec fn from_step(q: QueryModel, t: TableModel) -> QueryModel {
    QueryModel { from: Some("from "@ + quoted(t.name)), ..q }
}

/// The first predicate sets the clause; every predicate adds its values.
pub open spec fn where_step(q: QueryModel, w: WhereModel) -> QueryModel {
    QueryModel {
        where_clause: match q.where_clause {
            None => Some("where "@ + w.clause),
            Some(c) => Some(c),
        },
        params: q.params + w.values,
        ..q
    }
}

pub open spec fn limit_step(q: QueryModel, n: u64) -> QueryModel {
    QueryModel { limit: Some("limit "@ + decimal(n as nat)), ..q }
}

pub open spec fn insert_step(q: QueryModel, t: TableModel) -> QueryModel {
    QueryModel { insert_into: Some(insert_into_text(t)), ..q }
}

/// The row's fragment, and its values in place of any earlier parameters.
pub open spec fn values_step(q: QueryModel, r: RowModel) -> QueryModel {
    QueryModel { values_sql: Some(values_clause_text(r.columns)), params: r.values, ..q }
}

pub open spec fn update_step(q: QueryModel, t: TableModel) -> QueryModel {
    QueryModel { update: Some(update_text(t)), ..q }
}

/// `set` and the row's assignments, and its values in place of any earlier
/// parameters.
pub open spec fn set_step(q: QueryModel, r: RowModel) -> QueryModel {
    QueryModel { set_sql: Some("set "@ + set_clause_text(r.columns)), params: r.values, ..q }
}

pub open spec fn delete_step(q: QueryModel, t: TableModel) -> QueryModel {
    QueryModel { delete: Some(delete_text(t)), ..q }
}

pub open spec fn returning_step(q: QueryModel, columns: Seq<char>) -> QueryModel {
    QueryModel { returning: Some("returning "@ + columns), ..q }
}

/// A statement under construction.
#[derive(Debug)]
pub struct Query {
    select: Option<String>,
    from: Option<String>,
    insert_into: Option<String>,
    values_sql: Option<String>,
    update: Option<String>,
    set_sql: Option<String>,
    delete: Option<String>,
    where_clause: Option<String>,
    returning: Option<String>,
    limit: Option<String>,
    params: Vec<Value>,
}

impl View for Query {
    type V = QueryModel;

    closed spec fn view(&self) -> QueryModel {
        QueryModel {
            select: opt_view(self.select),
            from: opt_view(self.from),
            insert_into: opt_view(self.insert_into),
            values_sql: opt_view(self.values_sql),
            update: opt_view(self.update),
            set_sql: opt_view(self.set_sql),
            delete: opt_view(self.delete),
            where_clause: opt_view(self.where_clause),
            returning: opt_view(self.returning),
            limit: opt_view(self.limit),
            params: models(self.params@),
        }
    }
}

/// `prefix + text`
fn prefixed(prefix: &str, text: &str) -> (r: String)
    ensures
        r@ == prefix@ + text@,
{
    let mut r = String::from_str(prefix);
    r.append(text);
    r
}

impl Query {
    #[verifier::type_invariant]
    spec fn inv(&self) -> bool {
        all_bindable(models(self.params@))
    }

    /// A statement with no clause and no parameter.
    pub fn new() -> (r: Query)
        ensures
            r@ == empty_query(),
    {
        let r = Query {
            select: None,
            from: None,
            insert_into: None,
            values_sql: None,
            update: None,
            set_sql: None,
            delete: None,
            where_clause: None,
            returning: None,
            limit: None,
            params: Vec::new(),
        };
        assert(r@.params =~= seq![]);
        r
    }

    /// Sets `select <columns>`.
    pub fn select(self, columns: &str) -> (r: Query)
        ensures
            r@ == select_step(self@, columns@),
    {
        proof {
            use_type_invariant(&self);
        }
        Query { select: Some(prefixed("select ", columns)), ..self }
    }

    /// Sets `from "<table>"`.
    pub fn from<T: Table>(self, table: &T) -> (r: Query)
        ensures
            r@ == from_step(self@, table.table_model()),
    {
        proof {
            use_type_invariant(&self);
        }
        Query { from: Some(prefixed("from ", table.table_name().as_str())), ..self }
    }

    /// Sets `where <predicate>` on the first call only; every call appends
    /// the predicate's values to the parameters.
    pub fn where_(self, part: WherePart) -> (r: Query)
        ensures
            r@ == where_step(self@, part@),
    {
        proof {
            use_type_invariant(&self);
        }
        part.check_wf();
        let ghost w = part@;
        let (clause, values) = part.into_parts();
        let where_clause = match self.where_clause {
            None => Some(prefixed("where ", clause.as_str())),
            Some(c) => Some(c),
        };
        let mut params = self.params;
        let ghost before = models(params@);
        let mut rest = values;
        let ghost added = rest@;
        params.append(&mut rest);
        proof {
            assert(models(params@) =~= before + models(added));
        }
        Query { where_clause, params, ..self }
    }

    /// Sets `limit <n>`.
    pub fn limit(self, n: u64) -> (r: Query)
        ensures
            r@ == limit_step(self@, n),
    {
        let mut l = String::from_str("limit ");
        append_decimal(&mut l, n);
        proof {
            use_type_invariant(&self);
        }
        Query { limit: Some(l), ..self }
    }

    /// Sets `insert into "<table>"`.
    pub fn insert<T: Table>(self, table: &T) -> (r: Query)
        ensures
            r@ == insert_step(self@, table.table_model()),
    {
        proof {
            use_type_invariant(&self);
        }
        Query { insert_into: Some(table.insert_sql()), ..self }
    }

    /// Sets the row's `(cols) values (?,...)` fragment; the row's values
    /// replace the parameters.
    pub fn values<R: Row>(self, row: &R) -> (r: Query)
        ensures
            r@ == values_step(self@, row.row_model()),
    {
        let params = row.values();
        Query { values_sql: Some(row.insert_sql()), params, ..self }
    }

    /// Sets `update "<table>"`.
    pub fn update<T: Table>(self, table: &T) -> (r: Query)
        ensures
            r@ == update_step(self@, table.table_model()),
    {
        proof {
            use_type_invariant(&self);
        }
        Query { update: Some(table.update_sql()), ..self }
    }

    /// Sets `set` and the row's `"c" = ?, ...` assignments; the row's values
    /// replace the parameters.
    pub fn set<R: Row>(self, row: &R) -> (r: Query)
        ensures
            r@ == set_step(self@, row.row_model()),
    {
        let params = row.values();
        Query { set_sql: Some(prefixed("set ", row.set_sql().as_str())), params, ..self }
    }

    /// Sets `delete from "<table>"`.
    pub fn delete<T: Table>(self, table: &T) -> (r: Query)
        ensures
            r@ == delete_step(self@, table.table_model()),
    {
        proof {
            use_type_invariant(&self);
        }
        Query { delete: Some(table.delete_sql()), ..self }
    }

    /// Sets `returning <columns>`.
    pub fn returning(self, columns: &str) -> (r: Query)
        ensures
            r@ == returning_step(self@, columns@),
    {
        proof {
            use_type_invariant(&self);
        }
        Query { returning: Some(prefixed("returning ", columns)), ..self }
    }

    fn slot(&self, i: usize) -> (r: &Option<String>)
        requires
            i < 10,
        ensures
            opt_view(*r) == slots(self@)[i as int],
    {
        if i == 0 {
            &self.select
        } else if i == 1 {
            &self.from
        } else if i == 2 {
            &self.insert_into
        } else if i == 3 {
            &self.values_sql
        } else if i == 4 {
            &self.update
        } else if i == 5 {
            &self.set_sql
        } else if i == 6 {
            &self.delete
        } else if i == 7 {
            &self.where_clause
        } else if i == 8 {
            &self.returning
        } else {
            &self.limit
        }
    }

    /// The statement's SQL text.
    pub fn sql(&self) -> (r: String)
        ensures
            r@ == render(self@),
    {
        let ghost s = slots(self@);
        let mut parts: Vec<String> = Vec::new();
        let mut i: usize = 0;
        while i < 10
            invariant
                s == slots(self@),
                s.len() == 10,
                i <= 10,
                views(parts@) == present(s.subrange(0, i as int)),
            decreases 10 - i,
        {
            let slot = self.slot(i);
            proof {
                assert(s.subrange(0, i + 1).drop_last() =~= s.subrange(0, i as int));
            }
            match slot {
                Some(t) => {
                    proof {
                        lemma_views_push(parts@, *t);
                    }
                    parts.push(t.clone());
                },
                None => {},
            }
            i = i + 1;
        }
        proof {
            assert(s.subrange(0, 10) =~= s);
        }
        let mut r = String::new();
        append_joined(&mut r, &parts, " ");
        assert(r@ =~= render(self@));
        r
    }

    /// A copy of the parameters, in binding order; none is a raw literal.
    pub fn params(&self) -> (r: Vec<Value>)
        ensures
            models(r@) == self@.params,
            all_bindable(self@.params),
    {
        proof {
            use_type_invariant(self);
        }
        duplicate_all(&self.params)
    }

    /// The statement's SQL text and its parameters.
    pub fn into_parts(self) -> (r: (String, Vec<Value>))
        ensures
            r.0@ == render(self@),
            models(r.1@) == self@.params,
            all_bindable(self@.params),
    {
        proof {
            use_type_invariant(&self);
        }
        let sql = self.sql();
        (sql, self.params)
    }
}

/// The one row a `returning` statement must produce: the first of `rows`, or,
/// when there is none, an `InsertError` naming the statement.
pub fn first_row<T>(rows: Vec<T>, sql: &str) -> (r: Result<T, Error>)
    ensures
        rows@.len() > 0 ==> r == Ok::<T, Error>(rows@[0]),
        rows@.len() == 0 ==> (r matches Err(Error::InsertError(m)) && m@ == "failed to insert "@
            + sql@),
{
    if rows.len() == 0 {
        Err(Error::InsertError(prefixed("failed to insert ", sql)))
    } else {
        let mut rows = rows;
        Ok(rows.remove(0))
    }
}

/// The rendered text depends on which slots are filled, never on the order
/// of the builder calls: `select`, `from` and `where` give the same statement,
/// text and parameters, in any of their six orders.
pub proof fn clause_order_is_fixed(q: QueryModel, columns: Seq<char>, t: TableModel, w: WhereModel)
    ensures
        ({
            let a = where_step(from_step(select_step(q, columns), t), w);
            &&& a == where_step(select_step(from_step(q, t), columns), w)
            &&& a == from_step(where_step(select_step(q, columns), w), t)
            &&& a == select_step(where_step(from_step(q, t), w), columns)
            &&& a == from_step(select_step(where_step(q, w), columns), t)
            &&& a == select_step(from_step(where_step(q, w), t), columns)
            &&& render(a) == render(from_step(select_step(where_step(q, w), columns), t))
        }),
{
}

} // verus!
