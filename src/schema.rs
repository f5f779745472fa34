//! Table metadata and the SQL it derives: the statement fragments used by the
//! query builder, `create table`, and the migration statements.
use vstd::prelude::*;
use crate::text::{
    append_joined, append_unquoted, bare_column, bare_column_of, has_dot, join, lemma_views_push,
    quote, quoted, strip_quotes, views,
};

verus! {

/// The storage kind of a column.
#[derive(Clone, Copy, Debug, PartialEq, Eq, Structural)]
pub enum ColumnKind {
    Integer,
    Text,
    Blob,
    Real,
}

/// The SQL type name of a column kind.
pub open spec fn kind_text(k: ColumnKind) -> Seq<char> {
    match k {
        ColumnKind::Integer => seq!['i', 'n', 't', 'e', 'g', 'e', 'r'],
        ColumnKind::Text => seq!['t', 'e', 'x', 't'],
        ColumnKind::Blob => seq!['b', 'l', 'o', 'b'],
        ColumnKind::Real => seq!['r', 'e', 'a', 'l'],
    }
}

/// The model of a column's declaration.
pub struct ColumnModel {
    pub name: Seq<char>,
    pub kind: ColumnKind,
    pub primary_key: bool,
    pub unique: bool,
    pub not_null: bool,
    pub default_value: Option<Seq<char>>,
    pub references: Option<Seq<char>>,
}

/// The model of a table: its bare name and its columns in declared order.
pub struct TableModel {
    pub name: Seq<char>,
    pub columns: Seq<ColumnModel>,
}

/// One column's declaration: name, kind and modifiers.
#[derive(Debug)]
pub struct ColumnSpec {
    pub name: String,
    pub kind: ColumnKind,
    pub primary_key: bool,
    pub unique: bool,
    pub not_null: bool,
    pub default_value: Option<String>,
    pub references: Option<String>,
}

pub open spec fn opt_view(o: Option<String>) -> Option<Seq<char>> {
    match o {
        Some(s) => Some(s@),
        None => None,
    }
}

impl View for ColumnSpec {
    type V = ColumnModel;

    open spec fn view(&self) -> ColumnModel {
        ColumnModel {
            name: self.name@,
            kind: self.kind,
            primary_key: self.primary_key,
            unique: self.unique,
            not_null: self.not_null,
            default_value: opt_view(self.default_value),
            references: opt_view(self.references),
        }
    }
}

/// `" " + word` when `b` holds, else nothing.
pub open spec fn flag(b: bool, word: Seq<char>) -> Seq<char> {
    if b {
        seq![' '] + word
    } else {
        seq![]
    }
}

/// `pre + v + post` when there is a `v`, else nothing.
pub open spec fn opt_clause(o: Option<Seq<char>>, pre: Seq<char>, post: Seq<char>) -> Seq<char> {
    match o {
        Some(v) => pre + v + post,
        None => seq![],
    }
}

/// The column definition used in `create table` and `add column`:
/// `name type [primary key] [unique] [not null] [default (v)] [references r]`.
pub open spec fn column_def(c: ColumnModel) -> Seq<char> {
    c.name + flag(true, kind_text(c.kind)) + flag(c.primary_key, "primary key"@) + flag(
        c.unique,
        "unique"@,
    ) + flag(c.not_null, "not null"@) + opt_clause(c.default_value, " default ("@, ")"@)
        + opt_clause(c.references, " references "@, ""@)
}

/// The definitions of all columns, in order.
pub open spec fn column_defs(t: TableModel) -> Seq<Seq<char>> {
    t.columns.map_values(|c: ColumnModel| column_def(c))
}

/// The quoted column names, in order.
pub open spec fn quoted_names(t: TableModel) -> Seq<Seq<char>> {
    t.columns.map_values(|c: ColumnModel| quoted(c.name))
}

/// `"a","b",...`: the table's quoted column names, comma-separated.
pub open spec fn column_list(t: TableModel) -> Seq<char> {
    join(quoted_names(t), ","@)
}

/// `create table if not exists "t" (def1,def2,...);`
pub open spec fn create_table_text(t: TableModel) -> Seq<char> {
    "create table if not exists "@ + quoted(t.name) + " ("@ + join(column_defs(t), ","@) + ");"@
}

/// `insert into "t"`
pub open spec fn insert_into_text(t: TableModel) -> Seq<char> {
    "insert into "@ + quoted(t.name)
}

/// `update "t"`
pub open spec fn update_text(t: TableModel) -> Seq<char> {
    "update "@ + quoted(t.name)
}

/// `delete from "t"`
pub open spec fn delete_text(t: TableModel) -> Seq<char> {
    "delete from "@ + quoted(t.name)
}

/// `alter table "t" add column <def>;`
pub open spec fn add_column_text(t: TableModel, def: Seq<char>) -> Seq<char> {
    "alter table "@ + quoted(t.name) + " add column "@ + def + ";"@
}

/// Whether `i` is the first column of `t` whose name is `name`.
pub open spec fn first_named(t: TableModel, name: Seq<char>, i: int) -> bool {
    &&& 0 <= i < t.columns.len()
    &&& t.columns[i].name == name
    &&& forall|j: int| 0 <= j < i ==> t.columns[j].name != name
}

/// Whether no column of `t` is named `name`.
pub open spec fn no_column_named(t: TableModel, name: Seq<char>) -> bool {
    forall|j: int| 0 <= j < t.columns.len() ==> t.columns[j].name != name
}

/// The bare names of qualified references, in order.
pub open spec fn bare_names(qs: Seq<Seq<char>>) -> Seq<Seq<char>> {
    qs.map_values(|q: Seq<char>| bare_column(q))
}

/// Whether every reference is qualified (`table.column`).
pub open spec fn all_qualified(qs: Seq<Seq<char>>) -> bool {
    forall|i: int| 0 <= i < qs.len() ==> has_dot(#[trigger] qs[i])
}

/// The derived index name `<bare table>_<col1>_<col2>...`.
pub open spec fn index_name(t: TableModel, qs: Seq<Seq<char>>) -> Seq<char> {
    strip_quotes(t.name) + "_"@ + join(bare_names(qs), "_"@)
}

/// `create [unique ]index <name> on <bare table> (<col1>,<col2>,...);`
pub open spec fn create_index_text(t: TableModel, unique: bool, qs: Seq<Seq<char>>) -> Seq<char> {
    "create"@ + (if unique {
        " unique "@
    } else {
        " "@
    }) + "index "@ + index_name(t, qs) + " on "@ + strip_quotes(t.name) + " ("@ + join(
        bare_names(qs),
        ","@,
    ) + ");"@
}

/// `drop index <name>;`
pub open spec fn drop_index_text(t: TableModel, qs: Seq<Seq<char>>) -> Seq<char> {
    "drop index "@ + index_name(t, qs) + ";"@
}

/// `create_index_sql` and `drop_index_sql` on the same table and the same
/// column references name the same index: the one `index_name` derives.
pub proof fn index_name_is_shared(t: TableModel, unique: bool, qs: Seq<Seq<char>>)
    ensures
        ({
            let n = index_name(t, qs);
            let k: int = if unique {
                20
            } else {
                13
            };
            &&& create_index_text(t, unique, qs).subrange(k, k + n.len()) == n
            &&& drop_index_text(t, qs).subrange(11, 11 + n.len() as int) == n
        }),
{
    reveal_strlit("create");
    reveal_strlit(" unique ");
    reveal_strlit(" ");
    reveal_strlit("index ");
    reveal_strlit("drop index ");
    let n = index_name(t, qs);
    let k: int = if unique {
        20
    } else {
        13
    };
    let head = "create"@ + (if unique {
        " unique "@
    } else {
        " "@
    }) + "index "@;
    assert(head.len() == k);
    let rest = " on "@ + strip_quotes(t.name) + " ("@ + join(bare_names(qs), ","@) + ");"@;
    assert(create_index_text(t, unique, qs) =~= head + n + rest);
    assert((head + n + rest).subrange(k, k + n.len()) =~= n);
    assert(drop_index_text(t, qs) =~= "drop index "@ + n + ";"@);
    assert(("drop index "@ + n + ";"@).subrange(11, 11 + n.len() as int) =~= n);
}

pub open spec fn str_views(v: Seq<&str>) -> Seq<Seq<char>> {
    v.map_values(|s: &str| s@)
}

/// Behaviour every table descriptor offers: its name, the fragments the
/// query builder splices in, and the DDL derived from its columns.
pub trait Table {
    /// The table this descriptor stands for.
    spec fn table_model(&self) -> TableModel;

    /// The quoted table name.
    fn table_name(&self) -> (r: String)
        ensures
            r@ == quoted(self.table_model().name),
    ;

    /// The quoted column names, comma-separated, in declared order.
    fn column_names(&self) -> (r: String)
        ensures
            r@ == column_list(self.table_model()),
    ;

    /// `insert into "t"`
    fn insert_sql(&self) -> (r: String)
        ensures
            r@ == insert_into_text(self.table_model()),
    ;

    /// `update "t"`
    fn update_sql(&self) -> (r: String)
        ensures
            r@ == update_text(self.table_model()),
    ;

    /// `delete from "t"`
    fn delete_sql(&self) -> (r: String)
        ensures
            r@ == delete_text(self.table_model()),
    ;
}

/// A table described at run time: its bare name and its columns in order.
#[derive(Debug)]
pub struct TableSchema {
    pub name: String,
    pub columns: Vec<ColumnSpec>,
}

impl View for TableSchema {
    type V = TableModel;

    open spec fn view(&self) -> TableModel {
        TableModel { name: self.name@, columns: self.columns@.map_values(|c: ColumnSpec| c@) }
    }
}

/// Appends `" " + word` to `out` when `b` holds.
fn append_flag(out: &mut String, b: bool, word: &str)
    ensures
        final(out)@ == old(out)@ + flag(b, word@),
{
    if b {
        out.append(" ");
        out.append(word);
        proof {
            reveal_strlit(" ");
            assert(final(out)@ =~= old(out)@ + flag(b, word@));
        }
    } else {
        assert(old(out)@ + flag(b, word@) =~= old(out)@);
    }
}

/// Appends `pre + v + post` to `out` when `o` holds a `v`.
fn append_opt(out: &mut String, o: &Option<String>, pre: &str, post: &str)
    ensures
        final(out)@ == old(out)@ + opt_clause(opt_view(*o), pre@, post@),
{
    match o {
        Some(v) => {
            out.append(pre);
            out.append(v.as_str());
            out.append(post);
            assert(final(out)@ =~= old(out)@ + opt_clause(opt_view(*o), pre@, post@));
        },
        None => {
            assert(old(out)@ + opt_clause(opt_view(*o), pre@, post@) =~= old(out)@);
        },
    }
}

impl ColumnSpec {
    /// A column of the given name and kind, with no modifiers.
    pub fn new(name: &str, kind: ColumnKind) -> (r: ColumnSpec)
        ensures
            r@ == (ColumnModel {
                name: name@,
                kind,
                primary_key: false,
                unique: false,
                not_null: false,
                default_value: None,
                references: None,
            }),
    {
        ColumnSpec {
            name: String::from_str(name),
            kind,
            primary_key: false,
            unique: false,
            not_null: false,
            default_value: None,
            references: None,
        }
    }

    /// The column's definition for `create table` and `add column`.
    pub fn definition(&self) -> (r: String)
        ensures
            r@ == column_def(self@),
    {
        let mut r = String::from_str(self.name.as_str());
        let kind = match self.kind {
            ColumnKind::Integer => "integer",
            ColumnKind::Text => "text",
            ColumnKind::Blob => "blob",
            ColumnKind::Real => "real",
        };
        proof {
            reveal_strlit("integer");
            reveal_strlit("text");
            reveal_strlit("blob");
            reveal_strlit("real");
            assert(kind@ =~= kind_text(self.kind));
        }
        append_flag(&mut r, true, kind);
        append_flag(&mut r, self.primary_key, "primary key");
        append_flag(&mut r, self.unique, "unique");
        append_flag(&mut r, self.not_null, "not null");
        append_opt(&mut r, &self.default_value, " default (", ")");
        append_opt(&mut r, &self.references, " references ", "");
        r
    }
}

impl TableSchema {
    /// A table of the given bare name and columns.
    pub fn new(name: &str, columns: Vec<ColumnSpec>) -> (r: TableSchema)
        ensures
            r@ == (TableModel { name: name@, columns: columns@.map_values(|c: ColumnSpec| c@) }),
    {
        TableSchema { name: String::from_str(name), columns }
    }

    /// `create table if not exists "t" (def1,def2,...);`
    pub fn create_table_sql(&self) -> (r: String)
        ensures
            r@ == create_table_text(self@),
    {
        let mut defs: Vec<String> = Vec::new();
        let mut i: usize = 0;
        while i < self.columns.len()
            invariant
                i <= self.columns@.len(),
                views(defs@) == column_defs(self@).subrange(0, i as int),
            decreases self.columns@.len() - i,
        {
            let d = self.columns[i].definition();
            proof {
                lemma_views_push(defs@, d);
                assert(column_defs(self@)[i as int] == column_def(self.columns@[i as int]@));
            }
            defs.push(d);
            proof {
                assert(views(defs@) =~= column_defs(self@).subrange(0, i + 1));
            }
            i = i + 1;
        }
        proof {
            assert(column_defs(self@).subrange(0, i as int) =~= column_defs(self@));
        }
        let mut r = String::from_str("create table if not exists ");
        r.append(quote(self.name.as_str()).as_str());
        r.append(" (");
        append_joined(&mut r, &defs, ",");
        r.append(");");
        proof {
            assert(r@ =~= create_table_text(self@));
        }
        r
    }

    /// `alter table "t" add column <def>;` for the column that the qualified
    /// reference `column_name` names; `None` when the table has no such column.
    pub fn add_column_sql(&self, column_name: &str) -> (r: Option<String>)
        requires
            has_dot(column_name@),
        ensures
            r is None <==> no_column_named(self@, bare_column(column_name@)),
            r matches Some(s) ==> exists|i: int|
                first_named(self@, bare_column(column_name@), i) && s@ == add_column_text(
                    self@,
                    column_def(#[trigger] self@.columns[i]),
                ),
    {
        let bare = bare_column_of(column_name);
        let mut i: usize = 0;
        while i < self.columns.len()
            invariant
                i <= self.columns@.len(),
                bare@ == bare_column(column_name@),
                forall|j: int| 0 <= j < i ==> self@.columns[j].name != bare@,
            decreases self.columns@.len() - i,
        {
            if self.columns[i].name.eq(&bare) {
                let mut r = String::from_str("alter table ");
                r.append(quote(self.name.as_str()).as_str());
                r.append(" add column ");
                r.append(self.columns[i].definition().as_str());
                r.append(";");
                proof {
                    assert(first_named(self@, bare@, i as int));
                    assert(r@ =~= add_column_text(self@, column_def(self@.columns[i as int])));
                    assert(!no_column_named(self@, bare@));
                }
                return Some(r);
            }
            i = i + 1;
        }
        None
    }

    /// The bare names of qualified references.
    fn bare_names_of(column_names: &Vec<&str>) -> (r: Vec<String>)
        requires
            all_qualified(str_views(column_names@)),
        ensures
            views(r@) == bare_names(str_views(column_names@)),
    {
        let mut r: Vec<String> = Vec::new();
        let mut i: usize = 0;
        while i < column_names.len()
            invariant
                i <= column_names@.len(),
                all_qualified(str_views(column_names@)),
                views(r@) == bare_names(str_views(column_names@)).subrange(0, i as int),
            decreases column_names@.len() - i,
        {
            assert(has_dot(str_views(column_names@)[i as int]));
            let b = bare_column_of(column_names[i]);
            proof {
                lemma_views_push(r@, b);
            }
            r.push(b);
            proof {
                assert(views(r@) =~= bare_names(str_views(column_names@)).subrange(0, i + 1));
            }
            i = i + 1;
        }
        proof {
            assert(bare_names(str_views(column_names@)).subrange(0, i as int) =~= bare_names(
                str_views(column_names@),
            ));
        }
        r
    }

    /// Appends the derived index name to `out`.
    fn append_index_name(&self, out: &mut String, bare: &Vec<String>)
        ensures
            final(out)@ == old(out)@ + strip_quotes(self.name@) + "_"@ + join(views(bare@), "_"@),
    {
        append_unquoted(out, self.name.as_str());
        out.append("_");
        append_joined(out, bare, "_");
        assert(final(out)@ =~= old(out)@ + strip_quotes(self.name@) + "_"@ + join(
            views(bare@),
            "_"@,
        ));
    }

    /// `create [unique ]index <t>_<c1>_<c2>... on <t> (<c1>,<c2>,...);` for
    /// the qualified column references `column_names`.
    pub fn create_index_sql(&self, unique: bool, column_names: Vec<&str>) -> (r: String)
        requires
            all_qualified(str_views(column_names@)),
        ensures
            r@ == create_index_text(self@, unique, str_views(column_names@)),
    {
        let bare = TableSchema::bare_names_of(&column_names);
        let mut r = String::from_str("create");
        if unique {
            r.append(" unique ");
        } else {
            r.append(" ");
        }
        r.append("index ");
        self.append_index_name(&mut r, &bare);
        r.append(" on ");
        append_unquoted(&mut r, self.name.as_str());
        r.append(" (");
        append_joined(&mut r, &bare, ",");
        r.append(");");
        proof {
            assert(r@ =~= create_index_text(self@, unique, str_views(column_names@)));
        }
        r
    }

    /// `drop index <t>_<c1>_<c2>...;` for the qualified column references
    /// `column_names`.
    pub fn drop_index_sql(&self, column_names: Vec<&str>) -> (r: String)
        requires
            all_qualified(str_views(column_names@)),
        ensures
            r@ == drop_index_text(self@, str_views(column_names@)),
    {
        let bare = TableSchema::bare_names_of(&column_names);
        let mut r = String::from_str("drop index ");
        self.append_index_name(&mut r, &bare);
        r.append(";");
        proof {
            assert(r@ =~= drop_index_text(self@, str_views(column_names@)));
        }
        r
    }
}

impl Table for TableSchema {
    open spec fn table_model(&self) -> TableModel {
        self@
    }

    fn table_name(&self) -> (r: String) {
        quote(self.name.as_str())
    }

    fn column_names(&self) -> (r: String) {
        let mut names: Vec<String> = Vec::new();
        let mut i: usize = 0;
        while i < self.columns.len()
            invariant
                i <= self.columns@.len(),
                views(names@) == quoted_names(self@).subrange(0, i as int),
            decreases self.columns@.len() - i,
        {
            let q = quote(self.columns[i].name.as_str());
            proof {
                lemma_views_push(names@, q);
                assert(quoted_names(self@)[i as int] == quoted(self.columns@[i as int]@.name));
            }
            names.push(q);
            proof {
                assert(views(names@) =~= quoted_names(self@).subrange(0, i + 1));
            }
            i = i + 1;
        }
        proof {
            assert(quoted_names(self@).subrange(0, i as int) =~= quoted_names(self@));
        }
        let mut r = String::new();
        append_joined(&mut r, &names, ",");
        assert(r@ =~= column_list(self@));
        r
    }

    fn insert_sql(&self) -> (r: String) {
        let mut r = String::from_str("insert into ");
        r.append(quote(self.name.as_str()).as_str());
        r
    }

    fn update_sql(&self) -> (r: String) {
        let mut r = String::from_str("update ");
        r.append(quote(self.name.as_str()).as_str());
        r
    }

    fn delete_sql(&self) -> (r: String) {
        let mut r = String::from_str("delete from ");
        r.append(quote(self.name.as_str()).as_str());
        r
    }
}

} // verus!
