//! Predicate fragments for `where` clauses: rendered SQL text together with
//! the ordered list of values bound to its placeholders.
use vstd::prelude::*;
use crate::column::ToColumn;
use crate::text::{lemma_no_placeholders, lemma_placeholders_concat, placeholders};
use crate::value::{all_bindable, duplicate_all, models, Value, ValueModel};

verus! {

/// The model of a predicate fragment: its text and its bound values.
pub struct WhereModel {
    pub clause: Seq<char>,
    pub values: Seq<ValueModel>,
}

/// A predicate fragment: SQL text with `?` placeholders and the values bound
/// to them, in order.
#[derive(Debug)]
pub struct WherePart {
    clause: String,
    values: Vec<Value>,
}

impl View for WherePart {
    type V = WhereModel;

    closed spec fn view(&self) -> WhereModel {
        WhereModel { clause: self.clause@, values: models(self.values@) }
    }
}

/// `<column> = ?`
pub open spec fn eq_text(column: Seq<char>) -> Seq<char> {
    column + " = ?"@
}

/// `(<left> <op> <right>)`
pub open spec fn combined_text(left: Seq<char>, op: Seq<char>, right: Seq<char>) -> Seq<char> {
    "("@ + left + " "@ + op + " "@ + right + ")"@
}

/// The fragment `<column> = ?` bound to `v`.
pub open spec fn eq_model(column: Seq<char>, v: ValueModel) -> WhereModel {
    WhereModel { clause: eq_text(column), values: seq![v] }
}

/// The conjunction of two fragments.
pub open spec fn and_model(l: WhereModel, r: WhereModel) -> WhereModel {
    WhereModel { clause: combined_text(l.clause, "and"@, r.clause), values: l.values + r.values }
}

/// The disjunction of two fragments.
pub open spec fn or_model(l: WhereModel, r: WhereModel) -> WhereModel {
    WhereModel { clause: combined_text(l.clause, "or"@, r.clause), values: l.values + r.values }
}

/// Whether the fragment has exactly one bound value per placeholder.
pub open spec fn aligned(w: WhereModel) -> bool {
    placeholders(w.clause) == w.values.len()
}

impl WherePart {
    #[verifier::type_invariant]
    spec fn inv(&self) -> bool {
        all_bindable(models(self.values@))
    }

    /// Every value of the fragment is bindable.
    pub open spec fn wf(&self) -> bool {
        all_bindable(self@.values)
    }

    /// Every fragment holds bindable values only.
    pub fn check_wf(&self)
        ensures
            self.wf(),
    {
        proof {
            use_type_invariant(self);
        }
    }

    /// The rendered text.
    pub fn clause(&self) -> (r: &str)
        ensures
            r@ == self@.clause,
    {
        self.clause.as_str()
    }

    /// A copy of the bound values, in order.
    pub fn values(&self) -> (r: Vec<Value>)
        ensures
            models(r@) == self@.values,
    {
        duplicate_all(&self.values)
    }

    /// The text and the bound values.
    pub fn into_parts(self) -> (r: (String, Vec<Value>))
        ensures
            r.0@ == self@.clause,
            models(r.1@) == self@.values,
    {
        (self.clause, self.values)
    }
}

/// The fragment `<column> = ?` with `right` as its one bound value.
pub fn eq<C: ToColumn>(left: &C, right: Value) -> (r: WherePart)
    requires
        right@.is_bindable(),
    ensures
        r@ == eq_model(left.column_ref(), right@),
        r.wf(),
{
    let mut clause = String::from_str(left.to_column());
    clause.append(" = ?");
    let ghost v = right@;
    let mut values: Vec<Value> = Vec::new();
    values.push(right);
    let r = WherePart { clause, values };
    proof {
        assert(models(values@) =~= seq![v]);
    }
    r
}

/// Moves the values of `right` after those of `left`.
fn concat_values(left: Vec<Value>, right: Vec<Value>) -> (r: Vec<Value>)
    ensures
        models(r@) == models(left@) + models(right@),
{
    let ghost l = left@;
    let ghost rt = right@;
    let mut r = left;
    let mut rest = right;
    r.append(&mut rest);
    proof {
        assert(models(r@) =~= models(l) + models(rt));
    }
    r
}

fn combine(left: WherePart, op: &str, right: WherePart) -> (r: WherePart)
    requires
        left.wf(),
        right.wf(),
    ensures
        r@ == (WhereModel {
            clause: combined_text(left@.clause, op@, right@.clause),
            values: left@.values + right@.values,
        }),
{
    let mut clause = String::from_str("(");
    clause.append(left.clause.as_str());
    clause.append(" ");
    clause.append(op);
    clause.append(" ");
    clause.append(right.clause.as_str());
    clause.append(")");
    let values = concat_values(left.values, right.values);
    WherePart { clause, values }
}

/// `(<left> and <right>)`, with the values of `left` before those of `right`.
pub fn and(left: WherePart, right: WherePart) -> (r: WherePart)
    ensures
        r@ == and_model(left@, right@),
        r.wf(),
{
    left.check_wf();
    right.check_wf();
    combine(left, "and", right)
}

/// `(<left> or <right>)`, with the values of `left` before those of `right`.
pub fn or(left: WherePart, right: WherePart) -> (r: WherePart)
    ensures
        r@ == or_model(left@, right@),
        r.wf(),
{
    left.check_wf();
    right.check_wf();
    combine(left, "or", right)
}

/// An equality fragment holds one placeholder more than its column reference
/// and one bound value: exactly one placeholder for a reference without `?`.
pub proof fn eq_has_one_placeholder(column: Seq<char>, v: ValueModel)
    ensures
        placeholders(eq_model(column, v).clause) == placeholders(column) + 1,
        eq_model(column, v).values == seq![v],
        placeholders(column) == 0 ==> aligned(eq_model(column, v)),
{
    reveal_strlit(" = ?");
    let s = " = ?"@;
    lemma_placeholders_concat(column, s);
    assert(s.drop_last() =~= seq![' ', '=', ' ']);
    lemma_no_placeholders(s.drop_last());
}

proof fn lemma_combined_placeholders(l: Seq<char>, op: Seq<char>, r: Seq<char>)
    requires
        placeholders(op) == 0,
    ensures
        placeholders(combined_text(l, op, r)) == placeholders(l) + placeholders(r),
{
    reveal_strlit("(");
    reveal_strlit(" ");
    reveal_strlit(")");
    let open = "("@;
    let sp = " "@;
    let close = ")"@;
    lemma_no_placeholders(open);
    lemma_no_placeholders(sp);
    lemma_no_placeholders(close);
    lemma_placeholders_concat(open, l);
    lemma_placeholders_concat(open + l, sp);
    lemma_placeholders_concat(open + l + sp, op);
    lemma_placeholders_concat(open + l + sp + op, sp);
    lemma_placeholders_concat(open + l + sp + op + sp, r);
    lemma_placeholders_concat(open + l + sp + op + sp + r, close);
}

/// Conjunction and disjunction concatenate the values of their operands, left
/// before right, and wrap the two texts in one pair of parentheses; so at any
/// depth of nesting, fragments with one value per placeholder combine into a
/// fragment with one value per placeholder.
pub proof fn combination_keeps_alignment(l: WhereModel, r: WhereModel)
    ensures
        and_model(l, r).clause == "("@ + l.clause + " and "@ + r.clause + ")"@,
        or_model(l, r).clause == "("@ + l.clause + " or "@ + r.clause + ")"@,
        and_model(l, r).values == l.values + r.values,
        or_model(l, r).values == l.values + r.values,
        aligned(l) && aligned(r) ==> aligned(and_model(l, r)) && aligned(or_model(l, r)),
{
    reveal_strlit("and");
    reveal_strlit("or");
    reveal_strlit(" and ");
    reveal_strlit(" or ");
    reveal_strlit(" ");
    lemma_no_placeholders("and"@);
    lemma_no_placeholders("or"@);
    lemma_combined_placeholders(l.clause, "and"@, r.clause);
    lemma_combined_placeholders(l.clause, "or"@, r.clause);
    assert(and_model(l, r).clause =~= "("@ + l.clause + " and "@ + r.clause + ")"@);
    assert(or_model(l, r).clause =~= "("@ + l.clause + " or "@ + r.clause + ")"@);
}

} // verus!
