//! The bindable value model: the scalar kinds a statement can carry as a
//! positional parameter, plus raw SQL fragments that are spliced into the text.
use vstd::prelude::*;

verus! {

/// The mathematical model of a `Value`.
pub enum ValueModel {
    Lit(Seq<char>),
    Text(Seq<char>),
    Blob(Seq<u8>),
    Real(u64),
    Integer(i64),
}

/// A value that can appear in a statement.
///
/// `Lit` is raw SQL text (an identifier or keyword) that is written into the
/// statement itself and is never bound. The other variants are bound as
/// positional parameters. `Real` holds the IEEE-754 bit pattern of a 64-bit
/// float.
#[derive(Clone, Debug)]
pub enum Value {
    Lit(String),
    Text(String),
    Blob(Vec<u8>),
    Real(u64),
    Integer(i64),
}

impl View for Value {
    type V = ValueModel;

    open spec fn view(&self) -> ValueModel {
        match self {
            Value::Lit(s) => ValueModel::Lit(s@),
            Value::Text(s) => ValueModel::Text(s@),
            Value::Blob(b) => ValueModel::Blob(b@),
            Value::Real(r) => ValueModel::Real(*r),
            Value::Integer(i) => ValueModel::Integer(*i),
        }
    }
}

impl ValueModel {
    /// Whether the value is bound as a parameter (every kind but `Lit`).
    pub open spec fn is_bindable(self) -> bool {
        !(self is Lit)
    }

    pub open spec fn text_of(self) -> Option<Seq<char>> {
        match self {
            ValueModel::Text(s) => Some(s),
            _ => None,
        }
    }

    pub open spec fn blob_of(self) -> Option<Seq<u8>> {
        match self {
            ValueModel::Blob(b) => Some(b),
            _ => None,
        }
    }

    pub open spec fn real_bits_of(self) -> Option<u64> {
        match self {
            ValueModel::Real(r) => Some(r),
            _ => None,
        }
    }

    pub open spec fn integer_of(self) -> Option<i64> {
        match self {
            ValueModel::Integer(i) => Some(i),
            _ => None,
        }
    }
}

/// Every model of a bound-parameter list holds bindable values only.
pub open spec fn all_bindable(vs: Seq<ValueModel>) -> bool {
    forall|i: int| 0 <= i < vs.len() ==> (#[trigger] vs[i]).is_bindable()
}

/// The models of a sequence of values.
pub open spec fn models(vs: Seq<Value>) -> Seq<ValueModel> {
    vs.map_values(|v: Value| v@)
}

fn copy_bytes(b: &Vec<u8>) -> (r: Vec<u8>)
    ensures
        r@ == b@,
{
    let mut r: Vec<u8> = Vec::new();
    let mut i: usize = 0;
    while i < b.len()
        invariant
            i <= b@.len(),
            r@ == b@.subrange(0, i as int),
        decreases b@.len() - i,
    {
        r.push(b[i]);
        i = i + 1;
    }
    assert(r@ =~= b@);
    r
}

fn bytes_equal(a: &Vec<u8>, b: &Vec<u8>) -> (r: bool)
    ensures
        r == (a@ == b@),
{
    if a.len() != b.len() {
        return false;
    }
    let mut i: usize = 0;
    while i < a.len()
        invariant
            i <= a@.len(),
            a@.len() == b@.len(),
            a@.subrange(0, i as int) == b@.subrange(0, i as int),
        decreases a@.len() - i,
    {
        if a[i] != b[i] {
            assert(a@[i as int] != b@[i as int]);
            return false;
        }
        assert(a@.subrange(0, i + 1) =~= a@.subrange(0, i as int).push(a@[i as int]));
        assert(b@.subrange(0, i + 1) =~= b@.subrange(0, i as int).push(b@[i as int]));
        i = i + 1;
    }
    assert(a@ =~= a@.subrange(0, i as int));
    assert(b@ =~= b@.subrange(0, i as int));
    true
}

impl Value {
    /// An independent copy of the value.
    pub fn duplicate(&self) -> (r: Value)
        ensures
            r@ == self@,
    {
        match self {
            Value::Lit(s) => Value::Lit(s.clone()),
            Value::Text(s) => Value::Text(s.clone()),
            Value::Blob(b) => Value::Blob(copy_bytes(b)),
            Value::Real(r) => Value::Real(*r),
            Value::Integer(i) => Value::Integer(*i),
        }
    }

    /// A `Text` value holding a copy of `s`.
    pub fn text(s: &str) -> (r: Value)
        ensures
            r@ == ValueModel::Text(s@),
    {
        Value::Text(String::from_str(s))
    }

    /// A value for a float, from its IEEE-754 bit pattern.
    pub fn real_from_bits(bits: u64) -> (r: Value)
        ensures
            r@ == ValueModel::Real(bits),
    {
        Value::Real(bits)
    }

    /// Whether the value is bound as a parameter rather than written as SQL.
    pub fn is_bindable(&self) -> (r: bool)
        ensures
            r == self@.is_bindable(),
    {
        !matches!(self, Value::Lit(_))
    }

    /// The text a `Text` value holds.
    pub fn as_text(&self) -> (r: Option<String>)
        ensures
            r matches Some(s) ==> self@.text_of() == Some(s@),
            r is None ==> self@.text_of() is None,
    {
        match self {
            Value::Text(s) => Some(s.clone()),
            _ => None,
        }
    }

    /// The bytes a `Blob` value holds.
    pub fn as_blob(&self) -> (r: Option<Vec<u8>>)
        ensures
            r matches Some(b) ==> self@.blob_of() == Some(b@),
            r is None ==> self@.blob_of() is None,
    {
        match self {
            Value::Blob(b) => Some(copy_bytes(b)),
            _ => None,
        }
    }

    /// The bit pattern a `Real` value holds.
    pub fn as_real_bits(&self) -> (r: Option<u64>)
        ensures
            r == self@.real_bits_of(),
    {
        match self {
            Value::Real(r) => Some(*r),
            _ => None,
        }
    }

    /// The integer an `Integer` value holds.
    pub fn as_integer(&self) -> (r: Option<i64>)
        ensures
            r == self@.integer_of(),
    {
        match self {
            Value::Integer(i) => Some(*i),
            _ => None,
        }
    }
}

/// Copies each value of a list, keeping the order.
pub fn duplicate_all(vs: &Vec<Value>) -> (r: Vec<Value>)
    ensures
        models(r@) == models(vs@),
{
    let mut r: Vec<Value> = Vec::new();
    let mut i: usize = 0;
    while i < vs.len()
        invariant
            i <= vs@.len(),
            models(r@) == models(vs@.subrange(0, i as int)),
        decreases vs@.len() - i,
    {
        let v = vs[i].duplicate();
        proof {
            assert(models(r@.push(v)) =~= models(r@).push(v@));
            assert(models(vs@.subrange(0, i + 1)) =~= models(vs@.subrange(0, i as int)).push(vs@[i as int]@));
        }
        r.push(v);
        i = i + 1;
    }
    assert(vs@.subrange(0, i as int) =~= vs@);
    r
}

/// Converting a scalar into a value and reading it back gives the scalar
/// unchanged, for each bindable kind.
pub proof fn value_round_trip(s: String, i: i64, b: Vec<u8>, bits: u64)
    ensures
        <Value as vstd::std_specs::convert::FromSpec<String>>::from_spec(s)@.text_of() == Some(s@),
        <Value as vstd::std_specs::convert::FromSpec<i64>>::from_spec(i)@.integer_of() == Some(i),
        <Value as vstd::std_specs::convert::FromSpec<Vec<u8>>>::from_spec(b)@.blob_of() == Some(b@),
        ValueModel::Real(bits).real_bits_of() == Some(bits),
        <Value as vstd::std_specs::convert::FromSpec<String>>::from_spec(s)@.is_bindable(),
        <Value as vstd::std_specs::convert::FromSpec<i64>>::from_spec(i)@.is_bindable(),
        <Value as vstd::std_specs::convert::FromSpec<Vec<u8>>>::from_spec(b)@.is_bindable(),
{
}

impl PartialEq for Value {
    fn eq(&self, o: &Value) -> (r: bool) {
        match (self, o) {
            (Value::Lit(a), Value::Lit(b)) => a.eq(b),
            (Value::Text(a), Value::Text(b)) => a.eq(b),
            (Value::Blob(a), Value::Blob(b)) => bytes_equal(a, b),
            (Value::Real(a), Value::Real(b)) => *a == *b,
            (Value::Integer(a), Value::Integer(b)) => *a == *b,
            _ => false,
        }
    }
}

impl vstd::std_specs::cmp::PartialEqSpecImpl for Value {
    open spec fn obeys_eq_spec() -> bool {
        true
    }

    open spec fn eq_spec(&self, o: &Value) -> bool {
        self@ == o@
    }
}

impl From<String> for Value {
    fn from(s: String) -> (r: Value) {
        Value::Text(s)
    }
}

impl vstd::std_specs::convert::FromSpecImpl<String> for Value {
    open spec fn obeys_from_spec() -> bool {
        true
    }

    open spec fn from_spec(s: String) -> Value {
        Value::Text(s)
    }
}

impl From<&str> for Value {
    fn from(s: &str) -> (r: Value) {
        Value::text(s)
    }
}

/// A borrowed string has no owned `String` to name here; `Value::text` states
/// what this conversion returns.
impl vstd::std_specs::convert::FromSpecImpl<&str> for Value {
    open spec fn obeys_from_spec() -> bool {
        false
    }

    open spec fn from_spec(s: &str) -> Value {
        arbitrary()
    }
}

impl From<i64> for Value {
    fn from(i: i64) -> (r: Value) {
        Value::Integer(i)
    }
}

impl vstd::std_specs::convert::FromSpecImpl<i64> for Value {
    open spec fn obeys_from_spec() -> bool {
        true
    }

    open spec fn from_spec(i: i64) -> Value {
        Value::Integer(i)
    }
}

impl From<Vec<u8>> for Value {
    fn from(b: Vec<u8>) -> (r: Value) {
        Value::Blob(b)
    }
}

impl vstd::std_specs::convert::FromSpecImpl<Vec<u8>> for Value {
    open spec fn obeys_from_spec() -> bool {
        true
    }

    open spec fn from_spec(b: Vec<u8>) -> Value {
        Value::Blob(b)
    }
}

} // verus!
