//! JSON values as plain data, and the calls that turn text into them and back.

use serde_json::Value;
use vstd::prelude::*;

verus! {

/// A number as JSON writes it, kept exactly as it was given: amounts are
/// carried, never computed with.
#[derive(Debug, PartialEq, Eq)]
pub enum Decimal {
    /// A non-negative integer.
    PosInt(u64),
    /// A negative integer.
    NegInt(i64),
    /// Any other number, as its decimal text (`"12.5"`, `"1e-7"`).
    Float(String),
}

/// The mathematical value of a [`Decimal`].
pub ghost enum DecimalView {
    PosInt(u64),
    NegInt(i64),
    Float(Seq<char>),
}

impl View for Decimal {
    type V = DecimalView;

    open spec fn view(&self) -> DecimalView {
        match self {
            Decimal::PosInt(u) => DecimalView::PosInt(*u),
            Decimal::NegInt(i) => DecimalView::NegInt(*i),
            Decimal::Float(text) => DecimalView::Float(text@),
        }
    }
}

impl DeepView for Decimal {
    type V = DecimalView;

    open spec fn deep_view(&self) -> DecimalView {
        self@
    }
}

impl Clone for Decimal {
    fn clone(&self) -> (copy: Decimal)
        ensures
            copy@ == self@,
    {
        match self {
            Decimal::PosInt(u) => Decimal::PosInt(*u),
            Decimal::NegInt(i) => Decimal::NegInt(*i),
            Decimal::Float(text) => Decimal::Float(text.clone()),
        }
    }
}

/// A JSON value. An object keeps its members in the order they were written.
#[derive(Debug, PartialEq, Eq)]
pub enum Json {
    Null,
    Bool(bool),
    Number(Decimal),
    Str(String),
    Array(Vec<Json>),
    Object(Vec<(String, Json)>),
}

/// The mathematical value of a [`Json`].
pub ghost enum JsonTree {
    Null,
    Bool(bool),
    Number(DecimalView),
    Str(Seq<char>),
    Array(Seq<JsonTree>),
    Object(Seq<(Seq<char>, JsonTree)>),
}

/// The mathematical value of a [`Json`], node for node.
pub open spec fn tree_of(json: Json) -> JsonTree
    decreases json,
{
    match json {
        Json::Null => JsonTree::Null,
        Json::Bool(b) => JsonTree::Bool(b),
        Json::Number(n) => JsonTree::Number(n@),
        Json::Str(s) => JsonTree::Str(s@),
        Json::Array(items) => JsonTree::Array(
            Seq::new(
                items@.len(),
                |i: int|
                    if 0 <= i < items@.len() {
                        tree_of(items@[i])
                    } else {
                        JsonTree::Null
                    },
            ),
        ),
        Json::Object(members) => JsonTree::Object(
            Seq::new(
                members@.len(),
                |i: int|
                    if 0 <= i < members@.len() {
                        (members@[i].0@, tree_of(members@[i].1))
                    } else {
                        (Seq::empty(), JsonTree::Null)
                    },
            ),
        ),
    }
}

impl View for Json {
    type V = JsonTree;

    open spec fn view(&self) -> JsonTree {
        tree_of(*self)
    }
}

impl DeepView for Json {
    type V = JsonTree;

    open spec fn deep_view(&self) -> JsonTree {
        tree_of(*self)
    }
}

/// The values of a list of [`Json`] items.
pub open spec fn items_view(items: Seq<Json>) -> Seq<JsonTree> {
    Seq::new(items.len(), |i: int| items[i]@)
}

/// The members of an object, each as its key and its value.
pub open spec fn members_view(members: Seq<(String, Json)>) -> Seq<(Seq<char>, JsonTree)> {
    Seq::new(members.len(), |i: int| (members[i].0@, members[i].1@))
}

/// An array's value is the list of its items' values.
pub proof fn lemma_array_view(items: Vec<Json>)
    ensures
        Json::Array(items)@ == JsonTree::Array(items_view(items@)),
{
    reveal_with_fuel(tree_of, 2);
    assert(Json::Array(items)@->Array_0 =~= items_view(items@));
}

/// An object's value is the list of its members, each as key and value.
pub proof fn lemma_object_view(members: Vec<(String, Json)>)
    ensures
        Json::Object(members)@ == JsonTree::Object(members_view(members@)),
{
    reveal_with_fuel(tree_of, 2);
    assert(Json::Object(members)@->Object_0 =~= members_view(members@));
}

/// Whether two numbers are written the same.
pub fn same_decimal(a: &Decimal, b: &Decimal) -> (same: bool)
    ensures
        same == (a@ == b@),
{
    match (a, b) {
        (Decimal::PosInt(x), Decimal::PosInt(y)) => *x == *y,
        (Decimal::NegInt(x), Decimal::NegInt(y)) => *x == *y,
        (Decimal::Float(x), Decimal::Float(y)) => *x == *y,
        _ => false,
    }
}

/// Whether two values are the same: node for node, an object's members in
/// the same order.
pub fn same_json(a: &Json, b: &Json) -> (same: bool)
    ensures
        same == (a@ == b@),
    decreases a,
{
    broadcast use vstd::std_specs::vec::axiom_vec_index_decreases;

    match (a, b) {
        (Json::Null, Json::Null) => true,
        (Json::Bool(x), Json::Bool(y)) => *x == *y,
        (Json::Number(x), Json::Number(y)) => same_decimal(x, y),
        (Json::Str(x), Json::Str(y)) => *x == *y,
        (Json::Array(x), Json::Array(y)) => {
            proof {
                lemma_array_view(*x);
                lemma_array_view(*y);
            }
            if x.len() != y.len() {
                assert(items_view(x@).len() != items_view(y@).len());
                return false;
            }
            let mut i: usize = 0;
            while i < x.len()
                invariant
                    i <= x.len() == y.len(),
                    a == Json::Array(*x),
                    a@ == JsonTree::Array(items_view(x@)),
                    b@ == JsonTree::Array(items_view(y@)),
                    forall|k: int| 0 <= k < i ==> x[k]@ == y[k]@,
                decreases x.len() - i,
            {
                if !same_json(&x[i], &y[i]) {
                    assert(items_view(x@)[i as int] != items_view(y@)[i as int]);
                    return false;
                }
                i += 1;
            }
            assert(items_view(x@) =~= items_view(y@));
            true
        },
        (Json::Object(x), Json::Object(y)) => {
            proof {
                lemma_object_view(*x);
                lemma_object_view(*y);
            }
            if x.len() != y.len() {
                assert(members_view(x@).len() != members_view(y@).len());
                return false;
            }
            let mut i: usize = 0;
            while i < x.len()
                invariant
                    i <= x.len() == y.len(),
                    a == Json::Object(*x),
                    a@ == JsonTree::Object(members_view(x@)),
                    b@ == JsonTree::Object(members_view(y@)),
                    forall|k: int| 0 <= k < i ==> x[k].0@ == y[k].0@ && x[k].1@ == y[k].1@,
                decreases x.len() - i,
            {
                if x[i].0 != y[i].0 || !same_json(&x[i].1, &y[i].1) {
                    assert(members_view(x@)[i as int] != members_view(y@)[i as int]);
                    return false;
                }
                i += 1;
            }
            assert(members_view(x@) =~= members_view(y@));
            true
        },
        _ => false,
    }
}

/// A copy of a value, node for node.
pub fn copy_json(json: &Json) -> (copy: Json)
    ensures
        copy@ == json@,
    decreases json,
{
    broadcast use vstd::std_specs::vec::axiom_vec_index_decreases;

    match json {
        Json::Null => Json::Null,
        Json::Bool(b) => Json::Bool(*b),
        Json::Number(n) => Json::Number(n.clone()),
        Json::Str(s) => Json::Str(s.clone()),
        Json::Array(items) => {
            let mut copies: Vec<Json> = Vec::new();
            let mut i: usize = 0;
            while i < items.len()
                invariant
                    i <= items.len(),
                    copies.len() == i,
                    json == Json::Array(*items),
                    forall|k: int| 0 <= k < i ==> copies[k]@ == items[k]@,
                decreases items.len() - i,
            {
                assert(json->Array_0 == *items);
                let item = copy_json(&items[i]);
                copies.push(item);
                i += 1;
            }
            proof {
                lemma_array_view(*items);
                lemma_array_view(copies);
                assert(items_view(copies@) =~= items_view(items@));
            }
            Json::Array(copies)
        },
        Json::Object(members) => {
            let mut copies: Vec<(String, Json)> = Vec::new();
            let mut i: usize = 0;
            while i < members.len()
                invariant
                    i <= members.len(),
                    copies.len() == i,
                    json == Json::Object(*members),
                    forall|k: int|
                        0 <= k < i ==> copies[k].0@ == members[k].0@ && copies[k].1@
                            == members[k].1@,
                decreases members.len() - i,
            {
                assert(json->Object_0 == *members);
                let value = copy_json(&members[i].1);
                copies.push((members[i].0.clone(), value));
                i += 1;
            }
            proof {
                lemma_object_view(*members);
                lemma_object_view(copies);
                assert(members_view(copies@) =~= members_view(members@));
            }
            Json::Object(copies)
        },
    }
}

impl Clone for Json {
    fn clone(&self) -> (copy: Json)
        ensures
            copy@ == self@,
    {
        copy_json(self)
    }
}

/// `serde_json::Value`, the tree that the parser builds and the printer reads.
#[verifier::external_type_specification]
#[verifier::external_body]
pub struct ExValue(serde_json::Value);

/// `serde_json::Number`, a number inside a `serde_json::Value`.
#[verifier::external_type_specification]
#[verifier::external_body]
pub struct ExNumber(serde_json::Number);

/// `serde_json::Error`, the parser's and the printer's complaint.
#[verifier::external_type_specification]
#[verifier::external_body]
pub struct ExError(serde_json::Error);

/// The value that `serde_json::from_str` reads from a text, or `None` where
/// it reports an error. Nothing more is known of it here.
pub uninterp spec fn parsed(text: Seq<char>) -> Option<JsonTree>;

/// The text that `serde_json::to_string_pretty` writes for a value, or `None`
/// where it reports an error. Nothing more is known of it here.
pub uninterp spec fn printed(tree: JsonTree) -> Option<Seq<char>>;

/// The text that `serde_json::to_string` writes for a value, on one line, or
/// `None` where it reports an error. Nothing more is known of it here.
pub uninterp spec fn printed_compact(tree: JsonTree) -> Option<Seq<char>>;

/// Copies a `serde_json::Number` into a [`Decimal`]: by `Number::as_u64`, else
/// by `as_i64`, else as the text that its `Display` writes. Nothing is claimed
/// of the result.
#[verifier::external_body]
fn decimal_of(number: &serde_json::Number) -> Decimal {
    match (number.as_u64(), number.as_i64()) {
        (Some(u), _) => Decimal::PosInt(u),
        (_, Some(i)) => Decimal::NegInt(i),
        _ => Decimal::Float(number.to_string()),
    }
}

/// Copies a [`Decimal`] into a `serde_json::Value`: an integer by
/// `Value::from`, a decimal text by `serde_json::Number`'s `FromStr`, and
/// `Value::Null` where that refuses the text. Nothing is claimed of the result.
#[verifier::external_body]
fn value_of_decimal(number: &Decimal) -> Value {
    match number {
        Decimal::PosInt(u) => Value::from(*u),
        Decimal::NegInt(i) => Value::from(*i),
        Decimal::Float(text) => text.parse().map_or(Value::Null, Value::Number),
    }
}

/// Copies a `serde_json::Value` into a [`Json`], node for node: a number by
/// [`decimal_of`], an object's members in the order in which `Map::iter`
/// yields them (with the crate's `preserve_order`, the order in which they
/// were put in). Nothing is claimed of the result.
#[verifier::external_body]
fn json_of_value(value: &Value) -> Json {
    match value {
        Value::Null => Json::Null,
        Value::Bool(b) => Json::Bool(*b),
        Value::Number(n) => Json::Number(decimal_of(n)),
        Value::String(s) => Json::Str(s.clone()),
        Value::Array(a) => Json::Array(a.iter().map(json_of_value).collect()),
        Value::Object(o) => {
            Json::Object(o.iter().map(|(k, v)| (k.clone(), json_of_value(v))).collect())
        },
    }
}

/// Copies a [`Json`] into a `serde_json::Value`, node for node: a number by
/// [`value_of_decimal`], an object's members by collecting them into a `Map` in
/// their order. Nothing is claimed of the result.
#[verifier::external_body]
fn value_of_json(json: &Json) -> Value {
    match json {
        Json::Null => Value::Null,
        Json::Bool(b) => Value::Bool(*b),
        Json::Number(n) => value_of_decimal(n),
        Json::Str(s) => Value::String(s.clone()),
        Json::Array(a) => Value::Array(a.iter().map(value_of_json).collect()),
        Json::Object(o) => {
            Value::Object(o.iter().map(|(k, v)| (k.clone(), value_of_json(v))).collect())
        },
    }
}

/// `serde_json::from_str`, read as a `serde_json::Value` and copied into a
/// [`Json`]. The contract only gives the outcome its name: the call succeeds
/// exactly where [`parsed`] is `Some`, and then returns that value.
#[verifier::external_body]
pub(crate) fn parse_json(text: &str) -> (r: Result<Json, serde_json::Error>)
    ensures
        r is Ok <==> parsed(text@) is Some,
        r is Ok ==> parsed(text@) == Some(r->Ok_0@),
{
    serde_json::from_str::<Value>(text).map(|value| json_of_value(&value))
}

/// `serde_json::to_string_pretty`, on the `serde_json::Value` copied from a
/// [`Json`]. The contract only gives the outcome its name: the call succeeds
/// exactly where [`printed`] is `Some`, and then returns that text.
#[verifier::external_body]
pub(crate) fn print_json(json: &Json) -> (r: Result<String, serde_json::Error>)
    ensures
        r is Ok <==> printed(json@) is Some,
        r is Ok ==> printed(json@) == Some(r->Ok_0@),
{
    serde_json::to_string_pretty(&value_of_json(json))
}

/// `serde_json::to_string`, on the `serde_json::Value` copied from a [`Json`].
/// The contract only gives the outcome its name: the call succeeds exactly
/// where [`printed_compact`] is `Some`, and then returns that text.
#[verifier::external_body]
pub(crate) fn print_json_compact(json: &Json) -> (r: Result<String, serde_json::Error>)
    ensures
        r is Ok <==> printed_compact(json@) is Some,
        r is Ok ==> printed_compact(json@) == Some(r->Ok_0@),
{
    serde_json::to_string(&value_of_json(json))
}

/// `serde_json::Error`'s `Display`: the complaint as text. Nothing is claimed
/// of the text.
#[verifier::external_body]
pub(crate) fn complaint(error: &serde_json::Error) -> String {
    error.to_string()
}

} // verus!
