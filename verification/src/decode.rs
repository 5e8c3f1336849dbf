//! Reading a document from a JSON value.

use crate::json::{
    items_view, lemma_array_view, lemma_object_view, members_view, Decimal, Json, JsonTree,
};
use crate::model::{
    distinct_keys, BudgetSettings, BudgetTemplate, LineItem, Notes, Scenario, ScenarioOverride,
    TemplateEntry, TransactionGroups, UnplannedTransaction, VirtualItem,
};
use crate::round_trip::{
    lemma_each_member_none, lemma_each_member_some, lemma_each_none, lemma_each_some,
    lemma_member_first, lemma_member_none, lemma_read_document_wf,
};
use crate::schema::{
    as_int, as_number, as_text, comments_of, document_of, line_item_of, line_items_of, member,
    notes_of, optional, override_of, overrides_of, required, scenario_of, scenarios_of,
    settings_of, template_entry_of, template_of, texts_of, transaction_groups_of, transaction_of,
    transactions_of, unplanned_of, virtual_item_of, virtual_items_of,
};
use crate::text::same_text;
use crate::valid::has_distinct_keys;
use vstd::prelude::*;

verus! {

/// Why a text is no budget document.
#[derive(Clone, Debug, PartialEq, Eq)]
pub enum DecodeError {
    /// The text is not JSON; the parser's complaint is attached.
    Syntax(String),
    /// The text is JSON, but not of a document's shape: a required member is
    /// missing, or a member has the wrong type.
    Shape,
}

/// The value of the first member called `key`, if there is one.
pub fn get_member<'a>(members: &'a Vec<(String, Json)>, key: &str) -> (found: Option<&'a Json>)
    ensures
        found matches Some(json) ==> member(members_view(members@), key@) == Some(json@),
        found is None ==> member(members_view(members@), key@) is None,
{
    let mut i: usize = 0;
    while i < members.len()
        invariant
            i <= members.len(),
            forall|k: int| 0 <= k < i ==> (#[trigger] members_view(members@)[k]).0 != key@,
        decreases members.len() - i,
    {
        if same_text(members[i].0.as_str(), key) {
            proof {
                lemma_member_first(members_view(members@), key@, i as int);
            }
            return Some(&members[i].1);
        }
        i += 1;
    }
    proof {
        lemma_member_none(members_view(members@), key@);
    }
    None
}

/// Whether no key stands twice among the members of an object.
pub fn keys_distinct(members: &Vec<(String, Json)>) -> (distinct: bool)
    ensures
        distinct == distinct_keys(members_view(members@)),
{
    assert(members.deep_view() =~= members_view(members@));
    has_distinct_keys(members)
}

/// A list with nothing in it.
pub fn empty_list<T: DeepView>() -> (list: Vec<T>)
    ensures
        list.deep_view() == Seq::<T::V>::empty(),
{
    let list: Vec<T> = Vec::new();
    assert(list.deep_view() =~= Seq::<T::V>::empty());
    list
}

/// A text.
pub fn text_from_json(json: &Json) -> (r: Result<String, DecodeError>)
    ensures
        r is Ok <==> as_text(json@) is Some,
        r matches Ok(out) ==> as_text(json@) == Some(out.deep_view()),
        r matches Err(e) ==> e is Shape,
{
    match json {
        Json::Str(s) => Ok(s.clone()),
        _ => Err(DecodeError::Shape),
    }
}

/// A text that has to be there.
pub fn required_text(members: &Vec<(String, Json)>, key: &str) -> (r: Result<String, DecodeError>)
    ensures
        r is Ok <==> required(members_view(members@), key@, |t: JsonTree| as_text(t)) is Some,
        r matches Ok(out) ==> required(members_view(members@), key@, |t: JsonTree| as_text(t))
            == Some(out@),
        r matches Err(e) ==> e is Shape,
{
    match get_member(members, key) {
        Some(Json::Str(s)) => Ok(s.clone()),
        _ => Err(DecodeError::Shape),
    }
}

/// A text that may be left out, or be `null`.
pub fn optional_text(members: &Vec<(String, Json)>, key: &str) -> (r: Result<
    Option<String>,
    DecodeError,
>)
    ensures
        r is Ok <==> optional(members_view(members@), key@, |t: JsonTree| as_text(t)) is Some,
        r matches Ok(out) ==> optional(members_view(members@), key@, |t: JsonTree| as_text(t))
            == Some(out.deep_view()),
        r matches Err(e) ==> e is Shape,
{
    match get_member(members, key) {
        None => Ok(None),
        Some(Json::Null) => Ok(None),
        Some(Json::Str(s)) => Ok(Some(s.clone())),
        Some(_) => Err(DecodeError::Shape),
    }
}

/// A number that has to be there.
pub fn required_number(members: &Vec<(String, Json)>, key: &str) -> (r: Result<
    Decimal,
    DecodeError,
>)
    ensures
        r is Ok <==> required(members_view(members@), key@, |t: JsonTree| as_number(t)) is Some,
        r matches Ok(out) ==> required(members_view(members@), key@, |t: JsonTree| as_number(t))
            == Some(out@),
        r matches Err(e) ==> e is Shape,
{
    match get_member(members, key) {
        Some(Json::Number(n)) => Ok(n.clone()),
        _ => Err(DecodeError::Shape),
    }
}

/// An integer of 64 signed bits that has to be there.
pub fn required_int(members: &Vec<(String, Json)>, key: &str) -> (r: Result<i64, DecodeError>)
    ensures
        r is Ok <==> required(members_view(members@), key@, |t: JsonTree| as_int(t)) is Some,
        r matches Ok(out) ==> required(members_view(members@), key@, |t: JsonTree| as_int(t))
            == Some(out),
        r matches Err(e) ==> e is Shape,
{
    match get_member(members, key) {
        Some(Json::Number(Decimal::PosInt(u))) => if *u <= i64::MAX as u64 {
            Ok(*u as i64)
        } else {
            Err(DecodeError::Shape)
        },
        Some(Json::Number(Decimal::NegInt(i))) => Ok(*i),
        _ => Err(DecodeError::Shape),
    }
}

/// A list of texts.
fn texts_from_json(json: &Json) -> (r: Result<Vec<String>, DecodeError>)
    ensures
        r is Ok <==> texts_of(json@) is Some,
        r matches Ok(out) ==> texts_of(json@) == Some(out.deep_view()),
        r matches Err(e) ==> e is Shape,
{
    match json {
        Json::Array(items) => {
            let ghost trees = items_view(items@);
            proof {
                lemma_array_view(*items);
            }
            let mut out: Vec<String> = Vec::new();
            let mut i: usize = 0;
            while i < items.len()
                invariant
                    i <= items.len(),
                    out.len() == i,
                    trees == items_view(items@),
                    json@ == JsonTree::Array(trees),
                    forall|k: int|
                        0 <= k < i ==> as_text(#[trigger] trees[k]) == Some(
                            out[k].deep_view(),
                        ),
                decreases items.len() - i,
            {
                match text_from_json(&items[i]) {
                    Ok(item) => {
                        out.push(item);
                    },
                    Err(e) => {
                        proof {
                            lemma_each_none(trees, |t: JsonTree| as_text(t), i as int);
                        }
                        return Err(e);
                    },
                }
                i += 1;
            }
            proof {
                lemma_each_some(trees, |t: JsonTree| as_text(t), out.deep_view());
            }
            Ok(out)
        },
        _ => Err(DecodeError::Shape),
    }
}

impl LineItem {
    pub fn from_json(json: &Json) -> (r: Result<LineItem, DecodeError>)
        ensures
            r is Ok <==> line_item_of(json@) is Some,
            r matches Ok(out) ==> line_item_of(json@) == Some(out.deep_view()),
            r matches Err(e) ==> e is Shape,
    {
        match json {
            Json::Object(m) => {
                proof {
                    lemma_object_view(*m);
                }
                let id = required_text(m, "id")?;
                let name = required_text(m, "name")?;
                let amount = required_number(m, "amount")?;
                let description = optional_text(m, "description")?;
                Ok(LineItem { id, name, amount, description })
            },
            _ => Err(DecodeError::Shape),
        }
    }
}

/// The line items of an entry, in their order.
fn line_items_from_json(json: &Json) -> (r: Result<Vec<LineItem>, DecodeError>)
    ensures
        r is Ok <==> line_items_of(json@) is Some,
        r matches Ok(out) ==> line_items_of(json@) == Some(out.deep_view()),
        r matches Err(e) ==> e is Shape,
{
    match json {
        Json::Array(items) => {
            let ghost trees = items_view(items@);
            proof {
                lemma_array_view(*items);
            }
            let mut out: Vec<LineItem> = Vec::new();
            let mut i: usize = 0;
            while i < items.len()
                invariant
                    i <= items.len(),
                    out.len() == i,
                    trees == items_view(items@),
                    json@ == JsonTree::Array(trees),
                    forall|k: int|
                        0 <= k < i ==> line_item_of(#[trigger] trees[k]) == Some(
                            out[k].deep_view(),
                        ),
                decreases items.len() - i,
            {
                match LineItem::from_json(&items[i]) {
                    Ok(item) => {
                        out.push(item);
                    },
                    Err(e) => {
                        proof {
                            lemma_each_none(trees, |t: JsonTree| line_item_of(t), i as int);
                        }
                        return Err(e);
                    },
                }
                i += 1;
            }
            proof {
                lemma_each_some(trees, |t: JsonTree| line_item_of(t), out.deep_view());
            }
            Ok(out)
        },
        _ => Err(DecodeError::Shape),
    }
}

impl TemplateEntry {
    pub fn from_json(json: &Json) -> (r: Result<TemplateEntry, DecodeError>)
        ensures
            r is Ok <==> template_entry_of(json@) is Some,
            r matches Ok(out) ==> template_entry_of(json@) == Some(out.deep_view()),
            r matches Err(e) ==> e is Shape,
    {
        match json {
            Json::Object(m) => {
                proof {
                    lemma_object_view(*m);
                }
                let amount = required_number(m, "amount")?;
                let source_account = optional_text(m, "sourceAccount")?;
                let target_account = optional_text(m, "targetAccount")?;
                let line_items = match get_member(m, "lineItems") {
                    Some(j) => line_items_from_json(j)?,
                    None => empty_list(),
                };
                let note = optional_text(m, "note")?;
                Ok(TemplateEntry { amount, source_account, target_account, line_items, note })
            },
            _ => Err(DecodeError::Shape),
        }
    }
}

/// The template: each entry under its entity key.
fn template_from_json(json: &Json) -> (r: Result<Vec<(String, TemplateEntry)>, DecodeError>)
    ensures
        r is Ok <==> template_of(json@) is Some,
        r matches Ok(out) ==> template_of(json@) == Some(out.deep_view()),
        r matches Err(e) ==> e is Shape,
{
    match json {
        Json::Object(members) => {
            let ghost trees = members_view(members@);
            proof {
                lemma_object_view(*members);
            }
            if !keys_distinct(members) {
                return Err(DecodeError::Shape);
            }
            let mut out: Vec<(String, TemplateEntry)> = Vec::new();
            let mut i: usize = 0;
            while i < members.len()
                invariant
                    i <= members.len(),
                    out.len() == i,
                    trees == members_view(members@),
                    json@ == JsonTree::Object(trees),
                    distinct_keys(trees),
                    forall|k: int|
                        0 <= k < i ==> out[k].0@ == (#[trigger] trees[k]).0 && template_entry_of(
                            trees[k].1,
                        ) == Some(out[k].1.deep_view()),
                decreases members.len() - i,
            {
                match TemplateEntry::from_json(&members[i].1) {
                    Ok(value) => {
                        out.push((members[i].0.clone(), value));
                    },
                    Err(e) => {
                        proof {
                            lemma_each_member_none(
                                trees,
                                |t: JsonTree| template_entry_of(t),
                                i as int,
                            );
                        }
                        return Err(e);
                    },
                }
                i += 1;
            }
            proof {
                lemma_each_member_some(trees, |t: JsonTree| template_entry_of(t), out.deep_view());
            }
            Ok(out)
        },
        _ => Err(DecodeError::Shape),
    }
}

impl BudgetSettings {
    pub fn from_json(json: &Json) -> (r: Result<BudgetSettings, DecodeError>)
        ensures
            r is Ok <==> settings_of(json@) is Some,
            r matches Ok(out) ==> settings_of(json@) == Some(out.deep_view()),
            r matches Err(e) ==> e is Shape,
    {
        match json {
            Json::Object(m) => {
                proof {
                    lemma_object_view(*m);
                }
                let currency = required_text(m, "currency")?;
                let accounts = match get_member(m, "accounts") {
                    Some(j) => texts_from_json(j)?,
                    None => return Err(DecodeError::Shape),
                };
                let income_categories = match get_member(m, "incomeCategories") {
                    Some(j) => texts_from_json(j)?,
                    None => return Err(DecodeError::Shape),
                };
                let excluded_categories = match get_member(m, "excludedCategories") {
                    Some(j) => texts_from_json(j)?,
                    None => empty_list(),
                };
                let start_date = required_text(m, "startDate")?;
                let custom_entities = match get_member(m, "customEntities") {
                    Some(j) => texts_from_json(j)?,
                    None => empty_list(),
                };
                Ok(
                    BudgetSettings {
                        currency,
                        accounts,
                        income_categories,
                        excluded_categories,
                        start_date,
                        custom_entities,
                    },
                )
            },
            _ => Err(DecodeError::Shape),
        }
    }
}

impl UnplannedTransaction {
    pub fn from_json(json: &Json) -> (r: Result<UnplannedTransaction, DecodeError>)
        ensures
            r is Ok <==> transaction_of(json@) is Some,
            r matches Ok(out) ==> transaction_of(json@) == Some(out.deep_view()),
            r matches Err(e) ==> e is Shape,
    {
        match json {
            Json::Object(m) => {
                proof {
                    lemma_object_view(*m);
                }
                let tx_id = required_int(m, "txId")?;
                let name = required_text(m, "name")?;
                let amount = required_number(m, "amount")?;
                let booking_date = required_text(m, "bookingDate")?;
                let purpose = optional_text(m, "purpose")?;
                Ok(UnplannedTransaction { tx_id, name, amount, booking_date, purpose })
            },
            _ => Err(DecodeError::Shape),
        }
    }
}

/// The transactions under one sub-key, in their order.
fn transactions_from_json(json: &Json) -> (r: Result<Vec<UnplannedTransaction>, DecodeError>)
    ensures
        r is Ok <==> transactions_of(json@) is Some,
        r matches Ok(out) ==> transactions_of(json@) == Some(out.deep_view()),
        r matches Err(e) ==> e is Shape,
{
    match json {
        Json::Array(items) => {
            let ghost trees = items_view(items@);
            proof {
                lemma_array_view(*items);
            }
            let mut out: Vec<UnplannedTransaction> = Vec::new();
            let mut i: usize = 0;
            while i < items.len()
                invariant
                    i <= items.len(),
                    out.len() == i,
                    trees == items_view(items@),
                    json@ == JsonTree::Array(trees),
                    forall|k: int|
                        0 <= k < i ==> transaction_of(#[trigger] trees[k]) == Some(
                            out[k].deep_view(),
                        ),
                decreases items.len() - i,
            {
                match UnplannedTransaction::from_json(&items[i]) {
                    Ok(item) => {
                        out.push(item);
                    },
                    Err(e) => {
                        proof {
                            lemma_each_none(trees, |t: JsonTree| transaction_of(t), i as int);
                        }
                        return Err(e);
                    },
                }
                i += 1;
            }
            proof {
                lemma_each_some(trees, |t: JsonTree| transaction_of(t), out.deep_view());
            }
            Ok(out)
        },
        _ => Err(DecodeError::Shape),
    }
}

/// The unplanned transactions of one entity key, by sub-key.
fn transaction_groups_from_json(json: &Json) -> (r: Result<TransactionGroups, DecodeError>)
    ensures
        r is Ok <==> transaction_groups_of(json@) is Some,
        r matches Ok(out) ==> transaction_groups_of(json@) == Some(out.deep_view()),
        r matches Err(e) ==> e is Shape,
{
    match json {
        Json::Object(members) => {
            let ghost trees = members_view(members@);
            proof {
                lemma_object_view(*members);
            }
            if !keys_distinct(members) {
                return Err(DecodeError::Shape);
            }
            let mut out: TransactionGroups = Vec::new();
            let mut i: usize = 0;
            while i < members.len()
                invariant
                    i <= members.len(),
                    out.len() == i,
                    trees == members_view(members@),
                    json@ == JsonTree::Object(trees),
                    distinct_keys(trees),
                    forall|k: int|
                        0 <= k < i ==> out[k].0@ == (#[trigger] trees[k]).0 && transactions_of(
                            trees[k].1,
                        ) == Some(out[k].1.deep_view()),
                decreases members.len() - i,
            {
                match transactions_from_json(&members[i].1) {
                    Ok(value) => {
                        out.push((members[i].0.clone(), value));
                    },
                    Err(e) => {
                        proof {
                            lemma_each_member_none(
                                trees,
                                |t: JsonTree| transactions_of(t),
                                i as int,
                            );
                        }
                        return Err(e);
                    },
                }
                i += 1;
            }
            proof {
                lemma_each_member_some(trees, |t: JsonTree| transactions_of(t), out.deep_view());
            }
            Ok(out)
        },
        _ => Err(DecodeError::Shape),
    }
}

/// The unplanned transactions of a document, by entity key and sub-key.
fn unplanned_from_json(json: &Json) -> (r: Result<Vec<(String, TransactionGroups)>, DecodeError>)
    ensures
        r is Ok <==> unplanned_of(json@) is Some,
        r matches Ok(out) ==> unplanned_of(json@) == Some(out.deep_view()),
        r matches Err(e) ==> e is Shape,
{
    match json {
        Json::Object(members) => {
            let ghost trees = members_view(members@);
            proof {
                lemma_object_view(*members);
            }
            if !keys_distinct(members) {
                return Err(DecodeError::Shape);
            }
            let mut out: Vec<(String, TransactionGroups)> = Vec::new();
            let mut i: usize = 0;
            while i < members.len()
                invariant
                    i <= members.len(),
                    out.len() == i,
                    trees == members_view(members@),
                    json@ == JsonTree::Object(trees),
                    distinct_keys(trees),
                    forall|k: int|
                        0 <= k < i ==> out[k].0@ == (#[trigger] trees[k]).0
                            && transaction_groups_of(trees[k].1) == Some(out[k].1.deep_view()),
                decreases members.len() - i,
            {
                match transaction_groups_from_json(&members[i].1) {
                    Ok(value) => {
                        out.push((members[i].0.clone(), value));
                    },
                    Err(e) => {
                        proof {
                            lemma_each_member_none(
                                trees,
                                |t: JsonTree| transaction_groups_of(t),
                                i as int,
                            );
                        }
                        return Err(e);
                    },
                }
                i += 1;
            }
            proof {
                lemma_each_member_some(
                    trees,
                    |t: JsonTree| transaction_groups_of(t),
                    out.deep_view(),
                );
            }
            Ok(out)
        },
        _ => Err(DecodeError::Shape),
    }
}

/// The comments of one entity key: each text under its sub-key.
fn notes_from_json(json: &Json) -> (r: Result<Notes, DecodeError>)
    ensures
        r is Ok <==> notes_of(json@) is Some,
        r matches Ok(out) ==> notes_of(json@) == Some(out.deep_view()),
        r matches Err(e) ==> e is Shape,
{
    match json {
        Json::Object(members) => {
            let ghost trees = members_view(members@);
            proof {
                lemma_object_view(*members);
            }
            if !keys_distinct(members) {
                return Err(DecodeError::Shape);
            }
            let mut out: Notes = Vec::new();
            let mut i: usize = 0;
            while i < members.len()
                invariant
                    i <= members.len(),
                    out.len() == i,
                    trees == members_view(members@),
                    json@ == JsonTree::Object(trees),
                    distinct_keys(trees),
                    forall|k: int|
                        0 <= k < i ==> out[k].0@ == (#[trigger] trees[k]).0 && as_text(
                            trees[k].1,
                        ) == Some(out[k].1.deep_view()),
                decreases members.len() - i,
            {
                match text_from_json(&members[i].1) {
                    Ok(value) => {
                        out.push((members[i].0.clone(), value));
                    },
                    Err(e) => {
                        proof {
                            lemma_each_member_none(trees, |t: JsonTree| as_text(t), i as int);
                        }
                        return Err(e);
                    },
                }
                i += 1;
            }
            proof {
                lemma_each_member_some(trees, |t: JsonTree| as_text(t), out.deep_view());
            }
            Ok(out)
        },
        _ => Err(DecodeError::Shape),
    }
}

/// The comments of a document, by entity key and sub-key.
fn comments_from_json(json: &Json) -> (r: Result<Vec<(String, Notes)>, DecodeError>)
    ensures
        r is Ok <==> comments_of(json@) is Some,
        r matches Ok(out) ==> comments_of(json@) == Some(out.deep_view()),
        r matches Err(e) ==> e is Shape,
{
    match json {
        Json::Object(members) => {
            let ghost trees = members_view(members@);
            proof {
                lemma_object_view(*members);
            }
            if !keys_distinct(members) {
                return Err(DecodeError::Shape);
            }
            let mut out: Vec<(String, Notes)> = Vec::new();
            let mut i: usize = 0;
            while i < members.len()
                invariant
                    i <= members.len(),
                    out.len() == i,
                    trees == members_view(members@),
                    json@ == JsonTree::Object(trees),
                    distinct_keys(trees),
                    forall|k: int|
                        0 <= k < i ==> out[k].0@ == (#[trigger] trees[k]).0 && notes_of(
                            trees[k].1,
                        ) == Some(out[k].1.deep_view()),
                decreases members.len() - i,
            {
                match notes_from_json(&members[i].1) {
                    Ok(value) => {
                        out.push((members[i].0.clone(), value));
                    },
                    Err(e) => {
                        proof {
                            lemma_each_member_none(trees, |t: JsonTree| notes_of(t), i as int);
                        }
                        return Err(e);
                    },
                }
                i += 1;
            }
            proof {
                lemma_each_member_some(trees, |t: JsonTree| notes_of(t), out.deep_view());
            }
            Ok(out)
        },
        _ => Err(DecodeError::Shape),
    }
}

impl ScenarioOverride {
    pub fn from_json(json: &Json) -> (r: Result<ScenarioOverride, DecodeError>)
        ensures
            r is Ok <==> override_of(json@) is Some,
            r matches Ok(out) ==> override_of(json@) == Some(out.deep_view()),
            r matches Err(e) ==> e is Shape,
    {
        match json {
            Json::Object(m) => {
                proof {
                    lemma_object_view(*m);
                }
                let amount = required_number(m, "amount")?;
                let line_items = match get_member(m, "lineItems") {
                    Some(j) => line_items_from_json(j)?,
                    None => empty_list(),
                };
                Ok(ScenarioOverride { amount, line_items })
            },
            _ => Err(DecodeError::Shape),
        }
    }
}

/// The overrides of a scenario: each under its entity key.
fn overrides_from_json(json: &Json) -> (r: Result<Vec<(String, ScenarioOverride)>, DecodeError>)
    ensures
        r is Ok <==> overrides_of(json@) is Some,
        r matches Ok(out) ==> overrides_of(json@) == Some(out.deep_view()),
        r matches Err(e) ==> e is Shape,
{
    match json {
        Json::Object(members) => {
            let ghost trees = members_view(members@);
            proof {
                lemma_object_view(*members);
            }
            if !keys_distinct(members) {
                return Err(DecodeError::Shape);
            }
            let mut out: Vec<(String, ScenarioOverride)> = Vec::new();
            let mut i: usize = 0;
            while i < members.len()
                invariant
                    i <= members.len(),
                    out.len() == i,
                    trees == members_view(members@),
                    json@ == JsonTree::Object(trees),
                    distinct_keys(trees),
                    forall|k: int|
                        0 <= k < i ==> out[k].0@ == (#[trigger] trees[k]).0 && override_of(
                            trees[k].1,
                        ) == Some(out[k].1.deep_view()),
                decreases members.len() - i,
            {
                match ScenarioOverride::from_json(&members[i].1) {
                    Ok(value) => {
                        out.push((members[i].0.clone(), value));
                    },
                    Err(e) => {
                        proof {
                            lemma_each_member_none(trees, |t: JsonTree| override_of(t), i as int);
                        }
                        return Err(e);
                    },
                }
                i += 1;
            }
            proof {
                lemma_each_member_some(trees, |t: JsonTree| override_of(t), out.deep_view());
            }
            Ok(out)
        },
        _ => Err(DecodeError::Shape),
    }
}

impl VirtualItem {
    pub fn from_json(json: &Json) -> (r: Result<VirtualItem, DecodeError>)
        ensures
            r is Ok <==> virtual_item_of(json@) is Some,
            r matches Ok(out) ==> virtual_item_of(json@) == Some(out.deep_view()),
            r matches Err(e) ==> e is Shape,
    {
        match json {
            Json::Object(m) => {
                proof {
                    lemma_object_view(*m);
                }
                let id = required_text(m, "id")?;
                let name = required_text(m, "name")?;
                let amount = required_number(m, "amount")?;
                let is_income = match get_member(m, "isIncome") {
                    Some(Json::Bool(b)) => *b,
                    Some(_) => return Err(DecodeError::Shape),
                    None => false,
                };
                Ok(VirtualItem { id, name, amount, is_income })
            },
            _ => Err(DecodeError::Shape),
        }
    }
}

/// The virtual items of a scenario, in their order.
fn virtual_items_from_json(json: &Json) -> (r: Result<Vec<VirtualItem>, DecodeError>)
    ensures
        r is Ok <==> virtual_items_of(json@) is Some,
        r matches Ok(out) ==> virtual_items_of(json@) == Some(out.deep_view()),
        r matches Err(e) ==> e is Shape,
{
    match json {
        Json::Array(items) => {
            let ghost trees = items_view(items@);
            proof {
                lemma_array_view(*items);
            }
            let mut out: Vec<VirtualItem> = Vec::new();
            let mut i: usize = 0;
            while i < items.len()
                invariant
                    i <= items.len(),
                    out.len() == i,
                    trees == items_view(items@),
                    json@ == JsonTree::Array(trees),
                    forall|k: int|
                        0 <= k < i ==> virtual_item_of(#[trigger] trees[k]) == Some(
                            out[k].deep_view(),
                        ),
                decreases items.len() - i,
            {
                match VirtualItem::from_json(&items[i]) {
                    Ok(item) => {
                        out.push(item);
                    },
                    Err(e) => {
                        proof {
                            lemma_each_none(trees, |t: JsonTree| virtual_item_of(t), i as int);
                        }
                        return Err(e);
                    },
                }
                i += 1;
            }
            proof {
                lemma_each_some(trees, |t: JsonTree| virtual_item_of(t), out.deep_view());
            }
            Ok(out)
        },
        _ => Err(DecodeError::Shape),
    }
}

impl Scenario {
    pub fn from_json(json: &Json) -> (r: Result<Scenario, DecodeError>)
        ensures
            r is Ok <==> scenario_of(json@) is Some,
            r matches Ok(out) ==> scenario_of(json@) == Some(out.deep_view()),
            r matches Err(e) ==> e is Shape,
    {
        match json {
            Json::Object(m) => {
                proof {
                    lemma_object_view(*m);
                }
                let id = required_text(m, "id")?;
                let name = required_text(m, "name")?;
                let description = optional_text(m, "description")?;
                let notes = optional_text(m, "notes")?;
                let created_at = required_text(m, "createdAt")?;
                let overrides = match get_member(m, "overrides") {
                    Some(j) => overrides_from_json(j)?,
                    None => return Err(DecodeError::Shape),
                };
                let virtual_items = match get_member(m, "virtualItems") {
                    Some(j) => virtual_items_from_json(j)?,
                    None => empty_list(),
                };
                Ok(Scenario { id, name, description, notes, created_at, overrides, virtual_items })
            },
            _ => Err(DecodeError::Shape),
        }
    }
}

/// The scenarios of a document, in their order.
fn scenarios_from_json(json: &Json) -> (r: Result<Vec<Scenario>, DecodeError>)
    ensures
        r is Ok <==> scenarios_of(json@) is Some,
        r matches Ok(out) ==> scenarios_of(json@) == Some(out.deep_view()),
        r matches Err(e) ==> e is Shape,
{
    match json {
        Json::Array(items) => {
            let ghost trees = items_view(items@);
            proof {
                lemma_array_view(*items);
            }
            let mut out: Vec<Scenario> = Vec::new();
            let mut i: usize = 0;
            while i < items.len()
                invariant
                    i <= items.len(),
                    out.len() == i,
                    trees == items_view(items@),
                    json@ == JsonTree::Array(trees),
                    forall|k: int|
                        0 <= k < i ==> scenario_of(#[trigger] trees[k]) == Some(
                            out[k].deep_view(),
                        ),
                decreases items.len() - i,
            {
                match Scenario::from_json(&items[i]) {
                    Ok(item) => {
                        out.push(item);
                    },
                    Err(e) => {
                        proof {
                            lemma_each_none(trees, |t: JsonTree| scenario_of(t), i as int);
                        }
                        return Err(e);
                    },
                }
                i += 1;
            }
            proof {
                lemma_each_some(trees, |t: JsonTree| scenario_of(t), out.deep_view());
            }
            Ok(out)
        },
        _ => Err(DecodeError::Shape),
    }
}

impl BudgetTemplate {
    /// The document that a JSON value holds, or `Shape` where it holds none.
    pub fn from_json(json: &Json) -> (r: Result<BudgetTemplate, DecodeError>)
        ensures
            r is Ok <==> document_of(json@) is Some,
            r matches Ok(out) ==> document_of(json@) == Some(out.deep_view()),
            r matches Ok(out) ==> out.deep_view().wf(),
            r matches Err(e) ==> e is Shape,
    {
        proof {
            if document_of(json@) is Some {
                lemma_read_document_wf(json@);
            }
        }
        match json {
            Json::Object(m) => {
                proof {
                    lemma_object_view(*m);
                }
                let name = required_text(m, "name")?;
                let version = required_text(m, "version")?;
                let settings = match get_member(m, "settings") {
                    Some(j) => BudgetSettings::from_json(j)?,
                    None => return Err(DecodeError::Shape),
                };
                let template = match get_member(m, "template") {
                    Some(j) => template_from_json(j)?,
                    None => return Err(DecodeError::Shape),
                };
                let comments = match get_member(m, "comments") {
                    Some(j) => comments_from_json(j)?,
                    None => empty_list(),
                };
                let unplanned = match get_member(m, "unplanned") {
                    Some(j) => unplanned_from_json(j)?,
                    None => empty_list(),
                };
                let scenarios = match get_member(m, "scenarios") {
                    Some(j) => scenarios_from_json(j)?,
                    None => empty_list(),
                };
                Ok(
                    BudgetTemplate {
                        name,
                        version,
                        settings,
                        template,
                        comments,
                        unplanned,
                        scenarios,
                    },
                )
            },
            _ => Err(DecodeError::Shape),
        }
    }
}
} // verus!
