//! Writing a document as a JSON value.

use crate::json::{items_view, lemma_array_view, lemma_object_view, members_view, Json};
use crate::model::{
    BudgetSettings, BudgetTemplate, LineItem, Notes, Scenario, ScenarioOverride, TemplateEntry,
    TransactionGroups, UnplannedTransaction, VirtualItem,
};
use crate::schema::{
    comments_tree, document_tree, int_tree, line_item_tree, line_items_tree, notes_tree,
    override_tree, overrides_tree, put, put_some, scenario_tree, scenarios_tree, settings_tree,
    some_text, template_entry_tree, template_tree, text_or_null, text_tree, texts_tree,
    transaction_groups_tree, transaction_tree, transactions_tree, unless_empty, unplanned_tree,
    virtual_item_tree, virtual_items_tree,
};
use vstd::prelude::*;

verus! {

/// Writes one more member at the end of an object.
pub fn push_member(members: &mut Vec<(String, Json)>, key: &str, value: Json)
    ensures
        members_view(final(members)@) == put(members_view(old(members)@), key@, value@),
{
    members.push((key.to_owned(), value));
    proof {
        assert(members_view(members@) =~= members_view(old(members)@).push((key@, value@)));
    }
}

/// Writes one more member at the end of an object, where there is a value.
pub fn push_member_if(members: &mut Vec<(String, Json)>, key: &str, value: Option<Json>)
    ensures
        members_view(final(members)@) == put_some(
            members_view(old(members)@),
            key@,
            match value {
                Some(json) => Some(json@),
                None => None,
            },
        ),
{
    match value {
        Some(json) => push_member(members, key, json),
        None => {},
    }
}

/// A text, where there is one.
fn some_text_json(text: &Option<String>) -> (json: Option<Json>)
    ensures
        json is Some <==> text is Some,
        json matches Some(j) ==> some_text(text.deep_view()) == Some(j@),
        json is None ==> some_text(text.deep_view()) is None,
{
    match text {
        Some(s) => Some(Json::Str(s.clone())),
        None => None,
    }
}

/// A text, or `null` where there is none.
fn text_or_null_json(text: &Option<String>) -> (json: Json)
    ensures
        json@ == text_or_null(text.deep_view()),
{
    match text {
        Some(s) => Json::Str(s.clone()),
        None => Json::Null,
    }
}

/// An integer, as the number that JSON holds for it.
fn int_json(i: i64) -> (json: Json)
    ensures
        json@ == int_tree(i),
{
    if i < 0 {
        Json::Number(crate::json::Decimal::NegInt(i))
    } else {
        Json::Number(crate::json::Decimal::PosInt(i as u64))
    }
}

/// A list of texts.
fn texts_to_json(items: &Vec<String>) -> (json: Json)
    ensures
        json@ == texts_tree(items.deep_view()),
{
    let mut out: Vec<Json> = Vec::new();
    let mut i: usize = 0;
    while i < items.len()
        invariant
            i <= items.len(),
            out.len() == i,
            forall|k: int| 0 <= k < i ==> (#[trigger] out[k])@ == text_tree(items[k]@),
        decreases items.len() - i,
    {
        out.push(Json::Str(items[i].clone()));
        i += 1;
    }
    proof {
        lemma_array_view(out);
        assert(items_view(out@) =~= texts_tree(items.deep_view())->Array_0);
    }
    Json::Array(out)
}

impl LineItem {
    pub fn to_json(&self) -> (json: Json)
        ensures
            json@ == line_item_tree(self.deep_view()),
    {
        let mut m: Vec<(String, Json)> = Vec::new();
        assert(members_view(m@) =~= Seq::empty());
        push_member(&mut m, "id", Json::Str(self.id.clone()));
        push_member(&mut m, "name", Json::Str(self.name.clone()));
        push_member(&mut m, "amount", Json::Number(self.amount.clone()));
        push_member_if(&mut m, "description", some_text_json(&self.description));
        proof {
            lemma_object_view(m);
        }
        Json::Object(m)
    }
}

/// The line items of an entry, in their order.
fn line_items_to_json(items: &Vec<LineItem>) -> (json: Json)
    ensures
        json@ == line_items_tree(items.deep_view()),
{
    let mut out: Vec<Json> = Vec::new();
    let mut i: usize = 0;
    while i < items.len()
        invariant
            i <= items.len(),
            out.len() == i,
            forall|k: int|
                0 <= k < i ==> (#[trigger] out[k])@ == line_item_tree(items[k].deep_view()),
        decreases items.len() - i,
    {
        out.push(items[i].to_json());
        i += 1;
    }
    proof {
        lemma_array_view(out);
        assert(items_view(out@) =~= line_items_tree(items.deep_view())->Array_0);
    }
    Json::Array(out)
}

impl TemplateEntry {
    pub fn to_json(&self) -> (json: Json)
        ensures
            json@ == template_entry_tree(self.deep_view()),
    {
        let mut m: Vec<(String, Json)> = Vec::new();
        assert(members_view(m@) =~= Seq::empty());
        push_member(&mut m, "amount", Json::Number(self.amount.clone()));
        push_member_if(&mut m, "sourceAccount", some_text_json(&self.source_account));
        push_member_if(&mut m, "targetAccount", some_text_json(&self.target_account));
        push_member_if(&mut m, "lineItems", list_unless_empty(&self.line_items));
        push_member_if(&mut m, "note", some_text_json(&self.note));
        proof {
            lemma_object_view(m);
        }
        Json::Object(m)
    }
}

/// The line items of an entry or an override, where there are any.
fn list_unless_empty(items: &Vec<LineItem>) -> (json: Option<Json>)
    ensures
        json matches Some(j) ==> unless_empty(
            items.deep_view(),
            line_items_tree(items.deep_view()),
        ) == Some(j@),
        json is None ==> unless_empty(items.deep_view(), line_items_tree(items.deep_view()))
            is None,
{
    if items.len() == 0 {
        None
    } else {
        Some(line_items_to_json(items))
    }
}

/// The template: each entry under its entity key.
fn template_to_json(entries: &Vec<(String, TemplateEntry)>) -> (json: Json)
    ensures
        json@ == template_tree(entries.deep_view()),
{
    let mut out: Vec<(String, Json)> = Vec::new();
    let mut i: usize = 0;
    while i < entries.len()
        invariant
            i <= entries.len(),
            out.len() == i,
            forall|k: int|
                0 <= k < i ==> (#[trigger] out[k]).0@ == entries[k].0@ && out[k].1@
                    == template_entry_tree(entries[k].1.deep_view()),
        decreases entries.len() - i,
    {
        out.push((entries[i].0.clone(), entries[i].1.to_json()));
        i += 1;
    }
    proof {
        lemma_object_view(out);
        assert(members_view(out@) =~= template_tree(entries.deep_view())->Object_0);
    }
    Json::Object(out)
}

impl BudgetSettings {
    pub fn to_json(&self) -> (json: Json)
        ensures
            json@ == settings_tree(self.deep_view()),
    {
        let mut m: Vec<(String, Json)> = Vec::new();
        assert(members_view(m@) =~= Seq::empty());
        push_member(&mut m, "currency", Json::Str(self.currency.clone()));
        push_member(&mut m, "accounts", texts_to_json(&self.accounts));
        push_member(&mut m, "incomeCategories", texts_to_json(&self.income_categories));
        push_member(&mut m, "excludedCategories", texts_to_json(&self.excluded_categories));
        push_member(&mut m, "startDate", Json::Str(self.start_date.clone()));
        push_member(&mut m, "customEntities", texts_to_json(&self.custom_entities));
        proof {
            lemma_object_view(m);
        }
        Json::Object(m)
    }
}

impl UnplannedTransaction {
    pub fn to_json(&self) -> (json: Json)
        ensures
            json@ == transaction_tree(self.deep_view()),
    {
        let mut m: Vec<(String, Json)> = Vec::new();
        assert(members_view(m@) =~= Seq::empty());
        push_member(&mut m, "txId", int_json(self.tx_id));
        push_member(&mut m, "name", Json::Str(self.name.clone()));
        push_member(&mut m, "amount", Json::Number(self.amount.clone()));
        push_member(&mut m, "bookingDate", Json::Str(self.booking_date.clone()));
        push_member(&mut m, "purpose", text_or_null_json(&self.purpose));
        proof {
            lemma_object_view(m);
        }
        Json::Object(m)
    }
}

/// The transactions under one sub-key, in their order.
fn transactions_to_json(items: &Vec<UnplannedTransaction>) -> (json: Json)
    ensures
        json@ == transactions_tree(items.deep_view()),
{
    let mut out: Vec<Json> = Vec::new();
    let mut i: usize = 0;
    while i < items.len()
        invariant
            i <= items.len(),
            out.len() == i,
            forall|k: int|
                0 <= k < i ==> (#[trigger] out[k])@ == transaction_tree(items[k].deep_view()),
        decreases items.len() - i,
    {
        out.push(items[i].to_json());
        i += 1;
    }
    proof {
        lemma_array_view(out);
        assert(items_view(out@) =~= transactions_tree(items.deep_view())->Array_0);
    }
    Json::Array(out)
}

/// The unplanned transactions of one entity key, by sub-key.
fn transaction_groups_to_json(entries: &TransactionGroups) -> (json: Json)
    ensures
        json@ == transaction_groups_tree(entries.deep_view()),
{
    let mut out: Vec<(String, Json)> = Vec::new();
    let mut i: usize = 0;
    while i < entries.len()
        invariant
            i <= entries.len(),
            out.len() == i,
            forall|k: int|
                0 <= k < i ==> (#[trigger] out[k]).0@ == entries[k].0@ && out[k].1@
                    == transactions_tree(entries[k].1.deep_view()),
        decreases entries.len() - i,
    {
        out.push((entries[i].0.clone(), transactions_to_json(&entries[i].1)));
        i += 1;
    }
    proof {
        lemma_object_view(out);
        assert(members_view(out@) =~= transaction_groups_tree(entries.deep_view())->Object_0);
    }
    Json::Object(out)
}

/// The unplanned transactions of a document, by entity key and sub-key.
fn unplanned_to_json(entries: &Vec<(String, TransactionGroups)>) -> (json: Json)
    ensures
        json@ == unplanned_tree(entries.deep_view()),
{
    let mut out: Vec<(String, Json)> = Vec::new();
    let mut i: usize = 0;
    while i < entries.len()
        invariant
            i <= entries.len(),
            out.len() == i,
            forall|k: int|
                0 <= k < i ==> (#[trigger] out[k]).0@ == entries[k].0@ && out[k].1@
                    == transaction_groups_tree(entries[k].1.deep_view()),
        decreases entries.len() - i,
    {
        out.push((entries[i].0.clone(), transaction_groups_to_json(&entries[i].1)));
        i += 1;
    }
    proof {
        lemma_object_view(out);
        assert(members_view(out@) =~= unplanned_tree(entries.deep_view())->Object_0);
    }
    Json::Object(out)
}

/// The comments of one entity key: each text under its sub-key.
fn notes_to_json(entries: &Notes) -> (json: Json)
    ensures
        json@ == notes_tree(entries.deep_view()),
{
    let mut out: Vec<(String, Json)> = Vec::new();
    let mut i: usize = 0;
    while i < entries.len()
        invariant
            i <= entries.len(),
            out.len() == i,
            forall|k: int|
                0 <= k < i ==> (#[trigger] out[k]).0@ == entries[k].0@ && out[k].1@
                    == text_tree(entries[k].1.deep_view()),
        decreases entries.len() - i,
    {
        out.push((entries[i].0.clone(), Json::Str(entries[i].1.clone())));
        i += 1;
    }
    proof {
        lemma_object_view(out);
        assert(members_view(out@) =~= notes_tree(entries.deep_view())->Object_0);
    }
    Json::Object(out)
}

/// The comments of a document, by entity key and sub-key.
fn comments_to_json(entries: &Vec<(String, Notes)>) -> (json: Json)
    ensures
        json@ == comments_tree(entries.deep_view()),
{
    let mut out: Vec<(String, Json)> = Vec::new();
    let mut i: usize = 0;
    while i < entries.len()
        invariant
            i <= entries.len(),
            out.len() == i,
            forall|k: int|
                0 <= k < i ==> (#[trigger] out[k]).0@ == entries[k].0@ && out[k].1@
                    == notes_tree(entries[k].1.deep_view()),
        decreases entries.len() - i,
    {
        out.push((entries[i].0.clone(), notes_to_json(&entries[i].1)));
        i += 1;
    }
    proof {
        lemma_object_view(out);
        assert(members_view(out@) =~= comments_tree(entries.deep_view())->Object_0);
    }
    Json::Object(out)
}

impl ScenarioOverride {
    pub fn to_json(&self) -> (json: Json)
        ensures
            json@ == override_tree(self.deep_view()),
    {
        let mut m: Vec<(String, Json)> = Vec::new();
        assert(members_view(m@) =~= Seq::empty());
        push_member(&mut m, "amount", Json::Number(self.amount.clone()));
        push_member_if(&mut m, "lineItems", list_unless_empty(&self.line_items));
        proof {
            lemma_object_view(m);
        }
        Json::Object(m)
    }
}

/// The overrides of a scenario: each under its entity key.
fn overrides_to_json(entries: &Vec<(String, ScenarioOverride)>) -> (json: Json)
    ensures
        json@ == overrides_tree(entries.deep_view()),
{
    let mut out: Vec<(String, Json)> = Vec::new();
    let mut i: usize = 0;
    while i < entries.len()
        invariant
            i <= entries.len(),
            out.len() == i,
            forall|k: int|
                0 <= k < i ==> (#[trigger] out[k]).0@ == entries[k].0@ && out[k].1@
                    == override_tree(entries[k].1.deep_view()),
        decreases entries.len() - i,
    {
        out.push((entries[i].0.clone(), entries[i].1.to_json()));
        i += 1;
    }
    proof {
        lemma_object_view(out);
        assert(members_view(out@) =~= overrides_tree(entries.deep_view())->Object_0);
    }
    Json::Object(out)
}

impl VirtualItem {
    pub fn to_json(&self) -> (json: Json)
        ensures
            json@ == virtual_item_tree(self.deep_view()),
    {
        let mut m: Vec<(String, Json)> = Vec::new();
        assert(members_view(m@) =~= Seq::empty());
        push_member(&mut m, "id", Json::Str(self.id.clone()));
        push_member(&mut m, "name", Json::Str(self.name.clone()));
        push_member(&mut m, "amount", Json::Number(self.amount.clone()));
        push_member(&mut m, "isIncome", Json::Bool(self.is_income));
        proof {
            lemma_object_view(m);
        }
        Json::Object(m)
    }
}

/// The virtual items of a scenario, in their order.
fn virtual_items_to_json(items: &Vec<VirtualItem>) -> (json: Json)
    ensures
        json@ == virtual_items_tree(items.deep_view()),
{
    let mut out: Vec<Json> = Vec::new();
    let mut i: usize = 0;
    while i < items.len()
        invariant
            i <= items.len(),
            out.len() == i,
            forall|k: int|
                0 <= k < i ==> (#[trigger] out[k])@ == virtual_item_tree(items[k].deep_view()),
        decreases items.len() - i,
    {
        out.push(items[i].to_json());
        i += 1;
    }
    proof {
        lemma_array_view(out);
        assert(items_view(out@) =~= virtual_items_tree(items.deep_view())->Array_0);
    }
    Json::Array(out)
}

impl Scenario {
    pub fn to_json(&self) -> (json: Json)
        ensures
            json@ == scenario_tree(self.deep_view()),
    {
        let mut m: Vec<(String, Json)> = Vec::new();
        assert(members_view(m@) =~= Seq::empty());
        push_member(&mut m, "id", Json::Str(self.id.clone()));
        push_member(&mut m, "name", Json::Str(self.name.clone()));
        push_member_if(&mut m, "description", some_text_json(&self.description));
        push_member_if(&mut m, "notes", some_text_json(&self.notes));
        push_member(&mut m, "createdAt", Json::Str(self.created_at.clone()));
        push_member(&mut m, "overrides", overrides_to_json(&self.overrides));
        let items = if self.virtual_items.len() == 0 {
            None
        } else {
            Some(virtual_items_to_json(&self.virtual_items))
        };
        push_member_if(&mut m, "virtualItems", items);
        proof {
            lemma_object_view(m);
        }
        Json::Object(m)
    }
}

/// The scenarios of a document, in their order.
fn scenarios_to_json(items: &Vec<Scenario>) -> (json: Json)
    ensures
        json@ == scenarios_tree(items.deep_view()),
{
    let mut out: Vec<Json> = Vec::new();
    let mut i: usize = 0;
    while i < items.len()
        invariant
            i <= items.len(),
            out.len() == i,
            forall|k: int|
                0 <= k < i ==> (#[trigger] out[k])@ == scenario_tree(items[k].deep_view()),
        decreases items.len() - i,
    {
        out.push(items[i].to_json());
        i += 1;
    }
    proof {
        lemma_array_view(out);
        assert(items_view(out@) =~= scenarios_tree(items.deep_view())->Array_0);
    }
    Json::Array(out)
}

impl BudgetTemplate {
    /// The JSON value that the document is written as.
    pub fn to_json(&self) -> (json: Json)
        ensures
            json@ == document_tree(self.deep_view()),
    {
        let mut m: Vec<(String, Json)> = Vec::new();
        assert(members_view(m@) =~= Seq::empty());
        push_member(&mut m, "name", Json::Str(self.name.clone()));
        push_member(&mut m, "version", Json::Str(self.version.clone()));
        push_member(&mut m, "settings", self.settings.to_json());
        push_member(&mut m, "template", template_to_json(&self.template));
        let comments = if self.comments.len() == 0 {
            None
        } else {
            Some(comments_to_json(&self.comments))
        };
        push_member_if(&mut m, "comments", comments);
        let unplanned = if self.unplanned.len() == 0 {
            None
        } else {
            Some(unplanned_to_json(&self.unplanned))
        };
        push_member_if(&mut m, "unplanned", unplanned);
        let scenarios = if self.scenarios.len() == 0 {
            None
        } else {
            Some(scenarios_to_json(&self.scenarios))
        };
        push_member_if(&mut m, "scenarios", scenarios);
        proof {
            lemma_object_view(m);
        }
        Json::Object(m)
    }
}

} // verus!
