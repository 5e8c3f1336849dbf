//! The shape of a budget document as a JSON value, stated as mathematics:
//! which value a document is written as, and which document a value is read
//! as. The executable encoder and decoder are proved against these.

use crate::json::{DecimalView, JsonTree};
use crate::model::{
    distinct_keys, BudgetSettingsView, BudgetTemplateView, LineItemView, ScenarioOverrideView,
    ScenarioView, TemplateEntryView, UnplannedTransactionView, VirtualItemView,
};
use vstd::prelude::*;

verus! {

/// The members of a JSON object.
pub type Members = Seq<(Seq<char>, JsonTree)>;

/// The value of the first member called `key`, if there is one.
pub open spec fn member(members: Members, key: Seq<char>) -> Option<JsonTree>
    decreases members.len(),
{
    if members.len() == 0 {
        None
    } else if members.last().0 == key && member(members.drop_last(), key) is None {
        Some(members.last().1)
    } else {
        member(members.drop_last(), key)
    }
}

/// `members` with one more member at its end.
pub open spec fn put(members: Members, key: Seq<char>, value: JsonTree) -> Members {
    members.push((key, value))
}

/// `members` with one more member at its end, where there is a value to write.
pub open spec fn put_some(members: Members, key: Seq<char>, value: Option<JsonTree>) -> Members {
    match value {
        Some(v) => members.push((key, v)),
        None => members,
    }
}

// ---------------------------------------------------------------- reading

pub open spec fn as_text(tree: JsonTree) -> Option<Seq<char>> {
    match tree {
        JsonTree::Str(s) => Some(s),
        _ => None,
    }
}

pub open spec fn as_flag(tree: JsonTree) -> Option<bool> {
    match tree {
        JsonTree::Bool(b) => Some(b),
        _ => None,
    }
}

pub open spec fn as_number(tree: JsonTree) -> Option<DecimalView> {
    match tree {
        JsonTree::Number(n) => Some(n),
        _ => None,
    }
}

/// An integer that fits 64 signed bits; a number written with a fraction or
/// an exponent is none.
pub open spec fn as_int(tree: JsonTree) -> Option<i64> {
    match tree {
        JsonTree::Number(DecimalView::PosInt(u)) => if u <= i64::MAX {
            Some(u as i64)
        } else {
            None
        },
        JsonTree::Number(DecimalView::NegInt(i)) => Some(i),
        _ => None,
    }
}

/// A member that has to be there.
pub open spec fn required<T>(
    members: Members,
    key: Seq<char>,
    read: spec_fn(JsonTree) -> Option<T>,
) -> Option<T> {
    match member(members, key) {
        Some(tree) => read(tree),
        None => None,
    }
}

/// A member that may be left out, or be `null`.
pub open spec fn optional<T>(
    members: Members,
    key: Seq<char>,
    read: spec_fn(JsonTree) -> Option<T>,
) -> Option<Option<T>> {
    match member(members, key) {
        None => Some(None),
        Some(JsonTree::Null) => Some(None),
        Some(tree) => match read(tree) {
            Some(x) => Some(Some(x)),
            None => None,
        },
    }
}

/// A member that may be left out, and then stands for `default`.
pub open spec fn defaulted<T>(
    members: Members,
    key: Seq<char>,
    read: spec_fn(JsonTree) -> Option<T>,
    default: T,
) -> Option<T> {
    match member(members, key) {
        None => Some(default),
        Some(tree) => read(tree),
    }
}

/// Every item read, or nothing where one of them cannot be.
pub open spec fn each<T>(items: Seq<JsonTree>, read: spec_fn(JsonTree) -> Option<T>) -> Option<
    Seq<T>,
> {
    if forall|i: int| 0 <= i < items.len() ==> (#[trigger] read(items[i])) is Some {
        Some(Seq::new(items.len(), |i: int| read(items[i]).unwrap()))
    } else {
        None
    }
}

/// Every member's value read under its key, or nothing where one of them
/// cannot be.
pub open spec fn each_member<T>(members: Members, read: spec_fn(JsonTree) -> Option<T>) -> Option<
    Seq<(Seq<char>, T)>,
> {
    if forall|i: int| 0 <= i < members.len() ==> (#[trigger] read(members[i].1)) is Some {
        Some(Seq::new(members.len(), |i: int| (members[i].0, read(members[i].1).unwrap())))
    } else {
        None
    }
}

/// An array, item by item.
pub open spec fn list_of<T>(tree: JsonTree, read: spec_fn(JsonTree) -> Option<T>) -> Option<
    Seq<T>,
> {
    match tree {
        JsonTree::Array(items) => each(items, read),
        _ => None,
    }
}

/// An object read as a mapping: no key twice, every value readable.
pub open spec fn dict_of<T>(tree: JsonTree, read: spec_fn(JsonTree) -> Option<T>) -> Option<
    Seq<(Seq<char>, T)>,
> {
    match tree {
        JsonTree::Object(members) => if distinct_keys(members) {
            each_member(members, read)
        } else {
            None
        },
        _ => None,
    }
}

pub open spec fn texts_of(tree: JsonTree) -> Option<Seq<Seq<char>>> {
    list_of(tree, |t: JsonTree| as_text(t))
}

pub open spec fn line_item_of(tree: JsonTree) -> Option<LineItemView> {
    match tree {
        JsonTree::Object(m) => {
            let id = required(m, "id"@, |t: JsonTree| as_text(t));
            let name = required(m, "name"@, |t: JsonTree| as_text(t));
            let amount = required(m, "amount"@, |t: JsonTree| as_number(t));
            let description = optional(m, "description"@, |t: JsonTree| as_text(t));
            if id is Some && name is Some && amount is Some && description is Some {
                Some(
                    LineItemView {
                        id: id.unwrap(),
                        name: name.unwrap(),
                        amount: amount.unwrap(),
                        description: description.unwrap(),
                    },
                )
            } else {
                None
            }
        },
        _ => None,
    }
}

pub open spec fn line_items_of(tree: JsonTree) -> Option<Seq<LineItemView>> {
    list_of(tree, |t: JsonTree| line_item_of(t))
}

pub open spec fn template_entry_of(tree: JsonTree) -> Option<TemplateEntryView> {
    match tree {
        JsonTree::Object(m) => {
            let amount = required(m, "amount"@, |t: JsonTree| as_number(t));
            let source = optional(m, "sourceAccount"@, |t: JsonTree| as_text(t));
            let target = optional(m, "targetAccount"@, |t: JsonTree| as_text(t));
            let items = defaulted(m, "lineItems"@, |t: JsonTree| line_items_of(t), Seq::empty());
            let note = optional(m, "note"@, |t: JsonTree| as_text(t));
            if amount is Some && source is Some && target is Some && items is Some && note is Some {
                Some(
                    TemplateEntryView {
                        amount: amount.unwrap(),
                        source_account: source.unwrap(),
                        target_account: target.unwrap(),
                        line_items: items.unwrap(),
                        note: note.unwrap(),
                    },
                )
            } else {
                None
            }
        },
        _ => None,
    }
}

pub open spec fn template_of(tree: JsonTree) -> Option<Seq<(Seq<char>, TemplateEntryView)>> {
    dict_of(tree, |t: JsonTree| template_entry_of(t))
}

pub open spec fn settings_of(tree: JsonTree) -> Option<BudgetSettingsView> {
    match tree {
        JsonTree::Object(m) => {
            let currency = required(m, "currency"@, |t: JsonTree| as_text(t));
            let accounts = required(m, "accounts"@, |t: JsonTree| texts_of(t));
            let income = required(m, "incomeCategories"@, |t: JsonTree| texts_of(t));
            let excluded = defaulted(
                m,
                "excludedCategories"@,
                |t: JsonTree| texts_of(t),
                Seq::empty(),
            );
            let start = required(m, "startDate"@, |t: JsonTree| as_text(t));
            let custom = defaulted(m, "customEntities"@, |t: JsonTree| texts_of(t), Seq::empty());
            if currency is Some && accounts is Some && income is Some && excluded is Some
                && start is Some && custom is Some {
                Some(
                    BudgetSettingsView {
                        currency: currency.unwrap(),
                        accounts: accounts.unwrap(),
                        income_categories: income.unwrap(),
                        excluded_categories: excluded.unwrap(),
                        start_date: start.unwrap(),
                        custom_entities: custom.unwrap(),
                    },
                )
            } else {
                None
            }
        },
        _ => None,
    }
}

pub open spec fn transaction_of(tree: JsonTree) -> Option<UnplannedTransactionView> {
    match tree {
        JsonTree::Object(m) => {
            let tx_id = required(m, "txId"@, |t: JsonTree| as_int(t));
            let name = required(m, "name"@, |t: JsonTree| as_text(t));
            let amount = required(m, "amount"@, |t: JsonTree| as_number(t));
            let date = required(m, "bookingDate"@, |t: JsonTree| as_text(t));
            let purpose = optional(m, "purpose"@, |t: JsonTree| as_text(t));
            if tx_id is Some && name is Some && amount is Some && date is Some && purpose is Some {
                Some(
                    UnplannedTransactionView {
                        tx_id: tx_id.unwrap(),
                        name: name.unwrap(),
                        amount: amount.unwrap(),
                        booking_date: date.unwrap(),
                        purpose: purpose.unwrap(),
                    },
                )
            } else {
                None
            }
        },
        _ => None,
    }
}

pub open spec fn transactions_of(tree: JsonTree) -> Option<Seq<UnplannedTransactionView>> {
    list_of(tree, |t: JsonTree| transaction_of(t))
}

/// The transactions of one entity key, by sub-key.
pub open spec fn transaction_groups_of(tree: JsonTree) -> Option<
    Seq<(Seq<char>, Seq<UnplannedTransactionView>)>,
> {
    dict_of(tree, |t: JsonTree| transactions_of(t))
}

pub open spec fn unplanned_of(tree: JsonTree) -> Option<
    Seq<(Seq<char>, Seq<(Seq<char>, Seq<UnplannedTransactionView>)>)>,
> {
    dict_of(tree, |t: JsonTree| transaction_groups_of(t))
}

/// The comments of one entity key, by sub-key.
pub open spec fn notes_of(tree: JsonTree) -> Option<Seq<(Seq<char>, Seq<char>)>> {
    dict_of(tree, |t: JsonTree| as_text(t))
}

pub open spec fn comments_of(tree: JsonTree) -> Option<
    Seq<(Seq<char>, Seq<(Seq<char>, Seq<char>)>)>,
> {
    dict_of(tree, |t: JsonTree| notes_of(t))
}

pub open spec fn override_of(tree: JsonTree) -> Option<ScenarioOverrideView> {
    match tree {
        JsonTree::Object(m) => {
            let amount = required(m, "amount"@, |t: JsonTree| as_number(t));
            let items = defaulted(m, "lineItems"@, |t: JsonTree| line_items_of(t), Seq::empty());
            if amount is Some && items is Some {
                Some(ScenarioOverrideView { amount: amount.unwrap(), line_items: items.unwrap() })
            } else {
                None
            }
        },
        _ => None,
    }
}

pub open spec fn overrides_of(tree: JsonTree) -> Option<Seq<(Seq<char>, ScenarioOverrideView)>> {
    dict_of(tree, |t: JsonTree| override_of(t))
}

pub open spec fn virtual_item_of(tree: JsonTree) -> Option<VirtualItemView> {
    match tree {
        JsonTree::Object(m) => {
            let id = required(m, "id"@, |t: JsonTree| as_text(t));
            let name = required(m, "name"@, |t: JsonTree| as_text(t));
            let amount = required(m, "amount"@, |t: JsonTree| as_number(t));
            let is_income = defaulted(m, "isIncome"@, |t: JsonTree| as_flag(t), false);
            if id is Some && name is Some && amount is Some && is_income is Some {
                Some(
                    VirtualItemView {
                        id: id.unwrap(),
                        name: name.unwrap(),
                        amount: amount.unwrap(),
                        is_income: is_income.unwrap(),
                    },
                )
            } else {
                None
            }
        },
        _ => None,
    }
}

pub open spec fn virtual_items_of(tree: JsonTree) -> Option<Seq<VirtualItemView>> {
    list_of(tree, |t: JsonTree| virtual_item_of(t))
}

pub open spec fn scenario_of(tree: JsonTree) -> Option<ScenarioView> {
    match tree {
        JsonTree::Object(m) => {
            let id = required(m, "id"@, |t: JsonTree| as_text(t));
            let name = required(m, "name"@, |t: JsonTree| as_text(t));
            let description = optional(m, "description"@, |t: JsonTree| as_text(t));
            let notes = optional(m, "notes"@, |t: JsonTree| as_text(t));
            let created = required(m, "createdAt"@, |t: JsonTree| as_text(t));
            let overrides = required(m, "overrides"@, |t: JsonTree| overrides_of(t));
            let items = defaulted(
                m,
                "virtualItems"@,
                |t: JsonTree| virtual_items_of(t),
                Seq::empty(),
            );
            if id is Some && name is Some && description is Some && notes is Some
                && created is Some && overrides is Some && items is Some {
                Some(
                    ScenarioView {
                        id: id.unwrap(),
                        name: name.unwrap(),
                        description: description.unwrap(),
                        notes: notes.unwrap(),
                        created_at: created.unwrap(),
                        overrides: overrides.unwrap(),
                        virtual_items: items.unwrap(),
                    },
                )
            } else {
                None
            }
        },
        _ => None,
    }
}

pub open spec fn scenarios_of(tree: JsonTree) -> Option<Seq<ScenarioView>> {
    list_of(tree, |t: JsonTree| scenario_of(t))
}

/// The document that a JSON value is read as: `None` where the value is no
/// object, where `name`, `version`, `settings` or `template` is missing, or
/// where any member that is there has the wrong shape. `comments`, `unplanned`
/// and `scenarios` may be left out and are then empty; members that the
/// document does not know are passed over.
pub open spec fn document_of(tree: JsonTree) -> Option<BudgetTemplateView> {
    match tree {
        JsonTree::Object(m) => {
            let name = required(m, "name"@, |t: JsonTree| as_text(t));
            let version = required(m, "version"@, |t: JsonTree| as_text(t));
            let settings = required(m, "settings"@, |t: JsonTree| settings_of(t));
            let template = required(m, "template"@, |t: JsonTree| template_of(t));
            let comments = defaulted(m, "comments"@, |t: JsonTree| comments_of(t), Seq::empty());
            let unplanned = defaulted(
                m,
                "unplanned"@,
                |t: JsonTree| unplanned_of(t),
                Seq::empty(),
            );
            let scenarios = defaulted(
                m,
                "scenarios"@,
                |t: JsonTree| scenarios_of(t),
                Seq::empty(),
            );
            if name is Some && version is Some && settings is Some && template is Some
                && comments is Some && unplanned is Some && scenarios is Some {
                Some(
                    BudgetTemplateView {
                        name: name.unwrap(),
                        version: version.unwrap(),
                        settings: settings.unwrap(),
                        template: template.unwrap(),
                        comments: comments.unwrap(),
                        unplanned: unplanned.unwrap(),
                        scenarios: scenarios.unwrap(),
                    },
                )
            } else {
                None
            }
        },
        _ => None,
    }
}

// ---------------------------------------------------------------- writing

pub open spec fn text_tree(text: Seq<char>) -> JsonTree {
    JsonTree::Str(text)
}

/// A text where there is one.
pub open spec fn some_text(text: Option<Seq<char>>) -> Option<JsonTree> {
    match text {
        Some(s) => Some(JsonTree::Str(s)),
        None => None,
    }
}

/// A text, or `null` where there is none.
pub open spec fn text_or_null(text: Option<Seq<char>>) -> JsonTree {
    match text {
        Some(s) => JsonTree::Str(s),
        None => JsonTree::Null,
    }
}

/// A value where the list under it is not empty.
pub open spec fn unless_empty<T>(list: Seq<T>, tree: JsonTree) -> Option<JsonTree> {
    if list.len() == 0 {
        None
    } else {
        Some(tree)
    }
}

pub open spec fn int_tree(i: i64) -> JsonTree {
    if i < 0 {
        JsonTree::Number(DecimalView::NegInt(i))
    } else {
        JsonTree::Number(DecimalView::PosInt(i as u64))
    }
}

pub open spec fn list_tree<T>(items: Seq<T>, write: spec_fn(T) -> JsonTree) -> JsonTree {
    JsonTree::Array(Seq::new(items.len(), |i: int| write(items[i])))
}

pub open spec fn dict_tree<T>(
    entries: Seq<(Seq<char>, T)>,
    write: spec_fn(T) -> JsonTree,
) -> JsonTree {
    JsonTree::Object(Seq::new(entries.len(), |i: int| (entries[i].0, write(entries[i].1))))
}

pub open spec fn texts_tree(texts: Seq<Seq<char>>) -> JsonTree {
    list_tree(texts, |s: Seq<char>| text_tree(s))
}

pub open spec fn line_item_tree(item: LineItemView) -> JsonTree {
    let m = put(Seq::empty(), "id"@, JsonTree::Str(item.id));
    let m = put(m, "name"@, JsonTree::Str(item.name));
    let m = put(m, "amount"@, JsonTree::Number(item.amount));
    let m = put_some(m, "description"@, some_text(item.description));
    JsonTree::Object(m)
}

pub open spec fn line_items_tree(items: Seq<LineItemView>) -> JsonTree {
    list_tree(items, |x: LineItemView| line_item_tree(x))
}

pub open spec fn template_entry_tree(entry: TemplateEntryView) -> JsonTree {
    let m = put(Seq::empty(), "amount"@, JsonTree::Number(entry.amount));
    let m = put_some(m, "sourceAccount"@, some_text(entry.source_account));
    let m = put_some(m, "targetAccount"@, some_text(entry.target_account));
    let m = put_some(
        m,
        "lineItems"@,
        unless_empty(entry.line_items, line_items_tree(entry.line_items)),
    );
    let m = put_some(m, "note"@, some_text(entry.note));
    JsonTree::Object(m)
}

pub open spec fn template_tree(template: Seq<(Seq<char>, TemplateEntryView)>) -> JsonTree {
    dict_tree(template, |x: TemplateEntryView| template_entry_tree(x))
}

pub open spec fn settings_tree(settings: BudgetSettingsView) -> JsonTree {
    let m = put(Seq::empty(), "currency"@, JsonTree::Str(settings.currency));
    let m = put(m, "accounts"@, texts_tree(settings.accounts));
    let m = put(m, "incomeCategories"@, texts_tree(settings.income_categories));
    let m = put(m, "excludedCategories"@, texts_tree(settings.excluded_categories));
    let m = put(m, "startDate"@, JsonTree::Str(settings.start_date));
    let m = put(m, "customEntities"@, texts_tree(settings.custom_entities));
    JsonTree::Object(m)
}

pub open spec fn transaction_tree(tx: UnplannedTransactionView) -> JsonTree {
    let m = put(Seq::empty(), "txId"@, int_tree(tx.tx_id));
    let m = put(m, "name"@, JsonTree::Str(tx.name));
    let m = put(m, "amount"@, JsonTree::Number(tx.amount));
    let m = put(m, "bookingDate"@, JsonTree::Str(tx.booking_date));
    let m = put(m, "purpose"@, text_or_null(tx.purpose));
    JsonTree::Object(m)
}

pub open spec fn transactions_tree(txs: Seq<UnplannedTransactionView>) -> JsonTree {
    list_tree(txs, |x: UnplannedTransactionView| transaction_tree(x))
}

pub open spec fn transaction_groups_tree(
    groups: Seq<(Seq<char>, Seq<UnplannedTransactionView>)>,
) -> JsonTree {
    dict_tree(groups, |x: Seq<UnplannedTransactionView>| transactions_tree(x))
}

pub open spec fn unplanned_tree(
    unplanned: Seq<(Seq<char>, Seq<(Seq<char>, Seq<UnplannedTransactionView>)>)>,
) -> JsonTree {
    dict_tree(
        unplanned,
        |x: Seq<(Seq<char>, Seq<UnplannedTransactionView>)>| transaction_groups_tree(x),
    )
}

pub open spec fn notes_tree(notes: Seq<(Seq<char>, Seq<char>)>) -> JsonTree {
    dict_tree(notes, |s: Seq<char>| text_tree(s))
}

pub open spec fn comments_tree(
    comments: Seq<(Seq<char>, Seq<(Seq<char>, Seq<char>)>)>,
) -> JsonTree {
    dict_tree(comments, |x: Seq<(Seq<char>, Seq<char>)>| notes_tree(x))
}

pub open spec fn override_tree(over: ScenarioOverrideView) -> JsonTree {
    let m = put(Seq::empty(), "amount"@, JsonTree::Number(over.amount));
    let m = put_some(
        m,
        "lineItems"@,
        unless_empty(over.line_items, line_items_tree(over.line_items)),
    );
    JsonTree::Object(m)
}

pub open spec fn overrides_tree(overrides: Seq<(Seq<char>, ScenarioOverrideView)>) -> JsonTree {
    dict_tree(overrides, |x: ScenarioOverrideView| override_tree(x))
}

pub open spec fn virtual_item_tree(item: VirtualItemView) -> JsonTree {
    let m = put(Seq::empty(), "id"@, JsonTree::Str(item.id));
    let m = put(m, "name"@, JsonTree::Str(item.name));
    let m = put(m, "amount"@, JsonTree::Number(item.amount));
    let m = put(m, "isIncome"@, JsonTree::Bool(item.is_income));
    JsonTree::Object(m)
}

pub open spec fn virtual_items_tree(items: Seq<VirtualItemView>) -> JsonTree {
    list_tree(items, |x: VirtualItemView| virtual_item_tree(x))
}

pub open spec fn scenario_tree(scenario: ScenarioView) -> JsonTree {
    let m = put(Seq::empty(), "id"@, JsonTree::Str(scenario.id));
    let m = put(m, "name"@, JsonTree::Str(scenario.name));
    let m = put_some(m, "description"@, some_text(scenario.description));
    let m = put_some(m, "notes"@, some_text(scenario.notes));
    let m = put(m, "createdAt"@, JsonTree::Str(scenario.created_at));
    let m = put(m, "overrides"@, overrides_tree(scenario.overrides));
    let m = put_some(
        m,
        "virtualItems"@,
        unless_empty(scenario.virtual_items, virtual_items_tree(scenario.virtual_items)),
    );
    JsonTree::Object(m)
}

pub open spec fn scenarios_tree(scenarios: Seq<ScenarioView>) -> JsonTree {
    list_tree(scenarios, |x: ScenarioView| scenario_tree(x))
}

/// The JSON value that a document is written as. Its members stand in a fixed
/// order; `comments`, `unplanned`, `scenarios` and the other optional parts
/// are left out where they are empty or absent.
pub open spec fn document_tree(doc: BudgetTemplateView) -> JsonTree {
    let m = put(Seq::empty(), "name"@, JsonTree::Str(doc.name));
    let m = put(m, "version"@, JsonTree::Str(doc.version));
    let m = put(m, "settings"@, settings_tree(doc.settings));
    let m = put(m, "template"@, template_tree(doc.template));
    let m = put_some(m, "comments"@, unless_empty(doc.comments, comments_tree(doc.comments)));
    let m = put_some(m, "unplanned"@, unless_empty(doc.unplanned, unplanned_tree(doc.unplanned)));
    let m = put_some(m, "scenarios"@, unless_empty(doc.scenarios, scenarios_tree(doc.scenarios)));
    JsonTree::Object(m)
}

} // verus!
