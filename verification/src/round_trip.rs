//! What is written can be read back: for every part of a document, reading
//! the JSON value that it is written as gives the part again.

use crate::json::JsonTree;
use crate::model::{
    distinct_inner_keys, distinct_keys, BudgetSettingsView, BudgetTemplateView, LineItemView,
    ScenarioOverrideView, ScenarioView, TemplateEntryView, UnplannedTransactionView,
    VirtualItemView,
};
use crate::schema::{
    as_flag, as_int, as_number, as_text, comments_of, comments_tree, defaulted, dict_of,
    dict_tree, document_of, document_tree, each, each_member, int_tree, line_item_of,
    line_item_tree, line_items_of, line_items_tree, list_of, list_tree, member, notes_of,
    notes_tree, optional, override_of, override_tree, overrides_of, overrides_tree, put,
    put_some, required, scenario_of, scenario_tree, scenarios_of, scenarios_tree, settings_of,
    settings_tree, some_text, template_entry_of, template_entry_tree, template_of,
    template_tree, text_or_null, text_tree, texts_of, texts_tree, transaction_groups_of,
    transaction_groups_tree, transaction_of, transaction_tree, transactions_of,
    transactions_tree, unless_empty, unplanned_of, unplanned_tree, virtual_item_of,
    virtual_item_tree, virtual_items_of, virtual_items_tree, Members,
};
use vstd::prelude::*;

verus! {

/// Looking a key up after one more member was written: an earlier member of
/// that name wins, else the new one counts if it has the name.
pub broadcast proof fn lemma_member_push(
    members: Members,
    key: Seq<char>,
    value: JsonTree,
    wanted: Seq<char>,
)
    ensures
        #[trigger] member(members.push((key, value)), wanted) == (match member(members, wanted) {
            Some(tree) => Some(tree),
            None => if key == wanted {
                Some(value)
            } else {
                None
            },
        }),
{
    assert(members.push((key, value)).drop_last() =~= members);
}

/// Where no member has the key, looking it up finds nothing.
pub proof fn lemma_member_none(members: Members, key: Seq<char>)
    requires
        forall|k: int| 0 <= k < members.len() ==> (#[trigger] members[k]).0 != key,
    ensures
        member(members, key) is None,
    decreases members.len(),
{
    if members.len() > 0 {
        lemma_member_none(members.drop_last(), key);
    }
}

/// Looking a key up finds the first member that has it.
pub proof fn lemma_member_first(members: Members, key: Seq<char>, at: int)
    requires
        0 <= at < members.len(),
        members[at].0 == key,
        forall|k: int| 0 <= k < at ==> (#[trigger] members[k]).0 != key,
    ensures
        member(members, key) == Some(members[at].1),
    decreases members.len(),
{
    if at == members.len() - 1 {
        lemma_member_none(members.drop_last(), key);
    } else {
        lemma_member_first(members.drop_last(), key, at);
    }
}

/// Reading item by item: where every item can be read, the list is what was
/// read.
pub proof fn lemma_each_some<T>(
    items: Seq<JsonTree>,
    read: spec_fn(JsonTree) -> Option<T>,
    out: Seq<T>,
)
    requires
        out.len() == items.len(),
        forall|i: int| 0 <= i < items.len() ==> read(#[trigger] items[i]) == Some(out[i]),
    ensures
        each(items, read) == Some(out),
{
    assert forall|i: int| 0 <= i < items.len() implies (#[trigger] read(items[i])) is Some by {
        assert(read(items[i]) == Some(out[i]));
    }
    assert(each(items, read).unwrap() =~= out);
}

/// Reading item by item: one item that cannot be read spoils the list.
pub proof fn lemma_each_none<T>(items: Seq<JsonTree>, read: spec_fn(JsonTree) -> Option<T>, at: int)
    requires
        0 <= at < items.len(),
        read(items[at]) is None,
    ensures
        each(items, read) is None,
{
}

/// Reading member by member: where every value can be read, the mapping is
/// what was read, under the same keys.
pub proof fn lemma_each_member_some<T>(
    members: Members,
    read: spec_fn(JsonTree) -> Option<T>,
    out: Seq<(Seq<char>, T)>,
)
    requires
        out.len() == members.len(),
        forall|i: int|
            0 <= i < members.len() ==> out[i].0 == (#[trigger] members[i]).0 && read(members[i].1)
                == Some(out[i].1),
    ensures
        each_member(members, read) == Some(out),
{
    assert forall|i: int| 0 <= i < members.len() implies (#[trigger] read(members[i].1))
        is Some by {
        assert(read(members[i].1) == Some(out[i].1));
    }
    assert(each_member(members, read).unwrap() =~= out);
}

/// Reading member by member: one value that cannot be read spoils the
/// mapping.
pub proof fn lemma_each_member_none<T>(
    members: Members,
    read: spec_fn(JsonTree) -> Option<T>,
    at: int,
)
    requires
        0 <= at < members.len(),
        read(members[at].1) is None,
    ensures
        each_member(members, read) is None,
{
}

/// A list whose items can each be read back can be read back as a whole.
pub proof fn lemma_list_round_trip<T>(
    items: Seq<T>,
    write: spec_fn(T) -> JsonTree,
    read: spec_fn(JsonTree) -> Option<T>,
)
    requires
        forall|i: int| 0 <= i < items.len() ==> read(write(#[trigger] items[i])) == Some(items[i]),
    ensures
        list_of(list_tree(items, write), read) == Some(items),
{
    let trees = Seq::new(items.len(), |i: int| write(items[i]));
    assert forall|i: int| 0 <= i < trees.len() implies (#[trigger] read(trees[i])) is Some by {
        assert(read(write(items[i])) == Some(items[i]));
    }
    let back = Seq::new(trees.len(), |i: int| read(trees[i]).unwrap());
    assert forall|i: int| 0 <= i < items.len() implies back[i] == items[i] by {
        assert(read(write(items[i])) == Some(items[i]));
    }
    assert(back =~= items);
}

/// A mapping with distinct keys whose values can each be read back can be
/// read back as a whole.
pub proof fn lemma_dict_round_trip<T>(
    entries: Seq<(Seq<char>, T)>,
    write: spec_fn(T) -> JsonTree,
    read: spec_fn(JsonTree) -> Option<T>,
)
    requires
        distinct_keys(entries),
        forall|i: int|
            0 <= i < entries.len() ==> read(write((#[trigger] entries[i]).1)) == Some(entries[i].1),
    ensures
        dict_of(dict_tree(entries, write), read) == Some(entries),
{
    let members = Seq::new(entries.len(), |i: int| (entries[i].0, write(entries[i].1)));
    assert(distinct_keys(members)) by {
        assert forall|i: int, j: int| 0 <= i < j < members.len() implies (#[trigger] members[i]).0
            != (#[trigger] members[j]).0 by {
            assert(entries[i].0 != entries[j].0);
        }
    }
    assert forall|i: int| 0 <= i < members.len() implies (#[trigger] read(members[i].1))
        is Some by {
        assert(read(write(entries[i].1)) == Some(entries[i].1));
    }
    let back = Seq::new(members.len(), |i: int| (members[i].0, read(members[i].1).unwrap()));
    assert forall|i: int| 0 <= i < entries.len() implies back[i] == entries[i] by {
        assert(read(write(entries[i].1)) == Some(entries[i].1));
    }
    assert(back =~= entries);
}

pub proof fn lemma_texts_round_trip(texts: Seq<Seq<char>>)
    ensures
        texts_of(texts_tree(texts)) == Some(texts),
{
    lemma_list_round_trip(texts, |s: Seq<char>| text_tree(s), |t: JsonTree| as_text(t));
}

pub proof fn lemma_line_item_round_trip(item: LineItemView)
    ensures
        line_item_of(line_item_tree(item)) == Some(item),
{
    broadcast use lemma_member_push;

    reveal_strlit("id");
    reveal_strlit("name");
    reveal_strlit("amount");
    reveal_strlit("description");
    assert("id"@.len() == 2 && "name"@.len() == 4 && "amount"@.len() == 6 && "description"@.len()
        == 11);
}

pub proof fn lemma_line_items_round_trip(items: Seq<LineItemView>)
    ensures
        line_items_of(line_items_tree(items)) == Some(items),
{
    assert forall|i: int| 0 <= i < items.len() implies line_item_of(
        line_item_tree(#[trigger] items[i]),
    ) == Some(items[i]) by {
        lemma_line_item_round_trip(items[i]);
    }
    lemma_list_round_trip(
        items,
        |x: LineItemView| line_item_tree(x),
        |t: JsonTree| line_item_of(t),
    );
}

pub proof fn lemma_template_entry_round_trip(entry: TemplateEntryView)
    ensures
        template_entry_of(template_entry_tree(entry)) == Some(entry),
{
    broadcast use lemma_member_push;

    reveal_strlit("amount");
    reveal_strlit("sourceAccount");
    reveal_strlit("targetAccount");
    reveal_strlit("lineItems");
    reveal_strlit("note");
    assert("amount"@.len() == 6 && "sourceAccount"@.len() == 13 && "targetAccount"@.len() == 13
        && "lineItems"@.len() == 9 && "note"@.len() == 4);
    assert("sourceAccount"@[0] == 's' && "targetAccount"@[0] == 't');
    lemma_line_items_round_trip(entry.line_items);
    if entry.line_items.len() == 0 {
        assert(entry.line_items =~= Seq::empty());
    }
}

pub proof fn lemma_template_round_trip(template: Seq<(Seq<char>, TemplateEntryView)>)
    requires
        distinct_keys(template),
    ensures
        template_of(template_tree(template)) == Some(template),
{
    assert forall|i: int| 0 <= i < template.len() implies template_entry_of(
        template_entry_tree((#[trigger] template[i]).1),
    ) == Some(template[i].1) by {
        lemma_template_entry_round_trip(template[i].1);
    }
    lemma_dict_round_trip(
        template,
        |x: TemplateEntryView| template_entry_tree(x),
        |t: JsonTree| template_entry_of(t),
    );
}

pub proof fn lemma_settings_round_trip(settings: BudgetSettingsView)
    ensures
        settings_of(settings_tree(settings)) == Some(settings),
{
    broadcast use lemma_member_push;

    reveal_strlit("currency");
    reveal_strlit("accounts");
    reveal_strlit("incomeCategories");
    reveal_strlit("excludedCategories");
    reveal_strlit("startDate");
    reveal_strlit("customEntities");
    assert("currency"@.len() == 8 && "accounts"@.len() == 8 && "incomeCategories"@.len() == 16
        && "excludedCategories"@.len() == 18 && "startDate"@.len() == 9 && "customEntities"@.len()
        == 14);
    assert("currency"@[0] == 'c' && "accounts"@[0] == 'a');
    lemma_texts_round_trip(settings.accounts);
    lemma_texts_round_trip(settings.income_categories);
    lemma_texts_round_trip(settings.excluded_categories);
    lemma_texts_round_trip(settings.custom_entities);
}

pub proof fn lemma_transaction_round_trip(tx: UnplannedTransactionView)
    ensures
        transaction_of(transaction_tree(tx)) == Some(tx),
{
    broadcast use lemma_member_push;

    reveal_strlit("txId");
    reveal_strlit("name");
    reveal_strlit("amount");
    reveal_strlit("bookingDate");
    reveal_strlit("purpose");
    assert("txId"@.len() == 4 && "name"@.len() == 4 && "amount"@.len() == 6 && "bookingDate"@.len()
        == 11 && "purpose"@.len() == 7);
    assert("txId"@[0] == 't' && "name"@[0] == 'n');
    assert(as_int(int_tree(tx.tx_id)) == Some(tx.tx_id));
}

pub proof fn lemma_transactions_round_trip(txs: Seq<UnplannedTransactionView>)
    ensures
        transactions_of(transactions_tree(txs)) == Some(txs),
{
    assert forall|i: int| 0 <= i < txs.len() implies transaction_of(
        transaction_tree(#[trigger] txs[i]),
    ) == Some(txs[i]) by {
        lemma_transaction_round_trip(txs[i]);
    }
    lemma_list_round_trip(
        txs,
        |x: UnplannedTransactionView| transaction_tree(x),
        |t: JsonTree| transaction_of(t),
    );
}

pub proof fn lemma_transaction_groups_round_trip(
    groups: Seq<(Seq<char>, Seq<UnplannedTransactionView>)>,
)
    requires
        distinct_keys(groups),
    ensures
        transaction_groups_of(transaction_groups_tree(groups)) == Some(groups),
{
    assert forall|i: int| 0 <= i < groups.len() implies transactions_of(
        transactions_tree((#[trigger] groups[i]).1),
    ) == Some(groups[i].1) by {
        lemma_transactions_round_trip(groups[i].1);
    }
    lemma_dict_round_trip(
        groups,
        |x: Seq<UnplannedTransactionView>| transactions_tree(x),
        |t: JsonTree| transactions_of(t),
    );
}

pub proof fn lemma_unplanned_round_trip(
    unplanned: Seq<(Seq<char>, Seq<(Seq<char>, Seq<UnplannedTransactionView>)>)>,
)
    requires
        distinct_keys(unplanned),
        distinct_inner_keys(unplanned),
    ensures
        unplanned_of(unplanned_tree(unplanned)) == Some(unplanned),
{
    assert forall|i: int| 0 <= i < unplanned.len() implies transaction_groups_of(
        transaction_groups_tree((#[trigger] unplanned[i]).1),
    ) == Some(unplanned[i].1) by {
        lemma_transaction_groups_round_trip(unplanned[i].1);
    }
    lemma_dict_round_trip(
        unplanned,
        |x: Seq<(Seq<char>, Seq<UnplannedTransactionView>)>| transaction_groups_tree(x),
        |t: JsonTree| transaction_groups_of(t),
    );
}

pub proof fn lemma_notes_round_trip(notes: Seq<(Seq<char>, Seq<char>)>)
    requires
        distinct_keys(notes),
    ensures
        notes_of(notes_tree(notes)) == Some(notes),
{
    lemma_dict_round_trip(notes, |s: Seq<char>| text_tree(s), |t: JsonTree| as_text(t));
}

pub proof fn lemma_comments_round_trip(comments: Seq<(Seq<char>, Seq<(Seq<char>, Seq<char>)>)>)
    requires
        distinct_keys(comments),
        distinct_inner_keys(comments),
    ensures
        comments_of(comments_tree(comments)) == Some(comments),
{
    assert forall|i: int| 0 <= i < comments.len() implies notes_of(
        notes_tree((#[trigger] comments[i]).1),
    ) == Some(comments[i].1) by {
        lemma_notes_round_trip(comments[i].1);
    }
    lemma_dict_round_trip(
        comments,
        |x: Seq<(Seq<char>, Seq<char>)>| notes_tree(x),
        |t: JsonTree| notes_of(t),
    );
}

pub proof fn lemma_override_round_trip(over: ScenarioOverrideView)
    ensures
        override_of(override_tree(over)) == Some(over),
{
    broadcast use lemma_member_push;

    reveal_strlit("amount");
    reveal_strlit("lineItems");
    assert("amount"@.len() == 6 && "lineItems"@.len() == 9);
    lemma_line_items_round_trip(over.line_items);
    if over.line_items.len() == 0 {
        assert(over.line_items =~= Seq::empty());
    }
}

pub proof fn lemma_overrides_round_trip(overrides: Seq<(Seq<char>, ScenarioOverrideView)>)
    requires
        distinct_keys(overrides),
    ensures
        overrides_of(overrides_tree(overrides)) == Some(overrides),
{
    assert forall|i: int| 0 <= i < overrides.len() implies override_of(
        override_tree((#[trigger] overrides[i]).1),
    ) == Some(overrides[i].1) by {
        lemma_override_round_trip(overrides[i].1);
    }
    lemma_dict_round_trip(
        overrides,
        |x: ScenarioOverrideView| override_tree(x),
        |t: JsonTree| override_of(t),
    );
}

pub proof fn lemma_virtual_item_round_trip(item: VirtualItemView)
    ensures
        virtual_item_of(virtual_item_tree(item)) == Some(item),
{
    broadcast use lemma_member_push;

    reveal_strlit("id");
    reveal_strlit("name");
    reveal_strlit("amount");
    reveal_strlit("isIncome");
    assert("id"@.len() == 2 && "name"@.len() == 4 && "amount"@.len() == 6 && "isIncome"@.len()
        == 8);
}

pub proof fn lemma_virtual_items_round_trip(items: Seq<VirtualItemView>)
    ensures
        virtual_items_of(virtual_items_tree(items)) == Some(items),
{
    assert forall|i: int| 0 <= i < items.len() implies virtual_item_of(
        virtual_item_tree(#[trigger] items[i]),
    ) == Some(items[i]) by {
        lemma_virtual_item_round_trip(items[i]);
    }
    lemma_list_round_trip(
        items,
        |x: VirtualItemView| virtual_item_tree(x),
        |t: JsonTree| virtual_item_of(t),
    );
}

pub proof fn lemma_scenario_round_trip(scenario: ScenarioView)
    requires
        scenario.wf(),
    ensures
        scenario_of(scenario_tree(scenario)) == Some(scenario),
{
    broadcast use lemma_member_push;

    reveal_strlit("id");
    reveal_strlit("name");
    reveal_strlit("description");
    reveal_strlit("notes");
    reveal_strlit("createdAt");
    reveal_strlit("overrides");
    reveal_strlit("virtualItems");
    assert("id"@.len() == 2 && "name"@.len() == 4 && "description"@.len() == 11 && "notes"@.len()
        == 5 && "createdAt"@.len() == 9 && "overrides"@.len() == 9 && "virtualItems"@.len() == 12);
    assert("createdAt"@[0] == 'c' && "overrides"@[0] == 'o');
    lemma_overrides_round_trip(scenario.overrides);
    lemma_virtual_items_round_trip(scenario.virtual_items);
    if scenario.virtual_items.len() == 0 {
        assert(scenario.virtual_items =~= Seq::empty());
    }
}

pub proof fn lemma_scenarios_round_trip(scenarios: Seq<ScenarioView>)
    requires
        forall|i: int| 0 <= i < scenarios.len() ==> (#[trigger] scenarios[i]).wf(),
    ensures
        scenarios_of(scenarios_tree(scenarios)) == Some(scenarios),
{
    assert forall|i: int| 0 <= i < scenarios.len() implies scenario_of(
        scenario_tree(#[trigger] scenarios[i]),
    ) == Some(scenarios[i]) by {
        lemma_scenario_round_trip(scenarios[i]);
    }
    lemma_list_round_trip(
        scenarios,
        |x: ScenarioView| scenario_tree(x),
        |t: JsonTree| scenario_of(t),
    );
}

/// Reading what a well-formed document is written as gives the document
/// again, part for part: a collection that is empty is left out of the value,
/// and what is left out is read as empty. Nothing is asked of the keys but
/// that none stands twice in one mapping, so an override of a key that the
/// template lacks comes back as it was, and the template with it.
pub proof fn lemma_document_round_trip(doc: BudgetTemplateView)
    requires
        doc.wf(),
    ensures
        document_of(document_tree(doc)) == Some(doc),
{
    broadcast use lemma_member_push;

    reveal_strlit("name");
    reveal_strlit("version");
    reveal_strlit("settings");
    reveal_strlit("template");
    reveal_strlit("comments");
    reveal_strlit("unplanned");
    reveal_strlit("scenarios");
    assert("name"@.len() == 4 && "version"@.len() == 7 && "settings"@.len() == 8);
    assert("template"@.len() == 8 && "comments"@.len() == 8);
    assert("unplanned"@.len() == 9 && "scenarios"@.len() == 9);
    assert("settings"@[0] == 's' && "template"@[0] == 't' && "comments"@[0] == 'c');
    assert("unplanned"@[0] == 'u' && "scenarios"@[0] == 's');
    lemma_settings_round_trip(doc.settings);
    lemma_template_round_trip(doc.template);
    lemma_comments_round_trip(doc.comments);
    lemma_unplanned_round_trip(doc.unplanned);
    lemma_scenarios_round_trip(doc.scenarios);
    if doc.comments.len() == 0 {
        assert(doc.comments =~= Seq::empty());
    }
    if doc.unplanned.len() == 0 {
        assert(doc.unplanned =~= Seq::empty());
    }
    if doc.scenarios.len() == 0 {
        assert(doc.scenarios =~= Seq::empty());
    }
}

/// A mapping that was read has no key twice.
pub proof fn lemma_read_dict_distinct<T>(tree: JsonTree, read: spec_fn(JsonTree) -> Option<T>)
    requires
        dict_of(tree, read) is Some,
    ensures
        distinct_keys(dict_of(tree, read).unwrap()),
{
    let members = tree->Object_0;
    let out = dict_of(tree, read).unwrap();
    assert forall|i: int, j: int| 0 <= i < j < out.len() implies (#[trigger] out[i]).0 != (
    #[trigger] out[j]).0 by {
        assert(members[i].0 != members[j].0);
    }
}

/// A document that was read is well-formed: the reader admits no mapping
/// with a key twice.
pub proof fn lemma_read_document_wf(tree: JsonTree)
    requires
        document_of(tree) is Some,
    ensures
        document_of(tree).unwrap().wf(),
{
    let doc = document_of(tree).unwrap();
    let m = tree->Object_0;
    lemma_read_dict_distinct(member(m, "template"@).unwrap(), |t: JsonTree| template_entry_of(t));
    if member(m, "comments"@) is Some {
        let comments = member(m, "comments"@).unwrap();
        lemma_read_dict_distinct(comments, |t: JsonTree| notes_of(t));
        assert forall|i: int| 0 <= i < doc.comments.len() implies distinct_keys(
            (#[trigger] doc.comments[i]).1,
        ) by {
            let read = |t: JsonTree| notes_of(t);
            assert(read(comments->Object_0[i].1) is Some);
            lemma_read_dict_distinct(comments->Object_0[i].1, |t: JsonTree| as_text(t));
        }
    }
    if member(m, "unplanned"@) is Some {
        let unplanned = member(m, "unplanned"@).unwrap();
        lemma_read_dict_distinct(unplanned, |t: JsonTree| transaction_groups_of(t));
        assert forall|i: int| 0 <= i < doc.unplanned.len() implies distinct_keys(
            (#[trigger] doc.unplanned[i]).1,
        ) by {
            let read = |t: JsonTree| transaction_groups_of(t);
            assert(read(unplanned->Object_0[i].1) is Some);
            lemma_read_dict_distinct(unplanned->Object_0[i].1, |t: JsonTree| transactions_of(t));
        }
    }
    if member(m, "scenarios"@) is Some {
        let scenarios = member(m, "scenarios"@).unwrap();
        assert forall|i: int| 0 <= i < doc.scenarios.len() implies (
        #[trigger] doc.scenarios[i]).wf() by {
            let s = scenarios->Array_0[i];
            assert(scenario_of(s) == Some(doc.scenarios[i]));
            lemma_read_dict_distinct(
                member(s->Object_0, "overrides"@).unwrap(),
                |t: JsonTree| override_of(t),
            );
        }
    }
}

/// A scenario laid over a document stays apart from it. Written and read
/// back with one more scenario, the document has the template it had, and the
/// scenario has the overrides it had, also those of keys that the template
/// lacks: nothing of an overlay is merged into the base.
pub proof fn lemma_overlay_kept_apart(doc: BudgetTemplateView, scenario: ScenarioView)
    requires
        doc.wf(),
        scenario.wf(),
    ensures
        ({
            let layered = BudgetTemplateView { scenarios: doc.scenarios.push(scenario), ..doc };
            let read = document_of(document_tree(layered));
            &&& read == Some(layered)
            &&& read.unwrap().template == doc.template
            &&& read.unwrap().scenarios.last().overrides == scenario.overrides
            &&& read.unwrap().scenarios.drop_last() == doc.scenarios
        }),
{
    let layered = BudgetTemplateView { scenarios: doc.scenarios.push(scenario), ..doc };
    assert(layered.wf());
    lemma_document_round_trip(layered);
    assert(layered.scenarios.drop_last() =~= doc.scenarios);
}

} // verus!
