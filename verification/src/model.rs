//! The budget document: a base template, free-text annotations, and named
//! scenarios layered over the template without changing it.
//!
//! A mapping is kept as a list of `(key, value)` pairs in the order in which
//! it is written; a well-formed document has no key twice in one mapping.

use crate::json::{Decimal, DecimalView};
use vstd::prelude::*;

verus! {

/// One sub-position of a template entry. Its amount is detail: the amounts
/// of an entry's line items need not add up to the entry's own.
#[derive(Clone, Debug, PartialEq, Eq)]
pub struct LineItem {
    pub id: String,
    pub name: String,
    pub amount: Decimal,
    pub description: Option<String>,
}

pub ghost struct LineItemView {
    pub id: Seq<char>,
    pub name: Seq<char>,
    pub amount: DecimalView,
    pub description: Option<Seq<char>>,
}

impl DeepView for LineItem {
    type V = LineItemView;

    open spec fn deep_view(&self) -> LineItemView {
        LineItemView {
            id: self.id@,
            name: self.name@,
            amount: self.amount@,
            description: self.description.deep_view(),
        }
    }
}

/// What is planned for one entity key.
#[derive(Clone, Debug, PartialEq, Eq)]
pub struct TemplateEntry {
    pub amount: Decimal,
    pub source_account: Option<String>,
    pub target_account: Option<String>,
    pub line_items: Vec<LineItem>,
    pub note: Option<String>,
}

pub ghost struct TemplateEntryView {
    pub amount: DecimalView,
    pub source_account: Option<Seq<char>>,
    pub target_account: Option<Seq<char>>,
    pub line_items: Seq<LineItemView>,
    pub note: Option<Seq<char>>,
}

impl DeepView for TemplateEntry {
    type V = TemplateEntryView;

    open spec fn deep_view(&self) -> TemplateEntryView {
        TemplateEntryView {
            amount: self.amount@,
            source_account: self.source_account.deep_view(),
            target_account: self.target_account.deep_view(),
            line_items: self.line_items.deep_view(),
            note: self.note.deep_view(),
        }
    }
}

/// What a budget covers: its currency, accounts and categories.
#[derive(Clone, Debug, PartialEq, Eq)]
pub struct BudgetSettings {
    pub currency: String,
    pub accounts: Vec<String>,
    pub income_categories: Vec<String>,
    pub excluded_categories: Vec<String>,
    pub start_date: String,
    pub custom_entities: Vec<String>,
}

pub ghost struct BudgetSettingsView {
    pub currency: Seq<char>,
    pub accounts: Seq<Seq<char>>,
    pub income_categories: Seq<Seq<char>>,
    pub excluded_categories: Seq<Seq<char>>,
    pub start_date: Seq<char>,
    pub custom_entities: Seq<Seq<char>>,
}

impl DeepView for BudgetSettings {
    type V = BudgetSettingsView;

    open spec fn deep_view(&self) -> BudgetSettingsView {
        BudgetSettingsView {
            currency: self.currency@,
            accounts: self.accounts.deep_view(),
            income_categories: self.income_categories.deep_view(),
            excluded_categories: self.excluded_categories.deep_view(),
            start_date: self.start_date@,
            custom_entities: self.custom_entities.deep_view(),
        }
    }
}

/// A transaction seen in real data that no planned entry accounts for.
#[derive(Clone, Debug, PartialEq, Eq)]
pub struct UnplannedTransaction {
    pub tx_id: i64,
    pub name: String,
    pub amount: Decimal,
    pub booking_date: String,
    pub purpose: Option<String>,
}

pub ghost struct UnplannedTransactionView {
    pub tx_id: i64,
    pub name: Seq<char>,
    pub amount: DecimalView,
    pub booking_date: Seq<char>,
    pub purpose: Option<Seq<char>>,
}

impl DeepView for UnplannedTransaction {
    type V = UnplannedTransactionView;

    open spec fn deep_view(&self) -> UnplannedTransactionView {
        UnplannedTransactionView {
            tx_id: self.tx_id,
            name: self.name@,
            amount: self.amount@,
            booking_date: self.booking_date@,
            purpose: self.purpose.deep_view(),
        }
    }
}

/// A scenario's replacement for one entity key: another amount and, where the
/// list is not empty, other line items. The key need not exist in the template.
#[derive(Clone, Debug, PartialEq, Eq)]
pub struct ScenarioOverride {
    pub amount: Decimal,
    pub line_items: Vec<LineItem>,
}

pub ghost struct ScenarioOverrideView {
    pub amount: DecimalView,
    pub line_items: Seq<LineItemView>,
}

impl DeepView for ScenarioOverride {
    type V = ScenarioOverrideView;

    open spec fn deep_view(&self) -> ScenarioOverrideView {
        ScenarioOverrideView { amount: self.amount@, line_items: self.line_items.deep_view() }
    }
}

/// An income or expense line that exists only inside a scenario.
#[derive(Clone, Debug, PartialEq, Eq)]
pub struct VirtualItem {
    pub id: String,
    pub name: String,
    pub amount: Decimal,
    pub is_income: bool,
}

pub ghost struct VirtualItemView {
    pub id: Seq<char>,
    pub name: Seq<char>,
    pub amount: DecimalView,
    pub is_income: bool,
}

impl DeepView for VirtualItem {
    type V = VirtualItemView;

    open spec fn deep_view(&self) -> VirtualItemView {
        VirtualItemView {
            id: self.id@,
            name: self.name@,
            amount: self.amount@,
            is_income: self.is_income,
        }
    }
}

/// A named what-if overlay.
#[derive(Clone, Debug, PartialEq, Eq)]
pub struct Scenario {
    pub id: String,
    pub name: String,
    pub description: Option<String>,
    pub notes: Option<String>,
    pub created_at: String,
    pub overrides: Vec<(String, ScenarioOverride)>,
    pub virtual_items: Vec<VirtualItem>,
}

pub ghost struct ScenarioView {
    pub id: Seq<char>,
    pub name: Seq<char>,
    pub description: Option<Seq<char>>,
    pub notes: Option<Seq<char>>,
    pub created_at: Seq<char>,
    pub overrides: Seq<(Seq<char>, ScenarioOverrideView)>,
    pub virtual_items: Seq<VirtualItemView>,
}

impl DeepView for Scenario {
    type V = ScenarioView;

    open spec fn deep_view(&self) -> ScenarioView {
        ScenarioView {
            id: self.id@,
            name: self.name@,
            description: self.description.deep_view(),
            notes: self.notes.deep_view(),
            created_at: self.created_at@,
            overrides: self.overrides.deep_view(),
            virtual_items: self.virtual_items.deep_view(),
        }
    }
}

/// The root document of one named budget.
#[derive(Clone, Debug, PartialEq, Eq)]
pub struct BudgetTemplate {
    pub name: String,
    pub version: String,
    pub settings: BudgetSettings,
    pub template: Vec<(String, TemplateEntry)>,
    pub comments: Vec<(String, Notes)>,
    pub unplanned: Vec<(String, TransactionGroups)>,
    pub scenarios: Vec<Scenario>,
}

pub ghost struct BudgetTemplateView {
    pub name: Seq<char>,
    pub version: Seq<char>,
    pub settings: BudgetSettingsView,
    pub template: Seq<(Seq<char>, TemplateEntryView)>,
    pub comments: Seq<(Seq<char>, Seq<(Seq<char>, Seq<char>)>)>,
    pub unplanned: Seq<(Seq<char>, Seq<(Seq<char>, Seq<UnplannedTransactionView>)>)>,
    pub scenarios: Seq<ScenarioView>,
}

impl DeepView for BudgetTemplate {
    type V = BudgetTemplateView;

    open spec fn deep_view(&self) -> BudgetTemplateView {
        BudgetTemplateView {
            name: self.name@,
            version: self.version@,
            settings: self.settings.deep_view(),
            template: self.template.deep_view(),
            comments: self.comments.deep_view(),
            unplanned: self.unplanned.deep_view(),
            scenarios: self.scenarios.deep_view(),
        }
    }
}

/// The comments of one entity key: a text under each sub-key.
pub type Notes = Vec<(String, String)>;

/// The unplanned transactions of one entity key: a list under each sub-key.
pub type TransactionGroups = Vec<(String, Vec<UnplannedTransaction>)>;

/// No key occurs twice among the entries of a mapping.
pub open spec fn distinct_keys<T>(entries: Seq<(Seq<char>, T)>) -> bool {
    forall|i: int, j: int|
        0 <= i < j < entries.len() ==> (#[trigger] entries[i]).0 != (#[trigger] entries[j]).0
}

/// Every mapping nested in a mapping has distinct keys.
pub open spec fn distinct_inner_keys<T>(entries: Seq<(Seq<char>, Seq<(Seq<char>, T)>)>) -> bool {
    forall|i: int| 0 <= i < entries.len() ==> distinct_keys((#[trigger] entries[i]).1)
}

impl ScenarioView {
    /// No entity key is overridden twice.
    pub open spec fn wf(self) -> bool {
        distinct_keys(self.overrides)
    }
}

/// No two scenarios share an id.
pub open spec fn distinct_ids(scenarios: Seq<ScenarioView>) -> bool {
    forall|i: int, j: int|
        0 <= i < j < scenarios.len() ==> (#[trigger] scenarios[i]).id != (
        #[trigger] scenarios[j]).id
}

impl BudgetTemplateView {
    /// The document's mappings are mappings: none holds a key twice. Nothing
    /// is asked of the keys themselves: an override may name a key that the
    /// template does not have, and two scenarios may share an id.
    pub open spec fn wf(self) -> bool {
        &&& distinct_keys(self.template)
        &&& distinct_keys(self.comments)
        &&& distinct_inner_keys(self.comments)
        &&& distinct_keys(self.unplanned)
        &&& distinct_inner_keys(self.unplanned)
        &&& forall|i: int| 0 <= i < self.scenarios.len() ==> (#[trigger] self.scenarios[i]).wf()
    }
}

} // verus!
