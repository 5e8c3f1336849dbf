//! Checking that a document's mappings are mappings.

use crate::model::{
    distinct_ids, distinct_inner_keys, distinct_keys, BudgetTemplate, Scenario, ScenarioOverride,
};
use crate::text::same_text;
use vstd::prelude::*;

verus! {

/// Whether no key stands twice among the entries of a mapping.
pub fn has_distinct_keys<T: DeepView>(entries: &Vec<(String, T)>) -> (distinct: bool)
    ensures
        distinct == distinct_keys(entries.deep_view()),
{
    let ghost view = entries.deep_view();
    let mut j: usize = 0;
    while j < entries.len()
        invariant
            j <= entries.len(),
            view == entries.deep_view(),
            forall|a: int, b: int|
                0 <= a < b < j ==> (#[trigger] view[a]).0 != (#[trigger] view[b]).0,
        decreases entries.len() - j,
    {
        let mut i: usize = 0;
        while i < j
            invariant
                i <= j < entries.len(),
                view == entries.deep_view(),
                forall|a: int| 0 <= a < i ==> (#[trigger] view[a]).0 != view[j as int].0,
            decreases j - i,
        {
            if same_text(entries[i].0.as_str(), entries[j].0.as_str()) {
                assert(view[i as int].0 == view[j as int].0);
                return false;
            }
            i += 1;
        }
        j += 1;
    }
    true
}

/// Whether every mapping nested in a mapping has distinct keys.
pub fn has_distinct_inner_keys<T: DeepView>(entries: &Vec<(String, Vec<(String, T)>)>) -> (distinct:
    bool)
    ensures
        distinct == distinct_inner_keys(entries.deep_view()),
{
    let ghost view = entries.deep_view();
    let mut i: usize = 0;
    while i < entries.len()
        invariant
            i <= entries.len(),
            view == entries.deep_view(),
            forall|k: int| 0 <= k < i ==> distinct_keys((#[trigger] view[k]).1),
        decreases entries.len() - i,
    {
        if !has_distinct_keys(&entries[i].1) {
            assert(!distinct_keys(view[i as int].1));
            return false;
        }
        i += 1;
    }
    true
}

impl Scenario {
    /// Whether no entity key is overridden twice.
    pub fn is_well_formed(&self) -> (wf: bool)
        ensures
            wf == self.deep_view().wf(),
    {
        has_distinct_keys::<ScenarioOverride>(&self.overrides)
    }
}

impl BudgetTemplate {
    /// Whether every scenario has an id of its own. The store does not ask
    /// for this: a caller that wants it asks here before it saves.
    pub fn has_distinct_scenario_ids(&self) -> (distinct: bool)
        ensures
            distinct == distinct_ids(self.deep_view().scenarios),
    {
        let ghost view = self.scenarios.deep_view();
        let mut j: usize = 0;
        while j < self.scenarios.len()
            invariant
                j <= self.scenarios.len(),
                view == self.scenarios.deep_view(),
                forall|a: int, b: int|
                    0 <= a < b < j ==> (#[trigger] view[a]).id != (#[trigger] view[b]).id,
            decreases self.scenarios.len() - j,
        {
            let mut i: usize = 0;
            while i < j
                invariant
                    i <= j < self.scenarios.len(),
                    view == self.scenarios.deep_view(),
                    forall|a: int| 0 <= a < i ==> (#[trigger] view[a]).id != view[j as int].id,
                decreases j - i,
            {
                if same_text(self.scenarios[i].id.as_str(), self.scenarios[j].id.as_str()) {
                    assert(view[i as int].id == view[j as int].id);
                    return false;
                }
                i += 1;
            }
            j += 1;
        }
        true
    }

    /// Whether the document is well-formed: none of its mappings holds a key
    /// twice.
    pub fn is_well_formed(&self) -> (wf: bool)
        ensures
            wf == self.deep_view().wf(),
    {
        if !has_distinct_keys(&self.template) || !has_distinct_keys(&self.comments)
            || !has_distinct_inner_keys(&self.comments) || !has_distinct_keys(&self.unplanned)
            || !has_distinct_inner_keys(&self.unplanned) {
            return false;
        }
        let ghost view = self.scenarios.deep_view();
        let mut i: usize = 0;
        while i < self.scenarios.len()
            invariant
                i <= self.scenarios.len(),
                view == self.scenarios.deep_view(),
                forall|k: int| 0 <= k < i ==> (#[trigger] view[k]).wf(),
            decreases self.scenarios.len() - i,
        {
            if !self.scenarios[i].is_well_formed() {
                assert(!self.deep_view().scenarios[i as int].wf());
                return false;
            }
            i += 1;
        }
        true
    }
}

} // verus!
