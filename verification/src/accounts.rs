//! Which transactions a budget looks at: those of its accounts.

use crate::text::same_text;
use vstd::prelude::*;

verus! {

/// A transaction counts where no account was chosen, or where its account is
/// among the chosen ones.
pub open spec fn is_selected(chosen: Seq<Seq<char>>, account: Seq<char>) -> bool {
    chosen.len() == 0 || chosen.contains(account)
}

/// Whether the transactions of an account count for a choice of accounts.
pub fn account_selected(chosen: &Vec<String>, account: &str) -> (selected: bool)
    ensures
        selected == is_selected(chosen.deep_view(), account@),
{
    if chosen.len() == 0 {
        return true;
    }
    let ghost views = chosen.deep_view();
    let mut i: usize = 0;
    while i < chosen.len()
        invariant
            i <= chosen.len(),
            views == chosen.deep_view(),
            forall|k: int| 0 <= k < i ==> views[k] != account@,
        decreases chosen.len() - i,
    {
        if same_text(chosen[i].as_str(), account) {
            assert(views[i as int] == account@);
            return true;
        }
        i += 1;
    }
    false
}

} // verus!
