//! Where budgets live: which names are safe, which file holds a budget, and
//! which budgets a directory listing shows.

use crate::codec::EncodeError;
use crate::decode::DecodeError;
use crate::text::{
    chars_of, ends_with, has_char, has_char_pair, has_pair, lemma_lex_connected,
    lemma_lex_total_ordering, lemma_lex_transitive, lex_le, lex_order, text_le,
};
use vstd::prelude::*;
use vstd::relations::sorted_by;
use vstd::string::StringExecFns;

verus! {

/// A store of budgets under one storage root, which its owner chooses.
#[derive(Clone, Debug, PartialEq, Eq)]
pub struct Store {
    pub root: String,
}

/// The file operation that failed.
#[derive(Clone, Copy, Debug, PartialEq, Eq, Structural)]
pub enum IoStep {
    MakeDir,
    Read,
    Create,
    Write,
    Sync,
    Rename,
    Remove,
    List,
}

/// Why an operation of the store failed. Each is final: the store tries
/// nothing twice.
#[derive(Clone, Debug, PartialEq, Eq)]
pub enum StoreError {
    /// The name holds a path separator or `..`; the name is attached.
    Name(String),
    /// No budget of that name is stored; the path looked at is attached.
    NotFound(String),
    /// The stored text is no budget document.
    Decode(DecodeError),
    /// The document could not be written as text.
    Encode(EncodeError),
    /// A file operation failed; the path and the cause are attached.
    Io { step: IoStep, path: String, cause: String },
    /// The host answered with something that the operation asked cannot give.
    Protocol,
}

/// What a [`StoreError`] says, without the complaints of the parser and the
/// printer, which are for people to read.
pub ghost enum StoreErrorView {
    Name(Seq<char>),
    NotFound(Seq<char>),
    Syntax,
    Shape,
    DuplicateKey,
    Printer,
    Unreadable,
    Io { step: IoStep, path: Seq<char>, cause: Seq<char> },
    Protocol,
}

impl View for StoreError {
    type V = StoreErrorView;

    open spec fn view(&self) -> StoreErrorView {
        match self {
            StoreError::Name(name) => StoreErrorView::Name(name@),
            StoreError::NotFound(path) => StoreErrorView::NotFound(path@),
            StoreError::Decode(DecodeError::Syntax(_)) => StoreErrorView::Syntax,
            StoreError::Decode(DecodeError::Shape) => StoreErrorView::Shape,
            StoreError::Encode(EncodeError::DuplicateKey) => StoreErrorView::DuplicateKey,
            StoreError::Encode(EncodeError::Printer(_)) => StoreErrorView::Printer,
            StoreError::Encode(EncodeError::Unreadable) => StoreErrorView::Unreadable,
            StoreError::Io { step, path, cause } => StoreErrorView::Io {
                step: *step,
                path: path@,
                cause: cause@,
            },
            StoreError::Protocol => StoreErrorView::Protocol,
        }
    }
}

/// A name is safe where it holds no slash, no backslash, and no two dots in
/// a row: the file it names then lies directly in the budgets directory.
pub open spec fn name_is_safe(name: Seq<char>) -> bool {
    !name.contains('/') && !name.contains('\\') && !has_pair(name, '.', '.')
}

/// The directory that holds the budgets of a storage root.
pub open spec fn dir_of(root: Seq<char>) -> Seq<char> {
    root + "/budgets"@
}

/// The file that holds the budget of a name.
pub open spec fn path_of(root: Seq<char>, name: Seq<char>) -> Seq<char> {
    root + "/budgets/"@ + name + ".json"@
}

/// The file that a budget is written to before it takes its place.
pub open spec fn temp_of(root: Seq<char>, name: Seq<char>) -> Seq<char> {
    path_of(root, name) + ".tmp"@
}

/// Whether a name is safe to make a path of.
pub fn name_is_valid(name: &str) -> (valid: bool)
    ensures
        valid == name_is_safe(name@),
{
    !has_char(name, '/') && !has_char(name, '\\') && !has_char_pair(name, '.', '.')
}

/// The directory that holds the budgets.
pub fn budgets_dir(store: &Store) -> (dir: String)
    ensures
        dir@ == dir_of(store.root@),
{
    let mut dir = store.root.clone();
    dir.append("/budgets");
    dir
}

/// The path of the budget called `name`: `<root>/budgets/<name>.json`. An
/// unsafe name is refused, whatever is stored.
pub fn budget_path(store: &Store, name: &str) -> (r: Result<String, StoreError>)
    ensures
        name_is_safe(name@) ==> (r matches Ok(path) && path@ == path_of(store.root@, name@)),
        !name_is_safe(name@) ==> (r matches Err(e) && e@ == StoreErrorView::Name(name@)),
{
    if !name_is_valid(name) {
        return Err(StoreError::Name(name.to_owned()));
    }
    let mut path = store.root.clone();
    path.append("/budgets/");
    path.append(name);
    path.append(".json");
    Ok(path)
}

/// The path that a budget is written to before it takes its place:
/// `<root>/budgets/<name>.json.tmp`.
pub fn temp_path(store: &Store, name: &str) -> (r: Result<String, StoreError>)
    ensures
        name_is_safe(name@) ==> (r matches Ok(path) && path@ == temp_of(store.root@, name@)),
        !name_is_safe(name@) ==> (r matches Err(e) && e@ == StoreErrorView::Name(name@)),
{
    match budget_path(store, name) {
        Ok(path) => {
            let mut path = path;
            path.append(".tmp");
            Ok(path)
        },
        Err(e) => Err(e),
    }
}

/// The extension of a budget file, dot included.
pub open spec fn extension() -> Seq<char> {
    seq!['.', 'j', 's', 'o', 'n']
}

/// A file name shows a budget where it ends in `.json` and has a name before
/// that.
pub open spec fn is_budget_file(file: Seq<char>) -> bool {
    file.len() > 5 && ends_with(file, extension())
}

/// A budget file's name without its extension.
pub open spec fn stem(file: Seq<char>) -> Seq<char> {
    file.subrange(0, file.len() - 5)
}

/// The budget names among file names, in the order of the file names.
pub open spec fn stems(files: Seq<Seq<char>>) -> Seq<Seq<char>>
    decreases files.len(),
{
    if files.len() == 0 {
        Seq::empty()
    } else if is_budget_file(files.last()) {
        stems(files.drop_last()).push(stem(files.last()))
    } else {
        stems(files.drop_last())
    }
}

/// The budgets that a listing shows: the names of the budget files, sorted
/// as strings are, whatever the order of the listing.
pub open spec fn budget_names(files: Seq<Seq<char>>) -> Seq<Seq<char>> {
    stems(files).sort_by(lex_order())
}

/// The budget that a file name shows, if it shows one.
pub fn budget_name_of(file: &str) -> (name: Option<String>)
    ensures
        name is Some <==> is_budget_file(file@),
        name matches Some(n) ==> n@ == stem(file@),
{
    let chars = chars_of(file);
    let n = chars.len();
    if n > 5 && chars[n - 5] == '.' && chars[n - 4] == 'j' && chars[n - 3] == 's' && chars[n - 2]
        == 'o' && chars[n - 1] == 'n' {
        proof {
            assert(file@.subrange(n - 5, n as int) =~= extension());
        }
        Some(file.substring_char(0, n - 5).to_owned())
    } else {
        proof {
            if n > 5 {
                let tail = file@.subrange(n - 5, n as int);
                assert(tail[0] == file@[n - 5] && tail[1] == file@[n - 4] && tail[2] == file@[n
                    - 3] && tail[3] == file@[n - 2] && tail[4] == file@[n - 1]);
            }
        }
        None
    }
}

/// Puts a name into a sorted list, behind the names that do not come after
/// it.
fn insert_sorted(sorted: &mut Vec<String>, name: String)
    requires
        sorted_by(old(sorted).deep_view(), lex_order()),
    ensures
        sorted_by(final(sorted).deep_view(), lex_order()),
        final(sorted).deep_view().to_multiset() == old(sorted).deep_view().to_multiset().insert(
            name@,
        ),
{
    let ghost before = sorted.deep_view();
    let mut at: usize = 0;
    while at < sorted.len() && text_le(sorted[at].as_str(), name.as_str())
        invariant
            at <= sorted.len(),
            sorted.deep_view() == before,
            forall|k: int| 0 <= k < at ==> lex_le(#[trigger] before[k], name@),
        decreases sorted.len() - at,
    {
        at += 1;
    }
    sorted.insert(at, name);
    proof {
        let after = sorted.deep_view();
        assert(after =~= before.insert(at as int, name@));
        vstd::seq_lib::to_multiset_insert(before, at as int, name@);
        let le = lex_order();
        assert forall|i: int, j: int| 0 <= i < j < after.len() implies #[trigger] le(
            after[i],
            after[j],
        ) by {
            if j < at {
                assert(le(before[i], before[j]));
            } else if j == at {
                assert(lex_le(before[i], name@));
            } else if i == at {
                // the scan stopped at a name that comes after the new one
                lemma_lex_connected(before[at as int], name@);
                if j - 1 > at {
                    assert(le(before[at as int], before[j - 1]));
                    lemma_lex_transitive(name@, before[at as int], before[j - 1]);
                }
            } else if i < at {
                assert(le(before[i], before[j - 1]));
            } else {
                assert(le(before[i - 1], before[j - 1]));
            }
        }
    }
}

/// The budgets that a directory listing shows: of the entries that are budget
/// files, the names, in ascending order. The order of the listing does not
/// matter, and entries of other kinds (a leftover temporary file among them)
/// are passed over.
pub fn names_of(files: &Vec<String>) -> (names: Vec<String>)
    ensures
        names.deep_view() == budget_names(files.deep_view()),
{
    let ghost all = files.deep_view();
    let mut names: Vec<String> = Vec::new();
    assert(names.deep_view() =~= Seq::<Seq<char>>::empty());
    let mut i: usize = 0;
    while i < files.len()
        invariant
            i <= files.len(),
            all == files.deep_view(),
            sorted_by(names.deep_view(), lex_order()),
            names.deep_view().to_multiset() == stems(all.take(i as int)).to_multiset(),
        decreases files.len() - i,
    {
        proof {
            assert(all.take(i + 1).drop_last() =~= all.take(i as int));
            assert(all.take(i + 1).last() == files[i as int]@);
        }
        match budget_name_of(files[i].as_str()) {
            Some(name) => {
                proof {
                    vstd::seq_lib::to_multiset_build(stems(all.take(i as int)), name@);
                }
                insert_sorted(&mut names, name);
            },
            None => {},
        }
        i += 1;
    }
    proof {
        assert(all.take(files.len() as int) =~= all);
        lemma_lex_total_ordering();
        stems(all).lemma_sort_by_ensures(lex_order());
        vstd::seq_lib::lemma_sorted_unique(names.deep_view(), budget_names(all), lex_order());
    }
    names
}

} // verus!
