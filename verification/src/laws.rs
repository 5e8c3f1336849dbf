//! What the store's operations come to on a file system that works.
//!
//! The model is small: files are texts under paths, every operation takes
//! effect at once, and there are no directories. An operation of the store is
//! run against it step by step, so a run that stops after some operations
//! shows what an interruption at that point leaves behind.

use crate::codec::{encoded, lemma_encoded_reads_back};
use crate::machine::{
    begin_delete, begin_load, begin_save, next, FileOpView, FileReplyView, OutcomeView,
    PendingView, StepView,
};
use crate::model::{BudgetTemplateView, ScenarioView};
use crate::store::{
    budget_names, dir_of, extension, is_budget_file, name_is_safe, path_of, stem, stems, temp_of,
    StoreErrorView,
};
use crate::text::{lemma_lex_total_ordering, lex_order};
use vstd::prelude::*;

verus! {

/// The files of the model: the text under each path that has one.
pub type Files = Map<Seq<char>, Seq<char>>;

/// What a file operation that succeeds does to the files.
pub open spec fn effect(op: FileOpView, files: Files) -> Files {
    match op {
        FileOpView::Create { path } => files.insert(path, Seq::empty()),
        FileOpView::Write { path, data } => if files.contains_key(path) {
            files.insert(path, files[path] + data)
        } else {
            files
        },
        FileOpView::Rename { from, to } => if files.contains_key(from) {
            files.remove(from).insert(to, files[from])
        } else {
            files
        },
        FileOpView::Remove { path } => files.remove(path),
        _ => files,
    }
}

/// What a working file system answers. The model has no directories, so it
/// does not answer a listing.
pub open spec fn answer(op: FileOpView, files: Files) -> Option<FileReplyView> {
    match op {
        FileOpView::Read { path } => if files.contains_key(path) {
            Some(FileReplyView::Text(files[path]))
        } else {
            Some(FileReplyView::Missing)
        },
        FileOpView::Exists { path } => Some(FileReplyView::Found(files.contains_key(path))),
        FileOpView::List { dir } => None,
        _ => Some(FileReplyView::Done),
    }
}

/// How far a run came: the result, where the operation has ended, and the
/// files as they then are.
pub ghost struct Ran {
    pub result: Option<Result<OutcomeView, StoreErrorView>>,
    pub files: Files,
}

/// Runs an operation from a step on, for at most `ops` file operations.
pub open spec fn run(step: StepView, files: Files, ops: nat) -> Ran
    decreases ops,
{
    match step {
        StepView::Finished(result) => Ran { result: Some(result), files },
        StepView::Ask(op, pending) => match answer(op, files) {
            Some(reply) if ops > 0 => run(
                next(pending, reply),
                effect(op, files),
                (ops - 1) as nat,
            ),
            _ => Ran { result: None, files },
        },
    }
}

/// The temporary file of a budget is never the file of a budget, its own or
/// another's, and two names never share a file.
pub proof fn lemma_paths_apart(root: Seq<char>, a: Seq<char>, b: Seq<char>)
    ensures
        temp_of(root, a) != path_of(root, b),
        a != b ==> path_of(root, a) != path_of(root, b),
{
    reveal_strlit("/budgets/");
    reveal_strlit(".json");
    reveal_strlit(".tmp");
    let head = root + "/budgets/"@;
    let pa = path_of(root, a);
    let pb = path_of(root, b);
    let ta = temp_of(root, a);
    assert(".json"@.len() == 5 && ".tmp"@.len() == 4);
    assert(ta.last() == 'p' && pb.last() == 'n') by {
        assert(ta[ta.len() - 1] == ".tmp"@[3]);
        assert(pb[pb.len() - 1] == ".json"@[4]);
    }
    if a != b && pa == pb {
        assert(a =~= pa.subrange(head.len() as int, pa.len() - 5));
        assert(b =~= pb.subrange(head.len() as int, pb.len() - 5));
    }
}

/// An answer `Failed` ends every operation: nothing more is asked.
pub proof fn lemma_failure_is_final(pending: PendingView, cause: Seq<char>)
    ensures
        next(pending, FileReplyView::Failed(cause)) matches StepView::Finished(Err(_)),
{
}

/// A save is all or nothing. However far it came, the budget's file is
/// either what it was before, there or not there, or it holds the whole new
/// text, and then the save has ended well. A save of a document that is
/// written as text, under a safe name, takes five file operations: stopped
/// after fewer it has not ended, and after the fifth, the rename, it has.
pub proof fn lemma_save_is_atomic(root: Seq<char>, doc: BudgetTemplateView, files: Files, ops: nat)
    ensures
        ({
            let path = path_of(root, doc.name);
            let ran = run(begin_save(root, doc), files, ops);
            let saved = Some(Ok::<OutcomeView, StoreErrorView>(OutcomeView::Saved));
            &&& ran.result == saved ==> encoded(doc) is Some && ran.files.contains_key(path)
                && ran.files[path] == encoded(doc).unwrap()
            &&& ran.result != saved ==> ran.files.contains_key(path) == files.contains_key(path)
                && (files.contains_key(path) ==> ran.files[path] == files[path])
            &&& name_is_safe(doc.name) && encoded(doc) is Some ==> (ran.result == saved <==> ops
                >= 5) && (ops < 5 ==> ran.result is None)
        }),
{
    reveal_with_fuel(run, 7);
    lemma_paths_apart(root, doc.name, doc.name);
    if encoded(doc) is Some {
        let text = encoded(doc).unwrap();
        assert(Seq::<char>::empty() + text =~= text);
    }
}

/// A save changes the budget's file and its temporary file, and no other.
pub proof fn lemma_save_leaves_others(
    root: Seq<char>,
    doc: BudgetTemplateView,
    files: Files,
    ops: nat,
    other: Seq<char>,
)
    requires
        other != path_of(root, doc.name),
        other != temp_of(root, doc.name),
    ensures
        ({
            let ran = run(begin_save(root, doc), files, ops);
            &&& ran.files.contains_key(other) == files.contains_key(other)
            &&& files.contains_key(other) ==> ran.files[other] == files[other]
        }),
{
    reveal_with_fuel(run, 7);
}

/// What was saved is what a load reads: after a save that ran to its end,
/// a load of the same name ends with the document that was saved, part for
/// part, and changes no file.
pub proof fn lemma_load_after_save(root: Seq<char>, doc: BudgetTemplateView, files: Files)
    requires
        name_is_safe(doc.name),
        encoded(doc) is Some,
    ensures
        ({
            let saved = run(begin_save(root, doc), files, 5);
            let ran = run(begin_load(root, doc.name), saved.files, 2);
            &&& ran.result == Some(Ok::<OutcomeView, StoreErrorView>(OutcomeView::Loaded(doc)))
            &&& ran.files == saved.files
        }),
{
    reveal_with_fuel(run, 7);
    lemma_save_is_atomic(root, doc, files, 5);
    lemma_encoded_reads_back(doc);
}

/// A scenario laid over a stored budget is stored apart from it. Save a
/// document, load it, add a scenario, save and load again: the template is the
/// one that was saved first, and the scenario's overrides are those that were
/// added, also where they name keys that the template lacks.
pub proof fn lemma_overlay_survives_the_store(
    root: Seq<char>,
    doc: BudgetTemplateView,
    scenario: ScenarioView,
    files: Files,
)
    requires
        name_is_safe(doc.name),
        encoded(doc) is Some,
        encoded(BudgetTemplateView { scenarios: doc.scenarios.push(scenario), ..doc }) is Some,
    ensures
        ({
            let layered = BudgetTemplateView { scenarios: doc.scenarios.push(scenario), ..doc };
            let first = run(begin_save(root, doc), files, 5);
            let loaded = run(begin_load(root, doc.name), first.files, 2);
            let second = run(begin_save(root, layered), loaded.files, 5);
            let reloaded = run(begin_load(root, doc.name), second.files, 2);
            &&& loaded.result == Some(Ok::<OutcomeView, StoreErrorView>(OutcomeView::Loaded(doc)))
            &&& reloaded.result == Some(
                Ok::<OutcomeView, StoreErrorView>(OutcomeView::Loaded(layered)),
            )
            &&& layered.template == doc.template
            &&& layered.scenarios.last().overrides == scenario.overrides
        }),
{
    let layered = BudgetTemplateView { scenarios: doc.scenarios.push(scenario), ..doc };
    lemma_load_after_save(root, doc, files);
    let first = run(begin_save(root, doc), files, 5);
    let loaded = run(begin_load(root, doc.name), first.files, 2);
    lemma_load_after_save(root, layered, loaded.files);
}

/// Deleting is idempotent: a delete ends well whether or not the budget is
/// stored, leaves no file of that name, and a second delete ends well too and
/// changes nothing.
pub proof fn lemma_delete_twice(root: Seq<char>, name: Seq<char>, files: Files)
    requires
        name_is_safe(name),
    ensures
        ({
            let once = run(begin_delete(root, name), files, 3);
            let twice = run(begin_delete(root, name), once.files, 3);
            &&& once.result == Some(Ok::<OutcomeView, StoreErrorView>(OutcomeView::Deleted))
            &&& once.files == files.remove(path_of(root, name))
            &&& twice.result == Some(Ok::<OutcomeView, StoreErrorView>(OutcomeView::Deleted))
            &&& twice.files == once.files
        }),
{
    reveal_with_fuel(run, 5);
    let path = path_of(root, name);
    if !files.contains_key(path) {
        assert(files.remove(path) =~= files);
    }
    assert(files.remove(path).remove(path) =~= files.remove(path));
}

/// A budget that was deleted is not found.
pub proof fn lemma_load_after_delete(root: Seq<char>, name: Seq<char>, files: Files)
    requires
        name_is_safe(name),
    ensures
        ({
            let deleted = run(begin_delete(root, name), files, 3);
            run(begin_load(root, name), deleted.files, 2).result == Some(
                Err::<OutcomeView, StoreErrorView>(StoreErrorView::NotFound(path_of(root, name))),
            )
        }),
{
    reveal_with_fuel(run, 5);
    lemma_delete_twice(root, name, files);
}

/// An unsafe name is refused before any file is asked for, by a load, a save
/// and a delete alike.
pub proof fn lemma_unsafe_name_touches_nothing(
    root: Seq<char>,
    doc: BudgetTemplateView,
    name: Seq<char>,
)
    ensures
        !name_is_safe(name) ==> begin_load(root, name) == StepView::Finished(
            Err(StoreErrorView::Name(name)),
        ) && begin_delete(root, name) == StepView::Finished(Err(StoreErrorView::Name(name))),
        !name_is_safe(doc.name) ==> begin_save(root, doc) == StepView::Finished(
            Err(StoreErrorView::Name(doc.name)),
        ),
{
}

/// How often a budget name shows among the budget names of a listing: as
/// often as its file name shows in the listing.
proof fn lemma_stems_count(files: Seq<Seq<char>>, name: Seq<char>)
    ensures
        stems(files).to_multiset().count(name) == (if name.len() > 0 {
            files.to_multiset().count(name + extension())
        } else {
            0
        }),
    decreases files.len(),
{
    broadcast use vstd::seq_lib::group_to_multiset_ensures;

    if files.len() == 0 {
        assert(stems(files).to_multiset().count(name) == 0);
        assert(files.to_multiset().count(name + extension()) == 0);
    } else {
        let front = files.drop_last();
        let last = files.last();
        lemma_stems_count(front, name);
        assert(files =~= front.push(last));
        vstd::seq_lib::to_multiset_build(front, last);
        let file = name + extension();
        if is_budget_file(last) {
            vstd::seq_lib::to_multiset_build(stems(front), stem(last));
            if stem(last) == name {
                assert(last =~= file);
            }
            if last == file {
                assert(stem(last) =~= name);
            }
        } else {
            if name.len() > 0 && last == file {
                assert(file.subrange(file.len() - 5, file.len() as int) =~= extension());
            }
        }
    }
}

/// A name comes back from its file name: the file of a budget with a name
/// that is not empty is a budget file, and its stem is the name.
pub proof fn lemma_file_name_round_trip(root: Seq<char>, name: Seq<char>)
    requires
        name.len() > 0,
    ensures
        is_budget_file(name + extension()),
        stem(name + extension()) == name,
        path_of(root, name) == dir_of(root) + seq!['/'] + (name + extension()),
{
    reveal_strlit("/budgets/");
    reveal_strlit("/budgets");
    reveal_strlit(".json");
    let file = name + extension();
    assert(file.subrange(file.len() - 5, file.len() as int) =~= extension());
    assert(stem(file) =~= name);
    assert("/budgets/"@ =~= "/budgets"@ + seq!['/']);
    assert(".json"@ =~= extension());
    assert(path_of(root, name) =~= dir_of(root) + seq!['/'] + file);
}

/// A safe name cannot leave the budgets directory: its file is one path
/// component directly under that directory, with no separator in it, and is
/// neither `.` nor `..`.
pub proof fn lemma_safe_name_stays_inside(root: Seq<char>, name: Seq<char>)
    requires
        name_is_safe(name),
    ensures
        ({
            let file = name + extension();
            &&& path_of(root, name) == dir_of(root) + seq!['/'] + file
            &&& !file.contains('/')
            &&& !file.contains('\\')
            &&& file.len() >= 5
        }),
{
    reveal_strlit("/budgets/");
    reveal_strlit("/budgets");
    reveal_strlit(".json");
    let file = name + extension();
    assert("/budgets/"@ =~= "/budgets"@ + seq!['/']);
    assert(".json"@ =~= extension());
    assert(path_of(root, name) =~= dir_of(root) + seq!['/'] + file);
    assert forall|i: int| 0 <= i < file.len() implies file[i] != '/' && file[i] != '\\' by {
        if i < name.len() {
            assert(name[i] == file[i]);
            assert(name.contains(name[i]));
        } else {
            assert(file[i] == extension()[i - name.len()]);
        }
    }
}

/// A listing shows a budget exactly where it names the budget's file: what
/// it shows has a file there, and every budget file there is shown.
pub proof fn lemma_listed_iff_file(files: Seq<Seq<char>>, name: Seq<char>)
    ensures
        budget_names(files).contains(name) <==> name.len() > 0 && files.contains(
            name + extension(),
        ),
{
    broadcast use vstd::seq_lib::group_to_multiset_ensures;

    lemma_stems_count(files, name);
    lemma_lex_total_ordering();
    stems(files).lemma_sort_by_ensures(lex_order());
    assert(budget_names(files).to_multiset().count(name) == stems(files).to_multiset().count(name));
}

/// A listing is in ascending order.
pub proof fn lemma_listing_is_sorted(files: Seq<Seq<char>>)
    ensures
        vstd::relations::sorted_by(budget_names(files), lex_order()),
{
    lemma_lex_total_ordering();
    stems(files).lemma_sort_by_ensures(lex_order());
}

/// A listing shows the same budgets in the same order, in whatever order the
/// file system names its entries.
pub proof fn lemma_listing_order_is_irrelevant(a: Seq<Seq<char>>, b: Seq<Seq<char>>)
    requires
        a.to_multiset() == b.to_multiset(),
    ensures
        budget_names(a) == budget_names(b),
{
    assert(stems(a).to_multiset() =~= stems(b).to_multiset()) by {
        assert forall|name: Seq<char>|
            stems(a).to_multiset().count(name) == stems(b).to_multiset().count(name) by {
            lemma_stems_count(a, name);
            lemma_stems_count(b, name);
        }
    }
    lemma_lex_total_ordering();
    stems(a).lemma_sort_by_ensures(lex_order());
    stems(b).lemma_sort_by_ensures(lex_order());
    vstd::seq_lib::lemma_sorted_unique(budget_names(a), budget_names(b), lex_order());
}

} // verus!
