//! The store's operations as steps. The store touches no file itself: it
//! asks its host for one file operation at a time and decides, from the
//! answer, what to ask next or how the operation ends.
//!
//! A host runs an operation like this: call [`load_budget`], [`save_budget`],
//! [`list_budgets`] or [`delete_budget`]; while the step is [`Step::Ask`],
//! perform the file operation and hand the answer to [`resume`]; the step
//! [`Step::Finished`] holds the result.

use crate::codec::{decode, decoded, encode, encoding, Decoded, Encoded};
use crate::decode::DecodeError;
use crate::model::{BudgetTemplate, BudgetTemplateView};
use crate::store::{
    budget_names, budget_path, budgets_dir, dir_of, name_is_safe, names_of, path_of, temp_of,
    temp_path, IoStep, Store, StoreError, StoreErrorView,
};
use vstd::prelude::*;

verus! {

/// One operation on the file system, for the host to perform.
#[derive(Clone, Debug, PartialEq, Eq)]
pub enum FileOp {
    /// Create the directory and its parents, where they are missing.
    MakeDir { dir: String },
    /// Read the whole file as text.
    Read { path: String },
    /// Create the file, or empty it where it exists.
    Create { path: String },
    /// Write the text to the freshly created file.
    Write { path: String, data: String },
    /// Force what was written to the file onto the storage medium.
    Sync { path: String },
    /// Rename one file onto another, replacing it in one step.
    Rename { from: String, to: String },
    /// Tell whether the file exists.
    Exists { path: String },
    /// Remove the file.
    Remove { path: String },
    /// Name the entries of the directory.
    List { dir: String },
}

pub ghost enum FileOpView {
    MakeDir { dir: Seq<char> },
    Read { path: Seq<char> },
    Create { path: Seq<char> },
    Write { path: Seq<char>, data: Seq<char> },
    Sync { path: Seq<char> },
    Rename { from: Seq<char>, to: Seq<char> },
    Exists { path: Seq<char> },
    Remove { path: Seq<char> },
    List { dir: Seq<char> },
}

impl View for FileOp {
    type V = FileOpView;

    open spec fn view(&self) -> FileOpView {
        match self {
            FileOp::MakeDir { dir } => FileOpView::MakeDir { dir: dir@ },
            FileOp::Read { path } => FileOpView::Read { path: path@ },
            FileOp::Create { path } => FileOpView::Create { path: path@ },
            FileOp::Write { path, data } => FileOpView::Write { path: path@, data: data@ },
            FileOp::Sync { path } => FileOpView::Sync { path: path@ },
            FileOp::Rename { from, to } => FileOpView::Rename { from: from@, to: to@ },
            FileOp::Exists { path } => FileOpView::Exists { path: path@ },
            FileOp::Remove { path } => FileOpView::Remove { path: path@ },
            FileOp::List { dir } => FileOpView::List { dir: dir@ },
        }
    }
}

/// The host's answer to a file operation.
#[derive(Clone, Debug, PartialEq, Eq)]
pub enum FileReply {
    /// The operation was performed; there is nothing to report.
    Done,
    /// The text of the file that was read.
    Text(String),
    /// Whether the file exists.
    Found(bool),
    /// The file names of the directory's entries, in any order.
    Names(Vec<String>),
    /// There is no file to read.
    Missing,
    /// The operation failed, for this cause.
    Failed(String),
}

pub ghost enum FileReplyView {
    Done,
    Text(Seq<char>),
    Found(bool),
    Names(Seq<Seq<char>>),
    Missing,
    Failed(Seq<char>),
}

impl View for FileReply {
    type V = FileReplyView;

    open spec fn view(&self) -> FileReplyView {
        match self {
            FileReply::Done => FileReplyView::Done,
            FileReply::Text(text) => FileReplyView::Text(text@),
            FileReply::Found(found) => FileReplyView::Found(*found),
            FileReply::Names(names) => FileReplyView::Names(names.deep_view()),
            FileReply::Missing => FileReplyView::Missing,
            FileReply::Failed(cause) => FileReplyView::Failed(cause@),
        }
    }
}

/// Where an operation stands while the host performs what was asked.
#[derive(Clone, Debug, PartialEq, Eq)]
pub enum Pending {
    LoadDir { dir: String, path: String },
    LoadRead { path: String },
    SaveDir { dir: String, path: String, tmp: String, data: String },
    SaveCreate { path: String, tmp: String, data: String },
    SaveWrite { path: String, tmp: String },
    SaveSync { path: String, tmp: String },
    SaveRename { path: String },
    ListDir { dir: String },
    ListNames { dir: String },
    DeleteDir { dir: String, path: String },
    DeleteProbe { path: String },
    DeleteRemove { path: String },
}

pub ghost enum PendingView {
    LoadDir { dir: Seq<char>, path: Seq<char> },
    LoadRead { path: Seq<char> },
    SaveDir { dir: Seq<char>, path: Seq<char>, tmp: Seq<char>, data: Seq<char> },
    SaveCreate { path: Seq<char>, tmp: Seq<char>, data: Seq<char> },
    SaveWrite { path: Seq<char>, tmp: Seq<char> },
    SaveSync { path: Seq<char>, tmp: Seq<char> },
    SaveRename { path: Seq<char> },
    ListDir { dir: Seq<char> },
    ListNames { dir: Seq<char> },
    DeleteDir { dir: Seq<char>, path: Seq<char> },
    DeleteProbe { path: Seq<char> },
    DeleteRemove { path: Seq<char> },
}

impl View for Pending {
    type V = PendingView;

    open spec fn view(&self) -> PendingView {
        match self {
            Pending::LoadDir { dir, path } => PendingView::LoadDir { dir: dir@, path: path@ },
            Pending::LoadRead { path } => PendingView::LoadRead { path: path@ },
            Pending::SaveDir { dir, path, tmp, data } => PendingView::SaveDir {
                dir: dir@,
                path: path@,
                tmp: tmp@,
                data: data@,
            },
            Pending::SaveCreate { path, tmp, data } => PendingView::SaveCreate {
                path: path@,
                tmp: tmp@,
                data: data@,
            },
            Pending::SaveWrite { path, tmp } => PendingView::SaveWrite { path: path@, tmp: tmp@ },
            Pending::SaveSync { path, tmp } => PendingView::SaveSync { path: path@, tmp: tmp@ },
            Pending::SaveRename { path } => PendingView::SaveRename { path: path@ },
            Pending::ListDir { dir } => PendingView::ListDir { dir: dir@ },
            Pending::ListNames { dir } => PendingView::ListNames { dir: dir@ },
            Pending::DeleteDir { dir, path } => PendingView::DeleteDir { dir: dir@, path: path@ },
            Pending::DeleteProbe { path } => PendingView::DeleteProbe { path: path@ },
            Pending::DeleteRemove { path } => PendingView::DeleteRemove { path: path@ },
        }
    }
}

/// What an operation that succeeded gives back.
#[derive(Clone, Debug, PartialEq, Eq)]
pub enum Outcome {
    Loaded(BudgetTemplate),
    Saved,
    Listed(Vec<String>),
    Deleted,
}

pub ghost enum OutcomeView {
    Loaded(BudgetTemplateView),
    Saved,
    Listed(Seq<Seq<char>>),
    Deleted,
}

impl View for Outcome {
    type V = OutcomeView;

    open spec fn view(&self) -> OutcomeView {
        match self {
            Outcome::Loaded(doc) => OutcomeView::Loaded(doc.deep_view()),
            Outcome::Saved => OutcomeView::Saved,
            Outcome::Listed(names) => OutcomeView::Listed(names.deep_view()),
            Outcome::Deleted => OutcomeView::Deleted,
        }
    }
}

/// One step of an operation: a file operation to perform, or the end.
#[derive(Debug, PartialEq, Eq)]
pub enum Step {
    Ask(FileOp, Pending),
    Finished(Result<Outcome, StoreError>),
}

pub ghost enum StepView {
    Ask(FileOpView, PendingView),
    Finished(Result<OutcomeView, StoreErrorView>),
}

impl View for Step {
    type V = StepView;

    open spec fn view(&self) -> StepView {
        match self {
            Step::Ask(op, pending) => StepView::Ask(op@, pending@),
            Step::Finished(Ok(outcome)) => StepView::Finished(Ok(outcome@)),
            Step::Finished(Err(error)) => StepView::Finished(Err(error@)),
        }
    }
}

/// The end of an operation on a file operation that failed.
pub open spec fn failed(step: IoStep, path: Seq<char>, cause: Seq<char>) -> StepView {
    StepView::Finished(Err(StoreErrorView::Io { step, path, cause }))
}

/// How a load begins: an unsafe name ends it at once; else the budgets
/// directory is made sure of.
pub open spec fn begin_load(root: Seq<char>, name: Seq<char>) -> StepView {
    if name_is_safe(name) {
        StepView::Ask(
            FileOpView::MakeDir { dir: dir_of(root) },
            PendingView::LoadDir { dir: dir_of(root), path: path_of(root, name) },
        )
    } else {
        StepView::Finished(Err(StoreErrorView::Name(name)))
    }
}

/// How a save begins: an unsafe name ends it at once, and so does a document
/// that is not written as text, before any file is asked for; else the
/// budgets directory is made sure of.
pub open spec fn begin_save(root: Seq<char>, doc: BudgetTemplateView) -> StepView {
    if !name_is_safe(doc.name) {
        StepView::Finished(Err(StoreErrorView::Name(doc.name)))
    } else {
        match encoding(doc) {
            Encoded::DuplicateKey => StepView::Finished(Err(StoreErrorView::DuplicateKey)),
            Encoded::Refused => StepView::Finished(Err(StoreErrorView::Printer)),
            Encoded::Unreadable => StepView::Finished(Err(StoreErrorView::Unreadable)),
            Encoded::Text(data) => StepView::Ask(
                FileOpView::MakeDir { dir: dir_of(root) },
                PendingView::SaveDir {
                    dir: dir_of(root),
                    path: path_of(root, doc.name),
                    tmp: temp_of(root, doc.name),
                    data,
                },
            ),
        }
    }
}

/// How a listing begins.
pub open spec fn begin_list(root: Seq<char>) -> StepView {
    StepView::Ask(
        FileOpView::MakeDir { dir: dir_of(root) },
        PendingView::ListDir { dir: dir_of(root) },
    )
}

/// How a delete begins: an unsafe name ends it at once.
pub open spec fn begin_delete(root: Seq<char>, name: Seq<char>) -> StepView {
    if name_is_safe(name) {
        StepView::Ask(
            FileOpView::MakeDir { dir: dir_of(root) },
            PendingView::DeleteDir { dir: dir_of(root), path: path_of(root, name) },
        )
    } else {
        StepView::Finished(Err(StoreErrorView::Name(name)))
    }
}

/// How a load ends on the text that was read.
pub open spec fn loaded(text: Seq<char>) -> StepView {
    match decoded(text) {
        Decoded::Syntax => StepView::Finished(Err(StoreErrorView::Syntax)),
        Decoded::Shape => StepView::Finished(Err(StoreErrorView::Shape)),
        Decoded::Document(doc) => StepView::Finished(Ok(OutcomeView::Loaded(doc))),
    }
}

/// The step that follows an answer.
///
/// A save asks, in this order, for the budgets directory, for the temporary
/// file to be created, written and synced, and for its rename onto the
/// budget's file; only the last changes what the budget's name shows. Every
/// operation ends at the first answer `Failed`, with the step that failed and
/// the cause, and asks nothing more. A load ends with `NotFound` where there
/// is no file; a delete ends well where there is none. An answer that the
/// operation asked cannot give ends with `Protocol`.
pub open spec fn next(pending: PendingView, reply: FileReplyView) -> StepView {
    match (pending, reply) {
        (PendingView::LoadDir { dir, path }, FileReplyView::Done) => StepView::Ask(
            FileOpView::Read { path },
            PendingView::LoadRead { path },
        ),
        (PendingView::LoadDir { dir, path }, FileReplyView::Failed(cause)) => failed(
            IoStep::MakeDir,
            dir,
            cause,
        ),
        (PendingView::LoadRead { path }, FileReplyView::Text(text)) => loaded(text),
        (PendingView::LoadRead { path }, FileReplyView::Missing) => StepView::Finished(
            Err(StoreErrorView::NotFound(path)),
        ),
        (PendingView::LoadRead { path }, FileReplyView::Failed(cause)) => failed(
            IoStep::Read,
            path,
            cause,
        ),
        (PendingView::SaveDir { dir, path, tmp, data }, FileReplyView::Done) => StepView::Ask(
            FileOpView::Create { path: tmp },
            PendingView::SaveCreate { path, tmp, data },
        ),
        (PendingView::SaveDir { dir, path, tmp, data }, FileReplyView::Failed(cause)) => failed(
            IoStep::MakeDir,
            dir,
            cause,
        ),
        (PendingView::SaveCreate { path, tmp, data }, FileReplyView::Done) => StepView::Ask(
            FileOpView::Write { path: tmp, data },
            PendingView::SaveWrite { path, tmp },
        ),
        (PendingView::SaveCreate { path, tmp, data }, FileReplyView::Failed(cause)) => failed(
            IoStep::Create,
            tmp,
            cause,
        ),
        (PendingView::SaveWrite { path, tmp }, FileReplyView::Done) => StepView::Ask(
            FileOpView::Sync { path: tmp },
            PendingView::SaveSync { path, tmp },
        ),
        (PendingView::SaveWrite { path, tmp }, FileReplyView::Failed(cause)) => failed(
            IoStep::Write,
            tmp,
            cause,
        ),
        (PendingView::SaveSync { path, tmp }, FileReplyView::Done) => StepView::Ask(
            FileOpView::Rename { from: tmp, to: path },
            PendingView::SaveRename { path },
        ),
        (PendingView::SaveSync { path, tmp }, FileReplyView::Failed(cause)) => failed(
            IoStep::Sync,
            tmp,
            cause,
        ),
        (PendingView::SaveRename { path }, FileReplyView::Done) => StepView::Finished(
            Ok(OutcomeView::Saved),
        ),
        (PendingView::SaveRename { path }, FileReplyView::Failed(cause)) => failed(
            IoStep::Rename,
            path,
            cause,
        ),
        (PendingView::ListDir { dir }, FileReplyView::Done) => StepView::Ask(
            FileOpView::List { dir },
            PendingView::ListNames { dir },
        ),
        (PendingView::ListDir { dir }, FileReplyView::Failed(cause)) => failed(
            IoStep::MakeDir,
            dir,
            cause,
        ),
        (PendingView::ListNames { dir }, FileReplyView::Names(files)) => StepView::Finished(
            Ok(OutcomeView::Listed(budget_names(files))),
        ),
        (PendingView::ListNames { dir }, FileReplyView::Failed(cause)) => failed(
            IoStep::List,
            dir,
            cause,
        ),
        (PendingView::DeleteDir { dir, path }, FileReplyView::Done) => StepView::Ask(
            FileOpView::Exists { path },
            PendingView::DeleteProbe { path },
        ),
        (PendingView::DeleteDir { dir, path }, FileReplyView::Failed(cause)) => failed(
            IoStep::MakeDir,
            dir,
            cause,
        ),
        (PendingView::DeleteProbe { path }, FileReplyView::Found(found)) => if found {
            StepView::Ask(FileOpView::Remove { path }, PendingView::DeleteRemove { path })
        } else {
            StepView::Finished(Ok(OutcomeView::Deleted))
        },
        (PendingView::DeleteRemove { path }, FileReplyView::Done) => StepView::Finished(
            Ok(OutcomeView::Deleted),
        ),
        (PendingView::DeleteRemove { path }, FileReplyView::Failed(cause)) => failed(
            IoStep::Remove,
            path,
            cause,
        ),
        _ => StepView::Finished(Err(StoreErrorView::Protocol)),
    }
}

/// Begins to load the budget called `name`.
pub fn load_budget(store: &Store, name: &str) -> (step: Step)
    ensures
        step@ == begin_load(store.root@, name@),
{
    match budget_path(store, name) {
        Ok(path) => Step::Ask(
            FileOp::MakeDir { dir: budgets_dir(store) },
            Pending::LoadDir { dir: budgets_dir(store), path },
        ),
        Err(e) => Step::Finished(Err(e)),
    }
}

/// Begins to save a budget under its own name. The name is checked at every
/// save, and the whole document is written: there is no partial update.
pub fn save_budget(store: &Store, budget: &BudgetTemplate) -> (step: Step)
    ensures
        step@ == begin_save(store.root@, budget.deep_view()),
{
    let path = match budget_path(store, budget.name.as_str()) {
        Ok(path) => path,
        Err(e) => {
            return Step::Finished(Err(e));
        },
    };
    let tmp = match temp_path(store, budget.name.as_str()) {
        Ok(tmp) => tmp,
        Err(e) => {
            return Step::Finished(Err(e));
        },
    };
    match encode(budget) {
        Ok(data) => Step::Ask(
            FileOp::MakeDir { dir: budgets_dir(store) },
            Pending::SaveDir { dir: budgets_dir(store), path, tmp, data },
        ),
        Err(e) => Step::Finished(Err(StoreError::Encode(e))),
    }
}

/// Begins to list the budgets that are stored.
pub fn list_budgets(store: &Store) -> (step: Step)
    ensures
        step@ == begin_list(store.root@),
{
    Step::Ask(
        FileOp::MakeDir { dir: budgets_dir(store) },
        Pending::ListDir { dir: budgets_dir(store) },
    )
}

/// Begins to delete the budget called `name`.
pub fn delete_budget(store: &Store, name: &str) -> (step: Step)
    ensures
        step@ == begin_delete(store.root@, name@),
{
    match budget_path(store, name) {
        Ok(path) => Step::Ask(
            FileOp::MakeDir { dir: budgets_dir(store) },
            Pending::DeleteDir { dir: budgets_dir(store), path },
        ),
        Err(e) => Step::Finished(Err(e)),
    }
}

/// The end of an operation on a file operation that failed.
fn fail(step: IoStep, path: String, cause: String) -> (end: Step)
    ensures
        end@ == failed(step, path@, cause@),
{
    Step::Finished(Err(StoreError::Io { step, path, cause }))
}

/// Ends a load with the text that was read.
fn finish_load(text: &str) -> (end: Step)
    ensures
        end@ == loaded(text@),
{
    match decode(text) {
        Ok(doc) => Step::Finished(Ok(Outcome::Loaded(doc))),
        Err(e) => Step::Finished(Err(StoreError::Decode(e))),
    }
}

/// Takes the host's answer and gives the step that follows.
pub fn resume(pending: Pending, reply: FileReply) -> (step: Step)
    ensures
        step@ == next(pending@, reply@),
{
    match (pending, reply) {
        (Pending::LoadDir { dir, path }, FileReply::Done) => {
            let asked = path.clone();
            Step::Ask(FileOp::Read { path: asked }, Pending::LoadRead { path })
        },
        (Pending::LoadDir { dir, path }, FileReply::Failed(cause)) => fail(
            IoStep::MakeDir,
            dir,
            cause,
        ),
        (Pending::LoadRead { path }, FileReply::Text(text)) => finish_load(text.as_str()),
        (Pending::LoadRead { path }, FileReply::Missing) => Step::Finished(
            Err(StoreError::NotFound(path)),
        ),
        (Pending::LoadRead { path }, FileReply::Failed(cause)) => fail(IoStep::Read, path, cause),
        (Pending::SaveDir { dir, path, tmp, data }, FileReply::Done) => {
            let asked = tmp.clone();
            Step::Ask(FileOp::Create { path: asked }, Pending::SaveCreate { path, tmp, data })
        },
        (Pending::SaveDir { dir, path, tmp, data }, FileReply::Failed(cause)) => fail(
            IoStep::MakeDir,
            dir,
            cause,
        ),
        (Pending::SaveCreate { path, tmp, data }, FileReply::Done) => {
            let asked = tmp.clone();
            Step::Ask(FileOp::Write { path: asked, data }, Pending::SaveWrite { path, tmp })
        },
        (Pending::SaveCreate { path, tmp, data }, FileReply::Failed(cause)) => fail(
            IoStep::Create,
            tmp,
            cause,
        ),
        (Pending::SaveWrite { path, tmp }, FileReply::Done) => {
            let asked = tmp.clone();
            Step::Ask(FileOp::Sync { path: asked }, Pending::SaveSync { path, tmp })
        },
        (Pending::SaveWrite { path, tmp }, FileReply::Failed(cause)) => fail(
            IoStep::Write,
            tmp,
            cause,
        ),
        (Pending::SaveSync { path, tmp }, FileReply::Done) => {
            let to = path.clone();
            Step::Ask(FileOp::Rename { from: tmp, to }, Pending::SaveRename { path })
        },
        (Pending::SaveSync { path, tmp }, FileReply::Failed(cause)) => fail(
            IoStep::Sync,
            tmp,
            cause,
        ),
        (Pending::SaveRename { path }, FileReply::Done) => Step::Finished(Ok(Outcome::Saved)),
        (Pending::SaveRename { path }, FileReply::Failed(cause)) => fail(
            IoStep::Rename,
            path,
            cause,
        ),
        (Pending::ListDir { dir }, FileReply::Done) => {
            let asked = dir.clone();
            Step::Ask(FileOp::List { dir: asked }, Pending::ListNames { dir })
        },
        (Pending::ListDir { dir }, FileReply::Failed(cause)) => fail(IoStep::MakeDir, dir, cause),
        (Pending::ListNames { dir }, FileReply::Names(files)) => Step::Finished(
            Ok(Outcome::Listed(names_of(&files))),
        ),
        (Pending::ListNames { dir }, FileReply::Failed(cause)) => fail(IoStep::List, dir, cause),
        (Pending::DeleteDir { dir, path }, FileReply::Done) => {
            let asked = path.clone();
            Step::Ask(FileOp::Exists { path: asked }, Pending::DeleteProbe { path })
        },
        (Pending::DeleteDir { dir, path }, FileReply::Failed(cause)) => fail(
            IoStep::MakeDir,
            dir,
            cause,
        ),
        (Pending::DeleteProbe { path }, FileReply::Found(found)) => if found {
            let asked = path.clone();
            Step::Ask(FileOp::Remove { path: asked }, Pending::DeleteRemove { path })
        } else {
            Step::Finished(Ok(Outcome::Deleted))
        },
        (Pending::DeleteRemove { path }, FileReply::Done) => Step::Finished(Ok(Outcome::Deleted)),
        (Pending::DeleteRemove { path }, FileReply::Failed(cause)) => fail(
            IoStep::Remove,
            path,
            cause,
        ),
        _ => Step::Finished(Err(StoreError::Protocol)),
    }
}

} // verus!
