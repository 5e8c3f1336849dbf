use budget_store::{
    budget_path, budgets_dir, decode, delete_budget, encode, list_budgets, load_budget, names_of,
    resume, save_budget, temp_path, BudgetSettings, BudgetTemplate, DecodeError, Decimal,
    EncodeError, FileOp, FileReply, IoStep, Outcome, Pending, Scenario, ScenarioOverride, Step,
    Store, StoreError, TemplateEntry,
};
use std::collections::BTreeMap;

/// A file system in memory: texts under paths, named in the order in which
/// they were created.
struct Disk {
    files: BTreeMap<String, String>,
    order: Vec<String>,
    log: Vec<FileOp>,
}

fn disk() -> Disk {
    Disk { files: BTreeMap::new(), order: vec![], log: vec![] }
}

fn put(disk: &mut Disk, path: &str, text: &str) {
    if !disk.files.contains_key(path) {
        disk.order.push(path.to_string());
    }
    disk.files.insert(path.to_string(), text.to_string());
}

fn take(disk: &mut Disk, path: &str) -> Option<String> {
    disk.order.retain(|p| p != path);
    disk.files.remove(path)
}

fn perform(disk: &mut Disk, op: &FileOp) -> FileReply {
    disk.log.push(op.clone());
    match op {
        FileOp::MakeDir { .. } => FileReply::Done,
        FileOp::Read { path } => match disk.files.get(path) {
            Some(text) => FileReply::Text(text.clone()),
            None => FileReply::Missing,
        },
        FileOp::Create { path } => {
            put(disk, path, "");
            FileReply::Done
        }
        FileOp::Write { path, data } => match disk.files.get_mut(path) {
            Some(text) => {
                text.push_str(data);
                FileReply::Done
            }
            None => FileReply::Failed("not open".to_string()),
        },
        FileOp::Sync { .. } => FileReply::Done,
        FileOp::Rename { from, to } => match take(disk, from) {
            Some(text) => {
                put(disk, to, &text);
                FileReply::Done
            }
            None => FileReply::Failed("no such file".to_string()),
        },
        FileOp::Exists { path } => FileReply::Found(disk.files.contains_key(path)),
        FileOp::Remove { path } => match take(disk, path) {
            Some(_) => FileReply::Done,
            None => FileReply::Failed("no such file".to_string()),
        },
        FileOp::List { dir } => {
            let prefix = format!("{}/", dir);
            FileReply::Names(
                disk.order
                    .iter()
                    .filter_map(|p| p.strip_prefix(&prefix))
                    .filter(|name| !name.contains('/'))
                    .map(|name| name.to_string())
                    .collect(),
            )
        }
    }
}

/// Runs an operation to its end.
fn drive(disk: &mut Disk, step: Step) -> Result<Outcome, StoreError> {
    let mut step = step;
    loop {
        match step {
            Step::Finished(result) => return result,
            Step::Ask(op, pending) => {
                let reply = perform(disk, &op);
                step = resume(pending, reply);
            }
        }
    }
}

/// Runs an operation for at most `ops` file operations, as if the process
/// died after them.
fn drive_for(disk: &mut Disk, step: Step, ops: usize) -> Option<Result<Outcome, StoreError>> {
    let mut step = step;
    let mut left = ops;
    loop {
        match step {
            Step::Finished(result) => return Some(result),
            Step::Ask(op, pending) => {
                if left == 0 {
                    return None;
                }
                left -= 1;
                let reply = perform(disk, &op);
                step = resume(pending, reply);
            }
        }
    }
}

/// Runs an operation on a file system whose operation number `failing`
/// (from 0) fails.
fn drive_failing(disk: &mut Disk, step: Step, failing: usize) -> Result<Outcome, StoreError> {
    let mut step = step;
    let mut done = 0;
    loop {
        match step {
            Step::Finished(result) => return result,
            Step::Ask(op, pending) => {
                let reply = if done == failing {
                    disk.log.push(op.clone());
                    FileReply::Failed("disk on fire".to_string())
                } else {
                    perform(disk, &op)
                };
                done += 1;
                step = resume(pending, reply);
            }
        }
    }
}

fn store() -> Store {
    Store { root: "/home/u/.budgetplanner".to_string() }
}

fn s(text: &str) -> String {
    text.to_string()
}

fn document(name: &str, amount: u64) -> BudgetTemplate {
    BudgetTemplate {
        name: s(name),
        version: s("1"),
        settings: BudgetSettings {
            currency: s("EUR"),
            accounts: vec![],
            income_categories: vec![],
            excluded_categories: vec![],
            start_date: s("2024-01-01"),
            custom_entities: vec![],
        },
        template: vec![(
            s("groceries"),
            TemplateEntry {
                amount: Decimal::PosInt(amount),
                source_account: None,
                target_account: None,
                line_items: vec![],
                note: None,
            },
        )],
        comments: vec![],
        unplanned: vec![],
        scenarios: vec![],
    }
}

fn scenario(id: &str, key: &str, amount: u64) -> Scenario {
    Scenario {
        id: s(id),
        name: s("what if"),
        description: None,
        notes: None,
        created_at: s("2024-02-02T00:00:00Z"),
        overrides: vec![(
            s(key),
            ScenarioOverride { amount: Decimal::PosInt(amount), line_items: vec![] },
        )],
        virtual_items: vec![],
    }
}

fn names(list: &[&str]) -> Vec<String> {
    list.iter().map(|n| n.to_string()).collect()
}

#[test]
fn unsafe_names_are_refused() {
    for name in ["a/b", "a\\b", "../secret", "..", "a..b", "x/../y", "/", "\\", "trailing..", "/abs"] {
        assert_eq!(budget_path(&store(), name), Err(StoreError::Name(s(name))), "{}", name);
        assert_eq!(temp_path(&store(), name), Err(StoreError::Name(s(name))), "{}", name);
    }
}

#[test]
fn safe_names_map_to_their_file() {
    assert_eq!(
        budget_path(&store(), "my-budget_2024"),
        Ok(s("/home/u/.budgetplanner/budgets/my-budget_2024.json"))
    );
    assert_eq!(
        temp_path(&store(), "my-budget_2024"),
        Ok(s("/home/u/.budgetplanner/budgets/my-budget_2024.json.tmp"))
    );
    assert_eq!(budgets_dir(&store()), "/home/u/.budgetplanner/budgets");
    for name in ["a.b", ".", ".hidden", "a. .b", "Haushalt 2024 (neu)", "", "ü.ö"] {
        let expected = format!("/home/u/.budgetplanner/budgets/{}.json", name);
        assert_eq!(budget_path(&store(), name), Ok(expected), "{}", name);
    }
    let other = Store { root: s("C:/data") };
    assert_eq!(budget_path(&other, "x"), Ok(s("C:/data/budgets/x.json")));
}

#[test]
fn an_unsafe_name_asks_for_no_file() {
    for name in ["a/b", "a\\b", "../secret"] {
        assert_eq!(load_budget(&store(), name), Step::Finished(Err(StoreError::Name(s(name)))));
        assert_eq!(delete_budget(&store(), name), Step::Finished(Err(StoreError::Name(s(name)))));
        assert_eq!(
            save_budget(&store(), &document(name, 1)),
            Step::Finished(Err(StoreError::Name(s(name))))
        );
    }
}

#[test]
fn a_listing_shows_budget_files_sorted() {
    assert_eq!(names_of(&names(&["b.json", "a.json", "c.json.tmp"])), names(&["a", "b"]));
    assert_eq!(names_of(&names(&["a.json", "c.json.tmp", "b.json"])), names(&["a", "b"]));
    assert_eq!(names_of(&names(&[])), names(&[]));
    assert_eq!(
        names_of(&names(&[".json", "json", "a.jsonx", "a.JSON", "readme.txt", "x.json.bak", "ajson"])),
        names(&[])
    );
    assert_eq!(
        names_of(&names(&["b.json", "B.json", "a.b.json", "ab.json", "a.json", "10.json", "9.json", "..json"])),
        names(&[".", "10", "9", "B", "a", "a.b", "ab", "b"])
    );
    assert_eq!(names_of(&names(&["é.json", "z.json", "e.json", "\u{1F600}.json"])), names(&["e", "z", "é", "\u{1F600}"]));
    assert_eq!(names_of(&names(&["a.json", "a.json", "aa.json"])), names(&["a", "a", "aa"]));
}

#[test]
fn a_listing_is_sorted_as_strings_are() {
    let files = names(&["q.json", "Q.json", "ä.json", "a b.json", "a.json", "a-b.json", "_.json", "~.json", "0.json"]);
    let mut expected: Vec<String> =
        files.iter().map(|f| f.strip_suffix(".json").unwrap().to_string()).collect();
    expected.sort();
    assert_eq!(names_of(&files), expected);
    let mut reversed = files.clone();
    reversed.reverse();
    assert_eq!(names_of(&reversed), expected);
}

#[test]
fn list_budgets_lists_what_is_stored() {
    let mut disk = disk();
    put(&mut disk, "/home/u/.budgetplanner/budgets/b.json", "{}");
    put(&mut disk, "/home/u/.budgetplanner/budgets/a.json", "{}");
    put(&mut disk, "/home/u/.budgetplanner/budgets/c.json.tmp", "{");
    put(&mut disk, "/home/u/.budgetplanner/config.json", "{}");
    put(&mut disk, "/home/u/.budgetplanner/budgets/old/z.json", "{}");
    assert_eq!(drive(&mut disk, list_budgets(&store())), Ok(Outcome::Listed(names(&["a", "b"]))));
    assert_eq!(
        disk.log,
        vec![
            FileOp::MakeDir { dir: s("/home/u/.budgetplanner/budgets") },
            FileOp::List { dir: s("/home/u/.budgetplanner/budgets") },
        ]
    );
}

#[test]
fn a_save_writes_a_temporary_file_and_renames_it() {
    let mut disk = disk();
    let doc = document("plan", 400);
    assert_eq!(drive(&mut disk, save_budget(&store(), &doc)), Ok(Outcome::Saved));
    let path = s("/home/u/.budgetplanner/budgets/plan.json");
    let tmp = s("/home/u/.budgetplanner/budgets/plan.json.tmp");
    let data = encode(&doc).unwrap();
    assert_eq!(
        disk.log,
        vec![
            FileOp::MakeDir { dir: s("/home/u/.budgetplanner/budgets") },
            FileOp::Create { path: tmp.clone() },
            FileOp::Write { path: tmp.clone(), data: data.clone() },
            FileOp::Sync { path: tmp.clone() },
            FileOp::Rename { from: tmp.clone(), to: path.clone() },
        ]
    );
    assert_eq!(disk.files.get(&path), Some(&data));
    assert!(!disk.files.contains_key(&tmp));
    assert_eq!(disk.files.len(), 1);
}

#[test]
fn an_interrupted_save_leaves_the_old_budget() {
    let old = document("plan", 400);
    let new = document("plan", 999);
    let path = "/home/u/.budgetplanner/budgets/plan.json";
    for ops in 0..5 {
        let mut disk = disk();
        assert_eq!(drive(&mut disk, save_budget(&store(), &old)), Ok(Outcome::Saved));
        let before = disk.files[path].clone();
        assert_eq!(drive_for(&mut disk, save_budget(&store(), &new), ops), None);
        assert_eq!(disk.files[path], before, "after {} operations", ops);
        assert_eq!(drive(&mut disk, load_budget(&store(), "plan")), Ok(Outcome::Loaded(old.clone())));
    }
    let mut disk = disk();
    assert_eq!(drive(&mut disk, save_budget(&store(), &old)), Ok(Outcome::Saved));
    assert_eq!(drive_for(&mut disk, save_budget(&store(), &new), 5), Some(Ok(Outcome::Saved)));
    assert_eq!(disk.files[path], encode(&new).unwrap());
    assert_eq!(drive(&mut disk, load_budget(&store(), "plan")), Ok(Outcome::Loaded(new)));
}

#[test]
fn an_interrupted_first_save_leaves_no_budget() {
    let path = "/home/u/.budgetplanner/budgets/plan.json";
    for ops in 0..5 {
        let mut disk = disk();
        assert_eq!(drive_for(&mut disk, save_budget(&store(), &document("plan", 1)), ops), None);
        assert!(!disk.files.contains_key(path));
        assert_eq!(
            drive(&mut disk, load_budget(&store(), "plan")),
            Err(StoreError::NotFound(s(path)))
        );
        assert_eq!(drive(&mut disk, list_budgets(&store())), Ok(Outcome::Listed(vec![])));
    }
}

#[test]
fn a_failing_file_operation_ends_a_save() {
    let old = document("plan", 400);
    let new = document("plan", 999);
    let dir = s("/home/u/.budgetplanner/budgets");
    let path = s("/home/u/.budgetplanner/budgets/plan.json");
    let tmp = s("/home/u/.budgetplanner/budgets/plan.json.tmp");
    let steps = [
        (IoStep::MakeDir, dir.clone()),
        (IoStep::Create, tmp.clone()),
        (IoStep::Write, tmp.clone()),
        (IoStep::Sync, tmp.clone()),
        (IoStep::Rename, path.clone()),
    ];
    for (failing, (step, at)) in steps.iter().enumerate() {
        let mut disk = disk();
        assert_eq!(drive(&mut disk, save_budget(&store(), &old)), Ok(Outcome::Saved));
        disk.log.clear();
        assert_eq!(
            drive_failing(&mut disk, save_budget(&store(), &new), failing),
            Err(StoreError::Io { step: *step, path: at.clone(), cause: s("disk on fire") })
        );
        assert_eq!(disk.log.len(), failing + 1, "nothing is asked after the failure");
        assert_eq!(disk.files[&path], encode(&old).unwrap());
    }
}

#[test]
fn failing_file_operations_end_the_other_operations() {
    let dir = s("/home/u/.budgetplanner/budgets");
    let path = s("/home/u/.budgetplanner/budgets/plan.json");
    let fire = s("disk on fire");
    let mut d = disk();
    put(&mut d, &path, "{}");
    assert_eq!(
        drive_failing(&mut d, load_budget(&store(), "plan"), 0),
        Err(StoreError::Io { step: IoStep::MakeDir, path: dir.clone(), cause: fire.clone() })
    );
    assert_eq!(
        drive_failing(&mut d, load_budget(&store(), "plan"), 1),
        Err(StoreError::Io { step: IoStep::Read, path: path.clone(), cause: fire.clone() })
    );
    assert_eq!(
        drive_failing(&mut d, list_budgets(&store()), 0),
        Err(StoreError::Io { step: IoStep::MakeDir, path: dir.clone(), cause: fire.clone() })
    );
    assert_eq!(
        drive_failing(&mut d, list_budgets(&store()), 1),
        Err(StoreError::Io { step: IoStep::List, path: dir.clone(), cause: fire.clone() })
    );
    assert_eq!(
        drive_failing(&mut d, delete_budget(&store(), "plan"), 0),
        Err(StoreError::Io { step: IoStep::MakeDir, path: dir.clone(), cause: fire.clone() })
    );
    assert_eq!(
        drive_failing(&mut d, delete_budget(&store(), "plan"), 2),
        Err(StoreError::Io { step: IoStep::Remove, path: path.clone(), cause: fire.clone() })
    );
    assert!(d.files.contains_key(&path));
}

#[test]
fn deleting_twice_succeeds_twice() {
    let mut disk = disk();
    assert_eq!(drive(&mut disk, save_budget(&store(), &document("plan", 1))), Ok(Outcome::Saved));
    assert_eq!(drive(&mut disk, save_budget(&store(), &document("other", 2))), Ok(Outcome::Saved));
    disk.log.clear();
    assert_eq!(drive(&mut disk, delete_budget(&store(), "plan")), Ok(Outcome::Deleted));
    assert_eq!(disk.log.len(), 3);
    assert!(matches!(disk.log[2], FileOp::Remove { .. }));
    assert!(!disk.files.contains_key("/home/u/.budgetplanner/budgets/plan.json"));
    disk.log.clear();
    assert_eq!(drive(&mut disk, delete_budget(&store(), "plan")), Ok(Outcome::Deleted));
    assert_eq!(disk.log.len(), 2, "nothing is removed where nothing is");
    assert_eq!(drive(&mut disk, delete_budget(&store(), "never-stored")), Ok(Outcome::Deleted));
    assert_eq!(drive(&mut disk, list_budgets(&store())), Ok(Outcome::Listed(names(&["other"]))));
}

#[test]
fn loading_what_is_not_stored_is_not_found() {
    let mut disk = disk();
    assert_eq!(
        drive(&mut disk, load_budget(&store(), "nothing")),
        Err(StoreError::NotFound(s("/home/u/.budgetplanner/budgets/nothing.json")))
    );
}

#[test]
fn loading_a_broken_file_fails_loudly() {
    let mut disk = disk();
    put(&mut disk, "/home/u/.budgetplanner/budgets/torn.json", "{\"name\": \"to");
    match drive(&mut disk, load_budget(&store(), "torn")) {
        Err(StoreError::Decode(DecodeError::Syntax(message))) => assert!(!message.is_empty()),
        other => panic!("{:?}", other),
    }
    put(&mut disk, "/home/u/.budgetplanner/budgets/other.json", "{\"name\": \"other\"}");
    assert_eq!(
        drive(&mut disk, load_budget(&store(), "other")),
        Err(StoreError::Decode(DecodeError::Shape))
    );
}

#[test]
fn an_overlay_is_not_merged_into_the_template() {
    let mut disk = disk();
    let base = document("plan", 400);
    assert_eq!(drive(&mut disk, save_budget(&store(), &base)), Ok(Outcome::Saved));
    let mut loaded = match drive(&mut disk, load_budget(&store(), "plan")) {
        Ok(Outcome::Loaded(doc)) => doc,
        other => panic!("{:?}", other),
    };
    assert_eq!(loaded, base);
    loaded.scenarios.push(scenario("s1", "rent-not-in-template", 1200));
    assert_eq!(drive(&mut disk, save_budget(&store(), &loaded)), Ok(Outcome::Saved));
    let reloaded = match drive(&mut disk, load_budget(&store(), "plan")) {
        Ok(Outcome::Loaded(doc)) => doc,
        other => panic!("{:?}", other),
    };
    assert_eq!(reloaded.template, base.template);
    assert_eq!(reloaded.scenarios, vec![scenario("s1", "rent-not-in-template", 1200)]);
    assert_eq!(reloaded, loaded);
}

#[test]
fn save_list_load_delete_end_to_end() {
    let mut disk = disk();
    let mut doc = document("2024-plan", 400);
    doc.scenarios.push(scenario("s1", "groceries", 350));
    assert_eq!(drive(&mut disk, save_budget(&store(), &doc)), Ok(Outcome::Saved));
    match drive(&mut disk, list_budgets(&store())) {
        Ok(Outcome::Listed(found)) => assert!(found.contains(&s("2024-plan"))),
        other => panic!("{:?}", other),
    }
    assert_eq!(drive(&mut disk, load_budget(&store(), "2024-plan")), Ok(Outcome::Loaded(doc)));
    assert_eq!(drive(&mut disk, delete_budget(&store(), "2024-plan")), Ok(Outcome::Deleted));
    assert_eq!(
        drive(&mut disk, load_budget(&store(), "2024-plan")),
        Err(StoreError::NotFound(s("/home/u/.budgetplanner/budgets/2024-plan.json")))
    );
}

#[test]
fn saves_under_different_names_do_not_meet() {
    let mut disk = disk();
    assert_eq!(drive(&mut disk, save_budget(&store(), &document("a", 1))), Ok(Outcome::Saved));
    assert_eq!(drive(&mut disk, save_budget(&store(), &document("a.json", 2))), Ok(Outcome::Saved));
    assert_eq!(drive_for(&mut disk, save_budget(&store(), &document("a", 3)), 3), None);
    assert_eq!(drive(&mut disk, load_budget(&store(), "a")), Ok(Outcome::Loaded(document("a", 1))));
    assert_eq!(
        drive(&mut disk, load_budget(&store(), "a.json")),
        Ok(Outcome::Loaded(document("a.json", 2)))
    );
    assert_eq!(
        drive(&mut disk, list_budgets(&store())),
        Ok(Outcome::Listed(names(&["a", "a.json"])))
    );
}

#[test]
fn the_last_save_wins() {
    let mut disk = disk();
    assert_eq!(drive(&mut disk, save_budget(&store(), &document("plan", 1))), Ok(Outcome::Saved));
    assert_eq!(drive(&mut disk, save_budget(&store(), &document("plan", 2))), Ok(Outcome::Saved));
    assert_eq!(drive(&mut disk, load_budget(&store(), "plan")), Ok(Outcome::Loaded(document("plan", 2))));
    assert_eq!(disk.files.len(), 1);
}

#[test]
fn an_answer_that_does_not_fit_is_a_protocol_error() {
    let path = s("/p");
    let cases = vec![
        (Pending::LoadRead { path: path.clone() }, FileReply::Done),
        (Pending::LoadRead { path: path.clone() }, FileReply::Found(true)),
        (Pending::LoadDir { dir: s("/d"), path: path.clone() }, FileReply::Text(s("{}"))),
        (Pending::SaveRename { path: path.clone() }, FileReply::Missing),
        (Pending::SaveSync { path: path.clone(), tmp: s("/t") }, FileReply::Names(vec![])),
        (Pending::ListNames { dir: s("/d") }, FileReply::Done),
        (Pending::DeleteProbe { path: path.clone() }, FileReply::Done),
        (Pending::DeleteProbe { path: path.clone() }, FileReply::Failed(s("x"))),
        (Pending::DeleteRemove { path: path.clone() }, FileReply::Found(false)),
    ];
    for (pending, reply) in cases {
        assert_eq!(
            resume(pending.clone(), reply.clone()),
            Step::Finished(Err(StoreError::Protocol)),
            "{:?} on {:?}",
            reply,
            pending
        );
    }
}

#[test]
fn each_answer_leads_to_the_next_step() {
    let path = s("/r/budgets/n.json");
    let tmp = s("/r/budgets/n.json.tmp");
    let dir = s("/r/budgets");
    assert_eq!(
        load_budget(&Store { root: s("/r") }, "n"),
        Step::Ask(
            FileOp::MakeDir { dir: dir.clone() },
            Pending::LoadDir { dir: dir.clone(), path: path.clone() }
        )
    );
    assert_eq!(
        resume(Pending::LoadDir { dir: dir.clone(), path: path.clone() }, FileReply::Done),
        Step::Ask(FileOp::Read { path: path.clone() }, Pending::LoadRead { path: path.clone() })
    );
    assert_eq!(
        resume(
            Pending::SaveCreate { path: path.clone(), tmp: tmp.clone(), data: s("text") },
            FileReply::Done
        ),
        Step::Ask(
            FileOp::Write { path: tmp.clone(), data: s("text") },
            Pending::SaveWrite { path: path.clone(), tmp: tmp.clone() }
        )
    );
    assert_eq!(
        resume(Pending::SaveSync { path: path.clone(), tmp: tmp.clone() }, FileReply::Done),
        Step::Ask(
            FileOp::Rename { from: tmp.clone(), to: path.clone() },
            Pending::SaveRename { path: path.clone() }
        )
    );
    assert_eq!(
        resume(Pending::DeleteProbe { path: path.clone() }, FileReply::Found(true)),
        Step::Ask(FileOp::Remove { path: path.clone() }, Pending::DeleteRemove { path: path.clone() })
    );
    assert_eq!(
        resume(Pending::DeleteProbe { path: path.clone() }, FileReply::Found(false)),
        Step::Finished(Ok(Outcome::Deleted))
    );
    assert_eq!(
        resume(
            Pending::ListNames { dir: dir.clone() },
            FileReply::Names(names(&["b.json", "a.json", "c.json.tmp"]))
        ),
        Step::Finished(Ok(Outcome::Listed(names(&["a", "b"]))))
    );
    let text = encode(&document("n", 5)).unwrap();
    assert_eq!(decode(&text), Ok(document("n", 5)));
    assert_eq!(
        resume(Pending::LoadRead { path: path.clone() }, FileReply::Text(text)),
        Step::Finished(Ok(Outcome::Loaded(document("n", 5))))
    );
}

#[test]
fn a_document_that_would_not_read_back_is_not_saved() {
    let mut disk = disk();
    assert_eq!(drive(&mut disk, save_budget(&store(), &document("plan", 1))), Ok(Outcome::Saved));
    disk.log.clear();
    let mut doc = document("plan", 2);
    doc.template[0].1.amount = Decimal::Float(s("NaN"));
    assert_eq!(
        drive(&mut disk, save_budget(&store(), &doc)),
        Err(StoreError::Encode(EncodeError::Unreadable))
    );
    assert!(disk.log.is_empty());
    assert_eq!(
        drive(&mut disk, load_budget(&store(), "plan")),
        Ok(Outcome::Loaded(document("plan", 1)))
    );
}

#[test]
fn a_document_that_is_not_well_formed_is_not_saved() {
    let mut disk = disk();
    let mut doc = document("plan", 1);
    let again = doc.template[0].clone();
    doc.template.push(again);
    assert_eq!(
        save_budget(&store(), &doc),
        Step::Finished(Err(StoreError::Encode(EncodeError::DuplicateKey)))
    );
    assert_eq!(
        drive(&mut disk, save_budget(&store(), &doc)),
        Err(StoreError::Encode(EncodeError::DuplicateKey))
    );
    assert!(disk.log.is_empty());
    doc.name = s("a/b");
    assert_eq!(save_budget(&store(), &doc), Step::Finished(Err(StoreError::Name(s("a/b")))));
}
