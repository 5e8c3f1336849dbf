use budget_store::{
    decode, encode, read_json, write_json, BudgetSettings, BudgetTemplate, DecodeError, Decimal, EncodeError, Json,
    LineItem, Scenario, ScenarioOverride, TemplateEntry, UnplannedTransaction, VirtualItem,
};

fn s(text: &str) -> String {
    text.to_string()
}

fn settings() -> BudgetSettings {
    BudgetSettings {
        currency: s("EUR"),
        accounts: vec![s("acc-1"), s("acc-2")],
        income_categories: vec![s("salary")],
        excluded_categories: vec![],
        start_date: s("2024-01-01"),
        custom_entities: vec![],
    }
}

fn entry(amount: Decimal) -> TemplateEntry {
    TemplateEntry {
        amount,
        source_account: None,
        target_account: None,
        line_items: vec![],
        note: None,
    }
}

fn small_document() -> BudgetTemplate {
    BudgetTemplate {
        name: s("2024-plan"),
        version: s("1"),
        settings: settings(),
        template: vec![(s("groceries"), entry(Decimal::PosInt(400)))],
        comments: vec![],
        unplanned: vec![],
        scenarios: vec![],
    }
}

fn full_document() -> BudgetTemplate {
    let item = LineItem {
        id: s("li-1"),
        name: s("bread"),
        amount: Decimal::Float(s("12.5")),
        description: Some(s("weekly")),
    };
    let bare_item = LineItem {
        id: s("li-2"),
        name: s("milk"),
        amount: Decimal::NegInt(-3),
        description: None,
    };
    BudgetTemplate {
        name: s("household"),
        version: s("2.1-beta"),
        settings: BudgetSettings {
            currency: s("CHF"),
            accounts: vec![s("a"), s("b")],
            income_categories: vec![s("salary"), s("gifts")],
            excluded_categories: vec![s("transfers")],
            start_date: s("2023-07-01"),
            custom_entities: vec![s("holiday fund")],
        },
        template: vec![
            (
                s("rent"),
                TemplateEntry {
                    amount: Decimal::Float(s("1250.75")),
                    source_account: Some(s("a")),
                    target_account: Some(s("b")),
                    line_items: vec![item.clone(), bare_item.clone()],
                    note: Some(s("due on the first")),
                },
            ),
            (s("groceries"), entry(Decimal::PosInt(400))),
        ],
        comments: vec![
            (s("rent"), vec![(s("2024-01"), s("raised")), (s("2024-02"), s("paid late"))]),
            (s("groceries"), vec![]),
        ],
        unplanned: vec![(
            s("groceries"),
            vec![(
                s("2024-03"),
                vec![
                    UnplannedTransaction {
                        tx_id: 9001,
                        name: s("corner shop"),
                        amount: Decimal::Float(s("-7.2")),
                        booking_date: s("2024-03-04"),
                        purpose: Some(s("snacks")),
                    },
                    UnplannedTransaction {
                        tx_id: -5,
                        name: s("refund"),
                        amount: Decimal::PosInt(3),
                        booking_date: s("2024-03-05"),
                        purpose: None,
                    },
                ],
            )],
        )],
        scenarios: vec![Scenario {
            id: s("s1"),
            name: s("frugal"),
            description: Some(s("spend less")),
            notes: None,
            created_at: s("2024-03-01T10:00:00Z"),
            overrides: vec![
                (s("groceries"), ScenarioOverride { amount: Decimal::PosInt(350), line_items: vec![] }),
                (
                    s("not-in-template"),
                    ScenarioOverride { amount: Decimal::PosInt(1), line_items: vec![item] },
                ),
            ],
            virtual_items: vec![VirtualItem {
                id: s("v1"),
                name: s("side job"),
                amount: Decimal::PosInt(200),
                is_income: true,
            }],
        }],
    }
}

fn minimal_text() -> &'static str {
    r#"{
        "name": "n",
        "version": "v",
        "settings": {
            "currency": "EUR",
            "accounts": [],
            "incomeCategories": [],
            "startDate": "2024-01-01"
        },
        "template": {}
    }"#
}

fn with_template(template: &str) -> String {
    format!(
        r#"{{"name":"n","version":"v","settings":{{"currency":"EUR","accounts":[],"incomeCategories":[],"startDate":"d"}},"template":{}}}"#,
        template
    )
}

#[test]
fn small_document_reads_back() {
    let doc = small_document();
    let text = encode(&doc).unwrap();
    assert_eq!(decode(&text), Ok(doc));
}

#[test]
fn full_document_reads_back() {
    let doc = full_document();
    let text = encode(&doc).unwrap();
    assert_eq!(decode(&text), Ok(doc));
}

#[test]
fn small_document_is_written_exactly() {
    let expected = r#"{
  "name": "2024-plan",
  "version": "1",
  "settings": {
    "currency": "EUR",
    "accounts": [
      "acc-1",
      "acc-2"
    ],
    "incomeCategories": [
      "salary"
    ],
    "excludedCategories": [],
    "startDate": "2024-01-01",
    "customEntities": []
  },
  "template": {
    "groceries": {
      "amount": 400
    }
  }
}"#;
    assert_eq!(encode(&small_document()).unwrap(), expected);
}

#[test]
fn empty_collections_are_left_out_and_read_as_empty() {
    let text = encode(&small_document()).unwrap();
    for key in ["comments", "unplanned", "scenarios", "lineItems", "note", "sourceAccount", "targetAccount"] {
        assert!(!text.contains(&format!("\"{}\"", key)), "{} was written", key);
    }
    let doc = decode(&text).unwrap();
    assert!(doc.comments.is_empty());
    assert!(doc.unplanned.is_empty());
    assert!(doc.scenarios.is_empty());
    assert!(doc.template[0].1.line_items.is_empty());
    assert_eq!(doc.template[0].1.note, None);
}

#[test]
fn full_document_writes_every_part() {
    let text = encode(&full_document()).unwrap();
    for key in [
        "comments", "unplanned", "scenarios", "lineItems", "note", "sourceAccount",
        "targetAccount", "virtualItems", "isIncome", "createdAt", "txId", "bookingDate",
        "description", "overrides",
    ] {
        assert!(text.contains(&format!("\"{}\"", key)), "{} was not written", key);
    }
    assert!(text.contains("\"purpose\": null"));
    assert!(!text.contains("\"notes\""));
    assert!(text.contains("\"amount\": 1250.75"));
    assert!(text.contains("\"amount\": -7.2"));
    assert!(text.contains("\"txId\": -5"));
}

#[test]
fn writing_what_was_read_gives_the_same_text() {
    let text = encode(&full_document()).unwrap();
    let again = encode(&decode(&text).unwrap()).unwrap();
    assert_eq!(again, text);
}

#[test]
fn missing_optional_members_get_their_defaults() {
    let doc = decode(minimal_text()).unwrap();
    assert_eq!(doc.name, "n");
    assert_eq!(doc.version, "v");
    assert_eq!(doc.settings.currency, "EUR");
    assert!(doc.settings.excluded_categories.is_empty());
    assert!(doc.settings.custom_entities.is_empty());
    assert!(doc.template.is_empty());
    assert!(doc.comments.is_empty());
    assert!(doc.unplanned.is_empty());
    assert!(doc.scenarios.is_empty());
}

#[test]
fn unknown_members_are_passed_over() {
    let text = r#"{"name":"n","version":"v","future":{"x":[1,2]},"settings":{"currency":"EUR","accounts":[],"incomeCategories":[],"startDate":"d","theme":"dark"},"template":{"k":{"amount":1,"colour":"red"}}}"#;
    let doc = decode(text).unwrap();
    assert_eq!(doc.template, vec![(s("k"), entry(Decimal::PosInt(1)))]);
}

#[test]
fn each_required_member_is_required() {
    let whole = r#"{"name":"n","version":"v","settings":{"currency":"EUR","accounts":[],"incomeCategories":[],"startDate":"d"},"template":{}}"#;
    assert!(decode(whole).is_ok());
    for part in [
        r#""name":"n","#,
        r#""version":"v","#,
        r#""settings":{"currency":"EUR","accounts":[],"incomeCategories":[],"startDate":"d"},"#,
        r#""currency":"EUR","#,
        r#""accounts":[],"#,
        r#""incomeCategories":[],"#,
    ] {
        let without = whole.replace(part, "");
        assert_ne!(without, whole);
        assert_eq!(decode(&without), Err(DecodeError::Shape), "without {}", part);
    }
    let without_template = whole.replace(r#","template":{}"#, "");
    assert_eq!(decode(&without_template), Err(DecodeError::Shape));
    let without_start = whole.replace(r#","startDate":"d""#, "");
    assert_eq!(decode(&without_start), Err(DecodeError::Shape));
}

#[test]
fn wrong_shapes_are_refused() {
    for text in [
        "[]".to_string(),
        "null".to_string(),
        "\"text\"".to_string(),
        "42".to_string(),
        with_template("[]"),
        with_template("null"),
        with_template(r#"{"k":{"amount":"400"}}"#),
        with_template(r#"{"k":{"amount":null}}"#),
        with_template(r#"{"k":{}}"#),
        with_template(r#"{"k":[400]}"#),
        with_template(r#"{"k":{"amount":1,"note":5}}"#),
        with_template(r#"{"k":{"amount":1,"lineItems":null}}"#),
        with_template(r#"{"k":{"amount":1,"lineItems":{}}}"#),
        with_template(r#"{"k":{"amount":1,"lineItems":[{"id":"i","name":"n"}]}}"#),
        with_template(r#"{"k":{"amount":1,"lineItems":[{"id":1,"name":"n","amount":1}]}}"#),
        with_template(r#"{"k":{"amount":1,"sourceAccount":false}}"#),
    ] {
        assert_eq!(decode(&text), Err(DecodeError::Shape), "{}", text);
    }
    let name_is_number = minimal_text().replace("\"n\"", "7");
    assert_eq!(decode(&name_is_number), Err(DecodeError::Shape));
    let null_default = minimal_text().replace("\"template\": {}", "\"template\": {}, \"scenarios\": null");
    assert_eq!(decode(&null_default), Err(DecodeError::Shape));
}

#[test]
fn text_that_is_no_json_is_a_syntax_error() {
    for text in ["", "{", "{\"name\": }", "not json", "{\"a\":1}}"] {
        match decode(text) {
            Err(DecodeError::Syntax(message)) => assert!(!message.is_empty()),
            other => panic!("{:?} gave {:?}", text, other),
        }
    }
}

#[test]
fn null_stands_for_an_absent_text() {
    let text = with_template(r#"{"k":{"amount":1,"note":null,"sourceAccount":null,"targetAccount":"t"}}"#);
    let doc = decode(&text).unwrap();
    assert_eq!(doc.template[0].1.note, None);
    assert_eq!(doc.template[0].1.source_account, None);
    assert_eq!(doc.template[0].1.target_account, Some(s("t")));
}

#[test]
fn amounts_are_kept_as_written() {
    let text = with_template(
        r#"{"a":{"amount":400},"b":{"amount":400.0},"c":{"amount":-3},"d":{"amount":0.1},"e":{"amount":18446744073709551615},"f":{"amount":-0.5e1}}"#,
    );
    let doc = decode(&text).unwrap();
    let amounts: Vec<Decimal> = doc.template.iter().map(|(_, e)| e.amount.clone()).collect();
    assert_eq!(
        amounts,
        vec![
            Decimal::PosInt(400),
            Decimal::Float(s("400.0")),
            Decimal::NegInt(-3),
            Decimal::Float(s("0.1")),
            Decimal::PosInt(u64::MAX),
            Decimal::Float(s("-5.0")),
        ]
    );
    let again = decode(&encode(&doc).unwrap()).unwrap();
    assert_eq!(again, doc);
}

fn with_transaction(id: &str) -> String {
    minimal_text().replace(
        "\"template\": {}",
        &format!(
            r#""template": {{}}, "unplanned": {{"k": {{"sub": [{{"txId": {}, "name": "n", "amount": 1, "bookingDate": "d"}}]}}}}"#,
            id
        ),
    )
}

#[test]
fn a_transaction_id_is_a_signed_integer() {
    let doc = decode(&with_transaction("9223372036854775807")).unwrap();
    assert_eq!(doc.unplanned[0].1[0].1[0].tx_id, i64::MAX);
    assert_eq!(doc.unplanned[0].1[0].1[0].purpose, None);
    let doc = decode(&with_transaction("-9223372036854775808")).unwrap();
    assert_eq!(doc.unplanned[0].1[0].1[0].tx_id, i64::MIN);
    let doc = decode(&with_transaction("0")).unwrap();
    assert_eq!(doc.unplanned[0].1[0].1[0].tx_id, 0);
    assert_eq!(decode(&with_transaction("9223372036854775808")), Err(DecodeError::Shape));
    assert_eq!(decode(&with_transaction("1.0")), Err(DecodeError::Shape));
    assert_eq!(decode(&with_transaction("\"1\"")), Err(DecodeError::Shape));
}

#[test]
fn virtual_items_are_expenses_unless_marked() {
    let text = minimal_text().replace(
        "\"template\": {}",
        r#""template": {}, "scenarios": [{"id": "s", "name": "n", "createdAt": "t", "overrides": {}, "virtualItems": [{"id": "v", "name": "x", "amount": 2}, {"id": "w", "name": "y", "amount": 3, "isIncome": true}]}]"#,
    );
    let doc = decode(&text).unwrap();
    let items = &doc.scenarios[0].virtual_items;
    assert_eq!(items.len(), 2);
    assert!(!items[0].is_income);
    assert!(items[1].is_income);
    assert_eq!(doc.scenarios[0].description, None);
    let bad = text.replace("\"isIncome\": true", "\"isIncome\": 1");
    assert_eq!(decode(&bad), Err(DecodeError::Shape));
    let no_overrides = text.replace("\"overrides\": {}, ", "");
    assert_eq!(decode(&no_overrides), Err(DecodeError::Shape));
}

#[test]
fn a_mapping_keeps_the_order_in_which_it_is_written() {
    let text = with_template(r#"{"zeta":{"amount":1},"alpha":{"amount":2},"mid":{"amount":3}}"#);
    let doc = decode(&text).unwrap();
    let keys: Vec<&str> = doc.template.iter().map(|(k, _)| k.as_str()).collect();
    assert_eq!(keys, vec!["zeta", "alpha", "mid"]);
    let written = encode(&doc).unwrap();
    let zeta = written.find("zeta").unwrap();
    let alpha = written.find("alpha").unwrap();
    let mid = written.find("mid").unwrap();
    assert!(zeta < alpha && alpha < mid);
}

#[test]
fn an_override_of_an_absent_key_survives() {
    let base = small_document();
    let text = encode(&base).unwrap();
    let mut loaded = decode(&text).unwrap();
    assert_eq!(loaded, base);
    let scenario = Scenario {
        id: s("s1"),
        name: s("what if"),
        description: None,
        notes: Some(s("try it")),
        created_at: s("2024-05-05"),
        overrides: vec![(
            s("no-such-key"),
            ScenarioOverride { amount: Decimal::Float(s("99.5")), line_items: vec![] },
        )],
        virtual_items: vec![],
    };
    loaded.scenarios.push(scenario.clone());
    let reloaded = decode(&encode(&loaded).unwrap()).unwrap();
    assert_eq!(reloaded.template, base.template);
    assert_eq!(reloaded.scenarios, vec![scenario]);
    assert!(reloaded.template.iter().all(|(k, _)| k != "no-such-key"));
}

#[test]
fn a_value_with_a_key_twice_is_no_mapping() {
    let one = Json::Object(vec![(s("amount"), Json::Number(Decimal::PosInt(1)))]);
    let two = Json::Object(vec![(s("amount"), Json::Number(Decimal::PosInt(2)))]);
    let settings = settings().to_json();
    let doc = |template: Json| {
        Json::Object(vec![
            (s("name"), Json::Str(s("n"))),
            (s("version"), Json::Str(s("v"))),
            (s("settings"), settings.clone()),
            (s("template"), template),
        ])
    };
    let distinct = doc(Json::Object(vec![(s("a"), one.clone()), (s("b"), two.clone())]));
    assert!(BudgetTemplate::from_json(&distinct).is_ok());
    let twice = doc(Json::Object(vec![(s("a"), one), (s("a"), two)]));
    assert_eq!(BudgetTemplate::from_json(&twice), Err(DecodeError::Shape));
}

#[test]
fn a_document_is_a_json_object_of_its_parts() {
    let json = small_document().to_json();
    let members = match &json {
        Json::Object(members) => members,
        other => panic!("not an object: {:?}", other),
    };
    let keys: Vec<&str> = members.iter().map(|(k, _)| k.as_str()).collect();
    assert_eq!(keys, vec!["name", "version", "settings", "template"]);
    assert!(matches!(&members[0].1, Json::Str(name) if name == "2024-plan"));
    match &members[3].1 {
        Json::Object(template) => {
            assert_eq!(template.len(), 1);
            assert_eq!(template[0].0, "groceries");
            match &template[0].1 {
                Json::Object(entry) => {
                    assert_eq!(entry.len(), 1);
                    assert_eq!(entry[0].0, "amount");
                    assert!(matches!(&entry[0].1, Json::Number(Decimal::PosInt(400))));
                }
                other => panic!("not an object: {:?}", other),
            }
        }
        other => panic!("not an object: {:?}", other),
    }
    assert_eq!(BudgetTemplate::from_json(&json), Ok(small_document()));
}

#[test]
fn the_first_member_of_a_name_counts() {
    let json = Json::Object(vec![
        (s("id"), Json::Str(s("first"))),
        (s("name"), Json::Str(s("n"))),
        (s("id"), Json::Str(s("second"))),
        (s("amount"), Json::Number(Decimal::PosInt(1))),
    ]);
    let item = LineItem::from_json(&json).unwrap();
    assert_eq!(item.id, "first");
}

#[test]
fn a_document_that_would_not_read_back_is_not_written() {
    for amount in [
        Decimal::Float(s("NaN")),
        Decimal::Float(s("inf")),
        Decimal::Float(s("")),
        Decimal::Float(s("twelve")),
        Decimal::Float(s("400.00")),
        Decimal::Float(s("1e2")),
        Decimal::Float(s("1e100")),
        Decimal::Float(s("400")),
        Decimal::Float(s(" 1.5")),
        Decimal::NegInt(5),
        Decimal::NegInt(0),
    ] {
        let mut doc = small_document();
        doc.template[0].1.amount = amount.clone();
        assert_eq!(encode(&doc), Err(EncodeError::Unreadable), "{:?}", amount);
    }
    for amount in [
        Decimal::Float(s("400.0")),
        Decimal::Float(s("-0.0")),
        Decimal::Float(s("1e+100")),
        Decimal::Float(s("1.5e-7")),
        Decimal::Float(s("0.1")),
        Decimal::NegInt(-1),
        Decimal::NegInt(i64::MIN),
        Decimal::PosInt(0),
        Decimal::PosInt(u64::MAX),
    ] {
        let mut doc = small_document();
        doc.template[0].1.amount = amount.clone();
        match encode(&doc) {
            Ok(text) => assert_eq!(decode(&text), Ok(doc), "{:?}", amount),
            Err(e) => panic!("{:?} for {:?}", e, amount),
        }
    }
}

#[test]
fn every_number_that_was_read_can_be_written() {
    for literal in ["1e100", "1E2", "0.5e-3", "-0", "-0.0", "123456789012345678901234567890", "1.0000000000000002", "4.9e-324", "0.30000000000000004", "100", "-100", "1.50"] {
        let text = with_template(&format!(r#"{{"k":{{"amount":{}}}}}"#, literal));
        let doc = decode(&text).unwrap();
        let written = encode(&doc).unwrap();
        assert_eq!(decode(&written), Ok(doc), "{}", literal);
    }
}

#[test]
fn texts_are_escaped_and_read_back() {
    let mut doc = small_document();
    doc.version = s("line\nbreak \"quoted\" back\\slash \u{1F600} \u{0007}");
    doc.template[0].0 = s("Lebensmittel/Gemüse ..");
    let text = encode(&doc).unwrap();
    assert!(text.contains("\\n"));
    assert!(text.contains("\\\"quoted\\\""));
    assert_eq!(decode(&text), Ok(doc));
}

#[test]
fn a_document_with_a_key_twice_is_not_written() {
    assert!(small_document().is_well_formed());
    assert!(full_document().is_well_formed());

    let mut doc = small_document();
    doc.template.push((s("groceries"), entry(Decimal::PosInt(1))));
    assert!(!doc.is_well_formed());
    assert_eq!(encode(&doc), Err(EncodeError::DuplicateKey));

    let mut doc = full_document();
    doc.comments[0].1.push((s("2024-01"), s("again")));
    assert!(!doc.is_well_formed());
    assert_eq!(encode(&doc), Err(EncodeError::DuplicateKey));

    let mut doc = full_document();
    doc.comments.push((s("rent"), vec![]));
    assert!(!doc.is_well_formed());

    let mut doc = full_document();
    let group = doc.unplanned[0].1[0].clone();
    doc.unplanned[0].1.push(group);
    assert!(!doc.is_well_formed());

    let mut doc = full_document();
    let entry = doc.unplanned[0].clone();
    doc.unplanned.push(entry);
    assert!(!doc.is_well_formed());

    let mut doc = full_document();
    let over = doc.scenarios[0].overrides[1].clone();
    assert!(doc.scenarios[0].is_well_formed());
    doc.scenarios[0].overrides.push(over);
    assert!(!doc.scenarios[0].is_well_formed());
    assert!(!doc.is_well_formed());
    assert_eq!(encode(&doc), Err(EncodeError::DuplicateKey));
}

#[test]
fn scenarios_may_share_an_id_and_keys_may_repeat_across_mappings() {
    let mut doc = full_document();
    assert!(doc.has_distinct_scenario_ids());
    assert!(small_document().has_distinct_scenario_ids());
    let twin = doc.scenarios[0].clone();
    doc.scenarios.push(twin);
    assert!(!doc.has_distinct_scenario_ids());
    doc.scenarios[1].id = s("s2");
    assert!(doc.has_distinct_scenario_ids());
    doc.scenarios[1].id = s("s1");
    assert!(doc.is_well_formed());
    assert_eq!(decode(&encode(&doc).unwrap()), Ok(doc));
}

#[test]
fn a_value_is_read_and_written() {
    let text = r#"{"b": [1, -2, 3.5, true, null, "x"], "a": {}}"#;
    let json = read_json(text).unwrap();
    let expected = Json::Object(vec![
        (
            s("b"),
            Json::Array(vec![
                Json::Number(Decimal::PosInt(1)),
                Json::Number(Decimal::NegInt(-2)),
                Json::Number(Decimal::Float(s("3.5"))),
                Json::Bool(true),
                Json::Null,
                Json::Str(s("x")),
            ]),
        ),
        (s("a"), Json::Object(vec![])),
    ]);
    assert_eq!(json, expected);
    assert_eq!(json.clone(), expected);
    let written = write_json(&json).unwrap();
    assert_eq!(
        written,
        "{\n  \"b\": [\n    1,\n    -2,\n    3.5,\n    true,\n    null,\n    \"x\"\n  ],\n  \"a\": {}\n}"
    );
    assert_eq!(read_json(&written), Ok(expected));
    assert!(matches!(read_json("{"), Err(DecodeError::Syntax(_))));
    let twice = Json::Object(vec![(s("k"), Json::Null), (s("k"), Json::Bool(true))]);
    assert_eq!(write_json(&twice), Err(EncodeError::Unreadable));
}

#[test]
fn a_key_that_stands_twice_in_a_text_counts_once() {
    let json = read_json(r#"{"k": 1, "other": 2, "k": 3}"#).unwrap();
    assert_eq!(
        json,
        Json::Object(vec![
            (s("k"), Json::Number(Decimal::PosInt(3))),
            (s("other"), Json::Number(Decimal::PosInt(2))),
        ])
    );
}
