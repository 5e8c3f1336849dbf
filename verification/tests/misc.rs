use budget_store::decode::{get_member, keys_distinct};
use budget_store::text::{chars_of, has_char, has_char_pair, same_text, text_le};
use budget_store::{
    account_selected, chat_reply, chat_request, completion_text, config_path, load_config,
    save_config, span_between, transaction_range, AppConfig, ChatError, ChatMessage, Date,
    DateRange, DecodeError, Decimal, Json, RangeError,
};

fn s(text: &str) -> String {
    text.to_string()
}

#[test]
fn default_settings_name_no_key() {
    let config = AppConfig::default();
    assert_eq!(config.openai_api_key, "");
    assert_eq!(config.openai_model, "gpt-4.1-nano");
}

#[test]
fn settings_that_are_not_stored_are_the_defaults() {
    assert_eq!(load_config(None), Ok(AppConfig::default()));
}

#[test]
fn settings_are_written_exactly_and_read_back() {
    let config = AppConfig { openai_api_key: s("k-123"), openai_model: s("some-model") };
    let text = save_config(&config).unwrap();
    assert_eq!(text, "{\n  \"openai_api_key\": \"k-123\",\n  \"openai_model\": \"some-model\"\n}");
    assert_eq!(load_config(Some(&text)), Ok(config));
}

#[test]
fn settings_with_any_text_read_back() {
    let config = AppConfig { openai_api_key: s("a \"key\"\n\\ ü \u{1F600}"), openai_model: s("") };
    let text = save_config(&config).unwrap();
    assert_eq!(load_config(Some(&text)), Ok(config));
}

#[test]
fn broken_settings_are_refused() {
    assert_eq!(load_config(Some("{\"openai_api_key\": \"k\"}")), Err(DecodeError::Shape));
    assert_eq!(load_config(Some("{\"openai_model\": \"m\"}")), Err(DecodeError::Shape));
    assert_eq!(
        load_config(Some("{\"openai_api_key\": null, \"openai_model\": \"m\"}")),
        Err(DecodeError::Shape)
    );
    assert_eq!(load_config(Some("[]")), Err(DecodeError::Shape));
    assert!(matches!(load_config(Some("{")), Err(DecodeError::Syntax(_))));
    assert_eq!(
        load_config(Some("{\"openai_model\": \"m\", \"extra\": 1, \"openai_api_key\": \"k\"}")),
        Ok(AppConfig { openai_api_key: s("k"), openai_model: s("m") })
    );
}

#[test]
fn the_settings_file_lies_in_the_storage_root() {
    assert_eq!(config_path("/home/u/.budgetplanner"), "/home/u/.budgetplanner/config.json");
}

#[test]
fn a_request_names_the_model_and_the_messages() {
    let messages = vec![
        ChatMessage { role: s("system"), content: s("be brief") },
        ChatMessage { role: s("user"), content: s("how am I \"doing\"?") },
    ];
    assert_eq!(
        chat_request("gpt-4.1-nano", &messages).unwrap(),
        r#"{"model":"gpt-4.1-nano","messages":[{"role":"system","content":"be brief"},{"role":"user","content":"how am I \"doing\"?"}]}"#
    );
    assert_eq!(chat_request("m", &vec![]).unwrap(), r#"{"model":"m","messages":[]}"#);
}

#[test]
fn a_reply_holds_the_first_choice() {
    let body = r#"{"id":"x","choices":[{"index":0,"message":{"role":"assistant","content":"fine"}},{"message":{"content":"second"}}]}"#;
    assert_eq!(chat_reply(true, "200 OK", body), Ok(s("fine")));
}

#[test]
fn a_reply_without_a_completion_says_so() {
    for body in [
        "{}",
        "[]",
        "null",
        r#"{"choices":[]}"#,
        r#"{"choices":{}}"#,
        r#"{"choices":[{}]}"#,
        r#"{"choices":[{"message":{}}]}"#,
        r#"{"choices":[{"message":{"content":null}}]}"#,
        r#"{"choices":[{"message":{"content":5}}]}"#,
        r#"{"choices":[["message"]]}"#,
        r#"{"choices":[{"message":"content"}]}"#,
    ] {
        assert_eq!(chat_reply(true, "200 OK", body), Err(ChatError::NoContent), "{}", body);
    }
}

#[test]
fn a_reply_that_is_no_json_is_a_syntax_error() {
    match chat_reply(true, "200 OK", "<html>") {
        Err(ChatError::Syntax(message)) => assert!(!message.is_empty()),
        other => panic!("{:?}", other),
    }
}

#[test]
fn a_refusal_carries_status_and_body() {
    assert_eq!(
        chat_reply(false, "401 Unauthorized", "{\"error\":\"bad key\"}"),
        Err(ChatError::Api { status: s("401 Unauthorized"), body: s("{\"error\":\"bad key\"}") })
    );
    let fine = r#"{"choices":[{"message":{"content":"fine"}}]}"#;
    assert!(matches!(chat_reply(false, "500", fine), Err(ChatError::Api { .. })));
}

#[test]
fn a_completion_is_found_in_a_value() {
    let message = Json::Object(vec![(s("content"), Json::Str(s("hello")))]);
    let choice = Json::Object(vec![(s("message"), message)]);
    let answer = Json::Object(vec![
        (s("model"), Json::Str(s("m"))),
        (s("choices"), Json::Array(vec![choice, Json::Null])),
    ]);
    assert_eq!(completion_text(&answer), Some(s("hello")));
    assert_eq!(completion_text(&Json::Null), None);
    assert_eq!(completion_text(&Json::Array(vec![])), None);
}

#[test]
fn no_choice_of_accounts_selects_all() {
    assert!(account_selected(&vec![], "any"));
    assert!(account_selected(&vec![], ""));
}

#[test]
fn a_choice_of_accounts_selects_its_own() {
    let chosen = vec![s("acc-1"), s("acc-2")];
    assert!(account_selected(&chosen, "acc-1"));
    assert!(account_selected(&chosen, "acc-2"));
    assert!(!account_selected(&chosen, "acc-3"));
    assert!(!account_selected(&chosen, "acc-"));
    assert!(!account_selected(&chosen, "ACC-1"));
    assert!(!account_selected(&chosen, ""));
}

#[test]
fn strings_compare_as_rust_compares_them() {
    let words = ["", "a", "A", "ab", "b", "aa", "é", "e", "z", "~", "\u{1F600}", "\u{FFFF}", "a\u{0}", "10", "9"];
    for a in words {
        for b in words {
            assert_eq!(text_le(a, b), a <= b, "{:?} <= {:?}", a, b);
            assert_eq!(same_text(a, b), a == b, "{:?} == {:?}", a, b);
        }
    }
}

#[test]
fn characters_are_found() {
    assert_eq!(chars_of("aé\u{1F600}"), vec!['a', 'é', '\u{1F600}']);
    assert_eq!(chars_of(""), Vec::<char>::new());
    assert!(has_char("a/b", '/'));
    assert!(!has_char("a\\b", '/'));
    assert!(!has_char("", '/'));
    assert!(has_char_pair("a..b", '.', '.'));
    assert!(has_char_pair("..", '.', '.'));
    assert!(!has_char_pair(".", '.', '.'));
    assert!(!has_char_pair(". .", '.', '.'));
    assert!(!has_char_pair("", '.', '.'));
    assert!(has_char_pair("xab", 'a', 'b'));
    assert!(!has_char_pair("xba", 'a', 'b'));
}

#[test]
fn members_are_looked_up_by_name() {
    let members = vec![
        (s("a"), Json::Bool(true)),
        (s("b"), Json::Null),
        (s("a"), Json::Bool(false)),
    ];
    assert!(matches!(get_member(&members, "a"), Some(Json::Bool(true))));
    assert!(matches!(get_member(&members, "b"), Some(Json::Null)));
    assert!(get_member(&members, "c").is_none());
    assert!(get_member(&members, "").is_none());
    assert!(!keys_distinct(&members));
    assert!(keys_distinct(&members[..2].to_vec()));
    assert!(keys_distinct(&vec![]));
    let _ = Decimal::PosInt(0);
}

#[test]
fn two_dates_make_a_span() {
    assert_eq!(
        transaction_range("2024-01-01", "2024-03-31"),
        Ok(DateRange { from: Date { year: 2024, month: 1, day: 1 }, to: s("2024-03-31") })
    );
    assert_eq!(
        transaction_range("2024-02-29", "2024-02-29"),
        Ok(DateRange { from: Date { year: 2024, month: 2, day: 29 }, to: s("2024-02-29") })
    );
}

#[test]
fn a_date_is_written_with_two_digits_each() {
    assert_eq!(
        transaction_range("2024-1-5", "2024-3-7"),
        Ok(DateRange { from: Date { year: 2024, month: 1, day: 5 }, to: s("2024-03-07") })
    );
}

#[test]
fn the_first_bad_date_is_reported() {
    assert_eq!(transaction_range("yesterday", "2024-03-31"), Err(RangeError::From));
    assert_eq!(transaction_range("2024-01-01", "tomorrow"), Err(RangeError::To));
    assert_eq!(transaction_range("nope", "nope"), Err(RangeError::From));
    assert_eq!(transaction_range("2023-02-29", "2024-03-31"), Err(RangeError::From));
    assert_eq!(transaction_range("2024-01-01", "2024-04-31"), Err(RangeError::To));
    assert_eq!(transaction_range("", ""), Err(RangeError::From));
    assert_eq!(transaction_range("2024-01-01", "31.03.2024"), Err(RangeError::To));
    assert_eq!(transaction_range("2024-01-01", "2024-03-31T10:00:00"), Err(RangeError::To));
}

#[test]
fn a_span_needs_both_dates_and_the_text() {
    let day = Some((2024, 1, 2));
    assert_eq!(
        span_between(day, Some((2024, 5, 6)), Some(s("2024-05-06"))),
        Ok(DateRange { from: Date { year: 2024, month: 1, day: 2 }, to: s("2024-05-06") })
    );
    assert_eq!(span_between(None, Some((2024, 5, 6)), Some(s("x"))), Err(RangeError::From));
    assert_eq!(span_between(None, None, None), Err(RangeError::From));
    assert_eq!(span_between(day, None, None), Err(RangeError::To));
    assert_eq!(span_between(day, None, Some(s("x"))), Err(RangeError::To));
    assert_eq!(span_between(day, Some((2024, 5, 6)), None), Err(RangeError::To));
}
