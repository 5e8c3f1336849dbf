//! The application's settings: two texts, kept as a small JSON document.

use crate::codec::{read_json, write_json, written, EncodeError, Written};
use crate::decode::{required_text, DecodeError};
use crate::encode::push_member;
use crate::json::{lemma_object_view, members_view, parsed, Json, JsonTree};
use crate::round_trip::lemma_member_push;
use crate::schema::{as_text, put, required};
use vstd::prelude::*;
use vstd::string::StringExecFns;

verus! {

/// The settings of the application: the key for the language-model service
/// and the model to ask.
#[derive(Clone, Debug, PartialEq, Eq)]
pub struct AppConfig {
    pub openai_api_key: String,
    pub openai_model: String,
}

pub ghost struct AppConfigView {
    pub openai_api_key: Seq<char>,
    pub openai_model: Seq<char>,
}

impl View for AppConfig {
    type V = AppConfigView;

    open spec fn view(&self) -> AppConfigView {
        AppConfigView { openai_api_key: self.openai_api_key@, openai_model: self.openai_model@ }
    }
}

/// The settings before anyone has set any: no key, and the smallest model.
pub open spec fn default_config() -> AppConfigView {
    AppConfigView { openai_api_key: Seq::empty(), openai_model: "gpt-4.1-nano"@ }
}

impl Default for AppConfig {
    fn default() -> (config: AppConfig)
        ensures
            config@ == default_config(),
    {
        AppConfig { openai_api_key: String::new(), openai_model: "gpt-4.1-nano".to_owned() }
    }
}

/// The JSON value that settings are written as.
pub open spec fn config_tree(config: AppConfigView) -> JsonTree {
    let m = put(Seq::empty(), "openai_api_key"@, JsonTree::Str(config.openai_api_key));
    let m = put(m, "openai_model"@, JsonTree::Str(config.openai_model));
    JsonTree::Object(m)
}

/// The settings that a JSON value is read as: both texts have to be there.
pub open spec fn config_of(tree: JsonTree) -> Option<AppConfigView> {
    match tree {
        JsonTree::Object(m) => {
            let key = required(m, "openai_api_key"@, |t: JsonTree| as_text(t));
            let model = required(m, "openai_model"@, |t: JsonTree| as_text(t));
            if key is Some && model is Some {
                Some(AppConfigView { openai_api_key: key.unwrap(), openai_model: model.unwrap() })
            } else {
                None
            }
        },
        _ => None,
    }
}

/// Settings that were written can be read back.
pub proof fn lemma_config_round_trip(config: AppConfigView)
    ensures
        config_of(config_tree(config)) == Some(config),
{
    broadcast use lemma_member_push;

    reveal_strlit("openai_api_key");
    reveal_strlit("openai_model");
    assert("openai_api_key"@.len() == 14 && "openai_model"@.len() == 12);
}

impl AppConfig {
    pub fn to_json(&self) -> (json: Json)
        ensures
            json@ == config_tree(self@),
    {
        let mut m: Vec<(String, Json)> = Vec::new();
        assert(members_view(m@) =~= Seq::empty());
        push_member(&mut m, "openai_api_key", Json::Str(self.openai_api_key.clone()));
        push_member(&mut m, "openai_model", Json::Str(self.openai_model.clone()));
        proof {
            lemma_object_view(m);
        }
        Json::Object(m)
    }

    pub fn from_json(json: &Json) -> (r: Result<AppConfig, DecodeError>)
        ensures
            r is Ok <==> config_of(json@) is Some,
            r matches Ok(out) ==> config_of(json@) == Some(out@),
            r matches Err(e) ==> e is Shape,
    {
        match json {
            Json::Object(m) => {
                proof {
                    lemma_object_view(*m);
                }
                let openai_api_key = required_text(m, "openai_api_key")?;
                let openai_model = required_text(m, "openai_model")?;
                Ok(AppConfig { openai_api_key, openai_model })
            },
            _ => Err(DecodeError::Shape),
        }
    }
}

/// What the stored settings come to: the defaults where nothing is stored,
/// else what the stored text holds.
pub ghost enum LoadedConfig {
    Syntax,
    Shape,
    Config(AppConfigView),
}

pub open spec fn config_from(stored: Option<Seq<char>>) -> LoadedConfig {
    match stored {
        None => LoadedConfig::Config(default_config()),
        Some(text) => match parsed(text) {
            None => LoadedConfig::Syntax,
            Some(tree) => match config_of(tree) {
                None => LoadedConfig::Shape,
                Some(config) => LoadedConfig::Config(config),
            },
        },
    }
}

/// The settings to work with, from the text of the settings file, or from
/// `None` where there is no such file: then the defaults hold.
pub fn load_config(stored: Option<&str>) -> (r: Result<AppConfig, DecodeError>)
    ensures
        match config_from(
            match stored {
                Some(text) => Some(text@),
                None => None,
            },
        ) {
            LoadedConfig::Syntax => r matches Err(DecodeError::Syntax(_)),
            LoadedConfig::Shape => r matches Err(DecodeError::Shape),
            LoadedConfig::Config(config) => r matches Ok(out) && out@ == config,
        },
{
    match stored {
        None => Ok(AppConfig::default()),
        Some(text) => match read_json(text) {
            Err(e) => Err(e),
            Ok(json) => AppConfig::from_json(&json),
        },
    }
}

/// The text to store for the settings: pretty-printed JSON, which
/// [`load_config`] reads as the same settings.
pub fn save_config(config: &AppConfig) -> (r: Result<String, EncodeError>)
    ensures
        match written(config_tree(config@)) {
            Written::Refused => r matches Err(EncodeError::Printer(_)),
            Written::Unreadable => r matches Err(EncodeError::Unreadable),
            Written::Text(text) => r matches Ok(out) && out@ == text,
        },
        r matches Ok(out) ==> config_from(Some(out@)) == LoadedConfig::Config(config@),
{
    proof {
        lemma_config_round_trip(config@);
    }
    write_json(&config.to_json())
}

/// The path of the settings file under a storage root.
pub open spec fn config_path_of(root: Seq<char>) -> Seq<char> {
    root + "/config.json"@
}

/// The path of the settings file: `<root>/config.json`.
pub fn config_path(root: &str) -> (path: String)
    ensures
        path@ == config_path_of(root@),
{
    let mut path = root.to_owned();
    path.append("/config.json");
    path
}

} // verus!
