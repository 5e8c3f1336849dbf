//! Budget documents: their data model, their JSON encoding, and the rules
//! by which a store names, writes and lists them.
//!
//! The store performs no file operation itself. An operation is a sequence
//! of [`Step`]s: the host performs the [`FileOp`] that a step asks for and
//! hands the [`FileReply`] to [`resume`], until the step is
//! [`Step::Finished`].

pub mod accounts;
pub mod chat;
pub mod codec;
pub mod config;
pub mod dates;
pub mod decode;
pub mod encode;
pub mod json;
pub mod laws;
pub mod machine;
pub mod model;
pub mod round_trip;
pub mod schema;
pub mod store;
pub mod text;
pub mod valid;

pub use accounts::account_selected;
pub use chat::{chat_reply, chat_request, completion_text, ChatError, ChatMessage};
pub use codec::{decode, encode, read_json, write_json, EncodeError};
pub use config::{config_path, load_config, save_config, AppConfig};
pub use dates::{span_between, transaction_range, Date, DateRange, RangeError};
pub use decode::DecodeError;
pub use json::{Decimal, Json};
pub use machine::{
    delete_budget, list_budgets, load_budget, resume, save_budget, FileOp, FileReply, Outcome,
    Pending, Step,
};
pub use model::{
    BudgetSettings, BudgetTemplate, LineItem, Scenario, ScenarioOverride, TemplateEntry,
    UnplannedTransaction, VirtualItem,
};
pub use store::{budget_path, budgets_dir, names_of, temp_path, IoStep, Store, StoreError};
