//! Talking to the language-model service: the body of a request, and what
//! its answer says. Sending and receiving is the host's business.

use crate::codec::EncodeError;
use crate::decode::get_member;
use crate::encode::push_member;
use crate::json::{
    complaint, items_view, lemma_array_view, lemma_object_view, members_view, parse_json, parsed,
    print_json_compact, printed_compact, Json, JsonTree,
};
use crate::schema::{as_text, member, put};
use vstd::prelude::*;

verus! {

/// One message of a conversation: who speaks, and what is said.
#[derive(Clone, Debug, PartialEq, Eq)]
pub struct ChatMessage {
    pub role: String,
    pub content: String,
}

pub ghost struct ChatMessageView {
    pub role: Seq<char>,
    pub content: Seq<char>,
}

impl DeepView for ChatMessage {
    type V = ChatMessageView;

    open spec fn deep_view(&self) -> ChatMessageView {
        ChatMessageView { role: self.role@, content: self.content@ }
    }
}

/// Why a completion could not be had from the service's answer.
#[derive(Clone, Debug, PartialEq, Eq)]
pub enum ChatError {
    /// The service answered with a status other than success.
    Api { status: String, body: String },
    /// The answer is no JSON; the parser's complaint is attached.
    Syntax(String),
    /// The answer is JSON without a completion in it.
    NoContent,
}

pub open spec fn message_tree(message: ChatMessageView) -> JsonTree {
    let m = put(Seq::empty(), "role"@, JsonTree::Str(message.role));
    let m = put(m, "content"@, JsonTree::Str(message.content));
    JsonTree::Object(m)
}

/// The body of a request: the model, and the messages in their order.
pub open spec fn request_tree(model: Seq<char>, messages: Seq<ChatMessageView>) -> JsonTree {
    let m = put(Seq::empty(), "model"@, JsonTree::Str(model));
    let m = put(
        m,
        "messages"@,
        JsonTree::Array(Seq::new(messages.len(), |i: int| message_tree(messages[i]))),
    );
    JsonTree::Object(m)
}

/// The member of an object under a key; `null` where the value is no object
/// or has no such member.
pub open spec fn at_key(tree: JsonTree, key: Seq<char>) -> JsonTree {
    match tree {
        JsonTree::Object(m) => match member(m, key) {
            Some(value) => value,
            None => JsonTree::Null,
        },
        _ => JsonTree::Null,
    }
}

/// The first item of an array; `null` where the value is no array or is
/// empty.
pub open spec fn first_item(tree: JsonTree) -> JsonTree {
    match tree {
        JsonTree::Array(items) => if items.len() > 0 {
            items[0]
        } else {
            JsonTree::Null
        },
        _ => JsonTree::Null,
    }
}

/// The completion in an answer: the text at `choices[0].message.content`.
pub open spec fn completion_of(tree: JsonTree) -> Option<Seq<char>> {
    as_text(at_key(at_key(first_item(at_key(tree, "choices"@)), "message"@), "content"@))
}

/// What an answer comes to.
pub ghost enum Reply {
    Api,
    Syntax,
    NoContent,
    Completion(Seq<char>),
}

pub open spec fn reply_of(success: bool, body: Seq<char>) -> Reply {
    if !success {
        Reply::Api
    } else {
        match parsed(body) {
            None => Reply::Syntax,
            Some(tree) => match completion_of(tree) {
                Some(text) => Reply::Completion(text),
                None => Reply::NoContent,
            },
        }
    }
}

impl ChatMessage {
    pub fn to_json(&self) -> (json: Json)
        ensures
            json@ == message_tree(self.deep_view()),
    {
        let mut m: Vec<(String, Json)> = Vec::new();
        assert(members_view(m@) =~= Seq::empty());
        push_member(&mut m, "role", Json::Str(self.role.clone()));
        push_member(&mut m, "content", Json::Str(self.content.clone()));
        proof {
            lemma_object_view(m);
        }
        Json::Object(m)
    }
}

/// The body of a request as a JSON value.
pub fn request_json(model: &str, messages: &Vec<ChatMessage>) -> (json: Json)
    ensures
        json@ == request_tree(model@, messages.deep_view()),
{
    let mut items: Vec<Json> = Vec::new();
    let mut i: usize = 0;
    while i < messages.len()
        invariant
            i <= messages.len(),
            items.len() == i,
            forall|k: int|
                0 <= k < i ==> (#[trigger] items[k])@ == message_tree(messages[k].deep_view()),
        decreases messages.len() - i,
    {
        items.push(messages[i].to_json());
        i += 1;
    }
    proof {
        lemma_array_view(items);
        assert(items_view(items@) =~= Seq::new(
            messages.deep_view().len(),
            |i: int| message_tree(messages.deep_view()[i]),
        ));
    }
    let mut m: Vec<(String, Json)> = Vec::new();
    assert(members_view(m@) =~= Seq::empty());
    push_member(&mut m, "model", Json::Str(model.to_owned()));
    push_member(&mut m, "messages", Json::Array(items));
    proof {
        lemma_object_view(m);
    }
    Json::Object(m)
}

/// The body of a request as text, on one line.
pub fn chat_request(model: &str, messages: &Vec<ChatMessage>) -> (r: Result<String, EncodeError>)
    ensures
        r is Ok <==> printed_compact(request_tree(model@, messages.deep_view())) is Some,
        r matches Ok(text) ==> printed_compact(request_tree(model@, messages.deep_view()))
            == Some(text@),
{
    let json = request_json(model, messages);
    match print_json_compact(&json) {
        Ok(text) => Ok(text),
        Err(e) => Err(EncodeError::Printer(complaint(&e))),
    }
}

/// The member of an object under a key, if the value is an object that has
/// one.
fn step_key<'a>(json: Option<&'a Json>, key: &str) -> (found: Option<&'a Json>)
    ensures
        at_key(subtree(json), key@) == subtree(found),
{
    match json {
        Some(Json::Object(m)) => {
            proof {
                lemma_object_view(*m);
            }
            get_member(m, key)
        },
        _ => None,
    }
}

/// The value that a walk has reached; `null` where it has fallen off.
pub open spec fn subtree(json: Option<&Json>) -> JsonTree {
    match json {
        Some(j) => j@,
        None => JsonTree::Null,
    }
}

/// The completion that an answer holds.
pub fn completion_text(answer: &Json) -> (text: Option<String>)
    ensures
        text.deep_view() == completion_of(answer@),
{
    let choices = step_key(Some(answer), "choices");
    let first = match choices {
        Some(Json::Array(items)) => {
            proof {
                lemma_array_view(*items);
            }
            if items.len() > 0 {
                Some(&items[0])
            } else {
                None
            }
        },
        _ => None,
    };
    assert(subtree(first) == first_item(subtree(choices)));
    let message = step_key(first, "message");
    let content = step_key(message, "content");
    match content {
        Some(Json::Str(s)) => Some(s.clone()),
        _ => None,
    }
}

/// What the service's answer says. `success` tells whether the status was
/// one of success; `status` is the status as text, for the error.
pub fn chat_reply(success: bool, status: &str, body: &str) -> (r: Result<String, ChatError>)
    ensures
        match reply_of(success, body@) {
            Reply::Api => r matches Err(ChatError::Api { status: s, body: b }) && s@ == status@
                && b@ == body@,
            Reply::Syntax => r matches Err(ChatError::Syntax(_)),
            Reply::NoContent => r matches Err(ChatError::NoContent),
            Reply::Completion(text) => r matches Ok(out) && out@ == text,
        },
{
    if !success {
        return Err(ChatError::Api { status: status.to_owned(), body: body.to_owned() });
    }
    match parse_json(body) {
        Err(e) => Err(ChatError::Syntax(complaint(&e))),
        Ok(json) => match completion_text(&json) {
            Some(text) => Ok(text),
            None => Err(ChatError::NoContent),
        },
    }
}

} // verus!
