//! A document as text: JSON, written and read by `serde_json`.

use crate::decode::DecodeError;
use crate::json::{complaint, parse_json, parsed, print_json, printed, same_json, Json, JsonTree};
use crate::model::{BudgetTemplate, BudgetTemplateView};
use crate::round_trip::lemma_document_round_trip;
use crate::schema::{document_of, document_tree};
use vstd::prelude::*;

verus! {

/// Why a value is not written as text.
#[derive(Clone, Debug, PartialEq, Eq)]
pub enum EncodeError {
    /// A mapping of the document holds a key twice: written out, one of the
    /// two values would be lost.
    DuplicateKey,
    /// The printer refused the value; its complaint is attached.
    Printer(String),
    /// The text that the printer wrote does not read back as the value: a
    /// number among the amounts is not written the way the printer writes it,
    /// or is no number at all.
    Unreadable,
}

/// What writing a value comes to.
pub ghost enum Written {
    /// The printer refuses the value.
    Refused,
    /// The printer's text does not read back as the value.
    Unreadable,
    /// The value is written as this text, which reads back as the value.
    Text(Seq<char>),
}

/// What writing a value comes to: the printer's text, where the parser reads
/// the value back from it.
pub open spec fn written(tree: JsonTree) -> Written {
    match printed(tree) {
        None => Written::Refused,
        Some(text) => if parsed(text) == Some(tree) {
            Written::Text(text)
        } else {
            Written::Unreadable
        },
    }
}

/// Reads a JSON value from text.
pub fn read_json(text: &str) -> (r: Result<Json, DecodeError>)
    ensures
        match parsed(text@) {
            Some(tree) => r matches Ok(json) && json@ == tree,
            None => r matches Err(DecodeError::Syntax(_)),
        },
{
    match parse_json(text) {
        Ok(json) => Ok(json),
        Err(e) => Err(DecodeError::Syntax(complaint(&e))),
    }
}

/// Writes a value as pretty-printed JSON and reads the text back: a text is
/// handed out only where it holds the value again.
pub fn write_json(json: &Json) -> (r: Result<String, EncodeError>)
    ensures
        match written(json@) {
            Written::Refused => r matches Err(EncodeError::Printer(_)),
            Written::Unreadable => r matches Err(EncodeError::Unreadable),
            Written::Text(text) => r matches Ok(out) && out@ == text,
        },
{
    match print_json(json) {
        Err(e) => Err(EncodeError::Printer(complaint(&e))),
        Ok(text) => match parse_json(text.as_str()) {
            Ok(back) => if same_json(&back, json) {
                Ok(text)
            } else {
                Err(EncodeError::Unreadable)
            },
            Err(_) => Err(EncodeError::Unreadable),
        },
    }
}

/// What writing a document comes to.
pub ghost enum Encoded {
    /// The document is not well-formed.
    DuplicateKey,
    /// The printer refuses the document's value.
    Refused,
    /// The printer's text does not read back as the document's value.
    Unreadable,
    /// The document is written as this text.
    Text(Seq<char>),
}

/// What writing a document comes to: the text for the value of a well-formed
/// document.
pub open spec fn encoding(doc: BudgetTemplateView) -> Encoded {
    if !doc.wf() {
        Encoded::DuplicateKey
    } else {
        match written(document_tree(doc)) {
            Written::Refused => Encoded::Refused,
            Written::Unreadable => Encoded::Unreadable,
            Written::Text(text) => Encoded::Text(text),
        }
    }
}

/// The text that a document is written as, where it is written.
pub open spec fn encoded(doc: BudgetTemplateView) -> Option<Seq<char>> {
    match encoding(doc) {
        Encoded::Text(text) => Some(text),
        _ => None,
    }
}

/// What reading a text comes to.
pub ghost enum Decoded {
    /// The text is no JSON.
    Syntax,
    /// The text is JSON of another shape than a document's.
    Shape,
    /// The text holds this document.
    Document(BudgetTemplateView),
}

/// What reading a text comes to: the document that the parsed value holds.
pub open spec fn decoded(text: Seq<char>) -> Decoded {
    match parsed(text) {
        None => Decoded::Syntax,
        Some(tree) => match document_of(tree) {
            None => Decoded::Shape,
            Some(doc) => Decoded::Document(doc),
        },
    }
}

/// Writes a document as pretty-printed JSON: the value that
/// [`BudgetTemplate::to_json`] gives, printed by `serde_json`. A document
/// that is not well-formed is refused, and so is one whose text would not
/// read back as the document: what this function hands out, [`decode`] reads
/// as the document that was written.
pub fn encode(doc: &BudgetTemplate) -> (r: Result<String, EncodeError>)
    ensures
        match encoding(doc.deep_view()) {
            Encoded::DuplicateKey => r matches Err(EncodeError::DuplicateKey),
            Encoded::Refused => r matches Err(EncodeError::Printer(_)),
            Encoded::Unreadable => r matches Err(EncodeError::Unreadable),
            Encoded::Text(text) => r matches Ok(out) && out@ == text,
        },
        r matches Ok(out) ==> decoded(out@) == Decoded::Document(doc.deep_view()),
{
    if !doc.is_well_formed() {
        return Err(EncodeError::DuplicateKey);
    }
    proof {
        lemma_encoded_reads_back(doc.deep_view());
    }
    write_json(&doc.to_json())
}

/// What is written reads back: the text of a document holds the document,
/// part for part.
pub proof fn lemma_encoded_reads_back(doc: BudgetTemplateView)
    ensures
        encoding(doc) matches Encoded::Text(text) ==> decoded(text) == Decoded::Document(doc),
{
    if doc.wf() {
        lemma_document_round_trip(doc);
    }
}

/// Reads a document from JSON text: the text parsed by `serde_json`, the
/// value read by [`BudgetTemplate::from_json`]. Fails with `Syntax` where the
/// text is no JSON and with `Shape` where the JSON is no document.
pub fn decode(text: &str) -> (r: Result<BudgetTemplate, DecodeError>)
    ensures
        match decoded(text@) {
            Decoded::Syntax => r matches Err(DecodeError::Syntax(_)),
            Decoded::Shape => r matches Err(DecodeError::Shape),
            Decoded::Document(doc) => r matches Ok(out) && out.deep_view() == doc,
        },
{
    match read_json(text) {
        Err(e) => Err(e),
        Ok(json) => BudgetTemplate::from_json(&json),
    }
}

} // verus!
