//! The wire protocol: text frames that carry a JSON object with a
//! discriminator under `"type"` and, for a clipboard message, the text under
//! `"data"`.

use vstd::prelude::*;
use vstd::string::StringExecFns;

verus! {

/// A message of the protocol.
#[derive(Debug, Clone, PartialEq, Eq)]
pub enum WsMessage {
    /// The peer announces a new session.
    Connect,
    /// A clipboard value; who sends it decides what it means.
    Clipboard(String),
    /// The peer asks for the current clipboard value.
    Sync,
    /// The peer says that it is alive.
    Heartbeat,
}

/// A message of the protocol, as mathematics.
pub enum MessageModel {
    Connect,
    Clipboard(Seq<char>),
    Sync,
    Heartbeat,
}

impl View for WsMessage {
    type V = MessageModel;

    open spec fn view(&self) -> MessageModel {
        match self {
            WsMessage::Connect => MessageModel::Connect,
            WsMessage::Clipboard(text) => MessageModel::Clipboard(text@),
            WsMessage::Sync => MessageModel::Sync,
            WsMessage::Heartbeat => MessageModel::Heartbeat,
        }
    }
}

/// Why a text frame is not a message of the protocol.
#[derive(Debug, Clone, Copy, PartialEq, Eq, Structural)]
pub enum DecodeError {
    /// The frame is not a JSON document.
    NotJson,
    /// The document has no string under `"type"`, or one that names no message.
    UnknownType,
    /// The payload under `"data"` does not fit the message named.
    BadPayload,
}

/// What a JSON document holds under one key.
#[derive(Debug, Clone, PartialEq, Eq)]
pub enum Member {
    /// The document is no object, or the object has no such key.
    Absent,
    /// The value `null`.
    Null,
    /// A string, unescaped.
    Text(String),
    /// A boolean, a number, an array or an object.
    Other,
}

/// What a JSON document holds under one key, as mathematics.
pub enum MemberModel {
    Absent,
    Null,
    Text(Seq<char>),
    Other,
}

impl View for Member {
    type V = MemberModel;

    open spec fn view(&self) -> MemberModel {
        match self {
            Member::Absent => MemberModel::Absent,
            Member::Null => MemberModel::Null,
            Member::Text(text) => MemberModel::Text(text@),
            Member::Other => MemberModel::Other,
        }
    }
}

/// `serde_json::Value`, a parsed JSON document. Nothing is known of what is
/// inside one but through `json_members`.
#[verifier::external_type_specification]
#[verifier::external_body]
pub struct ExJsonValue(serde_json::Value);

/// `serde_json::Error`, the reason why a text was not read or a value not
/// written. Nothing is known of what is inside one.
#[verifier::external_type_specification]
#[verifier::external_body]
pub struct ExJsonError(serde_json::Error);

/// The JSON string literal that stands for `text`, quotes and escapes
/// included, or `None` where the serialiser reports an error.
pub uninterp spec fn json_quoted(text: Seq<char>) -> Option<Seq<char>>;

/// The JSON document that `text` denotes, or `None` where `text` is not one
/// JSON document.
pub uninterp spec fn json_document(text: Seq<char>) -> Option<serde_json::Value>;

/// The members of a JSON document by key; a document that is no object has
/// none.
pub uninterp spec fn json_members(doc: serde_json::Value) -> Map<Seq<char>, MemberModel>;

/// What `doc` holds under `key`.
pub open spec fn member_at(doc: serde_json::Value, key: Seq<char>) -> MemberModel {
    if json_members(doc).contains_key(key) {
        json_members(doc)[key]
    } else {
        MemberModel::Absent
    }
}

/// `serde_json::to_string` on a string slice. The contract only gives the
/// outcome its name, `json_quoted`: the same text always yields the same
/// literal, or the same refusal.
#[verifier::external_body]
fn quote(text: &str) -> (quoted: Result<String, serde_json::Error>)
    ensures
        match quoted {
            Ok(literal) => json_quoted(text@) == Some(literal@),
            Err(_) => json_quoted(text@) is None,
        },
{
    serde_json::to_string(text)
}

/// `serde_json::from_str` at the type `serde_json::Value`. The contract only
/// gives the outcome its name, `json_document`: the same text always parses to
/// the same document, or is always refused.
#[verifier::external_body]
fn parse(text: &str) -> (parsed: Result<serde_json::Value, serde_json::Error>)
    ensures
        match parsed {
            Ok(doc) => json_document(text@) == Some(doc),
            Err(_) => json_document(text@) is None,
        },
{
    serde_json::from_str::<serde_json::Value>(text)
}

/// `serde_json::Value::get` with a string key, which finds nothing in a
/// document that is no object, followed by a look at the variant found. The
/// contract says that the result is the member that `json_members` lists
/// under `key`, and `Absent` where it lists none.
#[verifier::external_body]
fn member(doc: &serde_json::Value, key: &str) -> (found: Member)
    ensures
        found@ == if json_members(*doc).contains_key(key@) {
            json_members(*doc)[key@]
        } else {
            MemberModel::Absent
        },
{
    match doc.get(key) {
        None => Member::Absent,
        Some(serde_json::Value::Null) => Member::Null,
        Some(serde_json::Value::String(text)) => Member::Text(text.clone()),
        Some(serde_json::Value::Bool(_)) => Member::Other,
        Some(serde_json::Value::Number(_)) => Member::Other,
        Some(serde_json::Value::Array(_)) => Member::Other,
        Some(serde_json::Value::Object(_)) => Member::Other,
    }
}

/// The text frame that carries `message`, or `None` where the clipboard text
/// has no JSON literal.
pub open spec fn wire_text(message: MessageModel) -> Option<Seq<char>> {
    match message {
        MessageModel::Connect => Some("{\"type\":\"Connect\"}"@),
        MessageModel::Clipboard(text) => match json_quoted(text) {
            Some(literal) => Some(clipboard_text(literal)),
            None => None,
        },
        MessageModel::Sync => Some("{\"type\":\"Sync\"}"@),
        MessageModel::Heartbeat => Some("{\"type\":\"Heartbeat\"}"@),
    }
}

/// The text of a clipboard frame whose payload is the JSON literal `literal`.
pub open spec fn clipboard_text(literal: Seq<char>) -> Seq<char> {
    "{\"type\":\"Clipboard\",\"data\":"@ + literal + "}"@
}

/// The message that a document with `tag` under `"type"` and `data` under
/// `"data"` stands for. The discriminator is a string, one of four names, case
/// and all. A clipboard message carries a string; the other three carry
/// nothing, which may be written as `null`.
pub open spec fn message_of(tag: MemberModel, data: MemberModel) -> Result<
    MessageModel,
    DecodeError,
> {
    match tag {
        MemberModel::Text(name) => {
            if name == "Clipboard"@ {
                match data {
                    MemberModel::Text(text) => Ok(MessageModel::Clipboard(text)),
                    _ => Err(DecodeError::BadPayload),
                }
            } else if name == "Connect"@ {
                without_payload(MessageModel::Connect, data)
            } else if name == "Sync"@ {
                without_payload(MessageModel::Sync, data)
            } else if name == "Heartbeat"@ {
                without_payload(MessageModel::Heartbeat, data)
            } else {
                Err(DecodeError::UnknownType)
            }
        },
        _ => Err(DecodeError::UnknownType),
    }
}

/// `message`, provided that `data` is missing or `null`.
pub open spec fn without_payload(message: MessageModel, data: MemberModel) -> Result<
    MessageModel,
    DecodeError,
> {
    match data {
        MemberModel::Absent | MemberModel::Null => Ok(message),
        _ => Err(DecodeError::BadPayload),
    }
}

/// The message that the text frame `text` carries.
pub open spec fn decoded(text: Seq<char>) -> Result<MessageModel, DecodeError> {
    match json_document(text) {
        None => Err(DecodeError::NotJson),
        Some(doc) => message_of(member_at(doc, "type"@), member_at(doc, "data"@)),
    }
}

/// Whether `outcome` is what `expected` says, message by view and error by
/// value.
pub open spec fn decodes_as(
    outcome: Result<WsMessage, DecodeError>,
    expected: Result<MessageModel, DecodeError>,
) -> bool {
    match outcome {
        Ok(message) => expected == Ok::<MessageModel, DecodeError>(message@),
        Err(error) => expected == Err::<MessageModel, DecodeError>(error),
    }
}

fn same_text(left: &String, right: &str) -> (same: bool)
    ensures
        same == (left@ == right@),
{
    let right = String::from_str(right);
    *left == right
}

fn unit_message(message: WsMessage, data: &Member) -> (outcome: Result<WsMessage, DecodeError>)
    ensures
        decodes_as(outcome, without_payload(message@, data@)),
{
    match data {
        Member::Absent => Ok(message),
        Member::Null => Ok(message),
        _ => Err(DecodeError::BadPayload),
    }
}

/// The clipboard frame whose payload is the JSON literal `literal`.
pub fn clipboard_frame(literal: &str) -> (frame: String)
    ensures
        frame@ == clipboard_text(literal@),
{
    let mut frame = String::from_str("{\"type\":\"Clipboard\",\"data\":");
    frame.append(literal);
    frame.append("}");
    frame
}

/// Writes `message` as a text frame. The result is `None` only where the
/// clipboard text has no JSON literal.
pub fn encode(message: &WsMessage) -> (frame: Option<String>)
    ensures
        match frame {
            Some(text) => wire_text(message@) == Some(text@),
            None => wire_text(message@) is None,
        },
{
    match message {
        WsMessage::Connect => Some(String::from_str("{\"type\":\"Connect\"}")),
        WsMessage::Clipboard(text) => match quote(text.as_str()) {
            Ok(literal) => Some(clipboard_frame(literal.as_str())),
            Err(_) => None,
        },
        WsMessage::Sync => Some(String::from_str("{\"type\":\"Sync\"}")),
        WsMessage::Heartbeat => Some(String::from_str("{\"type\":\"Heartbeat\"}")),
    }
}

/// Reads a message off the two members of a frame's document: `tag` is what
/// stands under `"type"`, `data` what stands under `"data"`.
pub fn interpret(tag: Member, data: Member) -> (outcome: Result<WsMessage, DecodeError>)
    ensures
        decodes_as(outcome, message_of(tag@, data@)),
{
    match tag {
        Member::Text(name) => {
            if same_text(&name, "Clipboard") {
                match data {
                    Member::Text(text) => Ok(WsMessage::Clipboard(text)),
                    _ => Err(DecodeError::BadPayload),
                }
            } else if same_text(&name, "Connect") {
                unit_message(WsMessage::Connect, &data)
            } else if same_text(&name, "Sync") {
                unit_message(WsMessage::Sync, &data)
            } else if same_text(&name, "Heartbeat") {
                unit_message(WsMessage::Heartbeat, &data)
            } else {
                Err(DecodeError::UnknownType)
            }
        },
        _ => Err(DecodeError::UnknownType),
    }
}

/// Reads the message that a text frame carries.
pub fn decode(text: &str) -> (outcome: Result<WsMessage, DecodeError>)
    ensures
        decodes_as(outcome, decoded(text@)),
{
    match parse(text) {
        Ok(doc) => {
            let tag = member(&doc, "type");
            let data = member(&doc, "data");
            interpret(tag, data)
        },
        Err(_) => Err(DecodeError::NotJson),
    }
}

/// The frame that answers a text frame that carries no message.
pub open spec fn invalid_message_text() -> Seq<char> {
    "{\"type\":\"error\",\"data\":\"Invalid message format\"}"@
}

/// The frame that answers a binary frame.
pub open spec fn binary_unsupported_text() -> Seq<char> {
    "{\"type\":\"error\",\"data\":\"Binary messages not supported\"}"@
}

/// The frame sent in place of a greeting that cannot be written.
pub open spec fn bare_error_text() -> Seq<char> {
    "{\"type\":\"error\"}"@
}

/// The frame that answers a text frame that carries no message.
pub fn invalid_message_frame() -> (frame: String)
    ensures
        frame@ == invalid_message_text(),
{
    String::from_str("{\"type\":\"error\",\"data\":\"Invalid message format\"}")
}

/// The frame that answers a binary frame.
pub fn binary_unsupported_frame() -> (frame: String)
    ensures
        frame@ == binary_unsupported_text(),
{
    String::from_str("{\"type\":\"error\",\"data\":\"Binary messages not supported\"}")
}

/// The frame sent in place of a greeting that cannot be written.
pub fn bare_error_frame() -> (frame: String)
    ensures
        frame@ == bare_error_text(),
{
    String::from_str("{\"type\":\"error\"}")
}

} // verus!
