//! The response record: what one line of the response stream holds, and how
//! a line is decoded into it.
//!
//! Decoding has three steps. The line is read as UTF-8. The text is read as
//! one JSON object and the members of a record are looked up in it. The
//! record is put together from what was found. The first two steps lean on
//! the trusted reader in [`crate::json`]; the rules of the protocol sit in
//! the last one, [`assemble`], which is plain verified logic.

use vstd::prelude::*;
use vstd::utf8::*;
use crate::error::ErrorKind;
use crate::json::{
    json_members, json_scalar, members_view, parse_members, parse_scalar, Member, Scalar,
    ScalarView,
};
use crate::llmop::{ChatMessage, ChatMessageView, Role};
use crate::text::{same_text, utf8_text};

verus! {

/// One decoded unit of the response stream.
#[derive(Debug)]
pub struct ChatResponseRecord {
    /// The piece of the answer that this record carries, if it carries one.
    pub message: Option<ChatMessage>,
    pub model: String,
    /// When the server made the record, as the server wrote it.
    pub created_at: String,
    pub total_duration_ns: u64,
    pub load_duration_ns: u64,
    pub prompt_eval_duration_ns: u64,
    pub eval_duration_ns: u64,
    pub eval_count: u64,
    /// Whether this is the terminal record of the stream.
    pub done: bool,
}

/// A [`ChatResponseRecord`] with its texts as sequences of characters.
pub struct RecordView {
    pub message: Option<ChatMessageView>,
    pub model: Seq<char>,
    pub created_at: Seq<char>,
    pub total_duration_ns: u64,
    pub load_duration_ns: u64,
    pub prompt_eval_duration_ns: u64,
    pub eval_duration_ns: u64,
    pub eval_count: u64,
    pub done: bool,
}

impl RecordView {
    /// The text that the record adds to the answer: the content of its
    /// message, and nothing where it has no message.
    pub open spec fn content(self) -> Seq<char> {
        match self.message {
            Some(message) => message.content,
            None => Seq::empty(),
        }
    }
}

impl View for ChatResponseRecord {
    type V = RecordView;

    open spec fn view(&self) -> RecordView {
        RecordView {
            message: match self.message {
                Some(message) => Some(message@),
                None => None,
            },
            model: self.model@,
            created_at: self.created_at@,
            total_duration_ns: self.total_duration_ns,
            load_duration_ns: self.load_duration_ns,
            prompt_eval_duration_ns: self.prompt_eval_duration_ns,
            eval_duration_ns: self.eval_duration_ns,
            eval_count: self.eval_count,
            done: self.done,
        }
    }
}

/// The records of a list, each by its view.
pub open spec fn records_view(records: Seq<ChatResponseRecord>) -> Seq<RecordView> {
    Seq::new(records.len(), |i: int| records[i]@)
}

/// The number of nanoseconds in a second.
pub const NANOS_PER_SECOND: u64 = 1_000_000_000;

/// A duration as whole seconds and the nanoseconds beyond them.
#[derive(Clone, Copy, Debug, PartialEq, Eq, Structural)]
pub struct Seconds {
    pub whole: u64,
    pub nanos: u32,
}

/// Splits a duration in nanoseconds into whole seconds and the remainder.
pub fn seconds_of(nanoseconds: u64) -> (seconds: Seconds)
    ensures
        seconds.whole * NANOS_PER_SECOND + seconds.nanos == nanoseconds,
        seconds.nanos < NANOS_PER_SECOND,
{
    Seconds {
        whole: nanoseconds / NANOS_PER_SECOND,
        nanos: (nanoseconds % NANOS_PER_SECOND) as u32,
    }
}

impl ChatResponseRecord {
    /// The text that the record adds to the answer: the content of its
    /// message, and the empty text where it has no message.
    pub fn content(&self) -> (text: &str)
        ensures
            text@ == self@.content(),
    {
        match &self.message {
            Some(message) => message.content.as_str(),
            None => {
                let text = "";
                proof {
                    reveal_strlit("");
                }
                assert(text@ =~= Seq::<char>::empty());
                text
            },
        }
    }

    /// How long the whole request took, in seconds.
    pub fn total_duration(&self) -> (seconds: Seconds)
        ensures
            seconds.whole * NANOS_PER_SECOND + seconds.nanos == self.total_duration_ns,
            seconds.nanos < NANOS_PER_SECOND,
    {
        seconds_of(self.total_duration_ns)
    }

    /// How long loading the model took, in seconds.
    pub fn load_duration(&self) -> (seconds: Seconds)
        ensures
            seconds.whole * NANOS_PER_SECOND + seconds.nanos == self.load_duration_ns,
            seconds.nanos < NANOS_PER_SECOND,
    {
        seconds_of(self.load_duration_ns)
    }

    /// How long evaluating the prompt took, in seconds.
    pub fn prompt_eval_duration(&self) -> (seconds: Seconds)
        ensures
            seconds.whole * NANOS_PER_SECOND + seconds.nanos == self.prompt_eval_duration_ns,
            seconds.nanos < NANOS_PER_SECOND,
    {
        seconds_of(self.prompt_eval_duration_ns)
    }

    /// How long generating the answer took, in seconds.
    pub fn eval_duration(&self) -> (seconds: Seconds)
        ensures
            seconds.whole * NANOS_PER_SECOND + seconds.nanos == self.eval_duration_ns,
            seconds.nanos < NANOS_PER_SECOND,
    {
        seconds_of(self.eval_duration_ns)
    }
}

/// What was found under the key `message` of a record.
#[derive(Debug)]
pub enum MessageFields {
    /// No such member, or the member is `null`.
    Absent,
    /// The member is there and is neither `null` nor an object.
    Malformed,
    /// The member is an object. `role` and `content` are the texts of its
    /// members of those names; one that is missing or is not a string is
    /// `None`.
    Object { role: Option<String>, content: Option<String> },
}

/// A [`MessageFields`] with its texts as sequences of characters.
pub enum MessageFieldsView {
    Absent,
    Malformed,
    Object { role: Option<Seq<char>>, content: Option<Seq<char>> },
}

/// What was found in the JSON object of a record. A member that is missing,
/// or whose value is not of the type that the record asks for, is `None`.
#[derive(Debug)]
pub struct RecordFields {
    pub message: MessageFields,
    pub model: Option<String>,
    pub created_at: Option<String>,
    pub total_duration_ns: Option<u64>,
    pub load_duration_ns: Option<u64>,
    pub prompt_eval_duration_ns: Option<u64>,
    pub eval_duration_ns: Option<u64>,
    pub eval_count: Option<u64>,
    pub done: Option<bool>,
}

/// A [`RecordFields`] with its texts as sequences of characters.
pub struct RecordFieldsView {
    pub message: MessageFieldsView,
    pub model: Option<Seq<char>>,
    pub created_at: Option<Seq<char>>,
    pub total_duration_ns: Option<u64>,
    pub load_duration_ns: Option<u64>,
    pub prompt_eval_duration_ns: Option<u64>,
    pub eval_duration_ns: Option<u64>,
    pub eval_count: Option<u64>,
    pub done: Option<bool>,
}

/// An optional text as an optional sequence of characters.
pub open spec fn text_view(text: Option<String>) -> Option<Seq<char>> {
    match text {
        Some(t) => Some(t@),
        None => None,
    }
}

impl View for MessageFields {
    type V = MessageFieldsView;

    open spec fn view(&self) -> MessageFieldsView {
        match self {
            MessageFields::Absent => MessageFieldsView::Absent,
            MessageFields::Malformed => MessageFieldsView::Malformed,
            MessageFields::Object { role, content } => MessageFieldsView::Object {
                role: text_view(*role),
                content: text_view(*content),
            },
        }
    }
}

impl View for RecordFields {
    type V = RecordFieldsView;

    open spec fn view(&self) -> RecordFieldsView {
        RecordFieldsView {
            message: self.message@,
            model: text_view(self.model),
            created_at: text_view(self.created_at),
            total_duration_ns: self.total_duration_ns,
            load_duration_ns: self.load_duration_ns,
            prompt_eval_duration_ns: self.prompt_eval_duration_ns,
            eval_duration_ns: self.eval_duration_ns,
            eval_count: self.eval_count,
            done: self.done,
        }
    }
}

/// The outcome of decoding a record, with the record by its view.
pub open spec fn decoded_view(decoded: Result<ChatResponseRecord, ErrorKind>) -> Result<
    RecordView,
    ErrorKind,
> {
    match decoded {
        Ok(record) => Ok(record@),
        Err(kind) => Err(kind),
    }
}

/// The text of the value of the first member of `members` whose key is
/// `key`.
pub open spec fn member_raw(members: Seq<(Seq<char>, Seq<char>)>, key: Seq<char>) -> Option<
    Seq<char>,
>
    decreases members.len(),
{
    if members.len() == 0 {
        None
    } else if members[0].0 == key {
        Some(members[0].1)
    } else {
        member_raw(members.drop_first(), key)
    }
}

/// The value of the member `key` where it is a JSON string.
pub open spec fn member_text(members: Seq<(Seq<char>, Seq<char>)>, key: Seq<char>) -> Option<
    Seq<char>,
> {
    match member_raw(members, key) {
        Some(raw) => match json_scalar(raw) {
            Some(ScalarView::Text(text)) => Some(text),
            _ => None,
        },
        None => None,
    }
}

/// The value of the member `key` where it is a non-negative integer that
/// fits 64 bits.
pub open spec fn member_u64(members: Seq<(Seq<char>, Seq<char>)>, key: Seq<char>) -> Option<u64> {
    match member_raw(members, key) {
        Some(raw) => match json_scalar(raw) {
            Some(ScalarView::Number(Some(n))) => Some(n),
            _ => None,
        },
        None => None,
    }
}

/// The value of the member `key` where it is `true` or `false`.
pub open spec fn member_bool(members: Seq<(Seq<char>, Seq<char>)>, key: Seq<char>) -> Option<
    bool,
> {
    match member_raw(members, key) {
        Some(raw) => match json_scalar(raw) {
            Some(ScalarView::Bool(b)) => Some(b),
            _ => None,
        },
        None => None,
    }
}

/// What the member `message` of a record holds.
pub open spec fn message_fields(members: Seq<(Seq<char>, Seq<char>)>) -> MessageFieldsView {
    match member_raw(members, "message"@) {
        None => MessageFieldsView::Absent,
        Some(raw) => match json_scalar(raw) {
            Some(ScalarView::Null) => MessageFieldsView::Absent,
            Some(ScalarView::Object) => match json_members(raw) {
                Some(inner) => MessageFieldsView::Object {
                    role: member_text(inner, "role"@),
                    content: member_text(inner, "content"@),
                },
                None => MessageFieldsView::Malformed,
            },
            _ => MessageFieldsView::Malformed,
        },
    }
}

/// What the members of a record hold, each looked up under the name of its
/// field.
pub open spec fn record_fields(members: Seq<(Seq<char>, Seq<char>)>) -> RecordFieldsView {
    RecordFieldsView {
        message: message_fields(members),
        model: member_text(members, "model"@),
        created_at: member_text(members, "created_at"@),
        total_duration_ns: member_u64(members, "total_duration_ns"@),
        load_duration_ns: member_u64(members, "load_duration_ns"@),
        prompt_eval_duration_ns: member_u64(members, "prompt_eval_duration_ns"@),
        eval_duration_ns: member_u64(members, "eval_duration_ns"@),
        eval_count: member_u64(members, "eval_count"@),
        done: member_bool(members, "done"@),
    }
}

/// The message of a record, from what was found under `message`: none where
/// the member is absent, the message where it is an object with a known role
/// and a content, and a violation of the protocol otherwise.
pub open spec fn assemble_message(fields: MessageFieldsView) -> Result<
    Option<ChatMessageView>,
    ErrorKind,
> {
    match fields {
        MessageFieldsView::Absent => Ok(None),
        MessageFieldsView::Malformed => Err(ErrorKind::Protocol),
        MessageFieldsView::Object { role: Some(role), content: Some(content) } => {
            match Role::from_wire_name(role) {
                Some(role) => Ok(Some(ChatMessageView { role: role, content: content })),
                None => Err(ErrorKind::Protocol),
            }
        },
        MessageFieldsView::Object { .. } => Err(ErrorKind::Protocol),
    }
}

/// Whether every member that a record must have was found.
pub open spec fn has_required(fields: RecordFieldsView) -> bool {
    &&& fields.model is Some
    &&& fields.created_at is Some
    &&& fields.total_duration_ns is Some
    &&& fields.load_duration_ns is Some
    &&& fields.prompt_eval_duration_ns is Some
    &&& fields.eval_duration_ns is Some
    &&& fields.eval_count is Some
    &&& fields.done is Some
}

/// The record that `fields` make up. The message is optional; every other
/// field is required. A missing or ill-typed required field, a message that
/// is not an object, lacks a role or a content, or names an unknown role, is
/// a violation of the protocol.
pub open spec fn assemble_spec(fields: RecordFieldsView) -> Result<RecordView, ErrorKind> {
    match assemble_message(fields.message) {
        Err(kind) => Err(kind),
        Ok(message) => if has_required(fields) {
            Ok(
                RecordView {
                    message: message,
                    model: fields.model->0,
                    created_at: fields.created_at->0,
                    total_duration_ns: fields.total_duration_ns->0,
                    load_duration_ns: fields.load_duration_ns->0,
                    prompt_eval_duration_ns: fields.prompt_eval_duration_ns->0,
                    eval_duration_ns: fields.eval_duration_ns->0,
                    eval_count: fields.eval_count->0,
                    done: fields.done->0,
                },
            )
        } else {
            Err(ErrorKind::Protocol)
        },
    }
}

/// The record that `text` encodes: `text` has to be one JSON object whose
/// members make up a record.
pub open spec fn decode_text_spec(text: Seq<char>) -> Result<RecordView, ErrorKind> {
    match json_members(text) {
        Some(members) => assemble_spec(record_fields(members)),
        None => Err(ErrorKind::Protocol),
    }
}

/// The record that the bytes of one line encode: the line has to be
/// well-formed UTF-8, or the failure is one of encoding, and its text has to
/// encode a record, or the failure is one of protocol.
pub open spec fn decode_line_spec(line: Seq<u8>) -> Result<RecordView, ErrorKind> {
    if valid_utf8(line) {
        decode_text_spec(decode_utf8(line))
    } else {
        Err(ErrorKind::Encoding)
    }
}

/// Looks up the first member of `members` whose key is `key` and returns the
/// text of its value.
pub fn find_member<'a>(members: &'a Vec<Member>, key: &str) -> (found: Option<&'a str>)
    ensures
        match found {
            Some(raw) => member_raw(members_view(members@), key@) == Some(raw@),
            None => member_raw(members_view(members@), key@) is None,
        },
{
    let ghost all = members_view(members@);
    let mut i: usize = 0;
    assert(all.skip(0) =~= all);
    while i < members.len()
        invariant
            i <= members.len(),
            all == members_view(members@),
            member_raw(all, key@) == member_raw(all.skip(i as int), key@),
        decreases members.len() - i,
    {
        let ghost rest = all.skip(i as int);
        assert(rest[0] == members@[i as int]@);
        assert(rest.drop_first() =~= all.skip(i + 1));
        if same_text(members[i].key.as_str(), key) {
            return Some(members[i].raw.as_str());
        }
        i += 1;
    }
    None
}

/// Reads the member `key` as a JSON string.
pub fn read_text(members: &Vec<Member>, key: &str) -> (text: Option<String>)
    ensures
        text_view(text) == member_text(members_view(members@), key@),
{
    match find_member(members, key) {
        Some(raw) => match parse_scalar(raw) {
            Ok(Scalar::Text(text)) => Some(text),
            _ => None,
        },
        None => None,
    }
}

/// Reads the member `key` as a non-negative integer that fits 64 bits.
pub fn read_u64(members: &Vec<Member>, key: &str) -> (number: Option<u64>)
    ensures
        number == member_u64(members_view(members@), key@),
{
    match find_member(members, key) {
        Some(raw) => match parse_scalar(raw) {
            Ok(Scalar::Number(Some(n))) => Some(n),
            _ => None,
        },
        None => None,
    }
}

/// Reads the member `key` as `true` or `false`.
pub fn read_bool(members: &Vec<Member>, key: &str) -> (flag: Option<bool>)
    ensures
        flag == member_bool(members_view(members@), key@),
{
    match find_member(members, key) {
        Some(raw) => match parse_scalar(raw) {
            Ok(Scalar::Bool(b)) => Some(b),
            _ => None,
        },
        None => None,
    }
}

/// Reads the member `message` of a record.
pub fn read_message(members: &Vec<Member>) -> (fields: MessageFields)
    ensures
        fields@ == message_fields(members_view(members@)),
{
    match find_member(members, "message") {
        None => MessageFields::Absent,
        Some(raw) => match parse_scalar(raw) {
            Ok(Scalar::Null) => MessageFields::Absent,
            Ok(Scalar::Object) => match parse_members(raw) {
                Ok(inner) => MessageFields::Object {
                    role: read_text(&inner, "role"),
                    content: read_text(&inner, "content"),
                },
                Err(_) => MessageFields::Malformed,
            },
            _ => MessageFields::Malformed,
        },
    }
}

/// Reads the members of a record, each under the name of its field.
pub fn read_fields(members: &Vec<Member>) -> (fields: RecordFields)
    ensures
        fields@ == record_fields(members_view(members@)),
{
    RecordFields {
        message: read_message(members),
        model: read_text(members, "model"),
        created_at: read_text(members, "created_at"),
        total_duration_ns: read_u64(members, "total_duration_ns"),
        load_duration_ns: read_u64(members, "load_duration_ns"),
        prompt_eval_duration_ns: read_u64(members, "prompt_eval_duration_ns"),
        eval_duration_ns: read_u64(members, "eval_duration_ns"),
        eval_count: read_u64(members, "eval_count"),
        done: read_bool(members, "done"),
    }
}

/// Puts a record together from what was found in its JSON object, or fails
/// with [`ErrorKind::Protocol`] where that does not make up a record.
pub fn assemble(fields: RecordFields) -> (record: Result<ChatResponseRecord, ErrorKind>)
    ensures
        decoded_view(record) == assemble_spec(fields@),
{
    let message = match fields.message {
        MessageFields::Absent => None,
        MessageFields::Malformed => {
            return Err(ErrorKind::Protocol);
        },
        MessageFields::Object { role: Some(role), content: Some(content) } => {
            match Role::parse(role.as_str()) {
                Some(role) => Some(ChatMessage { role, content }),
                None => {
                    return Err(ErrorKind::Protocol);
                },
            }
        },
        MessageFields::Object { .. } => {
            return Err(ErrorKind::Protocol);
        },
    };
    match (
        fields.model,
        fields.created_at,
        fields.total_duration_ns,
        fields.load_duration_ns,
        fields.prompt_eval_duration_ns,
        fields.eval_duration_ns,
        fields.eval_count,
        fields.done,
    ) {
        (
            Some(model),
            Some(created_at),
            Some(total_duration_ns),
            Some(load_duration_ns),
            Some(prompt_eval_duration_ns),
            Some(eval_duration_ns),
            Some(eval_count),
            Some(done),
        ) => Ok(
            ChatResponseRecord {
                message,
                model,
                created_at,
                total_duration_ns,
                load_duration_ns,
                prompt_eval_duration_ns,
                eval_duration_ns,
                eval_count,
                done,
            },
        ),
        _ => Err(ErrorKind::Protocol),
    }
}

/// Decodes the text of one line into a record.
pub fn decode_text(text: &str) -> (record: Result<ChatResponseRecord, ErrorKind>)
    ensures
        decoded_view(record) == decode_text_spec(text@),
{
    match parse_members(text) {
        Ok(members) => assemble(read_fields(&members)),
        Err(_) => Err(ErrorKind::Protocol),
    }
}

/// Decodes the bytes of one line into a record. Bytes that are not UTF-8 are
/// never repaired or skipped: they fail the line with
/// [`ErrorKind::Encoding`].
pub fn decode_line(line: &[u8]) -> (record: Result<ChatResponseRecord, ErrorKind>)
    ensures
        decoded_view(record) == decode_line_spec(line@),
{
    match utf8_text(line) {
        Some(text) => decode_text(text),
        None => Err(ErrorKind::Encoding),
    }
}

} // verus!
