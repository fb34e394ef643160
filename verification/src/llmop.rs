//! Requests to the inference server: the endpoints, the chat data model and
//! the layout of what is posted.

use vstd::prelude::*;
use vstd::string::*;
use crate::conf::{endpoint_url, Config};
use crate::error::ErrorKind;
use crate::json::{json_quoted, quote};
use crate::text::same_text;

verus! {

/// The endpoint that completes a prompt.
pub const OLLA_GEN: &'static str = "/api/generate";

/// The endpoint that computes embeddings.
pub const OLLA_EMBED: &'static str = "/api/embeddings";

/// The endpoint that answers a chat.
pub const OLLA_CHAT: &'static str = "/api/chat";

/// Parameters of a completion request.
#[derive(Debug)]
pub struct GenerateParams {
    pub prompt: String,
    pub model: String,
    /// The format asked of the answer; the server accepts `json` only.
    pub format: String,
}

/// One HTTP POST that is ready to be sent: where to, and with which body.
#[derive(Debug)]
pub struct PostRequest {
    pub url: String,
    pub body: String,
}

/// The completion request for `prompt`: it goes to the completion endpoint of
/// the configured server and carries the prompt, unchanged, as its body.
pub fn ollama_generate(config: &Config, prompt: &str) -> (post: PostRequest)
    ensures
        post.url@ == endpoint_url(config@, OLLA_GEN@),
        post.body@ == prompt@,
{
    PostRequest { url: config.endpoint(OLLA_GEN), body: String::from_str(prompt) }
}


/// Who speaks in a turn of a conversation.
#[derive(Clone, Copy, Debug, PartialEq, Eq, Structural)]
pub enum Role {
    User,
    Assistant,
    System,
}

impl Role {
    /// The name of the role on the wire.
    pub open spec fn wire_name(self) -> Seq<char> {
        match self {
            Role::User => "user"@,
            Role::Assistant => "assistant"@,
            Role::System => "system"@,
        }
    }

    /// The role that `name` stands for on the wire, if it stands for one.
    pub open spec fn from_wire_name(name: Seq<char>) -> Option<Role> {
        if name == "user"@ {
            Some(Role::User)
        } else if name == "assistant"@ {
            Some(Role::Assistant)
        } else if name == "system"@ {
            Some(Role::System)
        } else {
            None
        }
    }

    /// Returns the name of the role on the wire.
    pub fn name(self) -> (name: &'static str)
        ensures
            name@ == self.wire_name(),
    {
        match self {
            Role::User => "user",
            Role::Assistant => "assistant",
            Role::System => "system",
        }
    }

    /// Reads a role from its name on the wire. Any other text, a name in
    /// another case included, is no role.
    pub fn parse(name: &str) -> (role: Option<Role>)
        ensures
            role == Role::from_wire_name(name@),
    {
        if same_text(name, "user") {
            Some(Role::User)
        } else if same_text(name, "assistant") {
            Some(Role::Assistant)
        } else if same_text(name, "system") {
            Some(Role::System)
        } else {
            None
        }
    }

    /// Every role is read back from its own name.
    pub proof fn lemma_name_round_trip(role: Role)
        ensures
            Role::from_wire_name(role.wire_name()) == Some(role),
    {
        reveal_strlit("user");
        reveal_strlit("assistant");
        reveal_strlit("system");
        assert("user"@.len() == 4);
        assert("assistant"@.len() == 9);
        assert("system"@.len() == 6);
    }
}

/// One turn of a conversation.
#[derive(Debug)]
pub struct ChatMessage {
    pub role: Role,
    pub content: String,
}

/// A [`ChatMessage`] with its content as a sequence of characters.
pub struct ChatMessageView {
    pub role: Role,
    pub content: Seq<char>,
}

impl View for ChatMessage {
    type V = ChatMessageView;

    open spec fn view(&self) -> ChatMessageView {
        ChatMessageView { role: self.role, content: self.content@ }
    }
}

/// What is posted to the chat endpoint: the conversation so far, the model
/// that is to answer, and whether the answer is to arrive incrementally.
#[derive(Debug)]
pub struct ChatRequest {
    pub messages: Vec<ChatMessage>,
    pub model: String,
    pub stream: bool,
}

/// A [`ChatRequest`] with its texts as sequences of characters.
pub struct ChatRequestView {
    pub messages: Seq<ChatMessageView>,
    pub model: Seq<char>,
    pub stream: bool,
}

impl View for ChatRequest {
    type V = ChatRequestView;

    open spec fn view(&self) -> ChatRequestView {
        ChatRequestView {
            messages: Seq::new(self.messages@.len(), |i: int| self.messages@[i]@),
            model: self.model@,
            stream: self.stream,
        }
    }
}

/// The request that puts `prompt` to `model` as the single turn of the user
/// and asks for an incremental answer.
pub open spec fn single_turn(prompt: Seq<char>, model: Seq<char>) -> ChatRequestView {
    ChatRequestView {
        messages: seq![ChatMessageView { role: Role::User, content: prompt }],
        model: model,
        stream: true,
    }
}

/// The JSON object of one message: its role, then its content.
pub open spec fn message_json(message: ChatMessageView) -> Option<Seq<char>> {
    match json_quoted(message.content) {
        Some(content) => Some(
            "{\"role\":\""@ + message.role.wire_name() + "\",\"content\":"@ + content + "}"@,
        ),
        None => None,
    }
}

/// The JSON objects of `messages` in order, separated by commas. `None` where
/// the content of one of them cannot be written.
pub open spec fn message_list_json(messages: Seq<ChatMessageView>) -> Option<Seq<char>>
    decreases messages.len(),
{
    if messages.len() == 0 {
        Some(Seq::empty())
    } else {
        match (message_list_json(messages.drop_last()), message_json(messages.last())) {
            (Some(front), Some(last)) => Some(
                if messages.len() == 1 {
                    last
                } else {
                    front + ","@ + last
                },
            ),
            _ => None,
        }
    }
}

/// The body of a chat request: one JSON object with the members `messages`,
/// `model` and `stream`, in that order and without insignificant whitespace.
/// `None` where one of its texts cannot be written.
pub open spec fn request_json(request: ChatRequestView) -> Option<Seq<char>> {
    match (message_list_json(request.messages), json_quoted(request.model)) {
        (Some(list), Some(model)) => Some(
            "{\"messages\":["@ + list + "],\"model\":"@ + model + ",\"stream\":"@ + (if request.stream {
                "true"@
            } else {
                "false"@
            }) + "}"@,
        ),
        _ => None,
    }
}

/// A list of messages can be written only if each of its messages can.
pub proof fn lemma_message_list_needs_each(messages: Seq<ChatMessageView>, k: int)
    requires
        0 <= k < messages.len(),
        message_json(messages[k]) is None,
    ensures
        message_list_json(messages) is None,
    decreases messages.len(),
{
    if k < messages.len() - 1 {
        lemma_message_list_needs_each(messages.drop_last(), k);
    }
}

impl ChatRequest {
    /// Builds the request that puts `prompt` to `model`: one message of the
    /// user, with streaming switched on. An empty prompt is a legal, empty
    /// message. The model has to be named: with an empty `model` there is no
    /// request.
    pub fn for_prompt(prompt: &str, model: &str) -> (request: Option<ChatRequest>)
        ensures
            request is Some <==> model@.len() > 0,
            request matches Some(r) ==> r@ == single_turn(prompt@, model@),
    {
        if model.is_empty() {
            return None;
        }
        let mut messages: Vec<ChatMessage> = Vec::new();
        messages.push(ChatMessage { role: Role::User, content: String::from_str(prompt) });
        let request = ChatRequest { messages, model: String::from_str(model), stream: true };
        assert(request@.messages =~= single_turn(prompt@, model@).messages);
        Some(request)
    }

    /// Writes the request as the JSON body that the chat endpoint expects.
    /// Fails with [`ErrorKind::Serialization`] exactly where one of its texts
    /// cannot be written.
    pub fn to_json(&self) -> (body: Result<String, ErrorKind>)
        ensures
            match body {
                Ok(text) => request_json(self@) == Some(text@),
                Err(kind) => kind == ErrorKind::Serialization && request_json(self@) is None,
            },
    {
        let mut list = String::new();
        let mut i: usize = 0;
        while i < self.messages.len()
            invariant
                i <= self.messages.len(),
                message_list_json(self@.messages.take(i as int)) == Some(list@),
            decreases self.messages.len() - i,
        {
            let message = &self.messages[i];
            let ghost front = self@.messages.take(i as int);
            let ghost upto = self@.messages.take(i + 1);
            assert(upto.drop_last() =~= front);
            assert(upto.last() == message@);
            match quote(message.content.as_str()) {
                Ok(content) => {
                    if i > 0 {
                        list.append(",");
                    }
                    list.append("{\"role\":\"");
                    list.append(message.role.name());
                    list.append("\",\"content\":");
                    list.append(content.as_str());
                    list.append("}");
                    assert(list@ =~= message_list_json(upto)->0);
                },
                Err(_) => {
                    proof {
                        lemma_message_list_needs_each(self@.messages, i as int);
                    }
                    return Err(ErrorKind::Serialization);
                },
            }
            i += 1;
        }
        assert(self@.messages.take(i as int) =~= self@.messages);
        match quote(self.model.as_str()) {
            Ok(model) => {
                let mut text = String::from_str("{\"messages\":[");
                text.append(list.as_str());
                text.append("],\"model\":");
                text.append(model.as_str());
                text.append(",\"stream\":");
                text.append(if self.stream { "true" } else { "false" });
                text.append("}");
                Ok(text)
            },
            Err(_) => Err(ErrorKind::Serialization),
        }
    }
}

/// The chat request as a POST to the chat endpoint of the configured server.
/// Fails with [`ErrorKind::Serialization`] exactly where the request cannot
/// be written.
pub fn chat_post(config: &Config, request: &ChatRequest) -> (post: Result<PostRequest, ErrorKind>)
    ensures
        match post {
            Ok(p) => p.url@ == endpoint_url(config@, OLLA_CHAT@) && request_json(request@) == Some(
                p.body@,
            ),
            Err(kind) => kind == ErrorKind::Serialization && request_json(request@) is None,
        },
{
    match request.to_json() {
        Ok(body) => Ok(PostRequest { url: config.endpoint(OLLA_CHAT), body }),
        Err(kind) => Err(kind),
    }
}

} // verus!
