//! The outbound prompt and its JSON encoding.
//!
//! The relay always sends the same shape upstream: a fixed model identifier
//! and exactly two messages — a fixed system instruction, then the caller's
//! text behind a fixed prefix.  The body bytes are written here, field by
//! field, and proved equal to their specification.

use crate::escape::{append_escaped, spec_escape};
use vstd::prelude::*;

verus! {

/// One chat message: a role and its content.
pub struct Message {
    pub role: String,
    pub content: String,
}

/// The mathematical shape of a message.
pub struct MessageModel {
    pub role: Seq<char>,
    pub content: Seq<char>,
}

impl View for Message {
    type V = MessageModel;

    open spec fn view(&self) -> MessageModel {
        MessageModel { role: self.role@, content: self.content@ }
    }
}

/// The outbound prompt: a model identifier and the messages to send.
pub struct ChatRequest {
    pub model: String,
    pub messages: Vec<Message>,
}

/// The mathematical shape of the outbound prompt.
pub struct ChatRequestModel {
    pub model: Seq<char>,
    pub messages: Seq<MessageModel>,
}

impl View for ChatRequest {
    type V = ChatRequestModel;

    open spec fn view(&self) -> ChatRequestModel {
        ChatRequestModel {
            model: self.model@,
            messages: Seq::new(self.messages@.len(), |i: int| self.messages@[i]@),
        }
    }
}

/// The fixed model identifier sent upstream.
pub open spec fn spec_model_id() -> Seq<char> {
    "mistralai/mistral-7b-instruct"@
}

/// The fixed system instruction.
pub open spec fn spec_system_prompt() -> Seq<char> {
    "You are a helpful assistant that paraphrases text."@
}

/// The fixed prefix put before the caller's text.
pub open spec fn spec_user_prefix() -> Seq<char> {
    "Paraphrase the following: "@
}

/// The prompt the relay builds for a given text: the fixed model, the fixed
/// system message, and the caller's text — empty or not — behind the fixed
/// prefix, unchanged.
pub open spec fn spec_chat_request(text: Seq<char>) -> ChatRequestModel {
    ChatRequestModel {
        model: spec_model_id(),
        messages: seq![
            MessageModel { role: "system"@, content: spec_system_prompt() },
            MessageModel { role: "user"@, content: spec_user_prefix() + text },
        ],
    }
}

/// Builds the outbound prompt for the caller's text.
pub fn build_chat_request(text: &str) -> (r: ChatRequest)
    ensures
        r@ == spec_chat_request(text@),
{
    let mut user_content = String::from_str("Paraphrase the following: ");
    user_content.append(text);
    let mut messages: Vec<Message> = Vec::new();
    messages.push(
        Message {
            role: String::from_str("system"),
            content: String::from_str("You are a helpful assistant that paraphrases text."),
        },
    );
    messages.push(Message { role: String::from_str("user"), content: user_content });
    let r = ChatRequest { model: String::from_str("mistralai/mistral-7b-instruct"), messages };
    proof {
        assert(r@.messages =~= spec_chat_request(text@).messages);
    }
    r
}

/// A string as a JSON string literal, quotes included.
pub open spec fn spec_string_json(s: Seq<char>) -> Seq<char> {
    "\""@ + spec_escape(s) + "\""@
}

/// Appends a string as a JSON string literal.
pub fn append_string_json(out: &mut String, s: &str)
    ensures
        final(out)@ == old(out)@ + spec_string_json(s@),
{
    out.append("\"");
    append_escaped(out, s);
    out.append("\"");
    proof {
        assert(out@ =~= old(out)@ + spec_string_json(s@));
    }
}

/// One message as a JSON object with its role and content, in that order.
pub open spec fn spec_message_json(m: MessageModel) -> Seq<char> {
    "{\"role\":"@ + spec_string_json(m.role) + ",\"content\":"@ + spec_string_json(m.content)
        + "}"@
}

/// Appends one message as a JSON object.
fn append_message_json(out: &mut String, m: &Message)
    ensures
        final(out)@ == old(out)@ + spec_message_json(m@),
{
    out.append("{\"role\":");
    append_string_json(out, m.role.as_str());
    out.append(",\"content\":");
    append_string_json(out, m.content.as_str());
    out.append("}");
    proof {
        assert(out@ =~= old(out)@ + spec_message_json(m@));
    }
}

/// A sequence of messages as the members of a JSON array, comma separated.
pub open spec fn spec_messages_json(ms: Seq<MessageModel>) -> Seq<char>
    decreases ms.len(),
{
    if ms.len() == 0 {
        Seq::<char>::empty()
    } else {
        spec_messages_json(ms.drop_last()) + (if ms.len() == 1 {
            Seq::<char>::empty()
        } else {
            seq![',']
        }) + spec_message_json(ms.last())
    }
}

/// The whole outbound body: the model and the message array, in that order —
/// exactly the serialization the upstream is sent.
pub open spec fn spec_chat_json(r: ChatRequestModel) -> Seq<char> {
    "{\"model\":"@ + spec_string_json(r.model) + ",\"messages\":["@ + spec_messages_json(
        r.messages,
    ) + "]}"@
}

/// Encodes the outbound prompt as the JSON body to send.
pub fn encode_chat_request(r: &ChatRequest) -> (out: String)
    ensures
        out@ == spec_chat_json(r@),
{
    let mut out = String::from_str("{\"model\":");
    append_string_json(&mut out, r.model.as_str());
    out.append(",\"messages\":[");
    let n = r.messages.len();
    let mut i: usize = 0;
    proof {
        assert(r@.messages.take(0) =~= Seq::<MessageModel>::empty());
        assert(out@ =~= "{\"model\":"@ + spec_string_json(r@.model) + ",\"messages\":["@
            + spec_messages_json(r@.messages.take(0)));
    }
    while i < n
        invariant
            i <= n,
            n == r.messages@.len(),
            out@ == "{\"model\":"@ + spec_string_json(r@.model) + ",\"messages\":["@
                + spec_messages_json(r@.messages.take(i as int)),
        decreases n - i,
    {
        if i > 0 {
            out.append(",");
        }
        append_message_json(&mut out, &r.messages[i]);
        proof {
            reveal_strlit(",");
            assert(r@.messages.take(i + 1 as int).drop_last() =~= r@.messages.take(i as int));
            assert(r@.messages.take(i + 1 as int).last() == r@.messages[i as int]);
            assert(r@.messages[i as int] == r.messages@[i as int]@);
            assert(out@ =~= "{\"model\":"@ + spec_string_json(r@.model) + ",\"messages\":["@
                + spec_messages_json(r@.messages.take(i + 1 as int)));
        }
        i += 1;
    }
    out.append("]}");
    proof {
        assert(r@.messages.take(n as int) =~= r@.messages);
        assert(out@ =~= spec_chat_json(r@));
    }
    out
}

} // verus!
