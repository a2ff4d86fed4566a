//! The relay's decisions, from the inbound text to the answer.
//!
//! Each inbound request runs through two verified steps with the one
//! outbound network call between them.  [`plan_paraphrase`] decides, from
//! the credential and the caller's text, either to answer at once (no
//! credential) or exactly what to send upstream.  [`respond_to_outcome`]
//! decides, from how that call ended, the status and body the relay
//! answers.  The surrounding binary performs the call and nothing else.

use crate::chat::{
    append_string_json, build_chat_request, encode_chat_request, spec_chat_json,
    spec_chat_request, spec_string_json,
};
use crate::json::{
    extracted_reply, parse_document, spec_content, spec_fallback_reply, spec_parse_document,
    spec_reply_of, JsonValue,
};
use vstd::prelude::*;

verus! {

/// What the relay answers: a status code and the bytes of the body.
pub struct RelayResponse {
    pub status: u16,
    pub body: String,
}

/// The mathematical shape of a response.
pub struct ResponseModel {
    pub status: int,
    pub body: Seq<char>,
}

impl View for RelayResponse {
    type V = ResponseModel;

    open spec fn view(&self) -> ResponseModel {
        ResponseModel { status: self.status as int, body: self.body@ }
    }
}

/// Everything the one outbound call needs: where to send it, the three
/// header values, and the body bytes.
pub struct OutboundCall {
    pub url: String,
    pub authorization: String,
    pub referer: String,
    pub title: String,
    pub body: String,
}

/// The mathematical shape of an outbound call.
pub struct CallModel {
    pub url: Seq<char>,
    pub authorization: Seq<char>,
    pub referer: Seq<char>,
    pub title: Seq<char>,
    pub body: Seq<char>,
}

impl View for OutboundCall {
    type V = CallModel;

    open spec fn view(&self) -> CallModel {
        CallModel {
            url: self.url@,
            authorization: self.authorization@,
            referer: self.referer@,
            title: self.title@,
            body: self.body@,
        }
    }
}

/// How the one outbound call ended, as the surrounding binary reports it.
pub enum UpstreamOutcome {
    /// The call itself could not be completed.
    SendFailed(String),
    /// The call completed but its reply body could not be read.
    ReadFailed(String),
    /// The reply body, as received.
    Received(String),
}

/// The mathematical shape of an outcome.
pub enum OutcomeModel {
    SendFailed(Seq<char>),
    ReadFailed(Seq<char>),
    Received(Seq<char>),
}

impl View for UpstreamOutcome {
    type V = OutcomeModel;

    open spec fn view(&self) -> OutcomeModel {
        match self {
            UpstreamOutcome::SendFailed(e) => OutcomeModel::SendFailed(e@),
            UpstreamOutcome::ReadFailed(e) => OutcomeModel::ReadFailed(e@),
            UpstreamOutcome::Received(b) => OutcomeModel::Received(b@),
        }
    }
}

/// The fixed upstream endpoint.
pub open spec fn spec_upstream_url() -> Seq<char> {
    "https://openrouter.ai/api/v1/chat/completions"@
}

/// The fixed referrer header value.
pub open spec fn spec_referer() -> Seq<char> {
    "http://localhost:3000"@
}

/// The fixed title header value.
pub open spec fn spec_title() -> Seq<char> {
    "AI Paraphraser"@
}

/// The diagnostic body for an absent credential.
pub open spec fn spec_missing_credential_body() -> Seq<char> {
    "OPENROUTER_API_KEY not set"@
}

/// The prefix of the body answered when the call could not be completed.
pub open spec fn spec_send_error_prefix() -> Seq<char> {
    "Error sending request: "@
}

/// The prefix of the body answered when the reply could not be decoded.
pub open spec fn spec_parse_error_prefix() -> Seq<char> {
    "Error parsing response: "@
}

/// The view of the credential as it reaches the relay.
pub open spec fn spec_credential(credential: Option<String>) -> Option<Seq<char>> {
    match credential {
        Option::Some(key) => Option::Some(key@),
        Option::None => Option::None,
    }
}

/// The relay's 200 body for a given answer string.
pub open spec fn spec_paraphrase_body(reply: Seq<char>) -> Seq<char> {
    "{\"paraphrased\":"@ + spec_string_json(reply) + "}"@
}

/// What the relay decides before any outbound work: with no credential it
/// answers status 500 at once, and plans no call; with one it plans the
/// single outbound call, bearer header and encoded body included.
pub open spec fn spec_plan(credential: Option<Seq<char>>, text: Seq<char>) -> Result<
    CallModel,
    ResponseModel,
> {
    match credential {
        Option::Some(key) => Result::Ok(
            CallModel {
                url: spec_upstream_url(),
                authorization: "Bearer "@ + key,
                referer: spec_referer(),
                title: spec_title(),
                body: spec_chat_json(spec_chat_request(text)),
            },
        ),
        Option::None => Result::Err(
            ResponseModel { status: 500, body: spec_missing_credential_body() },
        ),
    }
}

/// What the relay answers for each way the outbound call can end.
pub open spec fn spec_respond(outcome: OutcomeModel) -> ResponseModel {
    match outcome {
        OutcomeModel::SendFailed(e) => ResponseModel {
            status: 500,
            body: spec_send_error_prefix() + e,
        },
        OutcomeModel::ReadFailed(e) => ResponseModel {
            status: 500,
            body: spec_parse_error_prefix() + e,
        },
        OutcomeModel::Received(body) => match spec_parse_document(body) {
            Result::Ok(doc) => ResponseModel {
                status: 200,
                body: spec_paraphrase_body(spec_reply_of(doc)),
            },
            Result::Err(e) => ResponseModel { status: 500, body: spec_parse_error_prefix() + e },
        },
    }
}

/// Step one of the relay: reject a request with no credential, or plan the
/// one outbound call for it.
pub fn plan_paraphrase(credential: Option<String>, text: &str) -> (r: Result<
    OutboundCall,
    RelayResponse,
>)
    ensures
        (match r {
            Result::Ok(call) => spec_plan(spec_credential(credential), text@) == Result::<
                CallModel,
                ResponseModel,
            >::Ok(call@),
            Result::Err(resp) => spec_plan(spec_credential(credential), text@) == Result::<
                CallModel,
                ResponseModel,
            >::Err(resp@),
        }),
{
    match credential {
        Option::Some(key) => {
            let request = build_chat_request(text);
            let body = encode_chat_request(&request);
            let mut authorization = String::from_str("Bearer ");
            authorization.append(key.as_str());
            Result::Ok(
                OutboundCall {
                    url: String::from_str("https://openrouter.ai/api/v1/chat/completions"),
                    authorization,
                    referer: String::from_str("http://localhost:3000"),
                    title: String::from_str("AI Paraphraser"),
                    body,
                },
            )
        },
        Option::None => Result::Err(
            RelayResponse { status: 500, body: String::from_str("OPENROUTER_API_KEY not set") },
        ),
    }
}

/// Step two of the relay: the answer for each way the call ended.  A reply
/// that decodes answers status 200 — the content string when the document
/// carries one at `choices[0].message.content`, the fixed fallback otherwise
/// — and each failure answers status 500 with its description behind the
/// fixed prefix.
pub fn respond_to_outcome(outcome: UpstreamOutcome) -> (r: RelayResponse)
    ensures
        r@ == spec_respond(outcome@),
{
    match outcome {
        UpstreamOutcome::SendFailed(e) => {
            let mut body = String::from_str("Error sending request: ");
            body.append(e.as_str());
            RelayResponse { status: 500, body }
        },
        UpstreamOutcome::ReadFailed(e) => {
            let mut body = String::from_str("Error parsing response: ");
            body.append(e.as_str());
            RelayResponse { status: 500, body }
        },
        UpstreamOutcome::Received(text) => match parse_document(text.as_str()) {
            Result::Ok(doc) => {
                let reply = extracted_reply(&doc);
                let mut body = String::from_str("{\"paraphrased\":");
                append_string_json(&mut body, reply.as_str());
                body.append("}");
                proof {
                    assert(body@ =~= spec_paraphrase_body(spec_reply_of(doc)));
                }
                RelayResponse { status: 200, body }
            },
            Result::Err(e) => {
                let mut body = String::from_str("Error parsing response: ");
                body.append(e.as_str());
                RelayResponse { status: 500, body }
            },
        },
    }
}

/// For every text whose run reaches a well-formed reply — the credential
/// present, so a call is planned, and the received body decoding to a
/// document that carries a content string — the relay answers status 200
/// with exactly that content, wrapped as the paraphrase body.
pub proof fn law_success(
    credential: Seq<char>,
    text: Seq<char>,
    body: Seq<char>,
    doc: JsonValue,
    content: Seq<char>,
)
    requires
        spec_parse_document(body) == Result::<JsonValue, Seq<char>>::Ok(doc),
        spec_content(doc) == Option::Some(content),
    ensures
        spec_plan(Option::Some(credential), text) is Ok,
        (spec_respond(OutcomeModel::Received(body)) == ResponseModel {
            status: 200,
            body: spec_paraphrase_body(content),
        }),
{
}

/// With the credential absent the relay answers status 500 with the fixed
/// diagnostic, whatever the text; and since the plan's error side carries no
/// call, no outbound call is made.
pub proof fn law_missing_credential(text: Seq<char>)
    ensures
        (spec_plan(Option::None, text) == Result::<CallModel, ResponseModel>::Err(
            ResponseModel { status: 500, body: spec_missing_credential_body() },
        )),
{
}

/// When the outbound call could not be completed the relay answers status
/// 500 with the transport error's description behind the fixed prefix; the
/// caller's text has no part in the answer.
pub proof fn law_transport_failure(detail: Seq<char>)
    ensures
        (spec_respond(OutcomeModel::SendFailed(detail)) == ResponseModel {
            status: 500,
            body: spec_send_error_prefix() + detail,
        }),
{
}

/// A reply that decodes but carries no content string — the path missing,
/// or not a string — still answers status 200, with the fixed fallback in
/// the paraphrase body: a malformed upstream shape never fails the request.
pub proof fn law_silent_fallback(body: Seq<char>, doc: JsonValue)
    requires
        spec_parse_document(body) == Result::<JsonValue, Seq<char>>::Ok(doc),
        spec_content(doc) is None,
    ensures
        (spec_respond(OutcomeModel::Received(body)) == ResponseModel {
            status: 200,
            body: spec_paraphrase_body(spec_fallback_reply()),
        }),
{
}

} // verus!
