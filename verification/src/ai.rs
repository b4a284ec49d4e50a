//! The AI chat of the new-tab page: the request sent to OpenRouter and the
//! text shown for each way the request can end.
use vstd::prelude::*;
use vstd::string::*;
use crate::json::{json_quote, json_string_of};
use crate::text::{concat2, push_str};

verus! {

/// Which shell is asking; the messages differ between them.
#[derive(Clone, Copy, Debug)]
pub enum Shell {
    Linux,
    Windows,
    WindowsChromium,
}

/// The text shown when no API key is set.
pub open spec fn missing_key_spec(shell: Shell) -> Seq<char> {
    match shell {
        Shell::Linux => "\u{26a0}\u{fe0f} \u{0412}\u{0432}\u{0435}\u{0434}\u{0438}\u{0442}\u{0435} API \u{043a}\u{043b}\u{044e}\u{0447} OpenRouter \u{0432} \u{043d}\u{0430}\u{0441}\u{0442}\u{0440}\u{043e}\u{0439}\u{043a}\u{0430}\u{0445}"@,
        Shell::Windows => "\u{26a0}\u{fe0f} API key not set. Open Settings and add an OpenRouter API key."@,
        Shell::WindowsChromium => "\u{26a0}\u{fe0f} API key not set"@,
    }
}

/// What the shell does with an AI prompt.
pub enum AiRequest {
    /// Show this text at once: there is no key.
    Answer(String),
    /// POST `body` to the chat endpoint with the `auth` header.
    Send { body: String, auth: String },
}

/// The request body: model, one user message, and a cap of 256 tokens, with
/// keys in the order `serde_json` writes them (sorted).
pub open spec fn request_body_spec(model: Seq<char>, prompt: Seq<char>) -> Seq<char> {
    "{\"max_tokens\":256,\"messages\":[{\"content\":"@ + json_string_of(prompt)
        + ",\"role\":\"user\"}],\"model\":"@ + json_string_of(model) + "}"@
}

/// What to do with `prompt`: answer at once where the key is empty, else
/// send the request with the key as a bearer token.
pub fn ai_request(shell: Shell, api_key: &str, model: &str, prompt: &str) -> (r: AiRequest)
    ensures
        api_key@.len() == 0 ==> (r matches AiRequest::Answer(t) && t@ == missing_key_spec(shell)),
        api_key@.len() > 0 ==> (r matches AiRequest::Send { body, auth } && body@
            == request_body_spec(model@, prompt@) && auth@ == "Authorization: Bearer "@ + api_key@),
{
    if api_key.unicode_len() == 0 {
        let text = match shell {
            Shell::Linux => String::from_str(
                "\u{26a0}\u{fe0f} \u{0412}\u{0432}\u{0435}\u{0434}\u{0438}\u{0442}\u{0435} API \u{043a}\u{043b}\u{044e}\u{0447} OpenRouter \u{0432} \u{043d}\u{0430}\u{0441}\u{0442}\u{0440}\u{043e}\u{0439}\u{043a}\u{0430}\u{0445}",
            ),
            Shell::Windows => String::from_str(
                "\u{26a0}\u{fe0f} API key not set. Open Settings and add an OpenRouter API key.",
            ),
            Shell::WindowsChromium => String::from_str("\u{26a0}\u{fe0f} API key not set"),
        };
        return AiRequest::Answer(text);
    }
    let mut body = String::from_str("{\"max_tokens\":256,\"messages\":[{\"content\":");
    let p = json_quote(prompt);
    push_str(&mut body, p.as_str());
    push_str(&mut body, ",\"role\":\"user\"}],\"model\":");
    let m = json_quote(model);
    push_str(&mut body, m.as_str());
    push_str(&mut body, "}");
    let auth = concat2("Authorization: Bearer ", api_key);
    AiRequest::Send { body, auth }
}

/// The fields of the service's JSON reply that the shell reads.
pub struct ReplyFields {
    /// `choices[0].message.content`, where it is a string.
    pub content: Option<String>,
    /// `choices[0].message.reasoning`, where it is a string.
    pub reasoning: Option<String>,
    /// `error.message`, where it is a string.
    pub error: Option<String>,
}

pub struct ReplyFieldsView {
    pub content: Option<Seq<char>>,
    pub reasoning: Option<Seq<char>>,
    pub error: Option<Seq<char>>,
}

pub open spec fn opt_str_view(o: Option<String>) -> Option<Seq<char>> {
    match o {
        Some(s) => Some(s@),
        None => None,
    }
}

impl View for ReplyFields {
    type V = ReplyFieldsView;

    open spec fn view(&self) -> ReplyFieldsView {
        ReplyFieldsView {
            content: opt_str_view(self.content),
            reasoning: opt_str_view(self.reasoning),
            error: opt_str_view(self.error),
        }
    }
}

pub open spec fn opt_fields_view(o: Option<ReplyFields>) -> Option<ReplyFieldsView> {
    match o {
        Some(f) => Some(f@),
        None => None,
    }
}

/// The fields that `serde_json` reads from `raw`, or `None` where `raw` is
/// not JSON.
pub uninterp spec fn json_reply_fields(raw: Seq<char>) -> Option<ReplyFieldsView>;

/// `serde_json::from_str::<serde_json::Value>` on the reply, then the string
/// values at `choices[0].message.content`, `choices[0].message.reasoning`
/// and `error.message` (indexing a missing key gives `Null`, which is no
/// string). Nothing is claimed of which texts parse.
#[verifier::external_body]
fn reply_fields(raw: &str) -> (r: Option<ReplyFields>)
    ensures
        opt_fields_view(r) == json_reply_fields(raw@),
{
    match serde_json::from_str::<serde_json::Value>(raw) {
        Ok(v) => Some(ReplyFields {
            content: v["choices"][0]["message"]["content"].as_str().map(str::to_string),
            reasoning: v["choices"][0]["message"]["reasoning"].as_str().map(str::to_string),
            error: v["error"]["message"].as_str().map(str::to_string),
        }),
        Err(_) => None,
    }
}

/// The text shown for a reply `raw` whose fields are `fields`: the content,
/// else the reasoning, else the error message after a warning sign, else
/// the raw reply (also where it is not JSON).
pub open spec fn reply_text_spec(raw: Seq<char>, fields: Option<ReplyFieldsView>) -> Seq<char> {
    match fields {
        Some(f) => match f.content {
            Some(c) => c,
            None => match f.reasoning {
                Some(r) => r,
                None => match f.error {
                    Some(e) => "\u{26a0}\u{fe0f} "@ + e,
                    None => raw,
                },
            },
        },
        None => raw,
    }
}

/// The text shown for a reply `raw` with the given fields (see `reply_text_spec`).
pub fn reply_text(raw: String, fields: Option<ReplyFields>) -> (r: String)
    ensures
        r@ == reply_text_spec(raw@, opt_fields_view(fields)),
{
    match fields {
        Some(f) => match f.content {
            Some(c) => c,
            None => match f.reasoning {
                Some(r) => r,
                None => match f.error {
                    Some(e) => concat2("\u{26a0}\u{fe0f} ", e.as_str()),
                    None => raw,
                },
            },
        },
        None => raw,
    }
}

/// How the call to the service ended.
pub enum AiOutcome {
    /// It ran and succeeded; its output, decoded.
    Replied(String),
    /// It ran and failed; its error output, decoded.
    Failed(String),
    /// It could not be started.
    NotStarted,
}

/// The text shown when the call failed with error output `stderr`.
pub open spec fn failure_text_spec(shell: Shell, stderr: Seq<char>) -> Seq<char> {
    match shell {
        Shell::Linux => "\u{26a0}\u{fe0f} \u{041e}\u{0448}\u{0438}\u{0431}\u{043a}\u{0430}: "@ + stderr,
        _ => "\u{26a0}\u{fe0f} "@ + stderr,
    }
}

/// The text shown when the call could not be started.
pub open spec fn not_started_spec(shell: Shell) -> Seq<char> {
    match shell {
        Shell::Linux => "\u{26a0}\u{fe0f} \u{041e}\u{0448}\u{0438}\u{0431}\u{043a}\u{0430} \u{0441}\u{043e}\u{0435}\u{0434}\u{0438}\u{043d}\u{0435}\u{043d}\u{0438}\u{044f}"@,
        _ => "\u{26a0}\u{fe0f} Connection error"@,
    }
}

/// The text shown for the way the call ended.
pub fn ai_reply_text(shell: Shell, outcome: AiOutcome) -> (r: String)
    ensures
        outcome matches AiOutcome::Replied(raw) ==> r@ == reply_text_spec(
            raw@,
            json_reply_fields(raw@),
        ),
        outcome matches AiOutcome::Failed(e) ==> r@ == failure_text_spec(shell, e@),
        outcome is NotStarted ==> r@ == not_started_spec(shell),
{
    match outcome {
        AiOutcome::Replied(raw) => {
            let fields = reply_fields(raw.as_str());
            reply_text(raw, fields)
        },
        AiOutcome::Failed(stderr) => match shell {
            Shell::Linux => concat2(
                "\u{26a0}\u{fe0f} \u{041e}\u{0448}\u{0438}\u{0431}\u{043a}\u{0430}: ",
                stderr.as_str(),
            ),
            _ => concat2("\u{26a0}\u{fe0f} ", stderr.as_str()),
        },
        AiOutcome::NotStarted => match shell {
            Shell::Linux => String::from_str(
                "\u{26a0}\u{fe0f} \u{041e}\u{0448}\u{0438}\u{0431}\u{043a}\u{0430} \u{0441}\u{043e}\u{0435}\u{0434}\u{0438}\u{043d}\u{0435}\u{043d}\u{0438}\u{044f}",
            ),
            _ => String::from_str("\u{26a0}\u{fe0f} Connection error"),
        },
    }
}

} // verus!
