//! The classification service as the rest of the library sees it: the request
//! that is built from a window of records, and the answer that comes back.

use crate::error::ModerationError;
use crate::record::{MessageView, PartialMessage};
use crate::text::{decimal, decimal_text};
use vstd::prelude::*;

verus! {

/// The greatest number of tokens that the service may generate.
pub const MAX_TOKENS: u64 = 4096;

/// Nucleus sampling: the share of the probability mass that is kept.
pub const TOP_P: u8 = 1;

/// The number of candidates that sampling chooses from.
pub const TOP_K: u8 = 40;

pub const PRESENCE_PENALTY: u8 = 0;

pub const FREQUENCY_PENALTY: u8 = 0;

/// The sampling temperature, in hundredths.
pub const TEMPERATURE_PERCENT: u8 = 60;

/// The status with which the service reports success.
pub const STATUS_OK: u16 = 200;

/// Who speaks in one turn of a chat.
#[derive(Clone, Copy, Debug, PartialEq, Eq, Structural)]
pub enum Role {
    System,
    User,
    Assistant,
}

impl Role {
    /// The tag of the role as the service expects it.
    pub open spec fn tag(self) -> Seq<char> {
        match self {
            Role::System => "system"@,
            Role::User => "user"@,
            Role::Assistant => "assistant"@,
        }
    }

    pub fn name(&self) -> (text: &'static str)
        ensures
            text@ == self.tag(),
    {
        match self {
            Role::System => "system",
            Role::User => "user",
            Role::Assistant => "assistant",
        }
    }
}

/// The characters of a text that may be absent.
pub open spec fn text_of(text: Option<String>) -> Option<Seq<char>> {
    match text {
        Some(t) => Some(t@),
        None => None,
    }
}

/// What one turn of a chat is, as a mathematical value.
pub struct TurnView {
    pub content: Option<Seq<char>>,
    pub role: Seq<char>,
}

/// One role-tagged turn of a chat.
pub struct AIMessage {
    pub content: Option<String>,
    pub role: String,
}

impl View for AIMessage {
    type V = TurnView;

    open spec fn view(&self) -> TurnView {
        TurnView { content: text_of(self.content), role: self.role@ }
    }
}

impl DeepView for AIMessage {
    type V = TurnView;

    open spec fn deep_view(&self) -> TurnView {
        self@
    }
}

impl AIMessage {
    pub fn new(content: Option<String>, role: String) -> (turn: Self)
        ensures
            turn.content == content,
            turn.role == role,
            turn@ == (TurnView { content: text_of(content), role: role@ }),
    {
        Self { content, role }
    }
}

/// The form in which the service is asked to answer.
pub struct ResponseFormat {
    pub kind: String,
}

impl Default for ResponseFormat {
    /// A JSON object.
    fn default() -> (format: Self)
        ensures
            format.kind@ == "json_object"@,
    {
        Self { kind: String::from_str("json_object") }
    }
}

/// What a classification request is, as a mathematical value.
pub struct PayloadView {
    pub model: Seq<char>,
    pub messages: Seq<TurnView>,
    pub response_format: Option<Seq<char>>,
    pub max_tokens: u64,
    pub top_p: u8,
    pub top_k: u8,
    pub presence_penalty: u8,
    pub frequency_penalty: u8,
    pub temperature_percent: u8,
}

/// A classification request: the model, the chat turns and the generation
/// parameters.
pub struct FireworksPayload {
    pub model: String,
    pub messages: Vec<AIMessage>,
    pub response_format: Option<ResponseFormat>,
    pub max_tokens: u64,
    pub top_p: u8,
    pub top_k: u8,
    pub presence_penalty: u8,
    pub frequency_penalty: u8,
    pub temperature_percent: u8,
}

impl View for FireworksPayload {
    type V = PayloadView;

    open spec fn view(&self) -> PayloadView {
        PayloadView {
            model: self.model@,
            messages: self.messages.deep_view(),
            response_format: match self.response_format {
                Some(format) => Some(format.kind@),
                None => None,
            },
            max_tokens: self.max_tokens,
            top_p: self.top_p,
            top_k: self.top_k,
            presence_penalty: self.presence_penalty,
            frequency_penalty: self.frequency_penalty,
            temperature_percent: self.temperature_percent,
        }
    }
}

/// A request to `model` with the given chat turns, a JSON object asked for as
/// the answer, and the generation parameters that every request carries.
pub open spec fn request_with(model: Seq<char>, messages: Seq<TurnView>) -> PayloadView {
    PayloadView {
        model,
        messages,
        response_format: Some("json_object"@),
        max_tokens: MAX_TOKENS,
        top_p: TOP_P,
        top_k: TOP_K,
        presence_penalty: PRESENCE_PENALTY,
        frequency_penalty: FREQUENCY_PENALTY,
        temperature_percent: TEMPERATURE_PERCENT,
    }
}

impl FireworksPayload {
    /// A request to `model` that holds no chat turn yet.
    pub fn new(model: String) -> (payload: Self)
        ensures
            payload@ == request_with(model@, Seq::<TurnView>::empty()),
    {
        let payload = Self {
            model,
            messages: Vec::new(),
            response_format: Some(ResponseFormat::default()),
            max_tokens: MAX_TOKENS,
            top_p: TOP_P,
            top_k: TOP_K,
            presence_penalty: PRESENCE_PENALTY,
            frequency_penalty: FREQUENCY_PENALTY,
            temperature_percent: TEMPERATURE_PERCENT,
        };
        assert(payload.messages.deep_view() =~= Seq::<TurnView>::empty());
        payload
    }
}

/// The line that stands for one record in a request: its author, its
/// content and its current status.
pub open spec fn entry_text(record: MessageView) -> Seq<char> {
    "AUTHOR: "@ + decimal(record.author_id as nat) + "\nCONTENT: "@ + record.content
        + "\nVALIDATION_STATUS: "@ + record.status.label()
}

/// The turn that opens a request: the instruction to the classifier.
pub open spec fn system_turn(system_prompt: Seq<char>) -> TurnView {
    TurnView { content: Some(system_prompt), role: Role::System.tag() }
}

/// The turn that stands for one record.
pub open spec fn user_turn(record: MessageView) -> TurnView {
    TurnView { content: Some(entry_text(record)), role: Role::User.tag() }
}

/// The chat turns of the request for `window`: the instruction first, then
/// one turn for each record, in the order of the window.
pub open spec fn turns_for(system_prompt: Seq<char>, window: Seq<MessageView>) -> Seq<TurnView> {
    seq![system_turn(system_prompt)] + window.map_values(|record: MessageView| user_turn(record))
}

/// Writes the line that stands for `record` in a request.
pub fn format_entry(record: &PartialMessage) -> (text: String)
    ensures
        text@ == entry_text(record@),
{
    let mut text = String::from_str("AUTHOR: ");
    let author = decimal_text(record.author_id());
    text.append(author.as_str());
    text.append("\nCONTENT: ");
    text.append(record.content());
    text.append("\nVALIDATION_STATUS: ");
    text.append(record.status().name());
    text
}

/// Builds the classification request for `window`: the instruction as the
/// system turn, then one user turn per record in window order.
pub fn build_request(model: String, system_prompt: String, window: &Vec<PartialMessage>) -> (payload:
    FireworksPayload)
    ensures
        payload@ == request_with(model@, turns_for(system_prompt@, window.deep_view())),
{
    let ghost prompt = system_prompt@;
    let ghost target = turns_for(prompt, window.deep_view());
    let mut payload = FireworksPayload::new(model);
    let mut messages: Vec<AIMessage> = Vec::new();
    messages.push(AIMessage::new(Some(system_prompt), String::from_str(Role::System.name())));
    let mut i: usize = 0;
    while i < window.len()
        invariant
            i <= window.len(),
            target == turns_for(prompt, window.deep_view()),
            messages@.len() == i + 1,
            forall|k: int| 0 <= k < i + 1 ==> (#[trigger] messages@[k])@ == target[k],
        decreases window.len() - i,
    {
        let line = format_entry(&window[i]);
        messages.push(AIMessage::new(Some(line), String::from_str(Role::User.name())));
        i += 1;
    }
    assert(messages.deep_view() =~= target);
    payload.messages = messages;
    payload
}

/// One candidate answer of the service.
pub struct Choice {
    pub index: usize,
    pub message: AIMessage,
}

/// The body of a successful answer of the service.
pub struct AIResponse {
    pub choices: Vec<Choice>,
    pub created: i32,
    pub id: String,
    pub model: String,
    pub object: String,
}

/// Whether the service reported success. Any other status is an error that
/// carries the status.
pub fn accept_status(status: u16) -> (accepted: Result<(), ModerationError>)
    ensures
        status == STATUS_OK ==> accepted == Ok::<(), ModerationError>(()),
        status != STATUS_OK ==> accepted == Err::<(), ModerationError>(
            ModerationError::ClassifierRejected(status),
        ),
{
    if status == STATUS_OK {
        Ok(())
    } else {
        Err(ModerationError::ClassifierRejected(status))
    }
}

impl AIResponse {
    /// The text of the verdict that the answer carries, if it carries one:
    /// the content of the first choice.
    pub open spec fn verdict(&self) -> Option<Seq<char>> {
        if self.choices@.len() == 0 {
            None
        } else {
            text_of(self.choices@[0].message.content)
        }
    }

    /// The content of the first choice, which is the text of the verdict. An
    /// answer without a choice, or whose first choice has no content, is
    /// malformed.
    pub fn verdict_text(&self) -> (text: Result<String, ModerationError>)
        ensures
            match text {
                Ok(t) => self.verdict() == Some(t@),
                Err(e) => self.verdict() is None && e == ModerationError::MalformedVerdict,
            },
    {
        if self.choices.len() == 0 {
            return Err(ModerationError::MalformedVerdict);
        }
        match &self.choices[0].message.content {
            Some(content) => Ok(content.clone()),
            None => Err(ModerationError::MalformedVerdict),
        }
    }
}

/// What one call of the service came to, before anything is read out of it.
pub enum Exchange {
    /// No answer came: the service could not be reached, or took too long.
    NoAnswer,
    /// An answer came, with its status and, where it could be read as one,
    /// its body.
    Answer { status: u16, body: Option<AIResponse> },
}

/// The text of the verdict that an exchange yields, or why it yields none.
/// The status is looked at before the body.
pub open spec fn answer_of(exchange: Exchange) -> Result<Seq<char>, ModerationError> {
    match exchange {
        Exchange::NoAnswer => Err(ModerationError::ClassifierUnreachable),
        Exchange::Answer { status, body } => if status != STATUS_OK {
            Err(ModerationError::ClassifierRejected(status))
        } else {
            match body {
                Some(response) => match response.verdict() {
                    Some(text) => Ok(text),
                    None => Err(ModerationError::MalformedVerdict),
                },
                None => Err(ModerationError::MalformedVerdict),
            }
        },
    }
}

/// Reads the text of the verdict out of an exchange. None of the failures
/// touches the store.
pub fn read_answer(exchange: &Exchange) -> (text: Result<String, ModerationError>)
    ensures
        match text {
            Ok(t) => answer_of(*exchange) == Ok::<Seq<char>, ModerationError>(t@),
            Err(e) => answer_of(*exchange) == Err::<Seq<char>, ModerationError>(e),
        },
{
    match exchange {
        Exchange::NoAnswer => Err(ModerationError::ClassifierUnreachable),
        Exchange::Answer { status, body } => {
            match accept_status(*status) {
                Ok(_) => {},
                Err(e) => {
                    return Err(e);
                },
            }
            match body {
                Some(response) => response.verdict_text(),
                None => Err(ModerationError::MalformedVerdict),
            }
        },
    }
}

/// The verdict that was read out of the text of an answer, if one could be.
/// A text that is no verdict is a malformed one.
pub fn require_verdict(parsed: Option<Validation>) -> (verdict: Result<Validation, ModerationError>)
    ensures
        match parsed {
            Some(v) => verdict == Ok::<Validation, ModerationError>(v),
            None => verdict == Err::<Validation, ModerationError>(
                ModerationError::MalformedVerdict,
            ),
        },
{
    match parsed {
        Some(v) => Ok(v),
        None => Err(ModerationError::MalformedVerdict),
    }
}

/// The classifier's verdict on a window. A reason that is present means that
/// a violation was found; one that is absent means that none was.
pub struct Validation {
    pub user_id: Option<u64>,
    pub reason: Option<String>,
}

impl Validation {
    pub fn new(user_id: Option<u64>, reason: Option<String>) -> (verdict: Self)
        ensures
            verdict.user_id == user_id,
            verdict.reason == reason,
    {
        Self { user_id, reason }
    }

    /// Whether the verdict reports a violation.
    pub fn found_violation(&self) -> (found: bool)
        ensures
            found == self.reason is Some,
    {
        self.reason.is_some()
    }
}

} // verus!
