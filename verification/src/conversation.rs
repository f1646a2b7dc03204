//! The authentication conversation bridge.
//!
//! The authentication subsystem hands the controller a batch of requests and
//! expects one contiguous response buffer sized to the whole batch, with a
//! populated slot for each prompt-style request. The bridge allocates every
//! slot up front, dispatches each request to a [`Conversation`] handler in
//! order, and on any failure gives the caller no buffer at all: the
//! partially populated buffer is released, never exposed.

use vstd::prelude::*;

verus! {

/// One inbound request of the authentication conversation.
#[derive(Clone, Debug)]
pub enum ConversationRequest {
    /// A prompt whose answer may be echoed; expects a response.
    EchoPrompt(String),
    /// A prompt whose answer must stay hidden; expects a response.
    BlindPrompt(String),
    /// An informational message; no response.
    Info(String),
    /// An error message; no response, and the batch fails.
    Error(String),
}

/// A failed conversation batch. The caller sees this and nothing of the
/// responses that were produced before the failure.
#[derive(Clone, Copy, Debug, PartialEq, Eq, Structural)]
pub struct ConversationError;

/// Whether a request is one of the two prompt styles, the ones that demand a
/// response slot to be populated.
pub open spec fn is_prompt(request: ConversationRequest) -> bool {
    request is EchoPrompt || request is BlindPrompt
}

/// The number of prompt-style requests in a batch.
pub open spec fn prompt_count(requests: Seq<ConversationRequest>) -> nat
    decreases requests.len(),
{
    if requests.len() == 0 {
        0
    } else {
        prompt_count(requests.drop_last()) + if is_prompt(requests.last()) {
            1nat
        } else {
            0nat
        }
    }
}

/// The number of populated slots in a response buffer.
pub open spec fn some_count(responses: Seq<Option<String>>) -> nat
    decreases responses.len(),
{
    if responses.len() == 0 {
        0
    } else {
        some_count(responses.drop_last()) + if responses.last() is Some {
            1nat
        } else {
            0nat
        }
    }
}

/// The capability set a conversation handler offers: answer an echoed
/// prompt, answer a blind prompt, observe an informational message, observe
/// an error message. A handler may refuse a prompt, which fails the batch.
pub trait Conversation {
    fn prompt_echo(&mut self, msg: &str) -> Result<String, ()>;

    fn prompt_blind(&mut self, msg: &str) -> Result<String, ()>;

    fn info(&mut self, msg: &str);

    fn error(&mut self, msg: &str);
}

/// A minimalistic conversation handler: it answers every echoed prompt with
/// a fixed login identity and every blind prompt with a fixed placeholder
/// credential, and never refuses. There is no interactive credential
/// capture; the authentication service itself is trusted to enforce policy.
#[derive(Debug)]
pub struct SimpleConv {}

impl SimpleConv {
    /// Create a new handler.
    pub fn new() -> (handler: SimpleConv) {
        SimpleConv {  }
    }
}

impl Conversation for SimpleConv {
    /// Always answers the fixed login identity, whatever the prompt said.
    fn prompt_echo(&mut self, msg: &str) -> (reply: Result<String, ()>)
        ensures
            reply matches Ok(text) && text@ == "root"@,
    {
        Result::Ok("root".to_owned())
    }

    /// Always answers the fixed placeholder credential, whatever the prompt
    /// said.
    fn prompt_blind(&mut self, msg: &str) -> (reply: Result<String, ()>)
        ensures
            reply matches Ok(text) && text@ == "no password"@,
    {
        Result::Ok("no password".to_owned())
    }

    fn info(&mut self, msg: &str) {
    }

    fn error(&mut self, msg: &str) {
    }
}

/// What one request contributes to the batch.
#[derive(Debug)]
pub enum StepOutcome {
    /// Populate the request's slot with this response text.
    Record(String),
    /// Leave the slot empty.
    NoRecord,
    /// Fail the whole batch and stop processing.
    Fail,
}

/// Decides what one request and the handler's reply to it contribute to the
/// batch: a prompt answered becomes a recorded response, a refused prompt
/// fails the batch, an informational message records nothing, and an error
/// message always fails the batch whatever the handler did with it.
///
/// `reply` is the handler's answer, present exactly for the two prompt
/// styles.
pub fn conversation_step(request: &ConversationRequest, reply: Option<Result<String, ()>>) -> (outcome: StepOutcome)
    requires
        is_prompt(*request) <==> reply is Some,
    ensures
        *request is Info ==> outcome is NoRecord,
        *request is Error ==> outcome is Fail,
        reply matches Some(Ok(text)) ==> outcome == StepOutcome::Record(text),
        reply matches Some(Err(refusal)) ==> outcome is Fail,
{
    match reply {
        Some(Ok(text)) => StepOutcome::Record(text),
        Some(Err(_)) => StepOutcome::Fail,
        None => match request {
            ConversationRequest::Error(_) => StepOutcome::Fail,
            _ => StepOutcome::NoRecord,
        },
    }
}

/// Answers a batch of conversation requests through a handler.
///
/// One response slot per request is allocated up front. Each request is
/// dispatched in order; a prompt answered populates its slot, and the first
/// failure — a refused prompt or an `Error`-style request — stops the batch.
/// On success the full buffer comes back, a populated slot exactly at each
/// prompt position; on failure the buffer is dropped and the caller observes
/// only `ConversationError`.
pub fn converse<C: Conversation>(handler: &mut C, requests: &Vec<ConversationRequest>) -> (result: Result<
    Vec<Option<String>>,
    ConversationError,
>)
    ensures
        result matches Ok(responses) ==> {
            &&& responses@.len() == requests@.len()
            &&& forall|i: int|
                0 <= i < requests@.len() ==> ((#[trigger] responses@[i]) is Some <==> is_prompt(
                    requests@[i],
                ))
            &&& forall|i: int| 0 <= i < requests@.len() ==> !((#[trigger] requests@[i]) is Error)
        },
        (exists|i: int| 0 <= i < requests@.len() && (#[trigger] requests@[i]) is Error)
            ==> result is Err,
        (forall|i: int|
            0 <= i < requests@.len() ==> !is_prompt(#[trigger] requests@[i]) && !(requests@[i]
                is Error)) ==> result is Ok,
{
    let n = requests.len();
    let mut responses: Vec<Option<String>> = Vec::new();
    let mut k: usize = 0;
    while k < n
        invariant
            k <= n,
            responses@.len() == k as int,
            forall|j: int| 0 <= j < k ==> (#[trigger] responses@[j]) is None,
        decreases n - k,
    {
        responses.push(Option::None);
        k = k + 1;
    }

    let mut failed = false;
    let mut i: usize = 0;
    while i < n && !failed
        invariant
            n == requests@.len(),
            responses@.len() == n as int,
            i <= n,
            !failed ==> forall|j: int|
                0 <= j < i ==> ((#[trigger] responses@[j]) is Some <==> is_prompt(requests@[j])),
            !failed ==> forall|j: int| 0 <= j < i ==> !((#[trigger] requests@[j]) is Error),
            forall|j: int| i <= j < n ==> (#[trigger] responses@[j]) is None,
            failed ==> exists|j: int|
                0 <= j < n && (is_prompt(#[trigger] requests@[j]) || requests@[j] is Error),
        decreases n - i,
    {
        let request = &requests[i];
        let reply: Option<Result<String, ()>> = match request {
            ConversationRequest::EchoPrompt(text) => Option::Some(handler.prompt_echo(text.as_str())),
            ConversationRequest::BlindPrompt(text) => Option::Some(handler.prompt_blind(text.as_str())),
            ConversationRequest::Info(text) => {
                handler.info(text.as_str());
                Option::None
            },
            ConversationRequest::Error(text) => {
                handler.error(text.as_str());
                Option::None
            },
        };
        match conversation_step(request, reply) {
            StepOutcome::Record(text) => {
                responses[i] = Option::Some(text);
            },
            StepOutcome::NoRecord => {},
            StepOutcome::Fail => {
                failed = true;
            },
        }
        i = i + 1;
    }

    if failed {
        Result::Err(ConversationError)
    } else {
        Result::Ok(responses)
    }
}

/// Law: a successful batch produces exactly as many responses as there are
/// prompt-style requests — the populated slots sit exactly at the prompt
/// positions, so their count equals the prompt count and their order is the
/// request order.
pub proof fn lemma_response_count_matches_prompts(
    requests: Seq<ConversationRequest>,
    responses: Seq<Option<String>>,
)
    requires
        responses.len() == requests.len(),
        forall|i: int|
            0 <= i < requests.len() ==> ((#[trigger] responses[i]) is Some <==> is_prompt(
                requests[i],
            )),
    ensures
        some_count(responses) == prompt_count(requests),
    decreases requests.len(),
{
    if requests.len() > 0 {
        assert(forall|i: int|
            0 <= i < requests.len() - 1 ==> #[trigger] responses.drop_last()[i] == responses[i]);
        assert(forall|i: int|
            0 <= i < requests.len() - 1 ==> #[trigger] requests.drop_last()[i] == requests[i]);
        lemma_response_count_matches_prompts(requests.drop_last(), responses.drop_last());
    }
}

} // verus!
