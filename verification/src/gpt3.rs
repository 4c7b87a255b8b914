//! The text-completion service: request and response shapes, and the client
//! that holds the credential.
//!
//! The client never touches the network. It describes the single POST that a
//! completion takes ([`Client::post`]), and it turns what came of that POST
//! into the caller's result ([`Client::completion`]). Sending the request and
//! decoding the body are the caller's part.

use vstd::prelude::*;

verus! {

/// The address that every completion is posted to.
pub open spec fn completions_url() -> Seq<char> {
    "https://api.openai.com/v1/completions"@
}

/// What is said when a completion arrives without a single choice.
pub open spec fn no_choices_message() -> Seq<char> {
    "the completion holds no choices"@
}

/// What is asked of the completion service.
#[derive(Clone, Debug, PartialEq, Eq)]
pub struct CompletionRequest {
    pub model: String,
    pub prompt: String,
    pub max_tokens: i32,
}

/// A [`CompletionRequest`] as plain values.
pub struct CompletionRequestView {
    pub model: Seq<char>,
    pub prompt: Seq<char>,
    pub max_tokens: int,
}

impl View for CompletionRequest {
    type V = CompletionRequestView;

    open spec fn view(&self) -> CompletionRequestView {
        CompletionRequestView {
            model: self.model@,
            prompt: self.prompt@,
            max_tokens: self.max_tokens as int,
        }
    }
}

impl CompletionRequest {
    /// A request asks for at least one token.
    pub open spec fn well_formed(&self) -> bool {
        self.max_tokens > 0
    }

    /// A second request that asks for the same.
    pub fn duplicate(&self) -> (copy: CompletionRequest)
        ensures
            copy@ == self@,
            copy.well_formed() == self.well_formed(),
    {
        CompletionRequest {
            model: self.model.clone(),
            prompt: self.prompt.clone(),
            max_tokens: self.max_tokens,
        }
    }
}

/// One generated alternative of a completion.
#[derive(Clone, Debug, PartialEq, Eq)]
pub struct Choice {
    pub text: String,
    pub index: i32,
    pub finish_reason: String,
}

/// The body that the completion service answers with.
#[derive(Clone, Debug, PartialEq, Eq)]
pub struct CompletionResponse {
    pub id: String,
    pub object: String,
    pub created: i64,
    pub model: String,
    pub choices: Vec<Choice>,
}

/// Why a completion could not be had.
#[derive(Clone, Copy, Debug, PartialEq, Eq, Structural)]
pub enum NetworkErrorKind {
    /// The request did not get through, or no full answer came back.
    Transport,
    /// An answer came back, but its body was not a completion.
    Decode,
    /// A completion came back without a single choice.
    NoChoices,
}

/// A failed completion, with a message for the log.
#[derive(Clone, Debug, PartialEq, Eq)]
pub struct NetworkError {
    pub kind: NetworkErrorKind,
    pub message: String,
}

/// What came of the one POST of a completion.
#[derive(Clone, Debug, PartialEq, Eq)]
pub enum Exchange {
    /// The service answered and the body was a completion.
    Answered(CompletionResponse),
    /// The service answered with a body that is no completion; the decoder's message.
    Malformed(String),
    /// The request failed on the way; the transport's message.
    Unreachable(String),
}

/// The single POST that a completion takes.
#[derive(Clone, Debug, PartialEq, Eq)]
pub struct HttpPost {
    /// Where the request goes.
    pub url: String,
    /// The token of the `Authorization: Bearer` header.
    pub bearer_token: String,
    /// What is sent as the JSON body.
    pub body: CompletionRequest,
}

/// An [`HttpPost`] as plain values.
pub struct HttpPostView {
    pub url: Seq<char>,
    pub bearer_token: Seq<char>,
    pub body: CompletionRequestView,
}

impl View for HttpPost {
    type V = HttpPostView;

    open spec fn view(&self) -> HttpPostView {
        HttpPostView { url: self.url@, bearer_token: self.bearer_token@, body: self.body@ }
    }
}

/// What a completion comes to, given what came of its POST: the response
/// itself when the service answered with one, and otherwise an error of the
/// matching kind that carries the message unchanged.
pub open spec fn completion_result(exchange: Exchange) -> Result<CompletionResponse, NetworkError> {
    match exchange {
        Exchange::Answered(response) => Ok(response),
        Exchange::Malformed(message) => Err(
            NetworkError { kind: NetworkErrorKind::Decode, message },
        ),
        Exchange::Unreachable(message) => Err(
            NetworkError { kind: NetworkErrorKind::Transport, message },
        ),
    }
}

/// The text that a response delivers: that of its first choice, if it has one.
pub open spec fn first_choice_text(response: CompletionResponse) -> Option<String> {
    if response.choices@.len() > 0 {
        Some(response.choices@[0].text)
    } else {
        None
    }
}

/// Holds the credential of the completion service.
#[derive(Clone, Debug, PartialEq, Eq)]
pub struct Client {
    pub token: String,
}

impl Client {
    /// A client that authenticates with `token`.
    pub fn new(token: String) -> (client: Client)
        ensures
            client.token == token,
    {
        Client { token }
    }

    /// The request that one completion sends: a POST to the completions
    /// address, authenticated with this client's token, with `req` as its body.
    pub fn post(&self, req: &CompletionRequest) -> (post: HttpPost)
        ensures
            post@ == (HttpPostView {
                url: completions_url(),
                bearer_token: self.token@,
                body: req@,
            }),
    {
        HttpPost {
            url: String::from_str("https://api.openai.com/v1/completions"),
            bearer_token: self.token.clone(),
            body: req.duplicate(),
        }
    }

    /// The result of a completion whose POST came to `exchange`.
    ///
    /// The response is handed on as it came, also when it has no choices:
    /// whoever reads the first choice has to look for it, as
    /// [`CompletionResponse::first_text`] does. A failure is never retried.
    pub fn completion(&self, exchange: Exchange) -> (result: Result<
        CompletionResponse,
        NetworkError,
    >)
        ensures
            result == completion_result(exchange),
    {
        match exchange {
            Exchange::Answered(response) => Ok(response),
            Exchange::Malformed(message) => Err(
                NetworkError { kind: NetworkErrorKind::Decode, message },
            ),
            Exchange::Unreachable(message) => Err(
                NetworkError { kind: NetworkErrorKind::Transport, message },
            ),
        }
    }
}

impl CompletionResponse {
    /// The text of the first choice, untouched, or an error of kind
    /// [`NetworkErrorKind::NoChoices`] where the response has no choice at all.
    pub fn first_text(&self) -> (text: Result<String, NetworkError>)
        ensures
            match first_choice_text(*self) {
                Some(first) => text == Ok::<String, NetworkError>(first),
                None => text is Err && text->Err_0.kind == NetworkErrorKind::NoChoices
                    && text->Err_0.message@ == no_choices_message(),
            },
    {
        if self.choices.len() > 0 {
            Ok(self.choices[0].text.clone())
        } else {
            Err(
                NetworkError {
                    kind: NetworkErrorKind::NoChoices,
                    message: String::from_str("the completion holds no choices"),
                },
            )
        }
    }
}

} // verus!
