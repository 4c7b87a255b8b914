//! The event-driven core: what the bot does with one interaction, step by step.
//!
//! An interaction is handled as a small state machine. Each step takes the
//! interaction's [`Session`] and the [`Event`] that just happened, and yields
//! the next session together with at most one thing to send and at most one
//! thing to log. The caller sends, waits, and comes back with the next event;
//! nothing here waits, so interactions never hold each other up.
//!
//! | session        | event                 | sends                         | next           |
//! |----------------|-----------------------|-------------------------------|----------------|
//! | `Received`     | `Created`, `ping`     | initial response `pong`       | `Replied`      |
//! | `Received`     | `Created`, `reading`  | initial response, the filler  | `Acknowledged` |
//! | `Received`     | `Created`, other name | nothing                       | `Failed`       |
//! | `Acknowledged` | `ResponseSettled`     | the completion call           | `CallPending`  |
//! | `CallPending`  | `Completed`, a text   | channel message, the text     | `Replied`      |
//! | `CallPending`  | `Completed`, no text  | channel message, the apology  | `Failed`       |
//!
//! Every other pair leaves the session as it is and sends nothing.

use vstd::prelude::*;
use crate::gpt3::{
    first_choice_text,
    no_choices_message,
    Client,
    CompletionRequest,
    CompletionRequestView,
    CompletionResponse,
    NetworkError,
};
use crate::interaction::Interaction;
use crate::router::{CommandRouter, Handler};

verus! {

/// The whole reply of `ping`.
pub open spec fn pong_text() -> Seq<char> {
    "pong"@
}

/// What `reading` answers at once, while the completion is still to come.
pub open spec fn filler_text() -> Seq<char> {
    "Let's see what the spirits wish..."@
}

/// The one message a user sees when anything went wrong.
pub open spec fn failure_text() -> Seq<char> {
    "Oops. Something went wrong."@
}

/// What precedes the error's own message in the log.
pub open spec fn error_prefix() -> Seq<char> {
    "I got an error: "@
}

/// The request that every reading makes.
pub open spec fn tarot_request() -> CompletionRequestView {
    CompletionRequestView {
        model: "text-davinci-003"@,
        prompt: "Give me a Tarot Reading"@,
        max_tokens: 512,
    }
}

/// The commands that a new handler knows.
pub open spec fn standard_table() -> Map<Seq<char>, Handler> {
    Map::<Seq<char>, Handler>::empty().insert("ping"@, Handler::Ping).insert(
        "reading"@,
        Handler::Reading,
    )
}

/// How far the handling of one interaction has come.
#[derive(Clone, Copy, Debug, PartialEq, Eq, Structural)]
pub enum Session {
    /// The interaction arrived; nothing was sent yet.
    Received,
    /// The initial response of a reading went out.
    Acknowledged { channel_id: u64 },
    /// The completion call of a reading is outstanding.
    CallPending { channel_id: u64 },
    /// Done: the user has the answer that the command owes.
    Replied,
    /// Done without that answer.
    Failed,
}

impl Session {
    /// Nothing follows a terminal session.
    pub open spec fn is_terminal(self) -> bool {
        self is Replied || self is Failed
    }
}

/// What the caller reports back to the handler.
#[derive(Debug, PartialEq, Eq)]
pub enum Event {
    /// The gateway delivered the interaction.
    Created(Interaction),
    /// The initial response was sent, or could not be.
    ResponseSettled(Result<(), String>),
    /// The completion call returned.
    Completed(Result<CompletionResponse, NetworkError>),
    /// A channel message was sent, or could not be.
    MessageSettled(Result<(), String>),
}

/// Something for the caller to send.
#[derive(Clone, Debug, PartialEq, Eq)]
pub enum Outbound {
    /// The initial response to the interaction: a channel message with source.
    InteractionResponse { content: String },
    /// A follow-up message to a channel.
    ChannelMessage { channel_id: u64, content: String },
    /// One call to the completion service.
    Completion { request: CompletionRequest },
}

/// An [`Outbound`] as plain values.
pub enum OutboundView {
    InteractionResponse { content: Seq<char> },
    ChannelMessage { channel_id: u64, content: Seq<char> },
    Completion { request: CompletionRequestView },
}

impl View for Outbound {
    type V = OutboundView;

    open spec fn view(&self) -> OutboundView {
        match *self {
            Outbound::InteractionResponse { content } => OutboundView::InteractionResponse {
                content: content@,
            },
            Outbound::ChannelMessage { channel_id, content } => OutboundView::ChannelMessage {
                channel_id,
                content: content@,
            },
            Outbound::Completion { request } => OutboundView::Completion { request: request@ },
        }
    }
}

impl OutboundView {
    /// Whether this is the initial response of an interaction.
    pub open spec fn is_initial(self) -> bool {
        self is InteractionResponse
    }
}

/// Something for the caller to log. None of it reaches the user.
#[derive(Clone, Debug, PartialEq, Eq)]
pub enum Notice {
    /// The gateway is connected, as the user named here.
    Connected { user_id: u64, user_name: String },
    /// A handler starts.
    Calling(Handler),
    /// The command has no handler.
    Unimplemented,
    /// The initial response could not be sent.
    ResponseFailed { detail: String },
    /// The completion could not be had.
    CompletionFailed { detail: String },
    /// A channel message could not be sent.
    MessageFailed { detail: String },
    /// An interaction is answered with the apology.
    InteractionFailed { detail: String },
}

/// A [`Notice`] as plain values.
pub enum NoticeView {
    Connected { user_id: u64, user_name: Seq<char> },
    Calling(Handler),
    Unimplemented,
    ResponseFailed { detail: Seq<char> },
    CompletionFailed { detail: Seq<char> },
    MessageFailed { detail: Seq<char> },
    InteractionFailed { detail: Seq<char> },
}

impl View for Notice {
    type V = NoticeView;

    open spec fn view(&self) -> NoticeView {
        match *self {
            Notice::Connected { user_id, user_name } => NoticeView::Connected {
                user_id,
                user_name: user_name@,
            },
            Notice::Calling(handler) => NoticeView::Calling(handler),
            Notice::Unimplemented => NoticeView::Unimplemented,
            Notice::ResponseFailed { detail } => NoticeView::ResponseFailed { detail: detail@ },
            Notice::CompletionFailed { detail } => NoticeView::CompletionFailed {
                detail: detail@,
            },
            Notice::MessageFailed { detail } => NoticeView::MessageFailed { detail: detail@ },
            Notice::InteractionFailed { detail } => NoticeView::InteractionFailed {
                detail: detail@,
            },
        }
    }
}

/// The outcome of one step.
#[derive(Clone, Debug, PartialEq, Eq)]
pub struct Step {
    pub next: Session,
    pub send: Option<Outbound>,
    pub notice: Option<Notice>,
}

/// A [`Step`] as plain values.
pub struct StepView {
    pub next: Session,
    pub send: Option<OutboundView>,
    pub notice: Option<NoticeView>,
}

impl View for Step {
    type V = StepView;

    open spec fn view(&self) -> StepView {
        StepView {
            next: self.next,
            send: match self.send {
                Some(outbound) => Some(outbound@),
                None => None,
            },
            notice: match self.notice {
                Some(notice) => Some(notice@),
                None => None,
            },
        }
    }
}

/// The step that changes nothing.
pub open spec fn idle(session: Session) -> StepView {
    StepView { next: session, send: None, notice: None }
}

/// The first step of `handler` on an interaction from channel `channel_id`.
pub open spec fn begin_of(handler: Handler, channel_id: u64) -> StepView {
    match handler {
        Handler::Ping => StepView {
            next: Session::Replied,
            send: Some(OutboundView::InteractionResponse { content: pong_text() }),
            notice: Some(NoticeView::Calling(Handler::Ping)),
        },
        Handler::Reading => StepView {
            next: Session::Acknowledged { channel_id },
            send: Some(OutboundView::InteractionResponse { content: filler_text() }),
            notice: Some(NoticeView::Calling(Handler::Reading)),
        },
    }
}

/// The first step on a command called `name`: that of the handler that
/// `table` has for `name`; without one, the interaction fails unanswered.
pub open spec fn dispatch_of(
    table: Map<Seq<char>, Handler>,
    name: Seq<char>,
    channel_id: u64,
) -> StepView {
    if table.contains_key(name) {
        begin_of(table[name], channel_id)
    } else {
        StepView { next: Session::Failed, send: None, notice: Some(NoticeView::Unimplemented) }
    }
}

/// The step of a reading whose initial response settled: the completion is
/// called for whether or not the response went out.
pub open spec fn call_of(channel_id: u64, outcome: Result<(), String>) -> StepView {
    StepView {
        next: Session::CallPending { channel_id },
        send: Some(OutboundView::Completion { request: tarot_request() }),
        notice: match outcome {
            Ok(_) => None,
            Err(detail) => Some(NoticeView::ResponseFailed { detail: detail@ }),
        },
    }
}

/// The step that tells channel `channel_id` that something went wrong, and
/// the log why.
pub open spec fn apology_of(channel_id: u64, message: Seq<char>) -> StepView {
    StepView {
        next: Session::Failed,
        send: Some(OutboundView::ChannelMessage { channel_id, content: failure_text() }),
        notice: Some(NoticeView::CompletionFailed { detail: error_prefix() + message }),
    }
}

/// The step of a reading whose completion call returned: the first choice's
/// text goes to the channel as it is; a failure, or a completion without
/// choices, becomes the apology.
pub open spec fn delivery_of(
    channel_id: u64,
    result: Result<CompletionResponse, NetworkError>,
) -> StepView {
    match result {
        Ok(response) => match first_choice_text(response) {
            Some(text) => StepView {
                next: Session::Replied,
                send: Some(OutboundView::ChannelMessage { channel_id, content: text@ }),
                notice: None,
            },
            None => apology_of(channel_id, no_choices_message()),
        },
        Err(error) => apology_of(channel_id, error.message@),
    }
}

/// The step of a finished interaction: a send that failed is logged, and
/// that is all.
pub open spec fn aftermath_of(session: Session, event: Event) -> StepView {
    StepView {
        next: session,
        send: None,
        notice: match event {
            Event::ResponseSettled(Err(detail)) => Some(
                NoticeView::ResponseFailed { detail: detail@ },
            ),
            Event::MessageSettled(Err(detail)) => Some(
                NoticeView::MessageFailed { detail: detail@ },
            ),
            _ => None,
        },
    }
}

/// The step from `session` on `event`, with `table` as the router's table.
pub open spec fn step_of(table: Map<Seq<char>, Handler>, session: Session, event: Event) -> StepView {
    match session {
        Session::Received => match event {
            Event::Created(interaction) => dispatch_of(
                table,
                interaction.command_name@,
                interaction.channel_id,
            ),
            _ => idle(session),
        },
        Session::Acknowledged { channel_id } => match event {
            Event::ResponseSettled(outcome) => call_of(channel_id, outcome),
            _ => idle(session),
        },
        Session::CallPending { channel_id } => match event {
            Event::Completed(result) => delivery_of(channel_id, result),
            _ => idle(session),
        },
        Session::Replied => aftermath_of(session, event),
        Session::Failed => aftermath_of(session, event),
    }
}

/// Receives the gateway's events and decides what the bot does.
pub struct TarotBotHandler {
    pub gpt3: Client,
    pub router: CommandRouter,
}

impl TarotBotHandler {
    /// A handler that completes through `client` and knows the commands
    /// `ping` and `reading`.
    pub fn new(client: Client) -> (handler: TarotBotHandler)
        ensures
            handler.gpt3 == client,
            handler.router@ == standard_table(),
    {
        let mut router = CommandRouter::new();
        router.register(String::from_str("ping"), Handler::Ping);
        router.register(String::from_str("reading"), Handler::Reading);
        TarotBotHandler { gpt3: client, router }
    }

    /// The request of a reading.
    pub fn tarot_req() -> (request: CompletionRequest)
        ensures
            request@ == tarot_request(),
            request.well_formed(),
    {
        CompletionRequest {
            model: String::from_str("text-davinci-003"),
            prompt: String::from_str("Give me a Tarot Reading"),
            max_tokens: 512,
        }
    }

    /// A message to `channel`.
    pub fn say_to(&self, channel: u64, msg: String) -> (outbound: Outbound)
        ensures
            outbound@ == (OutboundView::ChannelMessage { channel_id: channel, content: msg@ }),
    {
        Outbound::ChannelMessage { channel_id: channel, content: msg }
    }

    /// The initial response to an interaction, saying `msg`.
    pub fn send_msg(&self, msg: String) -> (outbound: Outbound)
        ensures
            outbound@ == (OutboundView::InteractionResponse { content: msg@ }),
    {
        Outbound::InteractionResponse { content: msg }
    }

    /// Answers an interaction itself with the apology, and logs `e`.
    pub fn send_interaction_error(&self, e: String) -> (sent: (Outbound, Notice))
        ensures
            sent.0@ == (OutboundView::InteractionResponse { content: failure_text() }),
            sent.1@ == (NoticeView::InteractionFailed { detail: e@ }),
    {
        (
            self.send_msg(String::from_str("Oops. Something went wrong.")),
            Notice::InteractionFailed { detail: e },
        )
    }

    /// Tells `channel` that something went wrong, and logs `e`. The user
    /// never sees `e`.
    pub fn send_error(&self, channel: u64, e: String) -> (sent: (Outbound, Notice))
        ensures
            sent.0@ == (OutboundView::ChannelMessage {
                channel_id: channel,
                content: failure_text(),
            }),
            sent.1@ == (NoticeView::CompletionFailed { detail: e@ }),
    {
        (
            self.say_to(channel, String::from_str("Oops. Something went wrong.")),
            Notice::CompletionFailed { detail: e },
        )
    }

    /// The `ping` handler: answers `pong` and is done.
    pub fn ping(&self, command: &Interaction) -> (step: Step)
        ensures
            step@ == begin_of(Handler::Ping, command.channel_id),
    {
        Step {
            next: Session::Replied,
            send: Some(self.send_msg(String::from_str("pong"))),
            notice: Some(Notice::Calling(Handler::Ping)),
        }
    }

    /// The `reading` handler: answers with the filler; the completion follows
    /// in [`TarotBotHandler::reading_call`] and
    /// [`TarotBotHandler::reading_deliver`].
    pub fn reading(&self, command: &Interaction) -> (step: Step)
        ensures
            step@ == begin_of(Handler::Reading, command.channel_id),
    {
        Step {
            next: Session::Acknowledged { channel_id: command.channel_id },
            send: Some(self.send_msg(String::from_str("Let's see what the spirits wish..."))),
            notice: Some(Notice::Calling(Handler::Reading)),
        }
    }

    /// A reading, once its initial response settled: calls for the completion.
    /// A response that could not be sent is logged and not sent again.
    pub fn reading_call(&self, channel_id: u64, outcome: Result<(), String>) -> (step: Step)
        ensures
            step@ == call_of(channel_id, outcome),
    {
        Step {
            next: Session::CallPending { channel_id },
            send: Some(Outbound::Completion { request: Self::tarot_req() }),
            notice: match outcome {
                Ok(_) => None,
                Err(detail) => Some(Notice::ResponseFailed { detail }),
            },
        }
    }

    /// A reading, once its completion call returned: sends the text of the
    /// first choice to the channel, or the apology if there is none.
    pub fn reading_deliver(
        &self,
        channel_id: u64,
        result: Result<CompletionResponse, NetworkError>,
    ) -> (step: Step)
        ensures
            step@ == delivery_of(channel_id, result),
    {
        let text = match result {
            Ok(response) => response.first_text(),
            Err(error) => Err(error),
        };
        match text {
            Ok(text) => Step {
                next: Session::Replied,
                send: Some(self.say_to(channel_id, text)),
                notice: None,
            },
            Err(error) => {
                let detail = String::from_str("I got an error: ").concat(error.message.as_str());
                let (outbound, notice) = self.send_error(channel_id, detail);
                Step { next: Session::Failed, send: Some(outbound), notice: Some(notice) }
            },
        }
    }

    /// Starts the handler that the router has for `name`. Where it has none,
    /// no handler runs and nothing is sent: the miss is logged, and the
    /// interaction fails without an answer.
    pub fn dispatch(&self, name: &String, interaction: &Interaction) -> (step: Step)
        ensures
            step@ == dispatch_of(self.router@, name@, interaction.channel_id),
    {
        match self.router.lookup(name) {
            Some(Handler::Ping) => self.ping(interaction),
            Some(Handler::Reading) => self.reading(interaction),
            None => Step {
                next: Session::Failed,
                send: None,
                notice: Some(Notice::Unimplemented),
            },
        }
    }

    /// The first step on an interaction: dispatches on its command name.
    pub fn interaction_create(&self, interaction: &Interaction) -> (step: Step)
        ensures
            step@ == step_of(self.router@, Session::Received, Event::Created(*interaction)),
    {
        self.dispatch(&interaction.command_name, interaction)
    }

    /// One step of an interaction: from `session`, on `event`.
    pub fn step(&self, session: Session, event: Event) -> (step: Step)
        ensures
            step@ == step_of(self.router@, session, event),
    {
        match session {
            Session::Received => match event {
                Event::Created(interaction) => self.interaction_create(&interaction),
                _ => Step { next: session, send: None, notice: None },
            },
            Session::Acknowledged { channel_id } => match event {
                Event::ResponseSettled(outcome) => self.reading_call(channel_id, outcome),
                _ => Step { next: session, send: None, notice: None },
            },
            Session::CallPending { channel_id } => match event {
                Event::Completed(result) => self.reading_deliver(channel_id, result),
                _ => Step { next: session, send: None, notice: None },
            },
            Session::Replied | Session::Failed => Step {
                next: session,
                send: None,
                notice: match event {
                    Event::ResponseSettled(Err(detail)) => Some(Notice::ResponseFailed { detail }),
                    Event::MessageSettled(Err(detail)) => Some(Notice::MessageFailed { detail }),
                    _ => None,
                },
            },
        }
    }
}

} // verus!
