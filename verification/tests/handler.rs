use tarot_bot::gpt3::{
    Choice, Client, CompletionRequest, CompletionResponse, NetworkError, NetworkErrorKind,
};
use tarot_bot::handler::{Event, Notice, Outbound, Session, Step, TarotBotHandler};
use tarot_bot::interaction::Interaction;
use tarot_bot::router::Handler;

const FILLER: &str = "Let's see what the spirits wish...";
const APOLOGY: &str = "Oops. Something went wrong.";

fn bot() -> TarotBotHandler {
    TarotBotHandler::new(Client::new("sk-test".to_string()))
}

fn command(name: &str, channel_id: u64) -> Interaction {
    Interaction {
        command_name: name.to_string(),
        options: vec![],
        channel_id,
        caller_user_id: Some(1),
    }
}

fn completion(texts: &[&str]) -> CompletionResponse {
    CompletionResponse {
        id: "cmpl-1".to_string(),
        object: "text_completion".to_string(),
        created: 1_700_000_000,
        model: "text-davinci-003".to_string(),
        choices: texts
            .iter()
            .enumerate()
            .map(|(i, text)| Choice {
                text: text.to_string(),
                index: i as i32,
                finish_reason: "stop".to_string(),
            })
            .collect(),
    }
}

fn tarot_request() -> CompletionRequest {
    CompletionRequest {
        model: "text-davinci-003".to_string(),
        prompt: "Give me a Tarot Reading".to_string(),
        max_tokens: 512,
    }
}

fn response(content: &str) -> Outbound {
    Outbound::InteractionResponse { content: content.to_string() }
}

fn message(channel_id: u64, content: &str) -> Outbound {
    Outbound::ChannelMessage { channel_id, content: content.to_string() }
}

fn failed(message: &str) -> NetworkError {
    NetworkError { kind: NetworkErrorKind::Transport, message: message.to_string() }
}

#[test]
fn new_handler_holds_the_client_and_both_commands() {
    let handler = bot();
    assert_eq!(handler.gpt3, Client::new("sk-test".to_string()));
    assert_eq!(handler.router.lookup(&"ping".to_string()), Some(Handler::Ping));
    assert_eq!(handler.router.lookup(&"reading".to_string()), Some(Handler::Reading));
    assert_eq!(handler.router.lookup(&"tarot".to_string()), None);
}

#[test]
fn the_request_of_a_reading_is_fixed() {
    assert_eq!(TarotBotHandler::tarot_req(), tarot_request());
}

#[test]
fn ping_answers_pong_and_is_done() {
    let step = bot().interaction_create(&command("ping", 10));
    assert_eq!(
        step,
        Step {
            next: Session::Replied,
            send: Some(response("pong")),
            notice: Some(Notice::Calling(Handler::Ping)),
        }
    );
}

#[test]
fn ping_sends_nothing_after_its_response_settled() {
    let handler = bot();
    let step = handler.step(Session::Replied, Event::ResponseSettled(Ok(())));
    assert_eq!(step, Step { next: Session::Replied, send: None, notice: None });
}

#[test]
fn a_response_that_could_not_be_sent_is_logged_and_not_sent_again() {
    let handler = bot();
    let step = handler.step(Session::Replied, Event::ResponseSettled(Err("timeout".to_string())));
    assert_eq!(
        step,
        Step {
            next: Session::Replied,
            send: None,
            notice: Some(Notice::ResponseFailed { detail: "timeout".to_string() }),
        }
    );
}

#[test]
fn reading_answers_with_the_filler_first() {
    let step = bot().interaction_create(&command("reading", 20));
    assert_eq!(
        step,
        Step {
            next: Session::Acknowledged { channel_id: 20 },
            send: Some(response(FILLER)),
            notice: Some(Notice::Calling(Handler::Reading)),
        }
    );
}

#[test]
fn reading_calls_for_the_completion_once_acknowledged() {
    let step = bot().step(Session::Acknowledged { channel_id: 20 }, Event::ResponseSettled(Ok(())));
    assert_eq!(
        step,
        Step {
            next: Session::CallPending { channel_id: 20 },
            send: Some(Outbound::Completion { request: tarot_request() }),
            notice: None,
        }
    );
}

#[test]
fn reading_calls_for_the_completion_though_the_filler_failed() {
    let step = bot().step(
        Session::Acknowledged { channel_id: 20 },
        Event::ResponseSettled(Err("unknown interaction".to_string())),
    );
    assert_eq!(
        step,
        Step {
            next: Session::CallPending { channel_id: 20 },
            send: Some(Outbound::Completion { request: tarot_request() }),
            notice: Some(Notice::ResponseFailed { detail: "unknown interaction".to_string() }),
        }
    );
}

#[test]
fn reading_delivers_the_first_choice_verbatim() {
    let step = bot().step(
        Session::CallPending { channel_id: 20 },
        Event::Completed(Ok(completion(&["The Fool signifies new beginnings.", "second"]))),
    );
    assert_eq!(
        step,
        Step {
            next: Session::Replied,
            send: Some(message(20, "The Fool signifies new beginnings.")),
            notice: None,
        }
    );
}

#[test]
fn reading_does_not_trim_the_text() {
    let step = bot().reading_deliver(20, Ok(completion(&["\n\nThe Star.\n"])));
    assert_eq!(step.send, Some(message(20, "\n\nThe Star.\n")));
    assert_eq!(step.next, Session::Replied);
}

#[test]
fn reading_apologises_when_the_completion_failed() {
    let step = bot().step(
        Session::CallPending { channel_id: 20 },
        Event::Completed(Err(failed("connection reset"))),
    );
    assert_eq!(
        step,
        Step {
            next: Session::Failed,
            send: Some(message(20, APOLOGY)),
            notice: Some(Notice::CompletionFailed {
                detail: "I got an error: connection reset".to_string(),
            }),
        }
    );
}

#[test]
fn reading_apologises_when_the_completion_has_no_choices() {
    let step = bot().step(
        Session::CallPending { channel_id: 20 },
        Event::Completed(Ok(completion(&[]))),
    );
    assert_eq!(
        step,
        Step {
            next: Session::Failed,
            send: Some(message(20, APOLOGY)),
            notice: Some(Notice::CompletionFailed {
                detail: "I got an error: the completion holds no choices".to_string(),
            }),
        }
    );
}

#[test]
fn the_user_never_sees_the_error_text() {
    let step = bot().reading_deliver(20, Err(failed("secret detail")));
    match step.send {
        Some(Outbound::ChannelMessage { content, .. }) => {
            assert_eq!(content, APOLOGY);
            assert!(!content.contains("secret detail"));
        }
        other => panic!("expected a channel message, got {:?}", other),
    }
}

#[test]
fn a_message_that_could_not_be_sent_is_logged() {
    let handler = bot();
    for session in [Session::Replied, Session::Failed] {
        let step = handler.step(session, Event::MessageSettled(Err("missing access".to_string())));
        assert_eq!(
            step,
            Step {
                next: session,
                send: None,
                notice: Some(Notice::MessageFailed { detail: "missing access".to_string() }),
            }
        );
        let step = handler.step(session, Event::MessageSettled(Ok(())));
        assert_eq!(step, Step { next: session, send: None, notice: None });
    }
}

#[test]
fn an_unknown_command_is_dropped() {
    let step = bot().interaction_create(&command("horoscope", 30));
    assert_eq!(
        step,
        Step { next: Session::Failed, send: None, notice: Some(Notice::Unimplemented) }
    );
}

#[test]
fn command_names_are_matched_exactly() {
    let handler = bot();
    for name in ["", "Ping", "ping ", " reading", "readin", "readings"] {
        let step = handler.interaction_create(&command(name, 30));
        assert_eq!(step.next, Session::Failed, "name {:?}", name);
        assert_eq!(step.send, None, "name {:?}", name);
    }
}

#[test]
fn dispatch_goes_by_the_name_it_is_given() {
    let handler = bot();
    let interaction = command("reading", 40);
    let step = handler.dispatch(&"ping".to_string(), &interaction);
    assert_eq!(step.next, Session::Replied);
    assert_eq!(step.send, Some(response("pong")));
    let step = handler.dispatch(&"reading".to_string(), &interaction);
    assert_eq!(step.next, Session::Acknowledged { channel_id: 40 });
}

#[test]
fn dispatch_follows_the_router() {
    let mut handler = bot();
    handler.router.register("ping".to_string(), Handler::Reading);
    handler.router.register("cards".to_string(), Handler::Ping);
    let step = handler.interaction_create(&command("ping", 50));
    assert_eq!(step.next, Session::Acknowledged { channel_id: 50 });
    assert_eq!(step.notice, Some(Notice::Calling(Handler::Reading)));
    let step = handler.interaction_create(&command("cards", 50));
    assert_eq!(step.send, Some(response("pong")));
    assert_eq!(step.notice, Some(Notice::Calling(Handler::Ping)));
}

#[test]
fn events_that_do_not_fit_the_session_change_nothing() {
    let handler = bot();
    let idle = |session: Session| Step { next: session, send: None, notice: None };
    let received = Session::Received;
    assert_eq!(handler.step(received, Event::ResponseSettled(Ok(()))), idle(received));
    assert_eq!(handler.step(received, Event::Completed(Err(failed("x")))), idle(received));
    assert_eq!(handler.step(received, Event::MessageSettled(Err("x".to_string()))), idle(received));
    let acknowledged = Session::Acknowledged { channel_id: 1 };
    assert_eq!(handler.step(acknowledged, Event::Created(command("ping", 1))), idle(acknowledged));
    assert_eq!(
        handler.step(acknowledged, Event::Completed(Ok(completion(&["x"])))),
        idle(acknowledged)
    );
    let pending = Session::CallPending { channel_id: 1 };
    assert_eq!(handler.step(pending, Event::Created(command("reading", 1))), idle(pending));
    assert_eq!(handler.step(pending, Event::ResponseSettled(Err("x".to_string()))), idle(pending));
    assert_eq!(handler.step(Session::Replied, Event::Created(command("ping", 1))), idle(Session::Replied));
    assert_eq!(
        handler.step(Session::Failed, Event::Completed(Ok(completion(&["x"])))),
        idle(Session::Failed)
    );
}

#[test]
fn say_to_and_send_msg_carry_the_text_as_given() {
    let handler = bot();
    assert_eq!(handler.say_to(7, "hello".to_string()), message(7, "hello"));
    assert_eq!(handler.send_msg("hello".to_string()), response("hello"));
}

#[test]
fn send_error_apologises_to_the_channel_and_logs_the_cause() {
    let (outbound, notice) = bot().send_error(7, "I got an error: boom".to_string());
    assert_eq!(outbound, message(7, APOLOGY));
    assert_eq!(notice, Notice::CompletionFailed { detail: "I got an error: boom".to_string() });
}

#[test]
fn send_interaction_error_apologises_in_the_response_and_logs_the_cause() {
    let (outbound, notice) = bot().send_interaction_error("boom".to_string());
    assert_eq!(outbound, response(APOLOGY));
    assert_eq!(notice, Notice::InteractionFailed { detail: "boom".to_string() });
}
