//! What holds of an interaction over its whole life, whatever events arrive.

use vstd::prelude::*;
use crate::gpt3::{first_choice_text, CompletionResponse, NetworkError};
use crate::handler::{
    begin_of,
    delivery_of,
    dispatch_of,
    failure_text,
    filler_text,
    pong_text,
    step_of,
    tarot_request,
    Event,
    NoticeView,
    OutboundView,
    Session,
};
use crate::interaction::Interaction;
use crate::router::Handler;

verus! {

/// Everything that is sent, in order, while `events` arrive one after the
/// other at an interaction that stands at `session`.
pub open spec fn sent(
    table: Map<Seq<char>, Handler>,
    session: Session,
    events: Seq<Event>,
) -> Seq<OutboundView>
    decreases events.len(),
{
    if events.len() == 0 {
        Seq::empty()
    } else {
        let step = step_of(table, session, events[0]);
        let rest = sent(table, step.next, events.drop_first());
        match step.send {
            Some(outbound) => seq![outbound] + rest,
            None => rest,
        }
    }
}

/// Where an interaction that stands at `session` has come to after `events`.
pub open spec fn reached(
    table: Map<Seq<char>, Handler>,
    session: Session,
    events: Seq<Event>,
) -> Session
    decreases events.len(),
{
    if events.len() == 0 {
        session
    } else {
        reached(table, step_of(table, session, events[0]).next, events.drop_first())
    }
}

/// How many of `sends` are initial responses.
pub open spec fn initial_responses(sends: Seq<OutboundView>) -> nat
    decreases sends.len(),
{
    if sends.len() == 0 {
        0
    } else {
        let first: nat = if sends[0].is_initial() {
            1
        } else {
            0
        };
        first + initial_responses(sends.drop_first())
    }
}

/// What a run sends and reaches, told by its first event and the rest.
proof fn lemma_unfold(
    table: Map<Seq<char>, Handler>,
    session: Session,
    first: Event,
    rest: Seq<Event>,
)
    ensures
        sent(table, session, seq![first] + rest) == (match step_of(table, session, first).send {
            Some(outbound) => seq![outbound] + sent(
                table,
                step_of(table, session, first).next,
                rest,
            ),
            None => sent(table, step_of(table, session, first).next, rest),
        }),
        reached(table, session, seq![first] + rest) == reached(
            table,
            step_of(table, session, first).next,
            rest,
        ),
{
    let events = seq![first] + rest;
    assert(events[0] == first);
    assert(events.drop_first() =~= rest);
}

/// The handler that a name is registered under is the one that its command
/// starts, and no other: the step of the command is that handler's first
/// step, and it says so in the log. Commands of other names go on as before.
pub proof fn lemma_registered_handler_runs(
    table: Map<Seq<char>, Handler>,
    name: Seq<char>,
    handler: Handler,
    other: Seq<char>,
    channel_id: u64,
)
    ensures
        dispatch_of(table.insert(name, handler), name, channel_id) == begin_of(handler, channel_id),
        dispatch_of(table.insert(name, handler), name, channel_id).notice == Some(
            NoticeView::Calling(handler),
        ),
        other != name ==> dispatch_of(table.insert(name, handler), other, channel_id)
            == dispatch_of(table, other, channel_id),
{
}

/// A command whose name is registered starts the handler of that name: the
/// log names a handler exactly if it is the registered one.
pub proof fn lemma_dispatch_is_exact(
    table: Map<Seq<char>, Handler>,
    interaction: Interaction,
    handler: Handler,
)
    requires
        table.contains_key(interaction.command_name@),
    ensures
        step_of(table, Session::Received, Event::Created(interaction)) == begin_of(
            table[interaction.command_name@],
            interaction.channel_id,
        ),
        step_of(table, Session::Received, Event::Created(interaction)).notice == Some(
            NoticeView::Calling(handler),
        ) <==> table[interaction.command_name@] == handler,
{
}

/// A command whose name is not registered starts no handler and never sends
/// anything, whatever follows: it has failed at once.
pub proof fn lemma_unregistered_is_dropped(
    table: Map<Seq<char>, Handler>,
    interaction: Interaction,
    rest: Seq<Event>,
)
    requires
        !table.contains_key(interaction.command_name@),
    ensures
        step_of(table, Session::Received, Event::Created(interaction)).notice == Some(
            NoticeView::Unimplemented,
        ),
        sent(table, Session::Received, seq![Event::Created(interaction)] + rest)
            == Seq::<OutboundView>::empty(),
        reached(table, Session::Received, seq![Event::Created(interaction)] + rest)
            == Session::Failed,
{
    lemma_unfold(table, Session::Received, Event::Created(interaction), rest);
    lemma_finished_is_silent(table, Session::Failed, rest);
}

/// A finished interaction stays where it is and sends nothing more.
pub proof fn lemma_finished_is_silent(
    table: Map<Seq<char>, Handler>,
    session: Session,
    events: Seq<Event>,
)
    requires
        session.is_terminal(),
    ensures
        sent(table, session, events) == Seq::<OutboundView>::empty(),
        reached(table, session, events) == session,
    decreases events.len(),
{
    if events.len() > 0 {
        lemma_finished_is_silent(table, session, events.drop_first());
    }
}

/// Counting the initial responses of a sequence by its first element.
proof fn lemma_count_first(first: OutboundView, rest: Seq<OutboundView>)
    ensures
        initial_responses(seq![first] + rest) == (if first.is_initial() {
            1nat
        } else {
            0nat
        }) + initial_responses(rest),
{
    let sends = seq![first] + rest;
    assert(sends[0] == first);
    assert(sends.drop_first() =~= rest);
}

/// Once an interaction is past its arrival, no initial response is sent.
proof fn lemma_no_second_response(
    table: Map<Seq<char>, Handler>,
    session: Session,
    events: Seq<Event>,
)
    requires
        !(session is Received),
    ensures
        initial_responses(sent(table, session, events)) == 0,
    decreases events.len(),
{
    if events.len() > 0 {
        let step = step_of(table, session, events[0]);
        lemma_no_second_response(table, step.next, events.drop_first());
        if let Some(outbound) = step.send {
            lemma_count_first(outbound, sent(table, step.next, events.drop_first()));
        }
    }
}

/// An interaction gets at most one initial response, whatever events
/// arrive and in whatever order.
pub proof fn lemma_at_most_one_initial_response(
    table: Map<Seq<char>, Handler>,
    events: Seq<Event>,
)
    ensures
        initial_responses(sent(table, Session::Received, events)) <= 1,
    decreases events.len(),
{
    if events.len() > 0 {
        let step = step_of(table, Session::Received, events[0]);
        let rest = events.drop_first();
        if step.next is Received {
            lemma_at_most_one_initial_response(table, rest);
        } else {
            lemma_no_second_response(table, step.next, rest);
            if let Some(outbound) = step.send {
                lemma_count_first(outbound, sent(table, step.next, rest));
            }
        }
    }
}

/// A command whose name is registered gets exactly one initial response,
/// whatever follows its arrival.
pub proof fn lemma_registered_is_acknowledged_once(
    table: Map<Seq<char>, Handler>,
    interaction: Interaction,
    rest: Seq<Event>,
)
    requires
        table.contains_key(interaction.command_name@),
    ensures
        initial_responses(
            sent(table, Session::Received, seq![Event::Created(interaction)] + rest),
        ) == 1,
{
    let first = Event::Created(interaction);
    let step = step_of(table, Session::Received, first);
    lemma_unfold(table, Session::Received, first, rest);
    lemma_no_second_response(table, step.next, rest);
    lemma_count_first(step.send->Some_0, sent(table, step.next, rest));
}

/// `ping` is answered with `pong` as its initial response, and with nothing
/// else, whatever follows.
pub proof fn lemma_ping_replies_pong(
    table: Map<Seq<char>, Handler>,
    interaction: Interaction,
    rest: Seq<Event>,
)
    requires
        table.contains_key(interaction.command_name@),
        table[interaction.command_name@] == Handler::Ping,
    ensures
        sent(table, Session::Received, seq![Event::Created(interaction)] + rest) == seq![
            OutboundView::InteractionResponse { content: pong_text() },
        ],
        reached(table, Session::Received, seq![Event::Created(interaction)] + rest)
            == Session::Replied,
{
    lemma_unfold(table, Session::Received, Event::Created(interaction), rest);
    lemma_finished_is_silent(table, Session::Replied, rest);
}

/// Whether a completion call brought a text: it returned a response, and
/// the response has a first choice.
pub open spec fn brought_text(result: Result<CompletionResponse, NetworkError>) -> bool {
    result is Ok && first_choice_text(result->Ok_0) is Some
}

/// The channel message that ends a reading: the first choice's text as it
/// came, or the apology where the call brought no text.
pub open spec fn reading_message(result: Result<CompletionResponse, NetworkError>) -> Seq<char> {
    if brought_text(result) {
        first_choice_text(result->Ok_0)->Some_0@
    } else {
        failure_text()
    }
}

/// A reading sends three things and no more: the filler as its initial
/// response, one completion call, and one message to the channel that the
/// command came from. It makes the call whether or not the filler went out.
/// The message is the text that the call brought, and the reading has then
/// replied; where the call brought none, the message is the apology and
/// nothing else, and the reading has failed.
pub proof fn lemma_reading_sends_three(
    table: Map<Seq<char>, Handler>,
    interaction: Interaction,
    outcome: Result<(), String>,
    result: Result<CompletionResponse, NetworkError>,
    rest: Seq<Event>,
)
    requires
        table.contains_key(interaction.command_name@),
        table[interaction.command_name@] == Handler::Reading,
    ensures
        sent(
            table,
            Session::Received,
            seq![
                Event::Created(interaction),
                Event::ResponseSettled(outcome),
                Event::Completed(result),
            ] + rest,
        ) == seq![
            OutboundView::InteractionResponse { content: filler_text() },
            OutboundView::Completion { request: tarot_request() },
            OutboundView::ChannelMessage {
                channel_id: interaction.channel_id,
                content: reading_message(result),
            },
        ],
        reached(
            table,
            Session::Received,
            seq![
                Event::Created(interaction),
                Event::ResponseSettled(outcome),
                Event::Completed(result),
            ] + rest,
        ) == (if brought_text(result) {
            Session::Replied
        } else {
            Session::Failed
        }),
{
    let channel_id = interaction.channel_id;
    let created = Event::Created(interaction);
    let settled = Event::ResponseSettled(outcome);
    let completed = Event::Completed(result);
    let all = seq![created, settled, completed] + rest;
    let after_created = seq![settled, completed] + rest;
    let after_settled = seq![completed] + rest;
    assert(all =~= seq![created] + after_created);
    assert(after_created =~= seq![settled] + after_settled);
    lemma_unfold(table, Session::Received, created, after_created);
    lemma_unfold(table, Session::Acknowledged { channel_id }, settled, after_settled);
    lemma_unfold(table, Session::CallPending { channel_id }, completed, rest);
    let last = delivery_of(channel_id, result);
    lemma_finished_is_silent(table, last.next, rest);
    assert(sent(table, Session::CallPending { channel_id }, after_settled) =~= seq![
        OutboundView::ChannelMessage { channel_id, content: reading_message(result) },
    ]);
    assert(sent(table, Session::Acknowledged { channel_id }, after_created) =~= seq![
        OutboundView::Completion { request: tarot_request() },
        OutboundView::ChannelMessage { channel_id, content: reading_message(result) },
    ]);
    assert(sent(table, Session::Received, all) =~= seq![
        OutboundView::InteractionResponse { content: filler_text() },
        OutboundView::Completion { request: tarot_request() },
        OutboundView::ChannelMessage { channel_id, content: reading_message(result) },
    ]);
}

/// Where interaction `id` stands among `sessions`: one that was not seen yet
/// has only just been received.
pub open spec fn session_of(sessions: Map<int, Session>, id: int) -> Session {
    if sessions.contains_key(id) {
        sessions[id]
    } else {
        Session::Received
    }
}

/// The events of `arrivals` that belong to interaction `id`, in order.
/// An arrival is an event together with the interaction that it belongs to.
pub open spec fn own_events(arrivals: Seq<(int, Event)>, id: int) -> Seq<Event>
    decreases arrivals.len(),
{
    if arrivals.len() == 0 {
        Seq::empty()
    } else {
        let rest = own_events(arrivals.drop_first(), id);
        if arrivals[0].0 == id {
            seq![arrivals[0].1] + rest
        } else {
            rest
        }
    }
}

/// What interaction `id` sends while the events of many interactions arrive
/// interleaved: each arrival moves the interaction that it belongs to by one
/// step and leaves the others where they are.
pub open spec fn sent_among(
    table: Map<Seq<char>, Handler>,
    sessions: Map<int, Session>,
    arrivals: Seq<(int, Event)>,
    id: int,
) -> Seq<OutboundView>
    decreases arrivals.len(),
{
    if arrivals.len() == 0 {
        Seq::empty()
    } else {
        let step = step_of(table, session_of(sessions, arrivals[0].0), arrivals[0].1);
        let rest = sent_among(
            table,
            sessions.insert(arrivals[0].0, step.next),
            arrivals.drop_first(),
            id,
        );
        if arrivals[0].0 == id && step.send is Some {
            seq![step.send->Some_0] + rest
        } else {
            rest
        }
    }
}

/// Where interaction `id` stands after `arrivals`.
pub open spec fn reached_among(
    table: Map<Seq<char>, Handler>,
    sessions: Map<int, Session>,
    arrivals: Seq<(int, Event)>,
    id: int,
) -> Session
    decreases arrivals.len(),
{
    if arrivals.len() == 0 {
        session_of(sessions, id)
    } else {
        let step = step_of(table, session_of(sessions, arrivals[0].0), arrivals[0].1);
        reached_among(
            table,
            sessions.insert(arrivals[0].0, step.next),
            arrivals.drop_first(),
            id,
        )
    }
}

/// Interactions in flight at the same time do not touch each other: among
/// any interleaving of events, an interaction sends what it would send if
/// its own events arrived alone, and comes to stand where it would stand
/// then. Nothing that another interaction waits for can hold it up.
pub proof fn lemma_interactions_are_independent(
    table: Map<Seq<char>, Handler>,
    sessions: Map<int, Session>,
    arrivals: Seq<(int, Event)>,
    id: int,
)
    ensures
        sent_among(table, sessions, arrivals, id) == sent(
            table,
            session_of(sessions, id),
            own_events(arrivals, id),
        ),
        reached_among(table, sessions, arrivals, id) == reached(
            table,
            session_of(sessions, id),
            own_events(arrivals, id),
        ),
    decreases arrivals.len(),
{
    if arrivals.len() > 0 {
        let step = step_of(table, session_of(sessions, arrivals[0].0), arrivals[0].1);
        let moved = sessions.insert(arrivals[0].0, step.next);
        lemma_interactions_are_independent(table, moved, arrivals.drop_first(), id);
        if arrivals[0].0 == id {
            lemma_unfold(
                table,
                session_of(sessions, id),
                arrivals[0].1,
                own_events(arrivals.drop_first(), id),
            );
        }
    }
}

} // verus!
