//! The events that the interface streams to its clients, and how one
//! agent's events are forwarded into that stream.

use vstd::prelude::*;
use vstd::string::StringExecFns;

verus! {

/// How many events the shared stream holds for a slow client.
pub const EVENT_CHANNEL_CAPACITY: usize = 512;

/// An event sent to the clients of the interface. `E` is the agent
/// runtime's own event type, carried as it is.
#[derive(Debug)]
pub enum ApiEvent<E> {
    /// A process event from an agent.
    ProcessEvent { agent_id: String, event: E },
    /// An inbound message from a user.
    InboundMessage { agent_id: String, channel_id: String, sender_id: String, text: String },
    /// An outbound message sent by the bot.
    OutboundMessage { agent_id: String, channel_id: String, text: String },
    /// Typing indicator state change.
    TypingState { agent_id: String, channel_id: String, is_typing: bool },
}

/// What a read from one agent's event stream came to.
#[derive(Debug)]
pub enum Received<E> {
    /// The next event.
    Event(E),
    /// The reader fell behind and this many events were dropped.
    Lagged(u64),
    /// The agent's stream is closed.
    Closed,
}

/// What the forwarder does next.
#[derive(Debug)]
pub enum Forward<E> {
    /// Send this event into the shared stream, then read on. A send that
    /// finds no client is no failure.
    Send(ApiEvent<E>),
    /// Note that events were missed, then read on.
    Skip { missed: u64 },
    /// Stop forwarding.
    Stop,
}

/// One step of forwarding the events of the agent `agent_id`: an event is
/// wrapped with the agent's id and sent, a lag is noted, and a closed stream
/// ends the forwarding.
pub fn forward<E>(agent_id: &str, received: Received<E>) -> (step: Forward<E>)
    ensures
        match received {
            Received::Event(e) => step == Forward::Send(
                ApiEvent::ProcessEvent { agent_id: step->Send_0->ProcessEvent_agent_id, event: e },
            ) && step->Send_0->ProcessEvent_agent_id@ == agent_id@,
            Received::Lagged(count) => step == (Forward::<E>::Skip { missed: count }),
            Received::Closed => step == Forward::<E>::Stop,
        },
{
    match received {
        Received::Event(event) => Forward::Send(
            ApiEvent::ProcessEvent { agent_id: String::from_str(agent_id), event },
        ),
        Received::Lagged(count) => Forward::Skip { missed: count },
        Received::Closed => Forward::Stop,
    }
}

} // verus!
