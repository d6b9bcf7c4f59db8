//! The client gateway: identifiers of client connections, and what to do
//! with each message of a client and each answer to it.

use vstd::prelude::*;
use vstd::string::StringExecFns;
use crate::api::{Notif, Req, Resp};
use crate::command::Command;
use crate::error::Error;
use crate::ids::Key;

verus! {

/// Identifier of one client connection, unique within a process.
#[derive(Copy, Clone, PartialEq, Eq, Structural, Debug)]
pub struct ClientId(pub u64);

impl Key for ClientId {
    open spec fn rank(&self) -> int {
        self.0 as int
    }

    proof fn rank_identifies(a: Self, b: Self) {
    }

    fn same(&self, other: &Self) -> (r: bool) {
        self.0 == other.0
    }

    fn precedes(&self, other: &Self) -> (r: bool) {
        self.0 < other.0
    }
}

/// The source of client identifiers: each one greater than all before it.
pub struct ClientIds {
    pub last_id: u64,
}

impl ClientIds {
    /// A source that has given out no identifier yet.
    pub fn new() -> (r: Self)
        ensures
            r.last_id == 0,
    {
        ClientIds { last_id: 0 }
    }

    /// The next identifier: one more than the last. Nothing, and no change,
    /// once the greatest 64-bit value has been given out.
    pub fn next(&mut self) -> (r: Option<ClientId>)
        ensures
            old(self).last_id < u64::MAX ==> r == Some(ClientId((old(self).last_id + 1) as u64))
                && final(self).last_id == old(self).last_id + 1,
            old(self).last_id == u64::MAX ==> r is None && final(self).last_id == old(
                self,
            ).last_id,
    {
        if self.last_id == u64::MAX {
            return None;
        }
        self.last_id = self.last_id + 1;
        Some(ClientId(self.last_id))
    }
}

/// A request as it arrived, with the identifier that the client gave it. The
/// identifier is carried as the client wrote it.
#[derive(Clone, PartialEq, Eq, Debug)]
pub struct To {
    pub id: String,
    pub req: Req,
}

/// A text that is no request: why not, and the identifier that could still
/// be read from it.
#[derive(Clone, PartialEq, Eq, Debug)]
pub struct Unreadable {
    pub id: String,
    pub error: String,
}

/// A message of a client.
#[derive(PartialEq, Eq, Debug)]
pub enum Message {
    /// A text, read as a request or found to be none.
    Text(Result<To, Unreadable>),
    Binary,
    Ping,
    Pong,
    Close,
    Frame,
}

/// Why a request was not answered with what it asked for.
#[derive(Clone, PartialEq, Eq, Debug)]
pub enum Failure {
    /// The text was no request.
    InvalidRequest { text: String },
    /// The worker refused.
    Refused(Error),
}

/// A message to a client.
#[derive(Clone, PartialEq, Eq, Debug)]
pub enum From {
    Resp { id: String, resp: Resp },
    Error { id: String, err: Failure },
    Notif { notif: Notif },
}

/// What to do with a message of a client.
#[derive(Clone, PartialEq, Eq, Debug)]
pub enum Handling {
    /// Hand the command to the worker and answer under the identifier.
    Dispatch { id: String, command: Command },
    /// Answer at once, without the worker.
    Reply(From),
    /// Nothing.
    Ignore,
}

/// The command that a request is.
pub open spec fn command_of(req: Req) -> Command {
    match req {
        Req::NewAddress(req) => Command::NewAddress { req },
        Req::CreateTx(req) => Command::CreateTx { req },
        Req::SendTx(req) => Command::SendTx { req },
        Req::GetQuote(req) => Command::GetQuote { req },
        Req::AcceptQuote(req) => Command::AcceptQuote { req },
        Req::NewPeg(req) => Command::NewPeg { req },
        Req::DelPeg(req) => Command::DelPeg { req },
        Req::GetMonitoredTxs(req) => Command::GetMonitoredTxs { req },
    }
}

/// What to do with a message of a client: a request goes to the worker, a
/// text that is none is answered with the reason, anything else is passed
/// over.
pub open spec fn handling_of(msg: Message, r: Handling) -> bool {
    match msg {
        Message::Text(Ok(to)) => r == (Handling::Dispatch { id: to.id, command: command_of(to.req) }),
        Message::Text(Err(unreadable)) => r matches Handling::Reply(
            From::Error { id, err: Failure::InvalidRequest { text } },
        ) && id == unreadable.id && text@ == "invalid JSON: "@ + unreadable.error@,
        _ => r == Handling::Ignore,
    }
}

/// The command that a request is.
pub fn process_ws_req(req: Req) -> (r: Command)
    ensures
        r == command_of(req),
{
    match req {
        Req::NewAddress(req) => Command::NewAddress { req },
        Req::CreateTx(req) => Command::CreateTx { req },
        Req::SendTx(req) => Command::SendTx { req },
        Req::GetQuote(req) => Command::GetQuote { req },
        Req::AcceptQuote(req) => Command::AcceptQuote { req },
        Req::NewPeg(req) => Command::NewPeg { req },
        Req::DelPeg(req) => Command::DelPeg { req },
        Req::GetMonitoredTxs(req) => Command::GetMonitoredTxs { req },
    }
}

/// The message that answers a request: what it asked for, or why not.
pub fn process_to_msg(id: String, res: Result<Resp, Error>) -> (r: From)
    ensures
        r == (match res {
            Ok(resp) => From::Resp { id, resp },
            Err(err) => From::Error { id, err: Failure::Refused(err) },
        }),
{
    match res {
        Ok(resp) => From::Resp { id, resp },
        Err(err) => From::Error { id, err: Failure::Refused(err) },
    }
}

/// What to do with a message of a client.
pub fn process_ws_msg(msg: Message) -> (r: Handling)
    ensures
        handling_of(msg, r),
{
    match msg {
        Message::Text(Ok(to)) => Handling::Dispatch { id: to.id, command: process_ws_req(to.req) },
        Message::Text(Err(unreadable)) => {
            let mut text = String::from_str("invalid JSON: ");
            text.append(unreadable.error.as_str());
            Handling::Reply(
                From::Error { id: unreadable.id, err: Failure::InvalidRequest { text } },
            )
        },
        _ => Handling::Ignore,
    }
}

/// What reaches the task of one client connection.
#[derive(PartialEq, Eq, Debug)]
pub enum ClientEvent {
    /// A message of the client.
    Message(Message),
    /// The socket failed.
    SocketError,
    /// The socket ended.
    SocketClosed,
    /// The worker has something to tell the client.
    Notif(Notif),
    /// The worker let the client go.
    NotifsClosed,
}

/// What the task of one client connection does next.
#[derive(Clone, PartialEq, Eq, Debug)]
pub enum Turn {
    Handle(Handling),
    /// End the connection.
    Stop,
}

/// What an event does to the task of a client connection.
pub open spec fn turn_of(event: ClientEvent, r: Turn) -> bool {
    match event {
        ClientEvent::Message(msg) => r matches Turn::Handle(handling) && handling_of(msg, handling),
        ClientEvent::Notif(notif) => r == Turn::Handle(Handling::Reply(From::Notif { notif })),
        ClientEvent::SocketError | ClientEvent::SocketClosed | ClientEvent::NotifsClosed => r
            == Turn::Stop,
    }
}

/// Takes in what reaches the task of a client connection: a message is
/// handled, a notification passed on, and the end of either side ends the
/// connection.
pub fn client_loop(event: ClientEvent) -> (r: Turn)
    ensures
        turn_of(event, r),
{
    match event {
        ClientEvent::Message(msg) => Turn::Handle(process_ws_msg(msg)),
        ClientEvent::Notif(notif) => Turn::Handle(Handling::Reply(From::Notif { notif })),
        _ => Turn::Stop,
    }
}

} // verus!
