use sideswap_manager::api::{DelPegReq, DelPegResp, NewAddressReq, Notif, PegStatus, Req, Resp};
use sideswap_manager::command::Command;
use sideswap_manager::error::Error;
use sideswap_manager::gateway::{
    client_loop, process_to_msg, process_ws_msg, process_ws_req, ClientEvent, ClientId, ClientIds,
    Failure, From, Handling, Message, To, Turn, Unreadable,
};
use sideswap_manager::ids::{Hash32, OrderId};

fn order(n: u128) -> OrderId {
    OrderId(Hash32 { hi: 0, lo: n })
}

#[test]
fn client_ids_count_up_from_one() {
    let mut ids = ClientIds::new();
    assert_eq!(ids.next(), Some(ClientId(1)));
    assert_eq!(ids.next(), Some(ClientId(2)));
    assert_eq!(ids.next(), Some(ClientId(3)));
    assert_eq!(ids.last_id, 3);
}

#[test]
fn client_ids_end_at_the_greatest_value() {
    let mut ids = ClientIds { last_id: u64::MAX - 1 };
    assert_eq!(ids.next(), Some(ClientId(u64::MAX)));
    assert_eq!(ids.next(), None);
    assert_eq!(ids.next(), None);
    assert_eq!(ids.last_id, u64::MAX);
}

#[test]
fn a_request_is_dispatched_under_its_identifier() {
    let req = Req::DelPeg(DelPegReq { order_id: order(1) });
    let msg = Message::Text(Ok(To { id: "17".to_owned(), req: req.clone() }));
    assert_eq!(
        process_ws_msg(msg),
        Handling::Dispatch {
            id: "17".to_owned(),
            command: Command::DelPeg { req: DelPegReq { order_id: order(1) } },
        }
    );
    assert_eq!(
        process_ws_req(Req::NewAddress(NewAddressReq { user_note: None })),
        Command::NewAddress { req: NewAddressReq { user_note: None } }
    );
}

#[test]
fn an_unreadable_text_is_answered_without_the_worker() {
    let msg = Message::Text(Err(Unreadable {
        id: "\"abc\"".to_owned(),
        error: "expected value at line 1 column 1".to_owned(),
    }));
    assert_eq!(
        process_ws_msg(msg),
        Handling::Reply(From::Error {
            id: "\"abc\"".to_owned(),
            err: Failure::InvalidRequest {
                text: "invalid JSON: expected value at line 1 column 1".to_owned(),
            },
        })
    );
}

#[test]
fn other_messages_are_passed_over() {
    assert_eq!(process_ws_msg(Message::Binary), Handling::Ignore);
    assert_eq!(process_ws_msg(Message::Ping), Handling::Ignore);
    assert_eq!(process_ws_msg(Message::Pong), Handling::Ignore);
    assert_eq!(process_ws_msg(Message::Close), Handling::Ignore);
    assert_eq!(process_ws_msg(Message::Frame), Handling::Ignore);
}

#[test]
fn answers_carry_the_identifier_of_the_request() {
    assert_eq!(
        process_to_msg("5".to_owned(), Ok(Resp::DelPeg(DelPegResp {}))),
        From::Resp { id: "5".to_owned(), resp: Resp::DelPeg(DelPegResp {}) }
    );
    assert_eq!(
        process_to_msg("5".to_owned(), Err(Error::GapLimit)),
        From::Error { id: "5".to_owned(), err: Failure::Refused(Error::GapLimit) }
    );
}

#[test]
fn the_client_task_handles_messages_and_notifications_and_stops_at_an_end() {
    let notif = Notif::PegStatus(PegStatus { order_id: order(1), detail: "d".to_owned() });
    assert_eq!(
        client_loop(ClientEvent::Notif(notif.clone())),
        Turn::Handle(Handling::Reply(From::Notif { notif }))
    );
    assert_eq!(client_loop(ClientEvent::Message(Message::Ping)), Turn::Handle(Handling::Ignore));
    assert_eq!(client_loop(ClientEvent::SocketError), Turn::Stop);
    assert_eq!(client_loop(ClientEvent::SocketClosed), Turn::Stop);
    assert_eq!(client_loop(ClientEvent::NotifsClosed), Turn::Stop);
}
