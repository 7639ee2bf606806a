use std::collections::VecDeque;

use planetkit::net::{
    dispatch_send_queue, next_peer_id, route, Destination, PeerId, RecvMessage, RecvMessageQueue,
    Route, SendMessage, SendMessageQueue, Transport,
};

#[test]
fn route_to_self_peer_and_everyone() {
    assert_eq!(route(Destination::One(PeerId(0)), 2), Some(Route::ToSelf));
    assert_eq!(route(Destination::One(PeerId(1)), 2), Some(Route::ToPeer(0)));
    assert_eq!(route(Destination::One(PeerId(2)), 2), Some(Route::ToPeer(1)));
    assert_eq!(route(Destination::One(PeerId(3)), 2), None);
    assert_eq!(route(Destination::EveryoneElse, 0), Some(Route::ToEveryPeer));
}

#[test]
fn new_peers_are_numbered_from_one() {
    assert_eq!(next_peer_id(0), Some(PeerId(1)));
    assert_eq!(next_peer_id(4), Some(PeerId(5)));
    assert_eq!(next_peer_id(65534), Some(PeerId(65535)));
    assert_eq!(next_peer_id(65535), None);
}

#[test]
fn dispatch_loops_back_and_sends_the_rest_in_order() {
    let mut send_queue: SendMessageQueue<String> = SendMessageQueue::new();
    let msg = |destination, text: &str, transport| SendMessage {
        destination,
        game_message: text.to_string(),
        transport,
    };
    send_queue.queue.push_back(msg(Destination::One(PeerId(0)), "Sunny!", Transport::UDP));
    send_queue.queue.push_back(msg(Destination::One(PeerId(2)), "Cooperative!", Transport::TCP));
    send_queue.queue.push_back(msg(Destination::EveryoneElse, "Enthusiastic!", Transport::UDP));
    send_queue.queue.push_back(msg(Destination::One(PeerId(0)), "Authoritative!", Transport::TCP));
    let mut recv_queue = RecvMessageQueue {
        queue: VecDeque::from(vec![RecvMessage { game_message: "Earlier".to_string() }]),
    };
    let out = dispatch_send_queue(&mut send_queue, &mut recv_queue, 2);
    assert!(send_queue.queue.is_empty());
    let received: Vec<&str> = recv_queue.queue.iter().map(|m| m.game_message.as_str()).collect();
    assert_eq!(received, vec!["Earlier", "Sunny!", "Authoritative!"]);
    assert_eq!(out.len(), 2);
    assert_eq!(out[0].route, Route::ToPeer(1));
    assert_eq!(out[0].game_message, "Cooperative!");
    assert_eq!(out[0].transport, Transport::TCP);
    assert_eq!(out[1].route, Route::ToEveryPeer);
    assert_eq!(out[1].game_message, "Enthusiastic!");
    assert_eq!(out[1].transport, Transport::UDP);
}
