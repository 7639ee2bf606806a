//! Messages exchanged between network peers, the queues that hold them, and
//! the decisions of where a queued message goes.

use vstd::prelude::*;
use std::collections::VecDeque;

verus! {

/// A game-specific message body. The generic network code forwards such
/// messages without looking inside them, so a message is only as trusted as
/// the peer that sent it.
pub trait GameMessage: Clone + Eq {}

/// A message as it travels between peers.
#[derive(Debug, PartialEq, Eq)]
pub enum WireMessage<G> {
    /// The first message to send to any peer on connecting, whatever roles
    /// the two peers have.
    Hello,
    /// A courtesy message before disconnecting, so the peer can tell a clean
    /// disconnection from a disappearance.
    Goodbye,
    /// A game-specific message.
    Game(G),
}

/// A game message received from a peer.
#[derive(Debug, PartialEq, Eq)]
pub struct RecvMessage<G> {
    pub game_message: G,
}

/// The network transport used to send a message.
#[derive(Debug, Clone, Copy, PartialEq, Eq, Structural)]
pub enum Transport {
    UDP,
    TCP,
}

/// A game message wrapped for sending to one peer or more.
#[derive(Debug)]
pub struct SendMessage<G> {
    pub destination: Destination,
    pub game_message: G,
    /// The network transport that should carry the message.
    pub transport: Transport,
}

/// The peers a message is for.
#[derive(Debug, Clone, Copy, PartialEq, Eq, Structural)]
pub enum Destination {
    One(PeerId),
    EveryoneElse,
}

/// Game messages waiting to be handed to game-specific code.
pub struct RecvMessageQueue<G> {
    pub queue: VecDeque<RecvMessage<G>>,
}

/// Game messages waiting to be sent to peers.
pub struct SendMessageQueue<G> {
    pub queue: VecDeque<SendMessage<G>>,
}

impl<G> SendMessageQueue<G> {
    pub fn new() -> (r: SendMessageQueue<G>)
        ensures
            r.queue@.len() == 0,
    {
        SendMessageQueue { queue: VecDeque::new() }
    }
}

/// Local identifier of a network peer, never sent to a peer. Identifier 0
/// stands for this host itself; the peers it knows are numbered from 1 in
/// the order they connected.
#[derive(Clone, Copy, Debug, PartialEq, Eq, Structural, Hash)]
pub struct PeerId(pub u16);

/// Where a queued message goes.
#[derive(Debug, Clone, Copy, PartialEq, Eq, Structural)]
pub enum Route {
    /// Straight back onto this host's own receive queue, so that this host
    /// can be treated as one more peer.
    ToSelf,
    /// To the known peer at this position in the list of peers.
    ToPeer(usize),
    /// To every known peer.
    ToEveryPeer,
}

/// The route of a message for `destination` when `peer_count` peers are
/// known; `None` when it names a peer that is not known.
pub open spec fn route_of(destination: Destination, peer_count: nat) -> Option<Route> {
    match destination {
        Destination::One(id) => if id.0 == 0 {
            Some(Route::ToSelf)
        } else if id.0 <= peer_count {
            Some(Route::ToPeer((id.0 - 1) as usize))
        } else {
            None
        },
        Destination::EveryoneElse => Some(Route::ToEveryPeer),
    }
}

/// Decides where a message for `destination` goes when `peer_count` peers
/// are known.
pub fn route(destination: Destination, peer_count: usize) -> (r: Option<Route>)
    ensures
        r == route_of(destination, peer_count as nat),
{
    match destination {
        Destination::One(id) => {
            if id.0 == 0 {
                Some(Route::ToSelf)
            } else if (id.0 as usize) <= peer_count {
                Some(Route::ToPeer((id.0 - 1) as usize))
            } else {
                None
            }
        },
        Destination::EveryoneElse => Some(Route::ToEveryPeer),
    }
}

/// The identifier for a newly connected peer when `peer_count` peers are
/// already known: the next one after theirs, or `None` when identifiers
/// have run out.
pub fn next_peer_id(peer_count: usize) -> (r: Option<PeerId>)
    ensures
        peer_count < u16::MAX ==> r == Some(PeerId((peer_count + 1) as u16)),
        peer_count >= u16::MAX ==> r is None,
{
    if peer_count < u16::MAX as usize {
        Some(PeerId((peer_count + 1) as u16))
    } else {
        None
    }
}

/// A game message that leaves this host, with where it goes.
#[derive(Debug)]
pub struct Outgoing<G> {
    pub route: Route,
    pub game_message: G,
    pub transport: Transport,
}

/// Every message in `messages` is for this host or for a known peer.
pub open spec fn all_destinations_known<G>(messages: Seq<SendMessage<G>>, peer_count: nat) -> bool {
    forall|i: int|
        0 <= i < messages.len() ==> (#[trigger] route_of(messages[i].destination, peer_count))
            is Some
}

/// The messages among `messages` that are for this host, in order, as
/// received messages.
pub open spec fn looped_back<G>(messages: Seq<SendMessage<G>>, peer_count: nat) -> Seq<
    RecvMessage<G>,
>
    decreases messages.len(),
{
    if messages.len() == 0 {
        Seq::empty()
    } else {
        let rest = looped_back(messages.drop_last(), peer_count);
        let m = messages.last();
        if route_of(m.destination, peer_count) == Some(Route::ToSelf) {
            rest.push(RecvMessage { game_message: m.game_message })
        } else {
            rest
        }
    }
}

/// The messages among `messages` that leave this host, in order, each with
/// its route.
pub open spec fn sent_out<G>(messages: Seq<SendMessage<G>>, peer_count: nat) -> Seq<Outgoing<G>>
    decreases messages.len(),
{
    if messages.len() == 0 {
        Seq::empty()
    } else {
        let rest = sent_out(messages.drop_last(), peer_count);
        let m = messages.last();
        match route_of(m.destination, peer_count) {
            Some(Route::ToSelf) => rest,
            Some(r) => rest.push(
                Outgoing { route: r, game_message: m.game_message, transport: m.transport },
            ),
            None => rest,
        }
    }
}

/// Empties the send queue: messages for this host go onto the end of its
/// receive queue, and the others are returned, in queue order, with their
/// routes, for the transport to send.
pub fn dispatch_send_queue<G>(
    send_queue: &mut SendMessageQueue<G>,
    recv_queue: &mut RecvMessageQueue<G>,
    peer_count: usize,
) -> (r: Vec<Outgoing<G>>)
    requires
        all_destinations_known(old(send_queue).queue@, peer_count as nat),
    ensures
        final(send_queue).queue@.len() == 0,
        final(recv_queue).queue@ == old(recv_queue).queue@ + looped_back(
            old(send_queue).queue@,
            peer_count as nat,
        ),
        r@ == sent_out(old(send_queue).queue@, peer_count as nat),
{
    let ghost messages = send_queue.queue@;
    let ghost recv_before = recv_queue.queue@;
    let mut outgoing: Vec<Outgoing<G>> = Vec::new();
    let ghost mut done: int = 0;
    loop
        invariant
            0 <= done <= messages.len(),
            send_queue.queue@ == messages.subrange(done, messages.len() as int),
            recv_queue.queue@ == recv_before + looped_back(
                messages.take(done),
                peer_count as nat,
            ),
            outgoing@ == sent_out(messages.take(done), peer_count as nat),
            all_destinations_known(messages, peer_count as nat),
        ensures
            done == messages.len(),
            send_queue.queue@.len() == 0,
            recv_queue.queue@ == recv_before + looped_back(messages, peer_count as nat),
            outgoing@ == sent_out(messages, peer_count as nat),
        decreases messages.len() - done,
    {
        match send_queue.queue.pop_front() {
            Some(message) => {
                proof {
                    let next = messages.take(done + 1);
                    assert(next.drop_last() =~= messages.take(done));
                    assert(next.last() == message);
                    assert(route_of(messages[done].destination, peer_count as nat) is Some);
                }
                let SendMessage { destination, game_message, transport } = message;
                match route(destination, peer_count) {
                    Some(Route::ToSelf) => {
                        recv_queue.queue.push_back(RecvMessage { game_message });
                        proof {
                            assert(recv_before + looped_back(messages.take(done), peer_count as nat).push(RecvMessage { game_message }) =~= recv_queue.queue@);
                        }
                    },
                    Some(r) => {
                        outgoing.push(Outgoing { route: r, game_message, transport });
                    },
                    None => {},
                }
                proof {
                    done = done + 1;
                }
            },
            None => {
                assert(messages.take(done) =~= messages);
                break;
            },
        }
    }
    outgoing
}

} // verus!
