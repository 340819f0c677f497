use crate::hub::{is_recipient_list, membership, subscribers, Hub};
use crate::models::{new_uuid, Outbound, WsMessage};
use vstd::prelude::*;

verus! {

/// Where a connection is in its life.
#[derive(Clone, Copy, Debug, PartialEq, Eq, Structural)]
pub enum Lifecycle {
    Connecting,
    Active,
    Closing,
    Closed,
}

/// The status code and optional text of a close request.
#[derive(Clone, Debug, PartialEq, Eq)]
pub struct CloseReason {
    pub code: u16,
    pub description: Option<String>,
}

/// One inbound frame, as the transport decoded it.
#[derive(Clone, Debug, PartialEq, Eq)]
pub enum Inbound {
    /// A text frame that parsed as a protocol message.
    Text(WsMessage),
    /// A text frame that did not parse as a protocol message.
    Malformed,
    Ping(Vec<u8>),
    Close(Option<CloseReason>),
    /// Any other frame (binary, pong, continuation).
    Other,
}

/// A payload together with the sessions it goes to.
#[derive(Clone, Debug, PartialEq, Eq)]
pub struct Delivery {
    pub recipients: Vec<u128>,
    pub payload: Outbound,
}

/// What the transport has to do after one inbound frame.
#[derive(Clone, Debug, PartialEq, Eq)]
pub enum Reaction {
    Ignore,
    Pong(Vec<u8>),
    Close(Option<CloseReason>),
    Deliver(Delivery),
}

/// The document a message is about.
pub open spec fn target_of(m: WsMessage) -> u128 {
    match m {
        WsMessage::Join { document_id, .. } => document_id,
        WsMessage::Leave { document_id, .. } => document_id,
        WsMessage::Operation { document_id, .. } => document_id,
        WsMessage::CursorMove { document_id, .. } => document_id,
    }
}

/// What the other subscribers receive for a message.
pub open spec fn payload_of(m: WsMessage) -> Outbound {
    match m {
        WsMessage::Join { user_id, .. } => Outbound::UserJoined { user_id },
        WsMessage::Leave { user_id, .. } => Outbound::UserLeft { user_id },
        WsMessage::Operation { operation, .. } => Outbound::Operation { operation },
        WsMessage::CursorMove { user_id, position, .. } => Outbound::CursorMove {
            user_id,
            position,
        },
    }
}

/// The subscriptions after `sender` sent `m`: a join subscribes, a leave
/// unsubscribes, the other messages change nothing.
pub open spec fn joined_after(joined: Map<u128, u128>, sender: u128, m: WsMessage) -> Map<
    u128,
    u128,
> {
    match m {
        WsMessage::Join { document_id, .. } => joined.insert(sender, document_id),
        WsMessage::Leave { .. } => joined.remove(sender),
        _ => joined,
    }
}

/// The document a connection is on after it sent `m`.
pub open spec fn document_after(current: Option<u128>, m: WsMessage) -> Option<u128> {
    match m {
        WsMessage::Join { document_id, .. } => Some(document_id),
        WsMessage::Leave { .. } => None,
        _ => current,
    }
}

/// The user label a connection carries after it sent `m`.
pub open spec fn user_after(current: Option<String>, m: WsMessage) -> Option<String> {
    match m {
        WsMessage::Join { user_id, .. } => Some(user_id),
        _ => current,
    }
}

/// `d` carries the payload of `m` to every subscriber of its document in
/// `joined` but `sender`, once each.
pub open spec fn delivers(d: Delivery, joined: Map<u128, u128>, sender: u128, m: WsMessage) -> bool {
    &&& d.payload == payload_of(m)
    &&& is_recipient_list(d.recipients@, joined, target_of(m), Some(sender))
}

/// The subscriptions after each `(sender, message)` pair of `msgs`, in order.
pub open spec fn replay_messages(joined: Map<u128, u128>, msgs: Seq<(u128, WsMessage)>) -> Map<
    u128,
    u128,
>
    decreases msgs.len(),
{
    if msgs.len() == 0 {
        joined
    } else {
        joined_after(replay_messages(joined, msgs.drop_last()), msgs.last().0, msgs.last().1)
    }
}

/// Once a session has left or disconnected, no message sent afterwards by
/// other sessions makes it a subscriber again, so no later delivery, to any
/// document, lists it among its recipients.
pub proof fn lemma_left_session_receives_nothing(
    joined: Map<u128, u128>,
    s: u128,
    msgs: Seq<(u128, WsMessage)>,
)
    requires
        forall|i: int| 0 <= i < msgs.len() ==> #[trigger] msgs[i].0 != s,
    ensures
        membership(replay_messages(joined.remove(s), msgs), s).is_none(),
        forall|r: Seq<u128>, e: u128, ex: Option<u128>|
            #[trigger] is_recipient_list(r, replay_messages(joined.remove(s), msgs), e, ex)
                ==> !r.contains(s),
    decreases msgs.len(),
{
    if msgs.len() > 0 {
        let prefix = msgs.drop_last();
        assert forall|i: int| 0 <= i < prefix.len() implies #[trigger] prefix[i].0 != s by {
            assert(prefix[i] == msgs[i]);
        }
        lemma_left_session_receives_nothing(joined, s, prefix);
        assert(msgs.last() == msgs[msgs.len() - 1]);
    }
    assert forall|r: Seq<u128>, e: u128, ex: Option<u128>|
        #[trigger] is_recipient_list(r, replay_messages(joined.remove(s), msgs), e, ex)
            implies !r.contains(s) by {
        if r.contains(s) {
            assert(subscribers(replay_messages(joined.remove(s), msgs), e).contains(s));
        }
    }
}

/// Applies a message from `sender` to the hub and computes what goes out:
/// the message's payload, for every other current subscriber of its document.
pub fn dispatch(hub: &mut Hub, sender: u128, message: WsMessage) -> (d: Delivery)
    requires
        old(hub).wf(),
    ensures
        final(hub).wf(),
        final(hub)@ == joined_after(old(hub)@, sender, message),
        delivers(d, final(hub)@, sender, message),
{
    match message {
        WsMessage::Join { document_id, user_id } => {
            hub.subscribe(document_id, sender);
            let recipients = hub.recipients(document_id, Some(sender));
            Delivery { recipients, payload: Outbound::UserJoined { user_id } }
        },
        WsMessage::Leave { document_id, user_id } => {
            hub.unsubscribe(sender);
            let recipients = hub.recipients(document_id, Some(sender));
            Delivery { recipients, payload: Outbound::UserLeft { user_id } }
        },
        WsMessage::Operation { document_id, operation } => {
            let recipients = hub.recipients(document_id, Some(sender));
            Delivery { recipients, payload: Outbound::Operation { operation } }
        },
        WsMessage::CursorMove { document_id, user_id, position } => {
            let recipients = hub.recipients(document_id, Some(sender));
            Delivery { recipients, payload: Outbound::CursorMove { user_id, position } }
        },
    }
}

/// One client connection: its identity, the document it is on, the user
/// label it gave, and where it is in its life.
#[derive(Clone, Debug, PartialEq, Eq)]
pub struct MyWebSocket {
    pub id: u128,
    pub document_id: Option<u128>,
    pub user_id: Option<String>,
    pub state: Lifecycle,
}

impl MyWebSocket {
    /// The hub's subscriptions agree with this connection's own record of
    /// the document it is on.
    pub open spec fn agrees_with(&self, joined: Map<u128, u128>) -> bool {
        membership(joined, self.id) == self.document_id
    }

    /// A connection with identity `id` that has not been upgraded yet.
    pub fn new(id: u128) -> (r: MyWebSocket)
        ensures
            r.id == id,
            r.document_id.is_none(),
            r.user_id.is_none(),
            r.state == Lifecycle::Connecting,
    {
        MyWebSocket { id, document_id: None, user_id: None, state: Lifecycle::Connecting }
    }

    /// A connection with a fresh random identity that has not been upgraded yet.
    pub fn open() -> (r: MyWebSocket)
        ensures
            r.document_id.is_none(),
            r.user_id.is_none(),
            r.state == Lifecycle::Connecting,
    {
        MyWebSocket::new(new_uuid())
    }

    /// The upgrade succeeded: a connecting connection becomes active.
    pub fn started(&mut self)
        ensures
            final(self).state == (if old(self).state == Lifecycle::Connecting {
                Lifecycle::Active
            } else {
                old(self).state
            }),
            final(self).id == old(self).id,
            final(self).document_id == old(self).document_id,
            final(self).user_id == old(self).user_id,
    {
        if self.state == Lifecycle::Connecting {
            self.state = Lifecycle::Active;
        }
    }

    /// Handles one inbound frame. Only an active connection acts on frames:
    /// a parsed message goes to the hub and its payload to the other
    /// subscribers; a malformed one is dropped and the connection stays
    /// active; a ping is answered with its own payload; a close request is
    /// echoed and the connection starts closing.
    pub fn handle(&mut self, hub: &mut Hub, frame: Inbound) -> (r: Reaction)
        requires
            old(hub).wf(),
        ensures
            final(hub).wf(),
            final(self).id == old(self).id,
            old(self).agrees_with(old(hub)@) ==> final(self).agrees_with(final(hub)@),
            old(self).state != Lifecycle::Active ==> {
                &&& r == Reaction::Ignore
                &&& final(hub)@ == old(hub)@
                &&& *final(self) == *old(self)
            },
            old(self).state == Lifecycle::Active ==> match frame {
                Inbound::Text(m) => {
                    &&& final(hub)@ == joined_after(old(hub)@, old(self).id, m)
                    &&& match r {
                        Reaction::Deliver(d) => delivers(d, final(hub)@, old(self).id, m),
                        _ => false,
                    }
                    &&& final(self).state == Lifecycle::Active
                    &&& final(self).document_id == document_after(old(self).document_id, m)
                    &&& final(self).user_id == user_after(old(self).user_id, m)
                },
                Inbound::Close(reason) => {
                    &&& r == Reaction::Close(reason)
                    &&& final(hub)@ == old(hub)@
                    &&& final(self).state == Lifecycle::Closing
                    &&& final(self).document_id == old(self).document_id
                    &&& final(self).user_id == old(self).user_id
                },
                Inbound::Ping(p) => {
                    &&& r == Reaction::Pong(p)
                    &&& final(hub)@ == old(hub)@
                    &&& *final(self) == *old(self)
                },
                _ => {
                    &&& r == Reaction::Ignore
                    &&& final(hub)@ == old(hub)@
                    &&& *final(self) == *old(self)
                },
            },
    {
        if self.state != Lifecycle::Active {
            return Reaction::Ignore;
        }
        match frame {
            Inbound::Text(message) => {
                match &message {
                    WsMessage::Join { document_id, user_id } => {
                        self.document_id = Some(*document_id);
                        self.user_id = Some(user_id.clone());
                    },
                    WsMessage::Leave { .. } => {
                        self.document_id = None;
                    },
                    _ => {},
                }
                Reaction::Deliver(dispatch(hub, self.id, message))
            },
            Inbound::Ping(p) => Reaction::Pong(p),
            Inbound::Close(reason) => {
                self.state = Lifecycle::Closing;
                Reaction::Close(reason)
            },
            Inbound::Malformed => Reaction::Ignore,
            Inbound::Other => Reaction::Ignore,
        }
    }

    /// The connection ended, for whatever cause: its subscription is removed
    /// from the hub, whichever document it was on, and it is closed.
    pub fn stopped(&mut self, hub: &mut Hub)
        requires
            old(hub).wf(),
        ensures
            final(hub).wf(),
            final(hub)@ == old(hub)@.remove(old(self).id),
            final(self).id == old(self).id,
            final(self).state == Lifecycle::Closed,
            final(self).document_id.is_none(),
            final(self).user_id == old(self).user_id,
            final(self).agrees_with(final(hub)@),
    {
        hub.unsubscribe(self.id);
        self.document_id = None;
        self.state = Lifecycle::Closed;
    }

    /// The delivery of `payload` to every subscriber of `document_id` other
    /// than this connection.
    pub fn broadcast_to_document(&self, hub: &Hub, document_id: u128, payload: Outbound) -> (d:
        Delivery)
        requires
            hub.wf(),
        ensures
            d.payload == payload,
            is_recipient_list(d.recipients@, hub@, document_id, Some(self.id)),
    {
        Delivery { recipients: hub.recipients(document_id, Some(self.id)), payload }
    }
}

} // verus!
