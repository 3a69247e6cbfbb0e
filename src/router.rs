use vstd::prelude::*;

use crate::envelope::MsgPayload;
use crate::queue::{enqueued, OfflineQueue};
use crate::registry::{ConnId, SessionRegistry};

verus! {

/// What becomes of a routed envelope.
#[derive(Debug)]
pub enum RouteAction {
    /// The recipient is unknown: the envelope is dropped, and the sender
    /// hears nothing of it.
    Dropped,
    /// The sender wrote to itself: its own connection delivers the envelope.
    DeliverToSelf(MsgPayload),
    /// The recipient has a session: that connection delivers the envelope.
    Deliver(ConnId, MsgPayload),
    /// The recipient has no session: the envelope waits in its queue.
    Queued,
}

/// `m` with `author` as its author.
pub open spec fn authored(m: MsgPayload, author: String) -> MsgPayload {
    MsgPayload { author: author, ..m }
}

/// The routing decision for `m`, sent by `sender`, where `recipient_exists`
/// tells whether the credential store knows `m.recipient`.
pub open spec fn route_outcome(
    sessions: Map<Seq<char>, ConnId>,
    sender: String,
    recipient_exists: bool,
    m: MsgPayload,
) -> RouteAction {
    if !recipient_exists {
        RouteAction::Dropped
    } else if m.recipient@ == sender@ {
        RouteAction::DeliverToSelf(authored(m, sender))
    } else if sessions.contains_key(m.recipient@) {
        RouteAction::Deliver(sessions[m.recipient@], authored(m, sender))
    } else {
        RouteAction::Queued
    }
}

/// An envelope that a sender writes to itself goes back over the sender's
/// own connection, whatever the registry holds: routing it never looks the
/// sender up, so it cannot wait on the sender's own connection.
pub proof fn lemma_self_message_bypasses_registry(
    sessions: Map<Seq<char>, ConnId>,
    sender: String,
    m: MsgPayload,
)
    requires
        m.recipient@ == sender@,
    ensures
        route_outcome(sessions, sender, true, m) == RouteAction::DeliverToSelf(authored(m, sender)),
        route_outcome(sessions, sender, true, m) == route_outcome(Map::empty(), sender, true, m),
{
}

/// An envelope for an identity that the credential store does not know is
/// dropped: nothing is delivered and nothing is queued.
pub proof fn lemma_unknown_recipient_dropped(
    sessions: Map<Seq<char>, ConnId>,
    sender: String,
    m: MsgPayload,
)
    ensures
        route_outcome(sessions, sender, false, m) == RouteAction::Dropped,
{
}

/// Routes `m` from `sender`. The author is always set to `sender`. An
/// envelope that a sender writes to itself goes back over its own
/// connection without a registry lookup; otherwise it goes to the
/// recipient's session, or waits in the recipient's queue.
pub fn route(
    registry: &SessionRegistry,
    queue: &mut OfflineQueue,
    sender: String,
    recipient_exists: bool,
    m: MsgPayload,
) -> (r: RouteAction)
    requires
        registry.wf(),
        old(queue).wf(),
    ensures
        final(queue).wf(),
        r == route_outcome(registry@, sender, recipient_exists, m),
        final(queue)@ == (if r is Queued {
            enqueued(old(queue)@, m.recipient@, authored(m, sender))
        } else {
            old(queue)@
        }),
{
    if !recipient_exists {
        return RouteAction::Dropped;
    }
    let mut m = m;
    m.author = sender;
    if m.recipient == m.author {
        return RouteAction::DeliverToSelf(m);
    }
    match registry.get(&m.recipient) {
        Some(conn) => RouteAction::Deliver(conn, m),
        None => {
            let recipient = m.recipient.clone();
            queue.enqueue(recipient, m);
            RouteAction::Queued
        },
    }
}

} // verus!
