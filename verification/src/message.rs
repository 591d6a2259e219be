//! The messages that nodes exchange.
use crate::member_node::{MemberNodeDetails, MemberNodeView};
use vstd::prelude::*;

verus! {

/// What nodes send one another. A message that introduces or probes carries the
/// sender's details as they were when it was sent.
pub enum Message {
    /// A greeting that introduces the sender.
    Request(MemberNodeDetails, String),
    /// The answer to a `Request`.
    Response(MemberNodeDetails, String),
    /// A probe of the receiver: the sender's own, or, where the second field is
    /// set, one made as a witness on behalf of the node it names.
    Ping(MemberNodeDetails, Option<MemberNodeDetails>),
    /// The answer to a `Ping`: the host that answers, the node on whose behalf the
    /// ping was made, and whether the answering node holds itself not alive.
    PingResponse(u16, Option<MemberNodeDetails>, bool),
    /// Asks the receiver to probe a suspected host as a witness for the sender.
    ProbeRequest(MemberNodeDetails, u16),
    /// What a witness found of a suspected host.
    ProbeResponse(u16, bool),
    /// Ends the receiving node.
    Shutdown(),
}

/// A message as a mathematical value.
pub enum MessageView {
    Request(MemberNodeView, Seq<char>),
    Response(MemberNodeView, Seq<char>),
    Ping(MemberNodeView, Option<MemberNodeView>),
    PingResponse(u16, Option<MemberNodeView>, bool),
    ProbeRequest(MemberNodeView, u16),
    ProbeResponse(u16, bool),
    Shutdown,
}

/// The view of details that may be absent.
pub open spec fn optional_view(details: Option<MemberNodeDetails>) -> Option<MemberNodeView> {
    match details {
        Some(details) => Some(details@),
        None => None,
    }
}

impl View for Message {
    type V = MessageView;

    open spec fn view(&self) -> MessageView {
        match *self {
            Message::Request(from, text) => MessageView::Request(from@, text@),
            Message::Response(from, text) => MessageView::Response(from@, text@),
            Message::Ping(from, probing_node) => MessageView::Ping(
                from@,
                optional_view(probing_node),
            ),
            Message::PingResponse(from, probing_node, is_timed_out) => MessageView::PingResponse(
                from,
                optional_view(probing_node),
                is_timed_out,
            ),
            Message::ProbeRequest(from, target) => MessageView::ProbeRequest(from@, target),
            Message::ProbeResponse(target, is_timed_out) => MessageView::ProbeResponse(
                target,
                is_timed_out,
            ),
            Message::Shutdown() => MessageView::Shutdown,
        }
    }
}

impl DeepView for Message {
    type V = MessageView;

    open spec fn deep_view(&self) -> MessageView {
        self@
    }
}

} // verus!
