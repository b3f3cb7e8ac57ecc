//! Classification of inbound frames. Text payloads are classified by
//! substring presence, checked in a fixed priority order before any
//! structural parsing — a deliberate, order-sensitive heuristic kept
//! behind this one function so the dispatch loop never inspects payloads
//! itself.

use vstd::prelude::*;

use crate::strutil::contains_substr;
use crate::strutil::find_substr;

verus! {

/// What a text payload is, by the first matching tag substring: an
/// informational notice, a subscription acknowledgement, an error notice,
/// a keepalive answer, or market/account data.
#[derive(Debug, Clone, Copy, PartialEq, Eq, Structural)]
pub enum FrameClass {
    Info,
    Subscribed,
    ErrorNotice,
    Pong,
    Data,
}

/// The classification policy: `info` before `subscribed` before `error`
/// before `pong`, anything else data.
pub open spec fn spec_classify(t: Seq<char>) -> FrameClass {
    if contains_substr(t, "info"@) {
        FrameClass::Info
    } else if contains_substr(t, "subscribed"@) {
        FrameClass::Subscribed
    } else if contains_substr(t, "error"@) {
        FrameClass::ErrorNotice
    } else if contains_substr(t, "pong"@) {
        FrameClass::Pong
    } else {
        FrameClass::Data
    }
}

/// Classifies a text payload.
pub fn classify(text: &str) -> (r: FrameClass)
    ensures
        r == spec_classify(text@),
{
    if find_substr(text, "info") {
        FrameClass::Info
    } else if find_substr(text, "subscribed") {
        FrameClass::Subscribed
    } else if find_substr(text, "error") {
        FrameClass::ErrorNotice
    } else if find_substr(text, "pong") {
        FrameClass::Pong
    } else {
        FrameClass::Data
    }
}

/// Law: a payload containing `info` is classified as an informational
/// notice — and so dropped before any structural parsing — even when it
/// would otherwise be a well-formed data message.
pub proof fn lemma_info_takes_priority(t: Seq<char>)
    requires
        contains_substr(t, "info"@),
    ensures
        spec_classify(t) == FrameClass::Info,
{
}

/// An inbound transport frame, reduced to what the session logic reads:
/// the text of a text frame; other frames only by kind.
#[derive(Debug, Clone, PartialEq, Eq)]
pub enum InboundFrame {
    Text(String),
    Binary,
    PingControl,
    PongControl,
    CloseFrame,
}

/// What the loop must do with one inbound frame.
#[derive(Debug, Clone, Copy, PartialEq, Eq, Structural)]
pub enum InboundAction {
    /// Log the payload as informational and drop it.
    LogInfo,
    /// Parse the payload as a notification and hand it to the
    /// subscription callback.
    Notify,
    /// Log the payload as an error notice and drop it.
    LogError,
    /// Parse the payload as a data event and hand it to the data callback.
    Data,
    /// Silently ignore the frame.
    Ignore,
    /// Treat the connection as lost: leave the loop with an error.
    Fatal,
}

/// The action for a text payload of the given class. Subscription
/// acknowledgements and keepalive answers both go to the subscription
/// callback.
pub open spec fn action_for_class(c: FrameClass) -> InboundAction {
    match c {
        FrameClass::Info => InboundAction::LogInfo,
        FrameClass::Subscribed => InboundAction::Notify,
        FrameClass::ErrorNotice => InboundAction::LogError,
        FrameClass::Pong => InboundAction::Notify,
        FrameClass::Data => InboundAction::Data,
    }
}

/// The action for any inbound frame: text frames by classification,
/// binary and transport-level ping/pong frames ignored, a transport-level
/// close treated as a lost connection.
pub open spec fn spec_inbound_action(f: &InboundFrame) -> InboundAction {
    match f {
        InboundFrame::Text(s) => action_for_class(spec_classify(s@)),
        InboundFrame::Binary => InboundAction::Ignore,
        InboundFrame::PingControl => InboundAction::Ignore,
        InboundFrame::PongControl => InboundAction::Ignore,
        InboundFrame::CloseFrame => InboundAction::Fatal,
    }
}

/// Decides what the loop does with one inbound frame.
pub fn handle_inbound(f: &InboundFrame) -> (r: InboundAction)
    ensures
        r == spec_inbound_action(f),
{
    match f {
        InboundFrame::Text(s) => {
            match classify(s.as_str()) {
                FrameClass::Info => InboundAction::LogInfo,
                FrameClass::Subscribed => InboundAction::Notify,
                FrameClass::ErrorNotice => InboundAction::LogError,
                FrameClass::Pong => InboundAction::Notify,
                FrameClass::Data => InboundAction::Data,
            }
        },
        InboundFrame::Binary => InboundAction::Ignore,
        InboundFrame::PingControl => InboundAction::Ignore,
        InboundFrame::PongControl => InboundAction::Ignore,
        InboundFrame::CloseFrame => InboundAction::Fatal,
    }
}

} // verus!
