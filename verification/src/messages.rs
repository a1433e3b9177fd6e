//! The fixed user-facing texts: the countdown label per session kind, the
//! completion notification, and the pause-gate prompt.

use vstd::prelude::*;
use crate::entities::SessionKind;

verus! {

/// The countdown label of a session kind.
pub open spec fn message_chars(kind: SessionKind) -> Seq<char> {
    match kind {
        SessionKind::Work => "Work time!"@,
        SessionKind::ShortBreak => "Short break!"@,
        SessionKind::LongBreak => "Long break!"@,
    }
}

/// The title of the completion notification of a session kind.
pub open spec fn title_chars(kind: SessionKind) -> Seq<char> {
    match kind {
        SessionKind::Work => "Work done!"@,
        _ => "Break done!"@,
    }
}

/// The body of the completion notification of a session kind.
pub open spec fn body_chars(kind: SessionKind) -> Seq<char> {
    match kind {
        SessionKind::Work => "Your timer has completed, time to journal!"@,
        _ => "It's time to get back to working!"@,
    }
}

/// The label shown beside the countdown of a session.
pub fn session_message(kind: SessionKind) -> (r: &'static str)
    ensures
        r@ == message_chars(kind),
{
    match kind {
        SessionKind::Work => "Work time!",
        SessionKind::ShortBreak => "Short break!",
        SessionKind::LongBreak => "Long break!",
    }
}

/// The title of the notification sent when a session's timer completes.
pub fn notification_title(kind: SessionKind) -> (r: &'static str)
    ensures
        r@ == title_chars(kind),
{
    match kind {
        SessionKind::Work => "Work done!",
        _ => "Break done!",
    }
}

/// The body of the notification sent when a session's timer completes.
pub fn notification_body(kind: SessionKind) -> (r: &'static str)
    ensures
        r@ == body_chars(kind),
{
    match kind {
        SessionKind::Work => "Your timer has completed, time to journal!",
        _ => "It's time to get back to working!",
    }
}

/// The prompt printed at the pause gate before the blocking read.
pub fn pause_prompt() -> (r: &'static str)
    ensures
        r@ == "Press the enter key to continue..."@,
{
    "Press the enter key to continue..."
}

} // verus!
