//! The per-connection session after the upgrade, as a state machine: each
//! step takes the current phase and what just happened, and gives the next
//! phase and what to do next. The connection's owner performs the actions
//! (reads, writes, the JSON decode of a click, the update of the shared
//! display state) and feeds back what came of them.

use crate::frame::{
    decode_header, encode_pong, encode_snapshot, header_verdict, pong_frame, snapshot_frame,
    length_of, masked, unmask, unmasked, MAX_PAYLOAD_LEN, OPCODE_PING,
};
use crate::led_matrix::{law_set_then_get, lit, set_cell, valid_cell};
use vstd::prelude::*;

verus! {

/// A control message from the client: set cell `(x, y)` to `on`.
#[derive(PartialEq, Eq, Structural, Clone, Copy, Debug)]
pub struct ClickEvent {
    pub x: u8,
    pub y: u8,
    pub on: bool,
}

/// Where a session stands.
#[derive(PartialEq, Eq, Structural, Clone, Copy, Debug)]
pub enum Phase {
    /// Waiting for the two header bytes of the next frame.
    AwaitingHeader,
    /// Waiting for the mask key and the payload of a frame whose header was accepted.
    AwaitingMaskAndPayload { opcode: u8, len: u8 },
    /// Waiting for the decoded control message of a text frame.
    Dispatch,
    /// Waiting for the display state after a click was applied.
    Applying,
    /// The session is over.
    Closed,
}

/// What happened since the last step.
pub enum Event {
    /// The bytes of the last `Send` action were written.
    Sent,
    /// The bytes asked for by the last `Read` action arrived.
    Received(Vec<u8>),
    /// The control message in a text payload, or `None` where it did not decode.
    Parsed(Option<ClickEvent>),
    /// The click was applied; the display state is now this bitmap.
    Applied(u64),
    /// A read or a write failed, or the stream ended.
    Failed,
}

/// What to do next.
pub enum Action {
    /// Read exactly this many bytes and hand them back as `Received`.
    Read(usize),
    /// Decode this text payload as a control message and hand back `Parsed`.
    Parse(Vec<u8>),
    /// Apply this click to the shared display state and hand back `Applied`.
    Apply(ClickEvent),
    /// Write these bytes and hand back `Sent`.
    Send(Vec<u8>),
    /// Close the connection.
    Close,
}

/// Whether the step ends the session.
pub open spec fn closes(next: Phase, action: Action) -> bool {
    next == Phase::Closed && action is Close
}

/// Whether the step waits for the next frame header.
pub open spec fn awaits_frame(next: Phase, action: Action) -> bool {
    next == Phase::AwaitingHeader && action == Action::Read(2)
}

/// Whether the step writes exactly `bytes` and then waits for the next frame.
pub open spec fn sends(next: Phase, action: Action, bytes: Seq<u8>) -> bool {
    next == Phase::AwaitingHeader && (action matches Action::Send(f) && f@ == bytes)
}

/// The session's transitions. A header is checked as `header_verdict`
/// says; a refused one ends the session before anything more is read. An
/// accepted one asks for the four mask bytes and the payload. A ping is
/// answered by an empty pong; a text payload is unmasked and handed out to
/// be decoded. A decoded click is applied and the new bitmap pushed to the
/// client; a payload that does not decode is ignored. Failures, and events
/// that do not fit the phase, end the session.
pub open spec fn transition(phase: Phase, event: Event, next: Phase, action: Action) -> bool {
    match event {
        Event::Failed => closes(next, action),
        Event::Sent => if phase == Phase::AwaitingHeader {
            awaits_frame(next, action)
        } else {
            closes(next, action)
        },
        Event::Received(b) => match phase {
            Phase::AwaitingHeader => if b@.len() == 2 {
                match header_verdict(b@[0], b@[1]) {
                    Ok(h) => next == (Phase::AwaitingMaskAndPayload { opcode: h.opcode, len: h.len })
                        && action == Action::Read((4 + h.len) as usize),
                    Err(_) => closes(next, action),
                }
            } else {
                closes(next, action)
            },
            Phase::AwaitingMaskAndPayload { opcode, len } => if b@.len() == 4 + len {
                if opcode == OPCODE_PING {
                    sends(next, action, pong_frame())
                } else {
                    next == Phase::Dispatch && (action matches Action::Parse(p) && p@ == unmasked(
                        b@.subrange(4, b@.len() as int),
                        b@.subrange(0, 4),
                    ))
                }
            } else {
                closes(next, action)
            },
            _ => closes(next, action),
        },
        Event::Parsed(c) => if phase == Phase::Dispatch {
            match c {
                Some(click) => next == Phase::Applying && action == Action::Apply(click),
                None => awaits_frame(next, action),
            }
        } else {
            closes(next, action)
        },
        Event::Applied(bits) => if phase == Phase::Applying {
            sends(next, action, snapshot_frame(bits))
        } else {
            closes(next, action)
        },
    }
}

/// Opens a session right after the handshake: the current bitmap is
/// pushed to the client first.
pub fn open_session(bits: u64) -> (r: (Phase, Action))
    ensures
        sends(r.0, r.1, snapshot_frame(bits)),
{
    (Phase::AwaitingHeader, Action::Send(encode_snapshot(bits)))
}

/// One step of the session.
pub fn step(phase: Phase, event: Event) -> (r: (Phase, Action))
    ensures
        transition(phase, event, r.0, r.1),
{
    match event {
        Event::Failed => (Phase::Closed, Action::Close),
        Event::Sent => {
            if phase == Phase::AwaitingHeader {
                (Phase::AwaitingHeader, Action::Read(2))
            } else {
                (Phase::Closed, Action::Close)
            }
        },
        Event::Received(b) => match phase {
            Phase::AwaitingHeader => {
                if b.len() == 2 {
                    match decode_header(b[0], b[1]) {
                        Ok(h) => (
                            Phase::AwaitingMaskAndPayload { opcode: h.opcode, len: h.len },
                            Action::Read(4 + h.len as usize),
                        ),
                        Err(_) => (Phase::Closed, Action::Close),
                    }
                } else {
                    (Phase::Closed, Action::Close)
                }
            },
            Phase::AwaitingMaskAndPayload { opcode, len } => {
                if b.len() == 4 + len as usize {
                    if opcode == OPCODE_PING {
                        (Phase::AwaitingHeader, Action::Send(encode_pong()))
                    } else {
                        (Phase::Dispatch, Action::Parse(unmask(b.as_slice())))
                    }
                } else {
                    (Phase::Closed, Action::Close)
                }
            },
            _ => (Phase::Closed, Action::Close),
        },
        Event::Parsed(c) => {
            if phase == Phase::Dispatch {
                match c {
                    Some(click) => (Phase::Applying, Action::Apply(click)),
                    None => (Phase::AwaitingHeader, Action::Read(2)),
                }
            } else {
                (Phase::Closed, Action::Close)
            }
        },
        Event::Applied(bits) => {
            if phase == Phase::Applying {
                (Phase::AwaitingHeader, Action::Send(encode_snapshot(bits)))
            } else {
                (Phase::Closed, Action::Close)
            }
        },
    }
}

/// A frame whose mask bit is clear ends the session at its header: nothing
/// more is read, and no click is applied.
pub proof fn law_unmasked_frame_closes(b0: u8, b1: u8, event: Event, next: Phase, action: Action)
    requires
        !masked(b1),
        event matches Event::Received(b) && b@ == seq![b0, b1],
        transition(Phase::AwaitingHeader, event, next, action),
    ensures
        closes(next, action),
{
}

/// A frame whose length field exceeds the payload cap ends the session at
/// its header: none of its payload is read, and no click is applied.
pub proof fn law_oversized_frame_closes(b0: u8, b1: u8, event: Event, next: Phase, action: Action)
    requires
        length_of(b1) > MAX_PAYLOAD_LEN,
        event matches Event::Received(b) && b@ == seq![b0, b1],
        transition(Phase::AwaitingHeader, event, next, action),
    ensures
        closes(next, action),
{
}

/// A text payload that does not decode as a control message is ignored:
/// no click is applied and the session waits for the next frame.
pub proof fn law_malformed_payload_ignored(next: Phase, action: Action)
    requires
        transition(Phase::Dispatch, Event::Parsed(None), next, action),
    ensures
        awaits_frame(next, action),
{
}

/// A decoded click is applied, and once applied to a bitmap the client is
/// sent the new bitmap: the clicked cell holds the click's value and every
/// other bit is as before.
pub proof fn law_click_pushes_new_state(
    click: ClickEvent,
    bits: u64,
    next1: Phase,
    action1: Action,
    next2: Phase,
    action2: Action,
)
    requires
        valid_cell(click.x as int, click.y as int),
        transition(Phase::Dispatch, Event::Parsed(Some(click)), next1, action1),
        transition(
            Phase::Applying,
            Event::Applied(set_cell(bits, click.x as int, click.y as int, click.on)),
            next2,
            action2,
        ),
    ensures
        next1 == Phase::Applying,
        action1 == Action::Apply(click),
        sends(next2, action2, snapshot_frame(set_cell(bits, click.x as int, click.y as int, click.on))),
        lit(set_cell(bits, click.x as int, click.y as int, click.on), click.x as int, click.y as int)
            == click.on,
{
    law_set_then_get(bits, click.x as int, click.y as int, click.on);
}

} // verus!
