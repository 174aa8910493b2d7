//! The protocol loop of one accepted connection, as a state machine.
//!
//! A handler starts in [`HandlerState::Reading`]. The driver reads from the
//! peer into a buffer of [`RECEIVE_BUFFER_SIZE`] bytes and reports what came
//! back; [`do_task`] answers with the next thing to do. Every non-empty read is
//! acknowledged with the same five bytes, whatever was received. A failed read
//! or a failed write closes the handler, and nothing else does.

use std::string::FromUtf8Error;
use vstd::prelude::*;
use vstd::utf8::{decode_utf8, valid_utf8};

verus! {

/// The error of the standard library's `String::from_utf8`: the bytes that
/// are no text, and where they stop being one.
///
/// Trusted: the type is declared and nothing is said of what a value holds.
#[verifier::external_type_specification]
#[verifier::external_body]
pub struct ExFromUtf8Error(std::string::FromUtf8Error);

/// The size in bytes of the buffer that a connection reads into.
pub const RECEIVE_BUFFER_SIZE: usize = 1024;

/// The acknowledgment frame: the five bytes `+OK\r\n`.
pub open spec fn ack_frame_bytes() -> Seq<u8> {
    seq![0x2Bu8, 0x4Fu8, 0x4Bu8, 0x0Du8, 0x0Au8]
}

/// Where a connection handler stands.
#[derive(Clone, Copy, Debug, PartialEq, Eq, Structural)]
pub enum HandlerState {
    /// The handler serves its peer: it reads, acknowledges, and reads again.
    Reading,
    /// The handler has ended. No event leads out of this state.
    Closed,
}

/// What the driver reports to a handler.
#[derive(Clone, Debug, PartialEq, Eq)]
pub enum HandlerEvent {
    /// A read succeeded and produced these bytes, possibly none.
    Received(Vec<u8>),
    /// A read reported an error.
    ReadFailed,
    /// A write of the acknowledgment succeeded and took this many bytes.
    Written(usize),
    /// A write of the acknowledgment reported an error.
    WriteFailed,
}

/// What a handler asks the driver to do next.
#[derive(Debug, PartialEq, Eq)]
pub enum HandlerAction {
    /// Read from the peer and report the outcome.
    Read,
    /// Write the whole of `frame` to the peer and report the outcome. `text`
    /// is the received data as text where it is well-formed UTF-8, and the
    /// decoding error where it is not, for the driver to show; it has no
    /// effect on the frame.
    Reply { text: Result<String, FromUtf8Error>, frame: Vec<u8> },
    /// Drop the connection; the handler is done.
    Terminate,
}

/// The mathematical value of a [`HandlerEvent`].
pub enum HandlerEventView {
    Received(Seq<u8>),
    ReadFailed,
    Written(nat),
    WriteFailed,
}

/// The mathematical value of a [`HandlerAction`].
pub enum HandlerActionView {
    Read,
    Reply { text: Option<Seq<char>>, frame: Seq<u8> },
    Terminate,
}

impl View for HandlerEvent {
    type V = HandlerEventView;

    open spec fn view(&self) -> HandlerEventView {
        match self {
            HandlerEvent::Received(bytes) => HandlerEventView::Received(bytes@),
            HandlerEvent::ReadFailed => HandlerEventView::ReadFailed,
            HandlerEvent::Written(size) => HandlerEventView::Written(*size as nat),
            HandlerEvent::WriteFailed => HandlerEventView::WriteFailed,
        }
    }
}

impl View for HandlerAction {
    type V = HandlerActionView;

    open spec fn view(&self) -> HandlerActionView {
        match self {
            HandlerAction::Read => HandlerActionView::Read,
            HandlerAction::Reply { text, frame } => HandlerActionView::Reply {
                text: match text {
                    Ok(s) => Some(s@),
                    Err(_) => None,
                },
                frame: frame@,
            },
            HandlerAction::Terminate => HandlerActionView::Terminate,
        }
    }
}

/// The received bytes as text: their decoding where they are well-formed
/// UTF-8, and nothing where they are not.
pub open spec fn observed_text(bytes: Seq<u8>) -> Option<Seq<char>> {
    if valid_utf8(bytes) {
        Some(decode_utf8(bytes))
    } else {
        None
    }
}

/// One step of a connection handler: the state after `event`, and the action
/// that the handler asks for.
pub open spec fn handler_step(state: HandlerState, event: HandlerEventView) -> (
    HandlerState,
    HandlerActionView,
) {
    match state {
        HandlerState::Closed => (HandlerState::Closed, HandlerActionView::Terminate),
        HandlerState::Reading => match event {
            HandlerEventView::Received(bytes) => if bytes.len() == 0 {
                (HandlerState::Reading, HandlerActionView::Read)
            } else {
                (
                    HandlerState::Reading,
                    HandlerActionView::Reply {
                        text: observed_text(bytes),
                        frame: ack_frame_bytes(),
                    },
                )
            },
            HandlerEventView::ReadFailed => (HandlerState::Closed, HandlerActionView::Terminate),
            HandlerEventView::Written(_) => (HandlerState::Reading, HandlerActionView::Read),
            HandlerEventView::WriteFailed => (HandlerState::Closed, HandlerActionView::Terminate),
        },
    }
}

/// Decodes `bytes` with `String::from_utf8` of the standard library.
///
/// Trusted: the standard library returns the text exactly when the bytes are
/// well-formed UTF-8, and the text then holds the characters that the bytes
/// encode; on any other input it returns an error.
#[verifier::external_body]
fn decode_text(bytes: Vec<u8>) -> (text: Result<String, FromUtf8Error>)
    ensures
        valid_utf8(bytes@) ==> text is Ok && text->Ok_0@ == decode_utf8(bytes@),
        !valid_utf8(bytes@) ==> text is Err,
{
    String::from_utf8(bytes)
}

/// The acknowledgment frame as bytes to write.
pub fn ack_frame() -> (frame: Vec<u8>)
    ensures
        frame@ == ack_frame_bytes(),
{
    let mut frame: Vec<u8> = Vec::new();
    frame.push(0x2Bu8);
    frame.push(0x4Fu8);
    frame.push(0x4Bu8);
    frame.push(0x0Du8);
    frame.push(0x0Au8);
    assert(frame@ =~= ack_frame_bytes());
    frame
}

/// Advances a connection handler by one event.
///
/// In `Reading`, an empty read asks for another read and sends nothing; a
/// non-empty read asks for the acknowledgment frame to be written, and carries
/// the received data as text where it decodes and the decoding error where it
/// does not; a completed write asks for the
/// next read; a failed read or write closes the handler. In `Closed`, every
/// event is answered with `Terminate`.
pub fn do_task(state: HandlerState, event: HandlerEvent) -> (next: (HandlerState, HandlerAction))
    ensures
        (next.0, next.1@) == handler_step(state, event@),
{
    match state {
        HandlerState::Closed => (HandlerState::Closed, HandlerAction::Terminate),
        HandlerState::Reading => match event {
            HandlerEvent::Received(bytes) => {
                if bytes.len() == 0 {
                    (HandlerState::Reading, HandlerAction::Read)
                } else {
                    let text = decode_text(bytes);
                    (HandlerState::Reading, HandlerAction::Reply { text, frame: ack_frame() })
                }
            },
            HandlerEvent::ReadFailed => (HandlerState::Closed, HandlerAction::Terminate),
            HandlerEvent::Written(_) => (HandlerState::Reading, HandlerAction::Read),
            HandlerEvent::WriteFailed => (HandlerState::Closed, HandlerAction::Terminate),
        },
    }
}

/// The run of a handler over `events`, from `state`: the state at the end,
/// and the actions it asked for, one for each event.
pub open spec fn handler_run(state: HandlerState, events: Seq<HandlerEventView>) -> (
    HandlerState,
    Seq<HandlerActionView>,
)
    decreases events.len(),
{
    if events.len() == 0 {
        (state, Seq::empty())
    } else {
        let (before, actions) = handler_run(state, events.drop_last());
        let (after, action) = handler_step(before, events.last());
        (after, actions.push(action))
    }
}

/// A serving handler answers any two non-empty reads with the same frame,
/// the five bytes `+OK\r\n`, and goes on serving: what was received, well
/// formed as text or not, has no part in the reply.
pub proof fn lemma_reply_ignores_content(first: Seq<u8>, second: Seq<u8>)
    requires
        first.len() > 0,
        second.len() > 0,
    ensures
        handler_step(HandlerState::Reading, HandlerEventView::Received(first)).0
            == HandlerState::Reading,
        handler_step(HandlerState::Reading, HandlerEventView::Received(first)).1 is Reply,
        handler_step(HandlerState::Reading, HandlerEventView::Received(first)).1->frame
            == ack_frame_bytes(),
        handler_step(HandlerState::Reading, HandlerEventView::Received(first)).1->frame
            == handler_step(HandlerState::Reading, HandlerEventView::Received(second)).1->frame,
        ack_frame_bytes().len() == 5,
{
}

/// A serving handler answers an empty read with another read: it sends
/// nothing and does not end.
pub proof fn lemma_empty_read_is_retried()
    ensures
        handler_step(HandlerState::Reading, HandlerEventView::Received(Seq::empty())) == (
            HandlerState::Reading,
            HandlerActionView::Read,
        ),
{
}

/// A serving handler ends on a failed read and on a failed write, and on
/// nothing else; it then asks for the connection to be dropped.
pub proof fn lemma_only_failures_close(event: HandlerEventView)
    ensures
        handler_step(HandlerState::Reading, event).0 == HandlerState::Closed <==> (event
            == HandlerEventView::ReadFailed || event == HandlerEventView::WriteFailed),
        handler_step(HandlerState::Reading, event).1 == HandlerActionView::Terminate <==> (event
            == HandlerEventView::ReadFailed || event == HandlerEventView::WriteFailed),
{
}

/// A closed handler stays closed: whatever is reported to it afterwards, it
/// answers `Terminate` and remains closed.
pub proof fn lemma_closed_handler_stays_closed(events: Seq<HandlerEventView>)
    ensures
        handler_run(HandlerState::Closed, events).0 == HandlerState::Closed,
        handler_run(HandlerState::Closed, events).1.len() == events.len(),
        forall|k: int|
            0 <= k < events.len() ==> #[trigger] handler_run(HandlerState::Closed, events).1[k]
                == HandlerActionView::Terminate,
    decreases events.len(),
{
    if events.len() > 0 {
        lemma_closed_handler_stays_closed(events.drop_last());
    }
}

} // verus!
