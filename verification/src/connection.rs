//! The life of one connection, as a function from its state and the bytes
//! that were read to what is to be done and the state that follows.
//!
//! A connection starts in [`ConnectionState::Http`]. A request that asks for
//! the upgrade is answered and takes it to [`ConnectionState::WebSocket`],
//! where each read is taken as one frame and answered by its opcode. The
//! caller owns the stream and the clock: it sends and waits as the
//! [`Action`]s say, in their order, and reads again while the step says
//! [`Next::Continue`].

use vstd::prelude::*;
use vstd::slice::slice_to_vec;
use crate::frame::decode;
use crate::frame::decode_header;
use crate::frame::encode;
use crate::frame::Frame;
use crate::frame::FrameView;
use crate::handshake::handshake;
use crate::handshake::handshake_of;
use crate::opcode::DecodeError;
use crate::opcode::Opcode;
use crate::roundtrip::lemma_decode_encode;

verus! {

/// The size of the region that a connection reads into: no frame may take
/// more than this on the wire.
pub const BUFFER_SIZE: usize = 4096;

/// The most that the payload of a control frame may hold.
pub const CONTROL_PAYLOAD_MAX: usize = 125;

/// How long the echo waits before it repeats itself, in seconds.
pub const ECHO_DELAY_SECS: u64 = 3;

/// What a connection expects to read next.
#[derive(Clone, Copy, Debug, PartialEq, Eq, Structural)]
pub enum ConnectionState {
    /// The request that asks for the upgrade.
    Http,
    /// A frame.
    WebSocket,
}

/// Why a connection was given up.
#[derive(Clone, Copy, Debug, PartialEq, Eq, Structural)]
pub enum ConnectionError {
    /// The request did not ask for the upgrade.
    HandshakeRejected,
    /// What was read is not a frame.
    Decode(DecodeError),
    /// The frame takes more than [`BUFFER_SIZE`] bytes on the wire.
    FrameTooLarge,
    /// A Ping whose payload no Pong may carry.
    ControlPayloadTooLong,
    /// A frame that this server has no answer to: Binary, Continuation or
    /// Pong.
    UnsupportedOpcode,
}

/// What follows a step.
#[derive(Clone, Copy, Debug, PartialEq, Eq, Structural)]
pub enum Next {
    /// The connection goes on in the given state.
    Continue(ConnectionState),
    /// The connection ends after the closing handshake.
    Closed,
    /// The connection is given up.
    Aborted(ConnectionError),
}

/// One thing for the caller to do.
#[derive(Clone, Debug, PartialEq, Eq)]
pub enum Action {
    /// Write these bytes to the peer.
    Send(Vec<u8>),
    /// Let this many seconds pass.
    Wait(u64),
}

/// An [`Action`] as a mathematical value.
pub enum ActionView {
    Send(Seq<u8>),
    Wait(nat),
}

impl View for Action {
    type V = ActionView;

    open spec fn view(&self) -> ActionView {
        match self {
            Action::Send(bytes) => ActionView::Send(bytes@),
            Action::Wait(seconds) => ActionView::Wait(*seconds as nat),
        }
    }
}

/// What one read leads to: the actions, in their order, and what follows.
#[derive(Clone, Debug, PartialEq, Eq)]
pub struct Step {
    pub actions: Vec<Action>,
    pub next: Next,
}

/// A [`Step`] as a mathematical value.
pub struct StepView {
    pub actions: Seq<ActionView>,
    pub next: Next,
}

impl View for Step {
    type V = StepView;

    open spec fn view(&self) -> StepView {
        StepView { actions: self.actions@.map_values(|action: Action| action@), next: self.next }
    }
}

/// The wire form of the frame that a server sends: final, without a key.
pub open spec fn server_frame(opcode: Opcode, payload: Seq<u8>) -> Seq<u8> {
    encode(FrameView::fresh(opcode, None, payload))
}

/// What the echo does with a text: it sends it back, waits, and sends it
/// back once more.
pub open spec fn echo_actions_of(payload: Seq<u8>) -> Seq<ActionView> {
    seq![
        ActionView::Send(server_frame(Opcode::Text, payload)),
        ActionView::Wait(ECHO_DELAY_SECS as nat),
        ActionView::Send(server_frame(Opcode::Text, payload)),
    ]
}

/// The step that a frame leads to. A Close is answered by an empty Close
/// and ends the connection. A Ping is answered by a Pong with its payload,
/// unless that is longer than a control frame may carry. A Text is echoed.
/// Any other frame ends the connection with nothing sent.
pub open spec fn dispatch_of(frame: FrameView) -> StepView {
    match frame.opcode {
        Opcode::Close => StepView {
            actions: seq![ActionView::Send(server_frame(Opcode::Close, Seq::empty()))],
            next: Next::Closed,
        },
        Opcode::Ping => if frame.payload_data.len() <= CONTROL_PAYLOAD_MAX {
            StepView {
                actions: seq![ActionView::Send(server_frame(Opcode::Pong, frame.payload_data))],
                next: Next::Continue(ConnectionState::WebSocket),
            }
        } else {
            StepView {
                actions: Seq::empty(),
                next: Next::Aborted(ConnectionError::ControlPayloadTooLong),
            }
        },
        Opcode::Text => StepView {
            actions: echo_actions_of(frame.payload_data),
            next: Next::Continue(ConnectionState::WebSocket),
        },
        _ => StepView {
            actions: Seq::empty(),
            next: Next::Aborted(ConnectionError::UnsupportedOpcode),
        },
    }
}

/// The step that ends the connection with nothing sent.
pub open spec fn abort_of(error: ConnectionError) -> StepView {
    StepView { actions: Seq::empty(), next: Next::Aborted(error) }
}

/// The step that the bytes of one read lead to in the state `WebSocket`:
/// that of the frame they begin with, unless they hold no frame or the frame
/// takes more than the buffer.
pub open spec fn frame_step_of(input: Seq<u8>) -> StepView {
    match decode_header(input) {
        Err(error) => abort_of(ConnectionError::Decode(error)),
        Ok(header) => if header.header_len + header.payload_len > BUFFER_SIZE {
            abort_of(ConnectionError::FrameTooLarge)
        } else {
            match decode(input) {
                Err(error) => abort_of(ConnectionError::Decode(error)),
                Ok(frame) => dispatch_of(frame),
            }
        },
    }
}

/// The step that the bytes of one read lead to in the state `Http`: the
/// answer is sent and frames follow, or the connection is given up with
/// nothing sent.
pub open spec fn request_step_of(input: Seq<u8>) -> StepView {
    match handshake_of(input) {
        Ok(response) => StepView {
            actions: seq![ActionView::Send(response)],
            next: Next::Continue(ConnectionState::WebSocket),
        },
        Err(_) => abort_of(ConnectionError::HandshakeRejected),
    }
}

/// The step that the bytes of one read lead to.
pub open spec fn step_of(state: ConnectionState, input: Seq<u8>) -> StepView {
    match state {
        ConnectionState::Http => request_step_of(input),
        ConnectionState::WebSocket => frame_step_of(input),
    }
}

/// What is sent back for a text that was received: the text itself.
pub fn echo(payload: &[u8]) -> (reply: Vec<u8>)
    ensures
        reply@ == payload@,
{
    slice_to_vec(payload)
}

fn abort(error: ConnectionError) -> (step: Step)
    ensures
        step@ == abort_of(error),
{
    let step = Step { actions: Vec::new(), next: Next::Aborted(error) };
    assert(step@.actions =~= Seq::empty());
    step
}

fn send_one(bytes: Vec<u8>, next: Next) -> (step: Step)
    ensures
        step@ == (StepView { actions: seq![ActionView::Send(bytes@)], next }),
{
    let mut actions: Vec<Action> = Vec::new();
    actions.push(Action::Send(bytes));
    let step = Step { actions, next };
    assert(step@.actions =~= seq![ActionView::Send(bytes@)]);
    step
}

/// The actions of the echo for a text that was received.
pub fn echo_actions(payload: &[u8]) -> (actions: Vec<Action>)
    ensures
        actions@.map_values(|action: Action| action@) == echo_actions_of(payload@),
{
    let first = Frame::new(Opcode::Text, false, Some(echo(payload))).to_bytes();
    let second = slice_to_vec(first.as_slice());
    let mut actions: Vec<Action> = Vec::new();
    actions.push(Action::Send(first));
    actions.push(Action::Wait(ECHO_DELAY_SECS));
    actions.push(Action::Send(second));
    assert(actions@.map_values(|action: Action| action@) =~= echo_actions_of(payload@));
    actions
}

/// The step that a frame leads to.
pub fn dispatch(frame: &Frame) -> (step: Step)
    ensures
        step@ == dispatch_of(frame@),
{
    match frame.opcode {
        Opcode::Close => {
            let reply = Frame::new(Opcode::Close, false, None);
            send_one(reply.to_bytes(), Next::Closed)
        },
        Opcode::Ping => {
            if frame.payload_data.len() <= CONTROL_PAYLOAD_MAX {
                let payload = slice_to_vec(frame.payload_data.as_slice());
                let reply = Frame::new(Opcode::Pong, false, Some(payload));
                send_one(reply.to_bytes(), Next::Continue(ConnectionState::WebSocket))
            } else {
                abort(ConnectionError::ControlPayloadTooLong)
            }
        },
        Opcode::Text => {
            let actions = echo_actions(frame.payload_data.as_slice());
            Step { actions, next: Next::Continue(ConnectionState::WebSocket) }
        },
        _ => abort(ConnectionError::UnsupportedOpcode),
    }
}

/// The step that the bytes of one read lead to.
pub fn step(state: ConnectionState, input: &[u8]) -> (result: Step)
    ensures
        result@ == step_of(state, input@),
{
    match state {
        ConnectionState::Http => match handshake(input) {
            Ok(response) => send_one(response, Next::Continue(ConnectionState::WebSocket)),
            Err(_) => abort(ConnectionError::HandshakeRejected),
        },
        ConnectionState::WebSocket => {
            let header = match Frame::read_header(input) {
                Ok(header) => header,
                Err(error) => {
                    return abort(ConnectionError::Decode(error));
                },
            };
            if header.payload_len > (BUFFER_SIZE - header.header_len) as u64 {
                return abort(ConnectionError::FrameTooLarge);
            }
            match Frame::from(input) {
                Ok(frame) => dispatch(&frame),
                Err(error) => abort(ConnectionError::Decode(error)),
            }
        },
    }
}

/// Whatever the frame that was received, each frame that the server sends
/// for it is read back as a final frame without a key, and as one with at
/// most 125 bytes of payload where it is a control frame.
pub proof fn lemma_server_frames(frame: FrameView, i: int)
    requires
        frame.payload_data.len() <= u64::MAX,
        0 <= i < dispatch_of(frame).actions.len(),
        dispatch_of(frame).actions[i] is Send,
    ensures
        decode(dispatch_of(frame).actions[i]->Send_0) matches Ok(sent) && sent.fin && !sent.mask
            && sent.masking_key is None && (sent.opcode.is_control_spec()
            ==> sent.payload_len <= CONTROL_PAYLOAD_MAX),
{
    let reply = match frame.opcode {
        Opcode::Close => FrameView::fresh(Opcode::Close, None, Seq::empty()),
        Opcode::Ping => FrameView::fresh(Opcode::Pong, None, frame.payload_data),
        _ => FrameView::fresh(Opcode::Text, None, frame.payload_data),
    };
    lemma_decode_encode(reply);
}

} // verus!
