//! The transport as the driver sees it: actions it asks for, and events
//! that tell it how each action ended.
//!
//! The transport is a raw socket bound to one controller. It is packet
//! oriented: one read yields one HCI packet.

use vstd::prelude::*;
use crate::ble::types::{BleError, BleResult};

verus! {

/// HCI channel shared with the system's own Bluetooth stack.
pub const HCI_CHANNEL_RAW: u16 = 0;

/// HCI channel that gives exclusive access to the controller.
pub const HCI_CHANNEL_USER: u16 = 1;

/// A transport action that the driver asks its caller to perform.
#[derive(Debug)]
pub enum Action {
    /// Create a raw HCI socket, replacing none: no socket is open when this is asked.
    OpenSocket,
    /// Bind the open socket to controller `device` on `channel`.
    Bind { device: u16, channel: u16 },
    /// Install a packet filter on the open socket.
    SetFilter { type_mask: u32, event_mask: [u32; 2], opcode: u16 },
    /// Close the open socket.
    CloseSocket,
    /// Write these bytes as one packet.
    Write(Vec<u8>),
    /// Let every later read give up after this many milliseconds.
    SetReadTimeout(u64),
    /// Read one packet into a buffer of this many bytes.
    Read(usize),
    /// Wait this many milliseconds.
    Sleep(u64),
}

/// An action as plain values.
pub enum ActionView {
    OpenSocket,
    Bind { device: u16, channel: u16 },
    SetFilter { type_mask: u32, event_mask: Seq<u32>, opcode: u16 },
    CloseSocket,
    Write(Seq<u8>),
    SetReadTimeout(u64),
    Read(usize),
    Sleep(u64),
}

impl View for Action {
    type V = ActionView;

    open spec fn view(&self) -> ActionView {
        match *self {
            Action::OpenSocket => ActionView::OpenSocket,
            Action::Bind { device, channel } => ActionView::Bind { device, channel },
            Action::SetFilter { type_mask, event_mask, opcode } => ActionView::SetFilter {
                type_mask,
                event_mask: event_mask@,
                opcode,
            },
            Action::CloseSocket => ActionView::CloseSocket,
            Action::Write(bytes) => ActionView::Write(bytes@),
            Action::SetReadTimeout(millis) => ActionView::SetReadTimeout(millis),
            Action::Read(capacity) => ActionView::Read(capacity),
            Action::Sleep(millis) => ActionView::Sleep(millis),
        }
    }
}

/// How the action that was asked for ended.
#[derive(Debug)]
pub enum Event {
    /// The action succeeded. A read never ends this way.
    Done,
    /// The action failed.
    Failed,
    /// The action failed because the caller lacks the privilege for it.
    Denied,
    /// The read gave up after the read timeout without a packet.
    TimedOut,
    /// The read returned this packet.
    Packet(Vec<u8>),
}

/// An event as plain values.
pub enum EventView {
    Done,
    Failed,
    Denied,
    TimedOut,
    Packet(Seq<u8>),
}

impl View for Event {
    type V = EventView;

    open spec fn view(&self) -> EventView {
        match *self {
            Event::Done => EventView::Done,
            Event::Failed => EventView::Failed,
            Event::Denied => EventView::Denied,
            Event::TimedOut => EventView::TimedOut,
            Event::Packet(bytes) => EventView::Packet(bytes@),
        }
    }
}

impl Event {
    /// Whether the action succeeded.
    pub fn is_done(&self) -> (done: bool)
        ensures
            done == (self@ is Done),
    {
        match self {
            Event::Done => true,
            _ => false,
        }
    }
}

/// What an operation wants next: an action performed, or nothing more.
#[derive(Debug)]
pub enum Step {
    /// Perform this action and report how it ended.
    Perform(Action),
    /// The operation is over with this result.
    Complete(BleResult<()>),
}

/// A step as plain values.
pub enum StepView {
    Perform(ActionView),
    Complete(BleResult<()>),
}

impl View for Step {
    type V = StepView;

    open spec fn view(&self) -> StepView {
        match *self {
            Step::Perform(action) => StepView::Perform(action@),
            Step::Complete(result) => StepView::Complete(result),
        }
    }
}

/// The step that ends an operation with `error`.
pub open spec fn fail(error: BleError) -> StepView {
    StepView::Complete(Err(error))
}

/// The step that ends an operation successfully.
pub open spec fn succeed() -> StepView {
    StepView::Complete(Ok(()))
}

} // verus!
