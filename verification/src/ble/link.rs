//! Opening the transport to one controller.
//!
//! The exclusive user channel is tried first. It bypasses the system's
//! Bluetooth stack, so the controller is brought up by the driver: reset,
//! event mask, LE event mask. Where the user channel cannot be had, the
//! shared raw channel is bound on a fresh socket and a filter is
//! installed that lets only event packets through.

use vstd::prelude::*;
use crate::ble::sequence::lemma_sequence_stays_well_formed;
use crate::ble::sequence::{
    command_views, packet_of, Command, CommandSequence, CommandSequenceView, CommandView,
};
use crate::ble::transport::{
    fail, succeed, Action, ActionView, Event, EventView, Step, StepView, HCI_CHANNEL_RAW,
    HCI_CHANNEL_USER,
};
use crate::ble::types::BleError;

verus! {

/// Opcode: Reset.
pub const HCI_OP_RESET: u16 = 0x0C03;

/// Opcode: Set Event Mask.
pub const HCI_OP_SET_EVENT_MASK: u16 = 0x0C01;

/// Opcode: LE Set Event Mask.
pub const HCI_OP_LE_SET_EVENT_MASK: u16 = 0x2001;

/// Filter mask that admits the event packet type only.
pub const FILTER_EVENTS_ONLY: u32 = 16;

/// Filter mask word that admits every event code.
pub const FILTER_ALL_EVENTS: u32 = 0xFFFF_FFFF;

/// The commands that bring a controller up on the user channel: reset,
/// an event mask that enables the standard events and the LE meta event,
/// an LE event mask that enables the first five LE events.
pub open spec fn bring_up_commands() -> Seq<CommandView> {
    seq![
        CommandView { opcode: HCI_OP_RESET, params: Seq::empty() },
        CommandView {
            opcode: HCI_OP_SET_EVENT_MASK,
            params: seq![0xFFu8, 0xFF, 0xFF, 0xFF, 0xFF, 0xFF, 0xFF, 0x3F],
        },
        CommandView {
            opcode: HCI_OP_LE_SET_EVENT_MASK,
            params: seq![0x1Fu8, 0x00, 0x00, 0x00, 0x00, 0x00, 0x00, 0x00],
        },
    ]
}

/// Builds the commands that bring a controller up on the user channel.
pub fn init_user_channel() -> (commands: Vec<Command>)
    ensures
        command_views(commands@) == bring_up_commands(),
{
    let event_mask: Vec<u8> = vec![0xFFu8, 0xFF, 0xFF, 0xFF, 0xFF, 0xFF, 0xFF, 0x3F];
    let le_event_mask: Vec<u8> = vec![0x1Fu8, 0x00, 0x00, 0x00, 0x00, 0x00, 0x00, 0x00];
    let mut commands: Vec<Command> = Vec::new();
    commands.push(Command { opcode: HCI_OP_RESET, params: Vec::new() });
    commands.push(Command { opcode: HCI_OP_SET_EVENT_MASK, params: event_mask });
    commands.push(Command { opcode: HCI_OP_LE_SET_EVENT_MASK, params: le_event_mask });
    assert(commands@[0]@.params =~= bring_up_commands()[0].params);
    assert(commands@[1]@.params =~= bring_up_commands()[1].params);
    assert(commands@[2]@.params =~= bring_up_commands()[2].params);
    assert(command_views(commands@) =~= bring_up_commands());
    commands
}

/// The filter for the raw channel: event packets only, every event code,
/// any opcode.
pub open spec fn event_filter() -> ActionView {
    ActionView::SetFilter {
        type_mask: FILTER_EVENTS_ONLY,
        event_mask: seq![FILTER_ALL_EVENTS, FILTER_ALL_EVENTS],
        opcode: 0,
    }
}

/// Where an attempt to open the transport stands.
#[derive(Debug, Clone, Copy, PartialEq, Eq, Structural)]
pub enum OpenPhase {
    /// The first socket is being created.
    Creating,
    /// The socket is being bound to the user channel.
    BindingUser,
    /// The controller is being brought up on the user channel.
    BringingUp,
    /// The socket that could not have the user channel is being closed.
    Dropping,
    /// The socket for the raw channel is being created.
    Recreating,
    /// The socket is being bound to the raw channel.
    BindingRaw,
    /// The event filter is being installed.
    Filtering,
    /// The socket is being closed because the attempt failed with this error.
    Abandoning(BleError),
}

/// One attempt to open the transport to the controller `device`.
#[derive(Debug)]
pub struct OpenAttempt {
    /// Index of the controller.
    pub device: u16,
    /// What the attempt is waiting for.
    pub phase: OpenPhase,
    /// The channel that is bound, or being bound.
    pub channel: u16,
    /// The bring-up commands, while the controller is brought up.
    pub bring_up: Option<CommandSequence>,
}

/// An attempt to open the transport, as plain values.
pub struct OpenAttemptView {
    pub device: u16,
    pub phase: OpenPhase,
    pub channel: u16,
    pub bring_up: Option<CommandSequenceView>,
}

impl View for OpenAttempt {
    type V = OpenAttemptView;

    open spec fn view(&self) -> OpenAttemptView {
        OpenAttemptView {
            device: self.device,
            phase: self.phase,
            channel: self.channel,
            bring_up: match self.bring_up {
                Some(sequence) => Some(sequence@),
                None => None,
            },
        }
    }
}

impl OpenAttemptView {
    /// The bring-up commands, where there are any, are well formed, and
    /// there are some while the controller is brought up.
    pub open spec fn well_formed(self) -> bool {
        &&& self.bring_up matches Some(sequence) ==> sequence.well_formed()
        &&& self.phase == OpenPhase::BringingUp ==> self.bring_up is Some
    }

    /// The attempt on `device` while its first socket is created.
    pub open spec fn started(device: u16) -> OpenAttemptView {
        OpenAttemptView {
            device,
            phase: OpenPhase::Creating,
            channel: HCI_CHANNEL_USER,
            bring_up: None,
        }
    }

    /// The attempt as it abandons its socket because of `error`.
    pub open spec fn abandon(self, error: BleError) -> (OpenAttemptView, StepView) {
        (
            OpenAttemptView { phase: OpenPhase::Abandoning(error), ..self },
            StepView::Perform(ActionView::CloseSocket),
        )
    }

    /// The attempt after `event`, and what it wants next.
    ///
    /// A socket that cannot be created ends the attempt: with
    /// `PermissionDenied` where the first creation was denied, with
    /// `SocketError` otherwise. On the user channel the attempt succeeds
    /// when the last bring-up command has; a bring-up command's failure
    /// is the attempt's. On the raw channel a failed bind ends it with
    /// `NoAdapter` and a failed filter with `SocketError`. A socket that
    /// is open when the attempt fails is closed before the attempt ends.
    pub open spec fn step_spec(self, event: EventView) -> (OpenAttemptView, StepView) {
        match self.phase {
            OpenPhase::Creating => if event is Done {
                (
                    OpenAttemptView { phase: OpenPhase::BindingUser, ..self },
                    StepView::Perform(
                        ActionView::Bind { device: self.device, channel: HCI_CHANNEL_USER },
                    ),
                )
            } else if event is Denied {
                (self, fail(BleError::PermissionDenied))
            } else {
                (self, fail(BleError::SocketError))
            },
            OpenPhase::BindingUser => if event is Done {
                (
                    OpenAttemptView {
                        phase: OpenPhase::BringingUp,
                        bring_up: Some(CommandSequenceView::started(bring_up_commands())),
                        ..self
                    },
                    StepView::Perform(ActionView::Write(packet_of(bring_up_commands()[0]))),
                )
            } else {
                (
                    OpenAttemptView { phase: OpenPhase::Dropping, ..self },
                    StepView::Perform(ActionView::CloseSocket),
                )
            },
            OpenPhase::BringingUp => match self.bring_up {
                Some(sequence) => {
                    let (after, step) = sequence.step_spec(event);
                    let attempt = OpenAttemptView { bring_up: Some(after), ..self };
                    match step {
                        StepView::Complete(Err(error)) => attempt.abandon(error),
                        _ => (attempt, step),
                    }
                },
                None => (self, fail(BleError::SocketError)),
            },
            OpenPhase::Dropping => (
                OpenAttemptView { phase: OpenPhase::Recreating, ..self },
                StepView::Perform(ActionView::OpenSocket),
            ),
            OpenPhase::Recreating => if event is Done {
                (
                    OpenAttemptView {
                        phase: OpenPhase::BindingRaw,
                        channel: HCI_CHANNEL_RAW,
                        ..self
                    },
                    StepView::Perform(
                        ActionView::Bind { device: self.device, channel: HCI_CHANNEL_RAW },
                    ),
                )
            } else {
                (self, fail(BleError::SocketError))
            },
            OpenPhase::BindingRaw => if event is Done {
                (
                    OpenAttemptView { phase: OpenPhase::Filtering, ..self },
                    StepView::Perform(event_filter()),
                )
            } else {
                self.abandon(BleError::NoAdapter)
            },
            OpenPhase::Filtering => if event is Done {
                (self, succeed())
            } else {
                self.abandon(BleError::SocketError)
            },
            OpenPhase::Abandoning(error) => (self, fail(error)),
        }
    }
}

impl OpenAttempt {
    /// Starts an attempt on `device`: the first action creates the socket.
    pub fn begin(device: u16) -> (start: (OpenAttempt, Action))
        ensures
            start.0@ == OpenAttemptView::started(device),
            start.0@.well_formed(),
            start.1@ == ActionView::OpenSocket,
    {
        (
            OpenAttempt {
                device,
                phase: OpenPhase::Creating,
                channel: HCI_CHANNEL_USER,
                bring_up: None,
            },
            Action::OpenSocket,
        )
    }

    /// Takes the event that ended the last action and says what comes next.
    pub fn step(&mut self, event: &Event) -> (step: Step)
        requires
            old(self)@.well_formed(),
        ensures
            (final(self)@, step@) == old(self)@.step_spec(event@),
            final(self)@.well_formed(),
    {
        match self.phase {
            OpenPhase::Creating => {
                match event {
                    Event::Done => {
                        self.phase = OpenPhase::BindingUser;
                        Step::Perform(
                            Action::Bind { device: self.device, channel: HCI_CHANNEL_USER },
                        )
                    },
                    Event::Denied => Step::Complete(Err(BleError::PermissionDenied)),
                    _ => Step::Complete(Err(BleError::SocketError)),
                }
            },
            OpenPhase::BindingUser => {
                if event.is_done() {
                    let commands = init_user_channel();
                    assert(commands@.len() == command_views(commands@).len());
                    assert forall|i: int| 0 <= i < commands@.len() implies (
                    #[trigger] commands@[i]).params@.len() <= 255 by {
                        assert(commands@[i]@ == bring_up_commands()[i]);
                    }
                    let (sequence, action) = CommandSequence::begin(commands);
                    self.bring_up = Some(sequence);
                    self.phase = OpenPhase::BringingUp;
                    Step::Perform(action)
                } else {
                    self.phase = OpenPhase::Dropping;
                    Step::Perform(Action::CloseSocket)
                }
            },
            OpenPhase::BringingUp => {
                match self.bring_up.take() {
                    Some(mut sequence) => {
                        let step = sequence.step(event);
                        self.bring_up = Some(sequence);
                        match step {
                            Step::Complete(Err(error)) => {
                                self.phase = OpenPhase::Abandoning(error);
                                Step::Perform(Action::CloseSocket)
                            },
                            other => other,
                        }
                    },
                    None => Step::Complete(Err(BleError::SocketError)),
                }
            },
            OpenPhase::Dropping => {
                self.phase = OpenPhase::Recreating;
                Step::Perform(Action::OpenSocket)
            },
            OpenPhase::Recreating => {
                if event.is_done() {
                    self.phase = OpenPhase::BindingRaw;
                    self.channel = HCI_CHANNEL_RAW;
                    Step::Perform(Action::Bind { device: self.device, channel: HCI_CHANNEL_RAW })
                } else {
                    Step::Complete(Err(BleError::SocketError))
                }
            },
            OpenPhase::BindingRaw => {
                if event.is_done() {
                    self.phase = OpenPhase::Filtering;
                    let event_mask: [u32; 2] = [FILTER_ALL_EVENTS, FILTER_ALL_EVENTS];
                    assert(event_mask@ =~= seq![FILTER_ALL_EVENTS, FILTER_ALL_EVENTS]);
                    Step::Perform(
                        Action::SetFilter { type_mask: FILTER_EVENTS_ONLY, event_mask, opcode: 0 },
                    )
                } else {
                    self.phase = OpenPhase::Abandoning(BleError::NoAdapter);
                    Step::Perform(Action::CloseSocket)
                }
            },
            OpenPhase::Filtering => {
                if event.is_done() {
                    Step::Complete(Ok(()))
                } else {
                    self.phase = OpenPhase::Abandoning(BleError::SocketError);
                    Step::Perform(Action::CloseSocket)
                }
            },
            OpenPhase::Abandoning(error) => Step::Complete(Err(error)),
        }
    }
}


/// Whether the socket is open once the action that an attempt in `phase`
/// waits for has ended with `event`: creating a socket opens one where
/// it succeeds, closing it leaves none, and every other action is
/// performed on an open socket and leaves it open.
pub open spec fn socket_open_after(phase: OpenPhase, event: EventView) -> bool {
    match phase {
        OpenPhase::Creating => event is Done,
        OpenPhase::Recreating => event is Done,
        OpenPhase::Dropping => false,
        OpenPhase::Abandoning(_) => false,
        _ => true,
    }
}

/// An attempt holds at most one socket, and leaves none behind when it
/// fails. It asks for a socket to be created only while none is open, and
/// for any other action only while one is. When it fails no socket is
/// open; when it succeeds one is.
pub proof fn lemma_attempt_holds_one_socket(attempt: OpenAttemptView, event: EventView)
    requires
        attempt.well_formed(),
    ensures
        ({
            let step = attempt.step_spec(event).1;
            let open = socket_open_after(attempt.phase, event);
            &&& step == StepView::Perform(ActionView::OpenSocket) ==> !open
            &&& step is Perform && step != StepView::Perform(ActionView::OpenSocket) ==> open
            &&& step matches StepView::Complete(Err(_)) ==> !open
            &&& step == succeed() ==> open
        }),
{
}


/// A well-formed attempt stays well formed with every event.
pub proof fn lemma_attempt_stays_well_formed(attempt: OpenAttemptView, event: EventView)
    requires
        attempt.well_formed(),
    ensures
        attempt.step_spec(event).0.well_formed(),
        OpenAttemptView::started(attempt.device).well_formed(),
{
    match attempt.phase {
        OpenPhase::BindingUser => {
            assert(CommandSequenceView::started(bring_up_commands()).well_formed());
        },
        OpenPhase::BringingUp => {
            lemma_sequence_stays_well_formed(attempt.bring_up.unwrap(), event);
        },
        _ => {},
    }
}

} // verus!
