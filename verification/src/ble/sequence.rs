//! Commands sent one after another, each awaited before the next.

use vstd::prelude::*;
use crate::ble::command::{command_packet, CommandExchange, MAX_PARAMS};
use crate::ble::transport::{Action, ActionView, Event, EventView, Step, StepView};

verus! {

/// One HCI command: its opcode and parameter bytes.
#[derive(Debug)]
pub struct Command {
    pub opcode: u16,
    pub params: Vec<u8>,
}

/// A command as plain values.
pub struct CommandView {
    pub opcode: u16,
    pub params: Seq<u8>,
}

impl View for Command {
    type V = CommandView;

    open spec fn view(&self) -> CommandView {
        CommandView { opcode: self.opcode, params: self.params@ }
    }
}

/// The commands of a list as plain values.
pub open spec fn command_views(commands: Seq<Command>) -> Seq<CommandView> {
    commands.map_values(|command: Command| command@)
}

/// The packet that carries `command`.
pub open spec fn packet_of(command: CommandView) -> Seq<u8> {
    command_packet(command.opcode, command.params)
}

/// A list of commands being worked through. The first command that fails
/// ends the sequence with its error; the commands after it are not sent.
#[derive(Debug)]
pub struct CommandSequence {
    /// The commands, in the order in which they are sent.
    pub commands: Vec<Command>,
    /// Index of the command in flight.
    pub position: usize,
    /// The exchange of the command in flight.
    pub exchange: CommandExchange,
}

/// A command sequence as plain values.
pub struct CommandSequenceView {
    pub commands: Seq<CommandView>,
    pub position: int,
    pub exchange: CommandExchange,
}

impl View for CommandSequence {
    type V = CommandSequenceView;

    open spec fn view(&self) -> CommandSequenceView {
        CommandSequenceView {
            commands: command_views(self.commands@),
            position: self.position as int,
            exchange: self.exchange,
        }
    }
}

impl CommandSequenceView {
    /// A command is in flight, and the parameters of every command fit
    /// the length field.
    pub open spec fn well_formed(self) -> bool {
        &&& 0 <= self.position < self.commands.len()
        &&& forall|i: int|
            0 <= i < self.commands.len() ==> (#[trigger] self.commands[i]).params.len()
                <= MAX_PARAMS
    }

    /// The sequence over `commands` while the first of them is written.
    pub open spec fn started(commands: Seq<CommandView>) -> CommandSequenceView {
        CommandSequenceView {
            commands,
            position: 0,
            exchange: CommandExchange::started(commands[0].opcode),
        }
    }

    /// The sequence after `event`, and what it wants next.
    ///
    /// The event goes to the exchange of the command in flight. When that
    /// command has succeeded and another follows, the next action writes
    /// the packet of the following command; when it was the last, the
    /// sequence has succeeded. A command's failure is the sequence's.
    pub open spec fn step_spec(self, event: EventView) -> (CommandSequenceView, StepView) {
        let (exchange, step) = self.exchange.step_spec(event);
        if step == StepView::Complete(Ok(())) && self.position + 1 < self.commands.len() {
            let next = self.commands[self.position + 1];
            (
                CommandSequenceView {
                    position: self.position + 1,
                    exchange: CommandExchange::started(next.opcode),
                    ..self
                },
                StepView::Perform(ActionView::Write(packet_of(next))),
            )
        } else {
            (CommandSequenceView { exchange, ..self }, step)
        }
    }
}

impl CommandSequence {
    /// Starts on a non-empty list of commands: the first action writes
    /// the packet of the first command.
    pub fn begin(commands: Vec<Command>) -> (start: (CommandSequence, Action))
        requires
            commands@.len() > 0,
            forall|i: int|
                0 <= i < commands@.len() ==> (#[trigger] commands@[i]).params@.len() <= MAX_PARAMS,
        ensures
            start.0@ == CommandSequenceView::started(command_views(commands@)),
            start.0@.well_formed(),
            start.1@ == ActionView::Write(packet_of(commands@[0]@)),
    {
        let (exchange, action) = CommandExchange::begin(
            commands[0].opcode,
            commands[0].params.as_slice(),
        );
        let sequence = CommandSequence { commands, position: 0, exchange };
        proof {
            assert forall|i: int| 0 <= i < sequence@.commands.len() implies (
            #[trigger] sequence@.commands[i]).params.len() <= MAX_PARAMS by {
                assert(sequence@.commands[i] == commands@[i]@);
            }
        }
        (sequence, action)
    }

    /// Takes the event that ended the last action and says what comes next.
    pub fn step(&mut self, event: &Event) -> (step: Step)
        requires
            old(self)@.well_formed(),
        ensures
            (final(self)@, step@) == old(self)@.step_spec(event@),
            final(self)@.well_formed(),
    {
        let count = self.commands.len();
        assert(self@.commands.len() == count);
        let step = self.exchange.step(event);
        match step {
            Step::Complete(Ok(())) => {
                if self.position + 1 < count {
                    self.position = self.position + 1;
                    proof {
                        assert(self@.commands[self.position as int]
                            == self.commands@[self.position as int]@);
                    }
                    let (exchange, action) = CommandExchange::begin(
                        self.commands[self.position].opcode,
                        self.commands[self.position].params.as_slice(),
                    );
                    self.exchange = exchange;
                    Step::Perform(action)
                } else {
                    Step::Complete(Ok(()))
                }
            },
            other => other,
        }
    }
}


/// One command is in flight at a time: a sequence writes a command only
/// when the event it was handed confirmed the command before it, and it
/// then writes the command that follows.
pub proof fn lemma_one_command_in_flight(sequence: CommandSequenceView, event: EventView)
    requires
        sequence.well_formed(),
    ensures
        sequence.step_spec(event).1 matches StepView::Perform(ActionView::Write(packet)) ==> {
            &&& sequence.exchange.step_spec(event).1 == StepView::Complete(Ok(()))
            &&& sequence.position + 1 < sequence.commands.len()
            &&& packet == packet_of(sequence.commands[sequence.position + 1])
            &&& sequence.step_spec(event).0.position == sequence.position + 1
        },
{
}


/// A well-formed sequence stays well formed with every event.
pub proof fn lemma_sequence_stays_well_formed(sequence: CommandSequenceView, event: EventView)
    requires
        sequence.well_formed(),
    ensures
        sequence.step_spec(event).0.well_formed(),
{
}

} // verus!
