//! HCI commands and the command-complete events that answer them.
//!
//! A command is answered by a command-complete event that repeats the
//! command's opcode and carries a status byte. One command is in flight at
//! a time. Its answer is awaited for a bounded number of reads: a read
//! that yields another packet, yields nothing in time, or fails, is
//! passed over and costs one of them.

use vstd::prelude::*;
use crate::ble::transport::{fail, Action, ActionView, Event, EventView, Step, StepView};
use crate::ble::types::{BleError, BleResult};
use crate::ble::wire::{high_byte, high_byte_of, le16, low_byte, low_byte_of, read_le16};

verus! {

/// Packet type of an HCI command.
pub const HCI_COMMAND_PKT: u8 = 0x01;

/// Packet type of an HCI event.
pub const HCI_EVENT_PKT: u8 = 0x04;

/// Event code of a command-complete event.
pub const HCI_EV_COMMAND_COMPLETE: u8 = 0x0E;

/// Most parameter bytes that the one-byte length field of a command can announce.
pub const MAX_PARAMS: usize = 255;

/// Read timeout while a command awaits its answer, in milliseconds.
pub const REPLY_TIMEOUT_MS: u64 = 1000;

/// Number of reads that may pass before a command is given up.
pub const REPLY_READS: u8 = 10;

/// Size of the buffer that an answer is read into.
pub const REPLY_BUFFER: usize = 260;

/// The command packet: packet type, opcode low byte first, parameter
/// length, parameters.
pub open spec fn command_packet(opcode: u16, params: Seq<u8>) -> Seq<u8> {
    seq![HCI_COMMAND_PKT, low_byte(opcode), high_byte(opcode), params.len() as u8] + params
}

/// Frames a command.
pub fn build_command(opcode: u16, params: &[u8]) -> (packet: Vec<u8>)
    requires
        params@.len() <= MAX_PARAMS,
    ensures
        packet@ == command_packet(opcode, params@),
{
    let mut packet: Vec<u8> = Vec::new();
    packet.push(HCI_COMMAND_PKT);
    packet.push(low_byte_of(opcode));
    packet.push(high_byte_of(opcode));
    packet.push(params.len() as u8);
    packet.extend_from_slice(params);
    assert(packet@ =~= command_packet(opcode, params@));
    packet
}

/// Whether `packet` is the command-complete event for `opcode`.
pub open spec fn answers(packet: Seq<u8>, opcode: u16) -> bool {
    &&& packet.len() >= 7
    &&& packet[0] == HCI_EVENT_PKT
    &&& packet[1] == HCI_EV_COMMAND_COMPLETE
    &&& le16(packet[4], packet[5]) == opcode
}

/// The status byte that `packet` gives for `opcode`, where it answers it.
pub open spec fn reply_status(packet: Seq<u8>, opcode: u16) -> Option<u8> {
    if answers(packet, opcode) {
        Some(packet[6])
    } else {
        None
    }
}

/// The status byte of the command-complete event for `opcode`, or `None`
/// where `packet` is anything else.
pub fn command_status(packet: &[u8], opcode: u16) -> (status: Option<u8>)
    ensures
        status == reply_status(packet@, opcode),
{
    if packet.len() >= 7 && packet[0] == HCI_EVENT_PKT && packet[1] == HCI_EV_COMMAND_COMPLETE
        && read_le16(packet, 4) == opcode {
        Some(packet[6])
    } else {
        None
    }
}

/// The status byte with which a read answered the command `opcode`: that
/// of the packet it yielded, where it yielded one that answers the
/// command. A read that timed out or failed answers nothing.
pub open spec fn answer_in(event: EventView, opcode: u16) -> Option<u8> {
    match event {
        EventView::Packet(packet) => reply_status(packet, opcode),
        _ => None,
    }
}

/// What a status byte means for the command: 0 is success, anything else
/// a failure of the controller.
pub open spec fn verdict(status: u8) -> BleResult<()> {
    if status == 0 {
        Ok(())
    } else {
        Err(BleError::SocketError)
    }
}

/// The status byte with which a read answered the command `opcode`.
pub fn read_answer(event: &Event, opcode: u16) -> (status: Option<u8>)
    ensures
        status == answer_in(event@, opcode),
{
    match event {
        Event::Packet(packet) => command_status(packet.as_slice(), opcode),
        _ => None,
    }
}

/// Where a command stands between being written and being answered.
#[derive(Debug, Clone, Copy, PartialEq, Eq, Structural)]
pub enum ExchangePhase {
    /// The command packet is being written.
    Writing,
    /// The read timeout for the answer is being set.
    Arming,
    /// A read for the answer is under way.
    Waiting,
}

/// One command on its way: written, then awaited for a bounded number of reads.
#[derive(Debug, Clone, Copy)]
pub struct CommandExchange {
    /// Opcode of the command in flight.
    pub opcode: u16,
    /// What the exchange is waiting for.
    pub phase: ExchangePhase,
    /// Reads that may still be spent on the answer, the one under way included.
    pub reads_left: u8,
}

impl CommandExchange {
    /// The exchange for `opcode` as it stands while its packet is written.
    pub open spec fn started(opcode: u16) -> CommandExchange {
        CommandExchange { opcode, phase: ExchangePhase::Writing, reads_left: REPLY_READS }
    }

    /// Starts an exchange: the first action writes the command packet.
    pub fn begin(opcode: u16, params: &[u8]) -> (start: (CommandExchange, Action))
        requires
            params@.len() <= MAX_PARAMS,
        ensures
            start.0 == Self::started(opcode),
            start.1@ == ActionView::Write(command_packet(opcode, params@)),
    {
        let packet = build_command(opcode, params);
        (
            CommandExchange { opcode, phase: ExchangePhase::Writing, reads_left: REPLY_READS },
            Action::Write(packet),
        )
    }

    /// The exchange after `event`, and what it wants next.
    ///
    /// A failed write or a failed timeout setting ends the exchange with
    /// `SocketError`. While waiting, the answer ends it with the verdict of
    /// its status byte. Every read that does not answer costs one read,
    /// whether it yielded another packet, timed out or failed: with reads
    /// left the next read is asked for, with none left the exchange ends
    /// with `Timeout`.
    pub open spec fn step_spec(self, event: EventView) -> (CommandExchange, StepView) {
        match self.phase {
            ExchangePhase::Writing => if event is Done {
                (
                    CommandExchange { phase: ExchangePhase::Arming, ..self },
                    StepView::Perform(ActionView::SetReadTimeout(REPLY_TIMEOUT_MS)),
                )
            } else {
                (self, fail(BleError::SocketError))
            },
            ExchangePhase::Arming => if event is Done {
                (
                    CommandExchange { phase: ExchangePhase::Waiting, ..self },
                    if self.reads_left == 0 {
                        fail(BleError::Timeout)
                    } else {
                        StepView::Perform(ActionView::Read(REPLY_BUFFER))
                    },
                )
            } else {
                (self, fail(BleError::SocketError))
            },
            ExchangePhase::Waiting => if self.reads_left == 0 {
                (self, fail(BleError::Timeout))
            } else {
                match answer_in(event, self.opcode) {
                    Some(status) => (self, StepView::Complete(verdict(status))),
                    None => if self.reads_left > 1 {
                        (
                            CommandExchange { reads_left: (self.reads_left - 1) as u8, ..self },
                            StepView::Perform(ActionView::Read(REPLY_BUFFER)),
                        )
                    } else {
                        (CommandExchange { reads_left: 0, ..self }, fail(BleError::Timeout))
                    },
                }
            },
        }
    }

    /// Takes the event that ended the last action and says what comes next.
    pub fn step(&mut self, event: &Event) -> (step: Step)
        ensures
            (*final(self), step@) == old(self).step_spec(event@),
    {
        match self.phase {
            ExchangePhase::Writing => {
                if event.is_done() {
                    self.phase = ExchangePhase::Arming;
                    Step::Perform(Action::SetReadTimeout(REPLY_TIMEOUT_MS))
                } else {
                    Step::Complete(Err(BleError::SocketError))
                }
            },
            ExchangePhase::Arming => {
                if event.is_done() {
                    self.phase = ExchangePhase::Waiting;
                    if self.reads_left == 0 {
                        Step::Complete(Err(BleError::Timeout))
                    } else {
                        Step::Perform(Action::Read(REPLY_BUFFER))
                    }
                } else {
                    Step::Complete(Err(BleError::SocketError))
                }
            },
            ExchangePhase::Waiting => {
                if self.reads_left == 0 {
                    return Step::Complete(Err(BleError::Timeout));
                }
                match read_answer(event, self.opcode) {
                    Some(status) => {
                        if status == 0 {
                            Step::Complete(Ok(()))
                        } else {
                            Step::Complete(Err(BleError::SocketError))
                        }
                    },
                    None => {
                        self.reads_left = self.reads_left - 1;
                        if self.reads_left > 0 {
                            Step::Perform(Action::Read(REPLY_BUFFER))
                        } else {
                            Step::Complete(Err(BleError::Timeout))
                        }
                    },
                }
            },
        }
    }

    /// The result of the exchange once `events` have been handed to it in
    /// order, or `None` while it still wants an action performed.
    pub open spec fn outcome(self, events: Seq<EventView>) -> Option<BleResult<()>>
        decreases events.len(),
    {
        if events.len() == 0 {
            None
        } else {
            let (next, step) = self.step_spec(events[0]);
            match step {
                StepView::Complete(result) => Some(result),
                StepView::Perform(_) => next.outcome(events.skip(1)),
            }
        }
    }
}


/// Whether a read did not answer `opcode`: it yielded another event or
/// the command-complete of another command, or it timed out or failed.
pub open spec fn passes_over(event: EventView, opcode: u16) -> bool {
    answer_in(event, opcode) is None
}

/// Whether a read yielded the answer to `opcode` with status 0.
pub open spec fn confirms(event: EventView, opcode: u16) -> bool {
    answer_in(event, opcode) == Some(0u8)
}

/// Whether a read yielded the answer to `opcode` with a status other than 0.
pub open spec fn refuses(event: EventView, opcode: u16) -> bool {
    answer_in(event, opcode) is Some && answer_in(event, opcode) != Some(0u8)
}

/// Whether no read before the one at `index` answered `opcode`.
pub open spec fn passed_over_until(reads: Seq<EventView>, opcode: u16, index: int) -> bool {
    forall|j: int| 0 <= j < index ==> passes_over(#[trigger] reads[j], opcode)
}

/// Whether the read at `index` is the first that answers the command,
/// lies within `budget` reads, and confirms the command.
pub open spec fn confirmed_at(reads: Seq<EventView>, opcode: u16, budget: int, index: int) -> bool {
    &&& 0 <= index < reads.len()
    &&& index < budget
    &&& confirms(reads[index], opcode)
    &&& passed_over_until(reads, opcode, index)
}

/// Whether the read at `index` is the first that answers the command,
/// lies within `budget` reads, and refuses the command.
pub open spec fn refused_at(reads: Seq<EventView>, opcode: u16, budget: int, index: int) -> bool {
    &&& 0 <= index < reads.len()
    &&& index < budget
    &&& refuses(reads[index], opcode)
    &&& passed_over_until(reads, opcode, index)
}

/// A waiting exchange succeeds exactly when, within its remaining reads,
/// a command-complete event for its opcode with status 0 arrives and no
/// read before it answered the command. It fails with `SocketError`
/// exactly when the first answering event within its reads carries
/// another status.
pub proof fn lemma_waiting_outcome(exchange: CommandExchange, reads: Seq<EventView>)
    requires
        exchange.phase == ExchangePhase::Waiting,
    ensures
        exchange.outcome(reads) == Some(Ok::<(), BleError>(())) <==> exists|i: int|
            confirmed_at(reads, exchange.opcode, exchange.reads_left as int, i),
        exchange.outcome(reads) == Some(Err::<(), BleError>(BleError::SocketError)) <==> exists|i: int|
            refused_at(reads, exchange.opcode, exchange.reads_left as int, i),
    decreases reads.len(),
{
    let opcode = exchange.opcode;
    let budget = exchange.reads_left as int;
    if reads.len() == 0 || budget == 0 {
    } else if passes_over(reads[0], opcode) {
        let rest = reads.skip(1);
        if budget > 1 {
            let next = exchange.step_spec(reads[0]).0;
            lemma_waiting_outcome(next, rest);
            assert(exchange.outcome(reads) == next.outcome(rest));
            assert forall|i: int| #[trigger] confirmed_at(rest, opcode, budget - 1, i) implies confirmed_at(
                reads,
                opcode,
                budget,
                i + 1,
            ) by {
                assert forall|j: int| 0 <= j < i + 1 implies passes_over(
                    #[trigger] reads[j],
                    opcode,
                ) by {
                    if j > 0 {
                        assert(reads[j] == rest[j - 1]);
                    }
                }
            }
            assert forall|i: int| #[trigger] refused_at(rest, opcode, budget - 1, i) implies refused_at(
                reads,
                opcode,
                budget,
                i + 1,
            ) by {
                assert forall|j: int| 0 <= j < i + 1 implies passes_over(
                    #[trigger] reads[j],
                    opcode,
                ) by {
                    if j > 0 {
                        assert(reads[j] == rest[j - 1]);
                    }
                }
            }
            assert forall|i: int| #[trigger] confirmed_at(reads, opcode, budget, i) implies confirmed_at(
                rest,
                opcode,
                budget - 1,
                i - 1,
            ) by {
                assert forall|j: int| 0 <= j < i - 1 implies passes_over(
                    #[trigger] rest[j],
                    opcode,
                ) by {
                    assert(rest[j] == reads[j + 1]);
                }
            }
            assert forall|i: int| #[trigger] refused_at(reads, opcode, budget, i) implies refused_at(
                rest,
                opcode,
                budget - 1,
                i - 1,
            ) by {
                assert forall|j: int| 0 <= j < i - 1 implies passes_over(
                    #[trigger] rest[j],
                    opcode,
                ) by {
                    assert(rest[j] == reads[j + 1]);
                }
            }
        } else {
            assert forall|i: int| !#[trigger] confirmed_at(reads, opcode, budget, i) by {}
            assert forall|i: int| !#[trigger] refused_at(reads, opcode, budget, i) by {}
        }
    } else {
        assert forall|i: int| #[trigger] confirmed_at(reads, opcode, budget, i) implies i == 0 by {
            if i > 0 {
                assert(passes_over(reads[0], opcode));
            }
        }
        assert forall|i: int| #[trigger] refused_at(reads, opcode, budget, i) implies i == 0 by {
            if i > 0 {
                assert(passes_over(reads[0], opcode));
            }
        }
        if confirms(reads[0], opcode) {
            assert(confirmed_at(reads, opcode, budget, 0));
        }
        if refuses(reads[0], opcode) {
            assert(refused_at(reads, opcode, budget, 0));
        }
    }
}

/// A command succeeds exactly when its packet was written, the read
/// timeout was set, and within ten reads a command-complete event for its
/// opcode with status 0 arrived, no read before it having answered the
/// command.
pub proof fn lemma_command_succeeds_iff_confirmed(opcode: u16, events: Seq<EventView>)
    ensures
        CommandExchange::started(opcode).outcome(events) == Some(Ok::<(), BleError>(())) <==> {
            &&& events.len() >= 2
            &&& events[0] is Done
            &&& events[1] is Done
            &&& exists|i: int| confirmed_at(events.skip(2), opcode, REPLY_READS as int, i)
        },
{
    let start = CommandExchange::started(opcode);
    if events.len() >= 1 && events[0] is Done {
        let armed = start.step_spec(events[0]).0;
        let after_write = events.skip(1);
        assert(start.outcome(events) == armed.outcome(after_write));
        if after_write.len() >= 1 && after_write[0] is Done {
            let waiting = armed.step_spec(after_write[0]).0;
            assert(armed.outcome(after_write) == waiting.outcome(after_write.skip(1)));
            assert(after_write.skip(1) =~= events.skip(2));
            lemma_waiting_outcome(waiting, events.skip(2));
        }
    }
}

/// A read that does not answer the command in flight is never taken for
/// the answer and never ends the wait while reads are left: be it the
/// command-complete of an earlier command, a read that timed out or one
/// that failed, it costs one read and the exchange goes on with the
/// events after it.
pub proof fn lemma_unanswered_read_costs_one_read(exchange: CommandExchange, reads: Seq<EventView>)
    requires
        exchange.phase == ExchangePhase::Waiting,
        exchange.reads_left > 1,
        reads.len() > 0,
        passes_over(reads[0], exchange.opcode),
    ensures
        exchange.outcome(reads) == (CommandExchange {
            reads_left: (exchange.reads_left - 1) as u8,
            ..exchange
        }).outcome(reads.skip(1)),
{
}

} // verus!
