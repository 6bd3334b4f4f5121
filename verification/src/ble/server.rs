//! Running the GATT server: advertise, wait for a peer, answer its
//! requests, and stop when the peer disconnects or the time is up.

use vstd::prelude::*;
use crate::ble::advertise::lemma_advertising_commands_fit;
use crate::ble::gatt::lemma_server_stays_well_formed;
use crate::ble::sequence::lemma_sequence_stays_well_formed;
use vstd::string::StringSliceAdditionalSpecFns;
use crate::ble::advertise::{
    advertising_commands, advertising_off, HCI_OP_LE_SET_ADV_ENABLE, SERVED_NAME_MAX,
};
use crate::ble::advertiser::{begin_advertising, begin_advertising_off};
use crate::ble::command::CommandExchange;
use crate::ble::gatt::{greeting, GattServer, GattServerView, Reaction, ReactionView};
use crate::ble::scanner::{elapsed, elapsed_ms};
use crate::ble::sequence::{packet_of, CommandSequence, CommandSequenceView};
use crate::ble::state::{BleState, BleStateView};
use crate::ble::transport::{fail, succeed, Action, ActionView, Event, EventView, Step, StepView};
use crate::ble::types::BleError;

verus! {

/// Size of the buffer that the server reads into.
pub const SERVER_BUFFER: usize = 512;

/// Where a run of the server stands.
#[derive(Debug, Clone, Copy, PartialEq, Eq, Structural)]
pub enum ServePhase {
    /// Nothing is under way: the run never started, or is over.
    Idle,
    /// Advertising is being brought up.
    BringingUp,
    /// The read timeout is being set.
    Arming,
    /// A read is under way.
    Listening,
    /// An answer is being written.
    Answering,
    /// Advertising is being switched off.
    ShuttingDown,
}

/// A run of the GATT server.
#[derive(Debug)]
pub struct Serve {
    /// What the run is waiting for.
    pub phase: ServePhase,
    /// The run's time budget in milliseconds.
    pub timeout_ms: u32,
    /// The clock when the server began to listen.
    pub started_at: u64,
    /// The commands that bring advertising up, while they are under way.
    pub bring_up: Option<CommandSequence>,
    /// The server's attribute values and its peer.
    pub server: GattServer,
    /// The exchange of the command that switches advertising off.
    pub farewell: CommandExchange,
}

/// A run of the GATT server as plain values.
pub struct ServeView {
    pub phase: ServePhase,
    pub timeout_ms: u32,
    pub started_at: u64,
    pub bring_up: Option<CommandSequenceView>,
    pub server: GattServerView,
    pub farewell: CommandExchange,
}

impl View for Serve {
    type V = ServeView;

    open spec fn view(&self) -> ServeView {
        ServeView {
            phase: self.phase,
            timeout_ms: self.timeout_ms,
            started_at: self.started_at,
            bring_up: match self.bring_up {
                Some(sequence) => Some(sequence@),
                None => None,
            },
            server: self.server@,
            farewell: self.farewell,
        }
    }
}

impl ServeView {
    /// The server's values fit, and the commands under way, where there
    /// are any, are well formed.
    pub open spec fn well_formed(self) -> bool {
        &&& self.server.well_formed()
        &&& self.bring_up matches Some(sequence) ==> sequence.well_formed()
    }

    /// A run that is not under way, with a fresh server that holds `message`.
    pub open spec fn idle(message: Seq<u8>) -> ServeView {
        ServeView {
            phase: ServePhase::Idle,
            timeout_ms: 0,
            started_at: 0,
            bring_up: None,
            server: GattServerView { connection: None, message, written: Seq::empty() },
            farewell: CommandExchange::started(HCI_OP_LE_SET_ADV_ENABLE),
        }
    }

    /// Whether the run's budget has elapsed at `now`.
    pub open spec fn expired(self, now: u64) -> bool {
        elapsed(self.started_at, now) >= self.timeout_ms
    }

    /// The run as it ends with `error`.
    pub open spec fn abort(self, error: BleError) -> (ServeView, StepView) {
        (ServeView { phase: ServePhase::Idle, ..self }, fail(error))
    }

    /// The run as it begins to switch advertising off.
    pub open spec fn shut_down(self) -> (ServeView, StepView) {
        (
            ServeView {
                phase: ServePhase::ShuttingDown,
                farewell: CommandExchange::started(HCI_OP_LE_SET_ADV_ENABLE),
                ..self
            },
            StepView::Perform(ActionView::Write(packet_of(advertising_off()))),
        )
    }

    /// The run at `now`, between two reads: it reads on while its budget
    /// lasts and shuts down once it has elapsed.
    pub open spec fn poll(self, now: u64) -> (ServeView, StepView) {
        if self.expired(now) {
            self.shut_down()
        } else {
            (
                ServeView { phase: ServePhase::Listening, ..self },
                StepView::Perform(ActionView::Read(SERVER_BUFFER)),
            )
        }
    }

    /// The run after `event`, which arrived at `now` on the caller's
    /// clock, and what it wants next.
    ///
    /// A failure while advertising is brought up ends the run with that
    /// failure's error; a read timeout that cannot be set and an answer
    /// that cannot be written end it with `SocketError`. While listening,
    /// each packet goes to the server: its answer is written before the
    /// next read, and a disconnection shuts the run down. A read that
    /// yields no packet changes nothing. The budget runs from the moment
    /// the read timeout is set and is looked at before every read. A run
    /// that shuts down succeeds, however switching advertising off ends.
    pub open spec fn step_spec(self, event: EventView, now: u64) -> (ServeView, StepView) {
        match self.phase {
            ServePhase::Idle => (self, succeed()),
            ServePhase::BringingUp => match self.bring_up {
                Some(sequence) => {
                    let (after, step) = sequence.step_spec(event);
                    let run = ServeView { bring_up: Some(after), ..self };
                    match step {
                        StepView::Perform(_) => (run, step),
                        StepView::Complete(Ok(_)) => (
                            ServeView { phase: ServePhase::Arming, ..run },
                            StepView::Perform(ActionView::SetReadTimeout(self.timeout_ms as u64)),
                        ),
                        StepView::Complete(Err(error)) => run.abort(error),
                    }
                },
                None => self.abort(BleError::SocketError),
            },
            ServePhase::Arming => if event is Done {
                (ServeView { started_at: now, ..self }).poll(now)
            } else {
                self.abort(BleError::SocketError)
            },
            ServePhase::Listening => match event {
                EventView::Packet(packet) => {
                    let (server, reaction) = self.server.react(packet);
                    let run = ServeView { server, ..self };
                    match reaction {
                        ReactionView::Nothing => run.poll(now),
                        ReactionView::Respond(answer) => (
                            ServeView { phase: ServePhase::Answering, ..run },
                            StepView::Perform(ActionView::Write(answer)),
                        ),
                        ReactionView::Hangup => run.shut_down(),
                    }
                },
                _ => self.poll(now),
            },
            ServePhase::Answering => if event is Done {
                self.poll(now)
            } else {
                self.abort(BleError::SocketError)
            },
            ServePhase::ShuttingDown => {
                let (after, step) = self.farewell.step_spec(event);
                match step {
                    StepView::Perform(_) => (ServeView { farewell: after, ..self }, step),
                    StepView::Complete(_) => (
                        ServeView { phase: ServePhase::Idle, farewell: after, ..self },
                        succeed(),
                    ),
                }
            },
        }
    }
}

/// The run and the first step when the server is to run as `name` for
/// `timeout_ms` milliseconds: `NotInitialized` without a transport, else
/// the write of the first of the commands that bring advertising up, with
/// at most 20 bytes of the name advertised. The server starts without a
/// peer, its readable characteristic holding the greeting.
pub open spec fn run_gatt_server_spec(state: BleStateView, name: Seq<u8>, timeout_ms: u32) -> (
    ServeView,
    StepView,
) {
    if !state.is_open() {
        (ServeView::idle(greeting()), fail(BleError::NotInitialized))
    } else {
        let commands = advertising_commands(name, SERVED_NAME_MAX as int);
        (
            ServeView {
                phase: ServePhase::BringingUp,
                timeout_ms,
                bring_up: Some(CommandSequenceView::started(commands)),
                ..ServeView::idle(greeting())
            },
            StepView::Perform(ActionView::Write(packet_of(commands[0]))),
        )
    }
}

impl Serve {
    /// A run that is not under way, with a fresh server that holds the greeting.
    pub fn idle() -> (run: Serve)
        ensures
            run@ == ServeView::idle(greeting()),
            run@.well_formed(),
    {
        let (farewell, _) = begin_advertising_off();
        Serve {
            phase: ServePhase::Idle,
            timeout_ms: 0,
            started_at: 0,
            bring_up: None,
            server: GattServer::with_greeting(),
            farewell,
        }
    }

    fn shut_down(&mut self) -> (step: Step)
        requires
            old(self)@.well_formed(),
        ensures
            (final(self)@, step@) == old(self)@.shut_down(),
            final(self)@.well_formed(),
    {
        let (farewell, action) = begin_advertising_off();
        self.farewell = farewell;
        self.phase = ServePhase::ShuttingDown;
        Step::Perform(action)
    }

    fn poll(&mut self, now_ms: u64) -> (step: Step)
        requires
            old(self)@.well_formed(),
        ensures
            (final(self)@, step@) == old(self)@.poll(now_ms),
            final(self)@.well_formed(),
    {
        if elapsed_ms(self.started_at, now_ms) >= self.timeout_ms as u64 {
            self.shut_down()
        } else {
            self.phase = ServePhase::Listening;
            Step::Perform(Action::Read(SERVER_BUFFER))
        }
    }

    /// Takes the event that ended the last action, and the caller's
    /// monotonic clock in milliseconds, and says what comes next.
    pub fn step(&mut self, event: &Event, now_ms: u64) -> (step: Step)
        requires
            old(self)@.well_formed(),
        ensures
            (final(self)@, step@) == old(self)@.step_spec(event@, now_ms),
            final(self)@.well_formed(),
    {
        match self.phase {
            ServePhase::Idle => Step::Complete(Ok(())),
            ServePhase::BringingUp => {
                match self.bring_up.take() {
                    Some(mut sequence) => {
                        let step = sequence.step(event);
                        self.bring_up = Some(sequence);
                        match step {
                            Step::Perform(action) => Step::Perform(action),
                            Step::Complete(Ok(())) => {
                                self.phase = ServePhase::Arming;
                                Step::Perform(Action::SetReadTimeout(self.timeout_ms as u64))
                            },
                            Step::Complete(Err(error)) => {
                                self.phase = ServePhase::Idle;
                                Step::Complete(Err(error))
                            },
                        }
                    },
                    None => {
                        self.phase = ServePhase::Idle;
                        Step::Complete(Err(BleError::SocketError))
                    },
                }
            },
            ServePhase::Arming => {
                if event.is_done() {
                    self.started_at = now_ms;
                    self.poll(now_ms)
                } else {
                    self.phase = ServePhase::Idle;
                    Step::Complete(Err(BleError::SocketError))
                }
            },
            ServePhase::Listening => {
                match event {
                    Event::Packet(packet) => {
                        let reaction = self.server.handle_packet(packet.as_slice());
                        match reaction {
                            Reaction::Nothing => self.poll(now_ms),
                            Reaction::Respond(answer) => {
                                self.phase = ServePhase::Answering;
                                Step::Perform(Action::Write(answer))
                            },
                            Reaction::Hangup => self.shut_down(),
                        }
                    },
                    _ => self.poll(now_ms),
                }
            },
            ServePhase::Answering => {
                if event.is_done() {
                    self.poll(now_ms)
                } else {
                    self.phase = ServePhase::Idle;
                    Step::Complete(Err(BleError::SocketError))
                }
            },
            ServePhase::ShuttingDown => {
                let step = self.farewell.step(event);
                match step {
                    Step::Perform(action) => Step::Perform(action),
                    Step::Complete(_) => {
                        self.phase = ServePhase::Idle;
                        Step::Complete(Ok(()))
                    },
                }
            },
        }
    }
}

/// Run a simple GATT server: starts advertising as `name`, waits for a
/// connection and answers ATT requests for `timeout_ms` milliseconds.
pub fn ble_run_gatt_server(state: &BleState, name: &str, timeout_ms: u32) -> (start: (Serve, Step))
    ensures
        (start.0@, start.1@) == run_gatt_server_spec(state@, name.spec_bytes(), timeout_ms),
        start.0@.well_formed(),
{
    let mut run = Serve::idle();
    if !state.is_open() {
        return (run, Step::Complete(Err(BleError::NotInitialized)));
    }
    let (sequence, action) = begin_advertising(name.as_bytes(), SERVED_NAME_MAX);
    run.phase = ServePhase::BringingUp;
    run.timeout_ms = timeout_ms;
    run.bring_up = Some(sequence);
    (run, Step::Perform(action))
}

/// The server is bounded by the clock and by its peer. While it listens
/// and its budget has elapsed, a read that yields no packet, and a packet
/// that calls for no answer, are followed by the shutdown and by no
/// further read; a disconnection is followed by the shutdown at any time.
pub proof fn lemma_server_stops_on_time(run: ServeView, event: EventView, now: u64)
    requires
        run.phase == ServePhase::Listening,
    ensures
        run.expired(now) && !(event is Packet) ==> run.step_spec(event, now) == run.shut_down(),
        event matches EventView::Packet(packet) && run.server.react(packet).1 is Hangup
            ==> run.step_spec(event, now).1 == StepView::Perform(
            ActionView::Write(packet_of(advertising_off())),
        ),
        event matches EventView::Packet(packet) && run.server.react(packet).1 is Nothing
            && run.expired(now) ==> run.step_spec(event, now).1 == StepView::Perform(
            ActionView::Write(packet_of(advertising_off())),
        ),
{
}


/// A well-formed run stays well formed from its start through every event.
pub proof fn lemma_run_stays_well_formed(
    run: ServeView,
    state: BleStateView,
    name: Seq<u8>,
    event: EventView,
    now: u64,
)
    requires
        run.well_formed(),
    ensures
        run.step_spec(event, now).0.well_formed(),
        run_gatt_server_spec(state, name, run.timeout_ms).0.well_formed(),
{
    match run.phase {
        ServePhase::BringingUp => {
            if run.bring_up is Some {
                lemma_sequence_stays_well_formed(run.bring_up.unwrap(), event);
            }
        },
        ServePhase::Listening => {
            match event {
                EventView::Packet(packet) => {
                    lemma_server_stays_well_formed(run.server, packet);
                },
                _ => {},
            }
        },
        _ => {},
    }
    lemma_advertising_commands_fit(name, SERVED_NAME_MAX as int);
}

} // verus!
