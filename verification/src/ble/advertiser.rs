//! Switching advertising on and off.

use vstd::prelude::*;
use crate::ble::advertise::lemma_advertising_commands_fit;
use crate::ble::sequence::lemma_sequence_stays_well_formed;
use vstd::string::StringSliceAdditionalSpecFns;
use crate::ble::advertise::{
    advertising_commands, advertising_off, build_advertising_commands, ADVERTISED_NAME_MAX,
    HCI_OP_LE_SET_ADV_ENABLE,
};
use crate::ble::command::CommandExchange;
use crate::ble::sequence::{command_views, packet_of, CommandSequence, CommandSequenceView};
use crate::ble::state::{BleState, BleStateView};
use crate::ble::transport::{fail, succeed, Action, ActionView, Event, EventView, Step, StepView};
use crate::ble::types::BleError;

verus! {

/// Advertising being switched on: its commands on their way.
#[derive(Debug)]
pub struct Advertise {
    /// The commands that bring advertising up; `None` when nothing is under way.
    pub sequence: Option<CommandSequence>,
}

/// Advertising being switched on, as plain values.
pub struct AdvertiseView {
    pub sequence: Option<CommandSequenceView>,
}

impl View for Advertise {
    type V = AdvertiseView;

    open spec fn view(&self) -> AdvertiseView {
        AdvertiseView {
            sequence: match self.sequence {
                Some(sequence) => Some(sequence@),
                None => None,
            },
        }
    }
}

/// Starts the commands that bring advertising up under `name`, of which
/// at most `limit` bytes are advertised.
pub fn begin_advertising(name: &[u8], limit: usize) -> (start: (CommandSequence, Action))
    requires
        limit <= 26,
    ensures
        start.0@ == CommandSequenceView::started(advertising_commands(name@, limit as int)),
        start.0@.well_formed(),
        start.1@ == ActionView::Write(packet_of(advertising_commands(name@, limit as int)[0])),
{
    let commands = build_advertising_commands(name, limit);
    let ghost views = advertising_commands(name@, limit as int);
    assert(command_views(commands@) == views);
    assert(commands@.len() == views.len());
    assert forall|i: int| 0 <= i < commands@.len() implies (#[trigger] commands@[i]).params@.len()
        <= 255 by {
        assert(commands@[i]@ == views[i]);
    }
    assert(commands@[0]@ == views[0]);
    CommandSequence::begin(commands)
}

/// What is under way and the first step when advertising under `name` is
/// asked for.
///
/// Without a transport the request fails with `NotInitialized`. While
/// advertising is on, nothing is sent and the request succeeds at once.
/// Otherwise the first action writes the first of the commands that
/// bring advertising up, with at most 25 bytes of the name advertised.
pub open spec fn start_advertising_spec(state: BleStateView, name: Seq<u8>) -> (
    AdvertiseView,
    StepView,
) {
    if !state.is_open() {
        (AdvertiseView { sequence: None }, fail(BleError::NotInitialized))
    } else if state.advertising {
        (AdvertiseView { sequence: None }, succeed())
    } else {
        let commands = advertising_commands(name, ADVERTISED_NAME_MAX as int);
        (
            AdvertiseView { sequence: Some(CommandSequenceView::started(commands)) },
            StepView::Perform(ActionView::Write(packet_of(commands[0]))),
        )
    }
}

impl AdvertiseView {
    /// The commands under way, where there are any, are well formed.
    pub open spec fn well_formed(self) -> bool {
        self.sequence matches Some(sequence) ==> sequence.well_formed()
    }

    /// What is under way and the driver's state after `event`, and what
    /// comes next: advertising counts as on once the last command has
    /// succeeded; a command's failure ends the request with its error and
    /// leaves advertising marked as off.
    pub open spec fn step_spec(self, state: BleStateView, event: EventView) -> (
        AdvertiseView,
        BleStateView,
        StepView,
    ) {
        match self.sequence {
            None => (self, state, succeed()),
            Some(sequence) => {
                let (after, step) = sequence.step_spec(event);
                match step {
                    StepView::Perform(_) => (AdvertiseView { sequence: Some(after) }, state, step),
                    StepView::Complete(Ok(_)) => (
                        AdvertiseView { sequence: None },
                        BleStateView { advertising: true, ..state },
                        succeed(),
                    ),
                    StepView::Complete(Err(error)) => (
                        AdvertiseView { sequence: None },
                        state,
                        fail(error),
                    ),
                }
            },
        }
    }
}

impl Advertise {
    /// Takes the event that ended the last action and says what comes
    /// next. The records of the last scan are left as they are.
    pub fn step(&mut self, state: &mut BleState, event: &Event) -> (step: Step)
        requires
            old(self)@.well_formed(),
        ensures
            (final(self)@, final(state)@, step@) == old(self)@.step_spec(old(state)@, event@),
            final(self)@.well_formed(),
            final(state).scan_results@ == old(state).scan_results@,
    {
        match self.sequence.take() {
            None => Step::Complete(Ok(())),
            Some(mut sequence) => {
                let step = sequence.step(event);
                match step {
                    Step::Perform(action) => {
                        self.sequence = Some(sequence);
                        Step::Perform(action)
                    },
                    Step::Complete(Ok(())) => {
                        state.advertising = true;
                        Step::Complete(Ok(()))
                    },
                    Step::Complete(Err(error)) => Step::Complete(Err(error)),
                }
            },
        }
    }
}

/// Start BLE advertising with the given device name.
pub fn ble_start_advertising(state: &BleState, name: &str) -> (start: (Advertise, Step))
    ensures
        (start.0@, start.1@) == start_advertising_spec(state@, name.spec_bytes()),
        start.0@.well_formed(),
{
    if !state.is_open() {
        return (Advertise { sequence: None }, Step::Complete(Err(BleError::NotInitialized)));
    }
    if state.advertising {
        return (Advertise { sequence: None }, Step::Complete(Ok(())));
    }
    let (sequence, action) = begin_advertising(name.as_bytes(), ADVERTISED_NAME_MAX);
    (Advertise { sequence: Some(sequence) }, Step::Perform(action))
}

/// Advertising being switched off: the command that disables it on its way.
#[derive(Debug, Clone, Copy)]
pub struct StopAdvertise {
    /// The exchange of the command; `None` when nothing is under way.
    pub exchange: Option<CommandExchange>,
}

/// What is under way and the first step when advertising is to be
/// switched off: `NotInitialized` without a transport, success at once
/// where advertising is off, else the write of the command that disables it.
pub open spec fn stop_advertising_spec(state: BleStateView) -> (StopAdvertise, StepView) {
    if !state.is_open() {
        (StopAdvertise { exchange: None }, fail(BleError::NotInitialized))
    } else if !state.advertising {
        (StopAdvertise { exchange: None }, succeed())
    } else {
        (
            StopAdvertise { exchange: Some(CommandExchange::started(HCI_OP_LE_SET_ADV_ENABLE)) },
            StepView::Perform(ActionView::Write(packet_of(advertising_off()))),
        )
    }
}

impl StopAdvertise {
    /// What is under way and the driver's state after `event`, and what
    /// comes next. However the command ends, advertising then counts as
    /// off and the request succeeds.
    pub open spec fn step_spec(self, state: BleStateView, event: EventView) -> (
        StopAdvertise,
        BleStateView,
        StepView,
    ) {
        match self.exchange {
            None => (self, state, succeed()),
            Some(exchange) => {
                let (after, step) = exchange.step_spec(event);
                match step {
                    StepView::Perform(_) => (StopAdvertise { exchange: Some(after) }, state, step),
                    StepView::Complete(_) => (
                        StopAdvertise { exchange: None },
                        BleStateView { advertising: false, ..state },
                        succeed(),
                    ),
                }
            },
        }
    }

    /// Takes the event that ended the last action and says what comes
    /// next. The records of the last scan are left as they are.
    pub fn step(&mut self, state: &mut BleState, event: &Event) -> (step: Step)
        ensures
            (*final(self), final(state)@, step@) == old(self).step_spec(old(state)@, event@),
            final(state).scan_results@ == old(state).scan_results@,
    {
        match self.exchange {
            None => Step::Complete(Ok(())),
            Some(mut exchange) => {
                let step = exchange.step(event);
                match step {
                    Step::Perform(action) => {
                        self.exchange = Some(exchange);
                        Step::Perform(action)
                    },
                    Step::Complete(_) => {
                        self.exchange = None;
                        state.advertising = false;
                        Step::Complete(Ok(()))
                    },
                }
            },
        }
    }
}

/// Builds the start of the command that switches advertising off.
pub fn begin_advertising_off() -> (start: (CommandExchange, Action))
    ensures
        start.0 == CommandExchange::started(HCI_OP_LE_SET_ADV_ENABLE),
        start.1@ == ActionView::Write(packet_of(advertising_off())),
{
    let params: Vec<u8> = vec![0x00u8];
    assert(params@ =~= advertising_off().params);
    CommandExchange::begin(HCI_OP_LE_SET_ADV_ENABLE, params.as_slice())
}

/// Stop BLE advertising.
pub fn ble_stop_advertising(state: &BleState) -> (start: (StopAdvertise, Step))
    ensures
        (start.0, start.1@) == stop_advertising_spec(state@),
{
    if !state.is_open() {
        (StopAdvertise { exchange: None }, Step::Complete(Err(BleError::NotInitialized)))
    } else if !state.advertising {
        (StopAdvertise { exchange: None }, Step::Complete(Ok(())))
    } else {
        let (exchange, action) = begin_advertising_off();
        (StopAdvertise { exchange: Some(exchange) }, Step::Perform(action))
    }
}

/// Starting advertising is idempotent: once a start has succeeded, and
/// until advertising is stopped, another start sends nothing and succeeds at once;
/// so does every start after it.
pub proof fn lemma_start_advertising_is_idempotent(
    state: BleStateView,
    name: Seq<u8>,
    under_way: AdvertiseView,
    event: EventView,
    again: Seq<u8>,
)
    requires
        state.is_open(),
        under_way.sequence is Some,
        under_way.step_spec(state, event).2 == succeed(),
    ensures
        ({
            let started = under_way.step_spec(state, event).1;
            &&& started.advertising
            &&& start_advertising_spec(started, again) == (
                AdvertiseView { sequence: None },
                succeed(),
            )
            &&& (AdvertiseView { sequence: None }).step_spec(started, event).1 == started
        }),
{
}


/// What is under way stays well formed from the start through every event.
pub proof fn lemma_advertise_stays_well_formed(
    under_way: AdvertiseView,
    state: BleStateView,
    name: Seq<u8>,
    event: EventView,
)
    requires
        under_way.well_formed(),
    ensures
        under_way.step_spec(state, event).0.well_formed(),
        start_advertising_spec(state, name).0.well_formed(),
{
    if under_way.sequence is Some {
        lemma_sequence_stays_well_formed(under_way.sequence.unwrap(), event);
    }
    lemma_advertising_commands_fit(name, ADVERTISED_NAME_MAX as int);
}

} // verus!
