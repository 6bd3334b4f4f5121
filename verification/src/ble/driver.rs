//! Bringing the driver up and taking it down, and the central-role
//! operations, which the driver does not offer.

use vstd::prelude::*;
use crate::ble::link::lemma_attempt_stays_well_formed;
use crate::ble::link::{OpenAttempt, OpenAttemptView};
use crate::ble::scanner::{build_scan_switch, scan_switch_packet};
use crate::ble::state::{BleState, BleStateView};
use crate::ble::transport::{fail, succeed, Action, ActionView, Event, EventView, Step, StepView};
use crate::ble::types::{
    BleAddress, BleError, BleResult, CharacteristicHandle, ConnectionHandle, Uuid,
};

verus! {

/// Index of the controller that is tried first.
pub const FIRST_DEVICE: u16 = 0;

/// Index of the controller that is tried where the first cannot be opened.
pub const SECOND_DEVICE: u16 = 1;

/// The driver being initialized: an attempt to open its transport under way.
#[derive(Debug)]
pub struct Initialize {
    /// The attempt under way; `None` when nothing is.
    pub attempt: Option<OpenAttempt>,
}

/// The driver being initialized, as plain values.
pub struct InitializeView {
    pub attempt: Option<OpenAttemptView>,
}

impl View for Initialize {
    type V = InitializeView;

    open spec fn view(&self) -> InitializeView {
        InitializeView {
            attempt: match self.attempt {
                Some(attempt) => Some(attempt@),
                None => None,
            },
        }
    }
}

/// What is under way and the first step when the driver is to be
/// initialized: `AlreadyInitialized` while it has a transport, else the
/// first action of an attempt on the first controller.
pub open spec fn initialize_spec(state: BleStateView) -> (InitializeView, StepView) {
    if state.is_open() {
        (InitializeView { attempt: None }, fail(BleError::AlreadyInitialized))
    } else {
        (
            InitializeView { attempt: Some(OpenAttemptView::started(FIRST_DEVICE)) },
            StepView::Perform(ActionView::OpenSocket),
        )
    }
}

impl InitializeView {
    /// The attempt under way, where there is one, is well formed.
    pub open spec fn well_formed(self) -> bool {
        self.attempt matches Some(attempt) ==> attempt.well_formed()
    }

    /// What is under way and the driver's state after `event`, and what
    /// comes next.
    ///
    /// When an attempt succeeds the driver has its transport, on the
    /// channel that the attempt bound. When the attempt on the first
    /// controller fails, whatever its error, the second controller is
    /// tried; when that fails too, initialization fails with `NoAdapter`.
    pub open spec fn step_spec(self, state: BleStateView, event: EventView) -> (
        InitializeView,
        BleStateView,
        StepView,
    ) {
        match self.attempt {
            None => (self, state, succeed()),
            Some(attempt) => {
                let (after, step) = attempt.step_spec(event);
                match step {
                    StepView::Perform(_) => (InitializeView { attempt: Some(after) }, state, step),
                    StepView::Complete(Ok(_)) => (
                        InitializeView { attempt: None },
                        BleStateView { channel: Some(after.channel), ..state },
                        succeed(),
                    ),
                    StepView::Complete(Err(_)) => if attempt.device == FIRST_DEVICE {
                        (
                            InitializeView {
                                attempt: Some(OpenAttemptView::started(SECOND_DEVICE)),
                            },
                            state,
                            StepView::Perform(ActionView::OpenSocket),
                        )
                    } else {
                        (InitializeView { attempt: None }, state, fail(BleError::NoAdapter))
                    },
                }
            },
        }
    }
}

impl Initialize {
    /// Takes the event that ended the last action and says what comes
    /// next. The records of the last scan are left as they are.
    pub fn step(&mut self, state: &mut BleState, event: &Event) -> (step: Step)
        requires
            old(self)@.well_formed(),
        ensures
            (final(self)@, final(state)@, step@) == old(self)@.step_spec(old(state)@, event@),
            final(self)@.well_formed(),
            final(state).scan_results@ == old(state).scan_results@,
    {
        match self.attempt.take() {
            None => Step::Complete(Ok(())),
            Some(mut attempt) => {
                let device = attempt.device;
                let step = attempt.step(event);
                match step {
                    Step::Perform(action) => {
                        self.attempt = Some(attempt);
                        Step::Perform(action)
                    },
                    Step::Complete(Ok(())) => {
                        state.channel = Some(attempt.channel);
                        Step::Complete(Ok(()))
                    },
                    Step::Complete(Err(_)) => {
                        if device == FIRST_DEVICE {
                            let (second, action) = OpenAttempt::begin(SECOND_DEVICE);
                            self.attempt = Some(second);
                            Step::Perform(action)
                        } else {
                            Step::Complete(Err(BleError::NoAdapter))
                        }
                    },
                }
            },
        }
    }
}

/// Initialize BLE subsystem: begins to open the transport.
pub fn ble_initialize(state: &BleState) -> (start: (Initialize, Step))
    ensures
        (start.0@, start.1@) == initialize_spec(state@),
        start.0@.well_formed(),
{
    if state.is_open() {
        return (Initialize { attempt: None }, Step::Complete(Err(BleError::AlreadyInitialized)));
    }
    let (attempt, action) = OpenAttempt::begin(FIRST_DEVICE);
    (Initialize { attempt: Some(attempt) }, Step::Perform(action))
}

/// Where taking the driver down stands.
#[derive(Debug, Clone, Copy, PartialEq, Eq, Structural)]
pub enum Deinitialize {
    /// Nothing is under way.
    Idle,
    /// The command that switches scanning off is being written.
    Quieting,
    /// The transport is being closed.
    Closing,
}

/// What is under way and the first step when the driver is to be taken
/// down: `NotInitialized` without a transport; while a scan is under way,
/// the write that switches scanning off; else the closing of the transport.
pub open spec fn deinitialize_spec(state: BleStateView) -> (Deinitialize, StepView) {
    if !state.is_open() {
        (Deinitialize::Idle, fail(BleError::NotInitialized))
    } else if state.scanning {
        (Deinitialize::Quieting, StepView::Perform(ActionView::Write(scan_switch_packet(false))))
    } else {
        (Deinitialize::Closing, StepView::Perform(ActionView::CloseSocket))
    }
}

impl Deinitialize {
    /// What is under way and the driver's state after `event`, and what
    /// comes next. Scanning counts as off however its command ended. Once
    /// the transport is closed the driver has none, nothing is switched
    /// on, and the request has succeeded. The results of the last scan stay.
    pub open spec fn step_spec(self, state: BleStateView, event: EventView) -> (
        Deinitialize,
        BleStateView,
        StepView,
    ) {
        match self {
            Deinitialize::Idle => (self, state, succeed()),
            Deinitialize::Quieting => (
                Deinitialize::Closing,
                BleStateView { scanning: false, ..state },
                StepView::Perform(ActionView::CloseSocket),
            ),
            Deinitialize::Closing => (
                Deinitialize::Idle,
                BleStateView { channel: None, scanning: false, advertising: false, ..state },
                succeed(),
            ),
        }
    }

    /// Takes the event that ended the last action and says what comes
    /// next. The records of the last scan are left as they are.
    pub fn step(&mut self, state: &mut BleState, event: &Event) -> (step: Step)
        ensures
            (*final(self), final(state)@, step@) == old(self).step_spec(old(state)@, event@),
            final(state).scan_results@ == old(state).scan_results@,
    {
        match self {
            Deinitialize::Idle => Step::Complete(Ok(())),
            Deinitialize::Quieting => {
                *self = Deinitialize::Closing;
                state.scanning = false;
                Step::Perform(Action::CloseSocket)
            },
            Deinitialize::Closing => {
                *self = Deinitialize::Idle;
                state.channel = None;
                state.scanning = false;
                state.advertising = false;
                Step::Complete(Ok(()))
            },
        }
    }
}

/// Deinitialize BLE subsystem: begins to take the driver down.
pub fn ble_deinitialize(state: &BleState) -> (start: (Deinitialize, Step))
    ensures
        (start.0, start.1@) == deinitialize_spec(state@),
{
    if !state.is_open() {
        (Deinitialize::Idle, Step::Complete(Err(BleError::NotInitialized)))
    } else if state.scanning {
        (Deinitialize::Quieting, Step::Perform(Action::Write(build_scan_switch(false))))
    } else {
        (Deinitialize::Closing, Step::Perform(Action::CloseSocket))
    }
}

/// Connect to a BLE device. The driver has no central role: with a
/// transport this fails with `NotSupported`, without one with `NotInitialized`.
pub fn ble_connect(state: &BleState, address: &BleAddress, timeout_ms: u32) -> (connection:
    BleResult<ConnectionHandle>)
    ensures
        connection is Err,
        connection->Err_0 == if state@.is_open() {
            BleError::NotSupported
        } else {
            BleError::NotInitialized
        },
{
    if !state.is_open() {
        return Err(BleError::NotInitialized);
    }
    Err(BleError::NotSupported)
}

/// Disconnect from a BLE device: succeeds with a transport and does
/// nothing; fails with `NotInitialized` without one.
pub fn ble_disconnect(state: &BleState, handle: ConnectionHandle) -> (done: BleResult<()>)
    ensures
        done == if state@.is_open() {
            Ok::<(), BleError>(())
        } else {
            Err::<(), BleError>(BleError::NotInitialized)
        },
{
    if !state.is_open() {
        return Err(BleError::NotInitialized);
    }
    Ok(())
}

/// Discover GATT services: not supported.
pub fn gatt_discover_services(handle: ConnectionHandle) -> (services: BleResult<Vec<Uuid>>)
    ensures
        services is Err,
        services->Err_0 == BleError::NotSupported,
{
    Err(BleError::NotSupported)
}

/// Read a GATT characteristic: not supported.
pub fn gatt_read_characteristic(characteristic: CharacteristicHandle) -> (value: BleResult<Vec<u8>>)
    ensures
        value is Err,
        value->Err_0 == BleError::NotSupported,
{
    Err(BleError::NotSupported)
}

/// Write to a GATT characteristic: not supported.
pub fn gatt_write_characteristic(characteristic: CharacteristicHandle, data: &[u8]) -> (done:
    BleResult<()>)
    ensures
        done == Err::<(), BleError>(BleError::NotSupported),
{
    Err(BleError::NotSupported)
}


/// What is under way stays well formed from the start through every event.
pub proof fn lemma_initialize_stays_well_formed(
    under_way: InitializeView,
    state: BleStateView,
    event: EventView,
)
    requires
        under_way.well_formed(),
    ensures
        under_way.step_spec(state, event).0.well_formed(),
        initialize_spec(state).0.well_formed(),
{
    if under_way.attempt is Some {
        lemma_attempt_stays_well_formed(under_way.attempt.unwrap(), event);
    }
}

} // verus!
