//! Scanning for advertising devices within a time budget.
//!
//! A scan sets the scan parameters, switches scanning on, and reads
//! packets until the budget has elapsed on the caller's monotonic clock.
//! It then switches scanning off and publishes what it found. Reads that
//! yield nothing or fail do not end a scan: only the clock does.

use vstd::prelude::*;
use crate::ble::command::{build_command, command_packet};
use crate::ble::report::read_report;
use crate::ble::scan::{
    all_well_formed, collected, gathered, is_first_report, lemma_scan_keeps_first_32,
    lemma_scan_keeps_first_report, lemma_scanned_is_collected,
    lemma_scanned_records_are_well_formed, note_device, one_per_address, records_well_formed,
    reports_in, result_views, scanned, MAX_SCAN_RESULTS,
};
use crate::ble::state::{BleState, BleStateView};
use crate::ble::transport::{fail, succeed, Action, ActionView, Event, EventView, Step, StepView};
use crate::ble::types::{BleError, BleResult, ScanResult, ScanResultView};

verus! {

/// Opcode: LE Set Scan Parameters.
pub const HCI_OP_LE_SET_SCAN_PARAM: u16 = 0x200B;

/// Opcode: LE Set Scan Enable.
pub const HCI_OP_LE_SET_SCAN_ENABLE: u16 = 0x200C;

/// Pause between setting the scan parameters and switching scanning on,
/// in milliseconds.
pub const SCAN_SETTLE_MS: u64 = 10;

/// Read timeout while a scan listens, in milliseconds.
pub const SCAN_READ_TIMEOUT_MS: u64 = 100;

/// Size of the buffer that a scan reads into.
pub const SCAN_BUFFER: usize = 258;

/// Scan parameters: active scanning, interval and window of 10 ms, public
/// own address, every advertiser accepted.
pub open spec fn scan_parameters() -> Seq<u8> {
    seq![0x01u8, 0x10, 0x00, 0x10, 0x00, 0x00, 0x00]
}

/// Parameters that switch scanning on or off, duplicates not filtered.
pub open spec fn scan_switch(on: bool) -> Seq<u8> {
    seq![if on { 1u8 } else { 0u8 }, 0x00u8]
}

/// The packet that sets the scan parameters.
pub open spec fn scan_parameters_packet() -> Seq<u8> {
    command_packet(HCI_OP_LE_SET_SCAN_PARAM, scan_parameters())
}

/// The packet that switches scanning on or off.
pub open spec fn scan_switch_packet(on: bool) -> Seq<u8> {
    command_packet(HCI_OP_LE_SET_SCAN_ENABLE, scan_switch(on))
}

/// Builds the packet that sets the scan parameters.
pub fn build_scan_parameters() -> (packet: Vec<u8>)
    ensures
        packet@ == scan_parameters_packet(),
{
    let params: Vec<u8> = vec![0x01u8, 0x10, 0x00, 0x10, 0x00, 0x00, 0x00];
    assert(params@ =~= scan_parameters());
    build_command(HCI_OP_LE_SET_SCAN_PARAM, params.as_slice())
}

/// Builds the packet that switches scanning on or off.
pub fn build_scan_switch(on: bool) -> (packet: Vec<u8>)
    ensures
        packet@ == scan_switch_packet(on),
{
    let params: Vec<u8> = vec![if on { 1u8 } else { 0u8 }, 0x00u8];
    assert(params@ =~= scan_switch(on));
    build_command(HCI_OP_LE_SET_SCAN_ENABLE, params.as_slice())
}

/// Milliseconds from `since` to `now` on a clock that does not run backwards.
pub open spec fn elapsed(since: u64, now: u64) -> u64 {
    if now >= since {
        (now - since) as u64
    } else {
        0
    }
}

/// Milliseconds from `since` to `now` on a clock that does not run backwards.
pub fn elapsed_ms(since: u64, now: u64) -> (millis: u64)
    ensures
        millis == elapsed(since, now),
{
    if now >= since {
        now - since
    } else {
        0
    }
}

/// Where a scan stands.
#[derive(Debug, Clone, Copy, PartialEq, Eq, Structural)]
pub enum ScanPhase {
    /// Nothing is under way: the scan never started, or is over.
    Idle,
    /// The scan parameters are being written.
    Configuring,
    /// The pause after the scan parameters is being waited out.
    Settling,
    /// The command that switches scanning on is being written.
    Enabling,
    /// The read timeout is being set.
    Arming,
    /// A read is under way.
    Listening,
    /// The command that switches scanning off is being written.
    Disabling,
}

/// A scan under way.
pub struct ScanOperation {
    /// What the scan is waiting for.
    pub phase: ScanPhase,
    /// The scan's time budget in milliseconds.
    pub timeout_ms: u32,
    /// The clock when the scan began to listen.
    pub started_at: u64,
    /// The devices found so far.
    pub results: Vec<ScanResult>,
    /// The packets read so far while listening.
    pub heard: Ghost<Seq<Seq<u8>>>,
}

/// A scan as plain values.
pub struct ScanOperationView {
    pub phase: ScanPhase,
    pub timeout_ms: u32,
    pub started_at: u64,
    pub results: Seq<ScanResultView>,
    pub heard: Seq<Seq<u8>>,
}

impl View for ScanOperation {
    type V = ScanOperationView;

    open spec fn view(&self) -> ScanOperationView {
        ScanOperationView {
            phase: self.phase,
            timeout_ms: self.timeout_ms,
            started_at: self.started_at,
            results: result_views(self.results@),
            heard: self.heard@,
        }
    }
}

impl ScanOperationView {
    /// The devices found are those that the packets read so far give.
    pub open spec fn well_formed(self) -> bool {
        self.results == scanned(self.heard)
    }

    /// A scan that is not under way.
    pub open spec fn idle() -> ScanOperationView {
        ScanOperationView {
            phase: ScanPhase::Idle,
            timeout_ms: 0,
            started_at: 0,
            results: Seq::empty(),
            heard: Seq::empty(),
        }
    }

    /// Whether the scan's budget has elapsed at `now`.
    pub open spec fn expired(self, now: u64) -> bool {
        elapsed(self.started_at, now) >= self.timeout_ms
    }

    /// The scan as it gives up because a transport action failed.
    pub open spec fn abort(self, state: BleStateView) -> (
        ScanOperationView,
        BleStateView,
        StepView,
    ) {
        (
            ScanOperationView { phase: ScanPhase::Idle, ..self },
            BleStateView { scanning: false, ..state },
            fail(BleError::SocketError),
        )
    }

    /// The scan at `now`, between two reads: it reads on while its
    /// budget lasts and switches scanning off once it has elapsed.
    pub open spec fn poll(self, state: BleStateView, now: u64) -> (
        ScanOperationView,
        BleStateView,
        StepView,
    ) {
        if self.expired(now) {
            (
                ScanOperationView { phase: ScanPhase::Disabling, ..self },
                state,
                StepView::Perform(ActionView::Write(scan_switch_packet(false))),
            )
        } else {
            (
                ScanOperationView { phase: ScanPhase::Listening, ..self },
                state,
                StepView::Perform(ActionView::Read(SCAN_BUFFER)),
            )
        }
    }

    /// The scan after a read ended with `event`: a packet is added to
    /// what was heard, and its report to the devices found.
    pub open spec fn hear(self, event: EventView) -> ScanOperationView {
        match event {
            EventView::Packet(packet) => ScanOperationView {
                results: gathered(self.results, packet),
                heard: self.heard.push(packet),
                ..self
            },
            _ => self,
        }
    }

    /// The scan and the driver's state after `event`, which arrived at
    /// `now` on the caller's clock, and what the scan wants next.
    ///
    /// Writing the scan parameters, switching scanning on and setting
    /// the read timeout must succeed, else the scan ends with
    /// `SocketError`. The budget runs from the moment the read timeout is
    /// set. How switching scanning off ends does not matter: the scan
    /// then publishes the devices it found and succeeds.
    pub open spec fn step_spec(self, state: BleStateView, event: EventView, now: u64) -> (
        ScanOperationView,
        BleStateView,
        StepView,
    ) {
        match self.phase {
            ScanPhase::Idle => (self, state, succeed()),
            ScanPhase::Configuring => if event is Done {
                (
                    ScanOperationView { phase: ScanPhase::Settling, ..self },
                    state,
                    StepView::Perform(ActionView::Sleep(SCAN_SETTLE_MS)),
                )
            } else {
                self.abort(state)
            },
            ScanPhase::Settling => (
                ScanOperationView { phase: ScanPhase::Enabling, ..self },
                state,
                StepView::Perform(ActionView::Write(scan_switch_packet(true))),
            ),
            ScanPhase::Enabling => if event is Done {
                (
                    ScanOperationView { phase: ScanPhase::Arming, ..self },
                    state,
                    StepView::Perform(ActionView::SetReadTimeout(SCAN_READ_TIMEOUT_MS)),
                )
            } else {
                self.abort(state)
            },
            ScanPhase::Arming => if event is Done {
                (ScanOperationView { started_at: now, ..self }).poll(state, now)
            } else {
                self.abort(state)
            },
            ScanPhase::Listening => self.hear(event).poll(state, now),
            ScanPhase::Disabling => (
                ScanOperationView { phase: ScanPhase::Idle, ..self },
                BleStateView { scanning: false, scan_results: self.results, ..state },
                succeed(),
            ),
        }
    }
}

/// The scan, the driver's state and the first step when a scan of
/// `timeout_ms` milliseconds is asked for.
///
/// Without a transport the scan fails with `NotInitialized`. While a scan
/// is under way another is not started, and the request succeeds at once.
/// Otherwise the results of the last scan are cleared, scanning is marked
/// as under way, and the first action writes the scan parameters.
pub open spec fn start_scan_spec(state: BleStateView, timeout_ms: u32) -> (
    ScanOperationView,
    BleStateView,
    StepView,
) {
    if !state.is_open() {
        (ScanOperationView::idle(), state, fail(BleError::NotInitialized))
    } else if state.scanning {
        (ScanOperationView::idle(), state, succeed())
    } else {
        (
            ScanOperationView {
                phase: ScanPhase::Configuring,
                timeout_ms,
                ..ScanOperationView::idle()
            },
            BleStateView { scanning: true, scan_results: Seq::empty(), ..state },
            StepView::Perform(ActionView::Write(scan_parameters_packet())),
        )
    }
}

impl ScanOperation {
    /// The devices found are those that the packets read so far give,
    /// and each of their records is well formed.
    pub open spec fn well_formed(&self) -> bool {
        &&& self@.well_formed()
        &&& all_well_formed(self.results@)
    }

    /// A scan that is not under way.
    pub fn idle() -> (scan: ScanOperation)
        ensures
            scan@ == ScanOperationView::idle(),
            scan.well_formed(),
    {
        let scan = ScanOperation {
            phase: ScanPhase::Idle,
            timeout_ms: 0,
            started_at: 0,
            results: Vec::new(),
            heard: Ghost(Seq::empty()),
        };
        assert(scan@.results =~= Seq::empty());
        scan
    }

    fn abort(&mut self, state: &mut BleState) -> (step: Step)
        requires
            old(self).well_formed(),
        ensures
            (final(self)@, final(state)@, step@) == old(self)@.abort(old(state)@),
            final(self).well_formed(),
            final(self).phase == ScanPhase::Idle,
            final(state).scan_results@ == old(state).scan_results@,
    {
        self.phase = ScanPhase::Idle;
        state.scanning = false;
        Step::Complete(Err(BleError::SocketError))
    }

    fn poll(&mut self, now_ms: u64) -> (step: Step)
        requires
            old(self).well_formed(),
        ensures
            forall|state: BleStateView|
                (final(self)@, state, step@) == #[trigger] old(self)@.poll(state, now_ms),
            final(self).well_formed(),
    {
        if elapsed_ms(self.started_at, now_ms) >= self.timeout_ms as u64 {
            self.phase = ScanPhase::Disabling;
            Step::Perform(Action::Write(build_scan_switch(false)))
        } else {
            self.phase = ScanPhase::Listening;
            Step::Perform(Action::Read(SCAN_BUFFER))
        }
    }

    /// Takes the event that ended the last action, and the caller's
    /// monotonic clock in milliseconds, and says what comes next.
    ///
    /// The records that the scan holds stay well formed, and so are the
    /// records that it publishes when it ends. Until then the records of
    /// the driver's state are as they were.
    pub fn step(&mut self, state: &mut BleState, event: &Event, now_ms: u64) -> (step: Step)
        requires
            old(self).well_formed(),
        ensures
            (final(self)@, final(state)@, step@) == old(self)@.step_spec(
                old(state)@,
                event@,
                now_ms,
            ),
            final(self).well_formed(),
            final(state).scan_results@ == if old(self).phase == ScanPhase::Disabling {
                old(self).results@
            } else {
                old(state).scan_results@
            },
            old(self).phase == ScanPhase::Disabling || old(state).records_well_formed()
                ==> final(state).records_well_formed(),
    {
        match self.phase {
            ScanPhase::Idle => Step::Complete(Ok(())),
            ScanPhase::Configuring => {
                if event.is_done() {
                    self.phase = ScanPhase::Settling;
                    Step::Perform(Action::Sleep(SCAN_SETTLE_MS))
                } else {
                    self.abort(state)
                }
            },
            ScanPhase::Settling => {
                self.phase = ScanPhase::Enabling;
                Step::Perform(Action::Write(build_scan_switch(true)))
            },
            ScanPhase::Enabling => {
                if event.is_done() {
                    self.phase = ScanPhase::Arming;
                    Step::Perform(Action::SetReadTimeout(SCAN_READ_TIMEOUT_MS))
                } else {
                    self.abort(state)
                }
            },
            ScanPhase::Arming => {
                if event.is_done() {
                    self.started_at = now_ms;
                    let ghost before = self@;
                    let step = self.poll(now_ms);
                    assert((self@, state@, step@) == before.poll(state@, now_ms));
                    step
                } else {
                    self.abort(state)
                }
            },
            ScanPhase::Listening => {
                match event {
                    Event::Packet(packet) => {
                        match read_report(packet.as_slice()) {
                            Some(found) => {
                                note_device(&mut self.results, found);
                            },
                            None => {},
                        }
                        self.heard = Ghost(self.heard@.push(packet@));
                        proof {
                            assert(self.heard@.drop_last() =~= old(self).heard@);
                        }
                    },
                    _ => {},
                }
                let ghost before = self@;
                assert(before == old(self)@.hear(event@));
                let step = self.poll(now_ms);
                assert((self@, state@, step@) == before.poll(state@, now_ms));
                step
            },
            ScanPhase::Disabling => {
                self.phase = ScanPhase::Idle;
                state.scanning = false;
                state.scan_results = copy_results(&self.results);
                Step::Complete(Ok(()))
            },
        }
    }
}

/// Copies a list of scan results.
pub fn copy_results(results: &Vec<ScanResult>) -> (copy: Vec<ScanResult>)
    ensures
        copy@ == results@,
{
    let mut copy: Vec<ScanResult> = Vec::new();
    let mut i: usize = 0;
    while i < results.len()
        invariant
            i <= results@.len(),
            copy@ =~= results@.take(i as int),
        decreases results@.len() - i,
    {
        copy.push(results[i]);
        i += 1;
    }
    assert(copy@ =~= results@);
    copy
}

/// Start BLE scanning: begins a scan of `timeout_ms` milliseconds.
///
/// Where a scan is begun the driver's state holds no records any more;
/// where none is begun its records are as they were. Either way records
/// that were well formed stay so.
pub fn ble_start_scan(state: &mut BleState, timeout_ms: u32) -> (start: (ScanOperation, Step))
    ensures
        (start.0@, final(state)@, start.1@) == start_scan_spec(old(state)@, timeout_ms),
        start.0.well_formed(),
        final(state).scan_results@ == if start.0.phase == ScanPhase::Configuring {
            Seq::<ScanResult>::empty()
        } else {
            old(state).scan_results@
        },
        start.0.phase == ScanPhase::Configuring || old(state).records_well_formed()
            ==> final(state).records_well_formed(),
{
    if !state.is_open() {
        return (ScanOperation::idle(), Step::Complete(Err(BleError::NotInitialized)));
    }
    if state.scanning {
        return (ScanOperation::idle(), Step::Complete(Ok(())));
    }
    state.scan_results = Vec::new();
    state.scanning = true;
    let mut scan = ScanOperation::idle();
    scan.phase = ScanPhase::Configuring;
    scan.timeout_ms = timeout_ms;
    assert(state@.scan_results =~= Seq::empty());
    (scan, Step::Perform(Action::Write(build_scan_parameters())))
}

/// Get scan results: the devices that the last scan found, or
/// `NotInitialized` without a transport. The records are those of the
/// driver's state, so they are well formed where those are.
pub fn ble_get_scan_results(state: &BleState) -> (results: BleResult<Vec<ScanResult>>)
    ensures
        match results {
            Ok(found) => state@.is_open() && found@ == state.scan_results@ && (
            state.records_well_formed() ==> all_well_formed(found@)),
            Err(error) => !state@.is_open() && error == BleError::NotInitialized,
        },
{
    if !state.is_open() {
        return Err(BleError::NotInitialized);
    }
    Ok(copy_results(&state.scan_results))
}


/// An explicit stop of scanning under way: one write of the command that
/// switches scanning off.
#[derive(Debug, Clone, Copy)]
pub struct StopScan {
    /// Whether the write is under way.
    pub pending: bool,
}

/// The stop, the driver's state and the first step when scanning is to
/// be stopped: `NotInitialized` without a transport, success at once
/// where no scan is under way, else the write that switches scanning off.
pub open spec fn stop_scan_spec(state: BleStateView) -> (StopScan, StepView) {
    if !state.is_open() {
        (StopScan { pending: false }, fail(BleError::NotInitialized))
    } else if !state.scanning {
        (StopScan { pending: false }, succeed())
    } else {
        (
            StopScan { pending: true },
            StepView::Perform(ActionView::Write(scan_switch_packet(false))),
        )
    }
}

impl StopScan {
    /// The stop and the driver's state after `event`, and the result:
    /// once the command is written, no scan is under way any more; where
    /// the write failed the stop fails with `SocketError` and the state
    /// is as before.
    pub open spec fn step_spec(self, state: BleStateView, event: EventView) -> (
        StopScan,
        BleStateView,
        StepView,
    ) {
        if !self.pending {
            (self, state, succeed())
        } else if event is Done {
            (StopScan { pending: false }, BleStateView { scanning: false, ..state }, succeed())
        } else {
            (StopScan { pending: false }, state, fail(BleError::SocketError))
        }
    }

    /// Takes the event that ended the write and gives the result. The
    /// records of the last scan are left as they are.
    pub fn step(&mut self, state: &mut BleState, event: &Event) -> (step: Step)
        ensures
            (*final(self), final(state)@, step@) == old(self).step_spec(old(state)@, event@),
            final(state).scan_results@ == old(state).scan_results@,
    {
        if !self.pending {
            Step::Complete(Ok(()))
        } else {
            self.pending = false;
            if event.is_done() {
                state.scanning = false;
                Step::Complete(Ok(()))
            } else {
                Step::Complete(Err(BleError::SocketError))
            }
        }
    }
}

/// Stop BLE scanning.
pub fn ble_stop_scan(state: &BleState) -> (start: (StopScan, Step))
    ensures
        (start.0, start.1@) == stop_scan_spec(state@),
{
    if !state.is_open() {
        (StopScan { pending: false }, Step::Complete(Err(BleError::NotInitialized)))
    } else if !state.scanning {
        (StopScan { pending: false }, Step::Complete(Ok(())))
    } else {
        (StopScan { pending: true }, Step::Perform(Action::Write(build_scan_switch(false))))
    }
}

/// What a finished scan publishes: at most 32 records, each well formed,
/// at most one per address, each the first report that the scan read
/// from its address, in the order in which the addresses were first heard.
pub proof fn lemma_scan_publishes_first_reports(
    scan: ScanOperationView,
    state: BleStateView,
    event: EventView,
    now: u64,
)
    requires
        scan.well_formed(),
        scan.phase == ScanPhase::Disabling,
    ensures
        ({
            let published = scan.step_spec(state, event, now).1.scan_results;
            let reports = reports_in(scan.heard);
            &&& scan.step_spec(state, event, now).2 == succeed()
            &&& published == collected(reports)
            &&& published.len() <= MAX_SCAN_RESULTS
            &&& records_well_formed(published)
            &&& one_per_address(published)
            &&& forall|k: int|
                0 <= k < published.len() ==> is_first_report(
                    reports,
                    #[trigger] published[k],
                )
        }),
{
    let reports = reports_in(scan.heard);
    lemma_scanned_is_collected(scan.heard);
    lemma_scan_keeps_first_report(reports);
    lemma_scan_keeps_first_32(reports);
    lemma_scanned_records_are_well_formed(scan.heard);
}

/// A listening scan is bounded by the clock alone. Once its budget has
/// elapsed, it asks for no further read and switches scanning off; while
/// the budget lasts it reads on, whatever the last read yielded.
pub proof fn lemma_scan_is_bounded_by_the_clock(
    scan: ScanOperationView,
    state: BleStateView,
    event: EventView,
    now: u64,
)
    requires
        scan.phase == ScanPhase::Listening,
    ensures
        elapsed(scan.started_at, now) >= scan.timeout_ms ==> scan.step_spec(state, event, now).2
            == StepView::Perform(ActionView::Write(scan_switch_packet(false)))
            && scan.step_spec(state, event, now).0.phase == ScanPhase::Disabling,
        elapsed(scan.started_at, now) < scan.timeout_ms ==> scan.step_spec(state, event, now).2
            == StepView::Perform(ActionView::Read(SCAN_BUFFER)) && scan.step_spec(
            state,
            event,
            now,
        ).0.phase == ScanPhase::Listening,
{
}


/// A scan and the driver's state stay well formed from the start of the
/// scan through every event: the devices found are those of the packets
/// read, and the results that the state holds are at most 32, one per
/// address.
pub proof fn lemma_scan_stays_well_formed(
    scan: ScanOperationView,
    state: BleStateView,
    event: EventView,
    now: u64,
    timeout_ms: u32,
)
    requires
        scan.well_formed(),
        state.well_formed(),
    ensures
        scan.step_spec(state, event, now).0.well_formed(),
        scan.step_spec(state, event, now).1.well_formed(),
        start_scan_spec(state, timeout_ms).0.well_formed(),
        start_scan_spec(state, timeout_ms).1.well_formed(),
{
    if scan.phase == ScanPhase::Listening {
        match event {
            EventView::Packet(packet) => {
                assert(scan.heard.push(packet).drop_last() =~= scan.heard);
            },
            _ => {},
        }
    }
    if scan.phase == ScanPhase::Disabling {
        lemma_scan_publishes_first_reports(scan, state, event, now);
        lemma_scanned_records_are_well_formed(scan.heard);
    }
}

} // verus!
