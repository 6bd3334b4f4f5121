//! Bluetooth through a host stack that runs beside the driver: what its
//! return codes mean, and how long and how often it is polled.

use vstd::prelude::*;
use crate::ble::types::{BleError, BleResult};
use crate::errno::{is_error, reports, Errno};

verus! {

/// Milliseconds between two polls of the host stack.
pub const POLL_INTERVAL_MS: u32 = 100;

/// Number of polls between two reports of a connected client.
pub const REPORT_EVERY: u32 = 50;

/// Size of the buffer that a received command is copied into.
pub const COMMAND_BUFFER_LEN: usize = 64;

/// Size of the buffer that a notice of a received command is written into.
pub const NOTICE_LEN: usize = 80;

/// How initializing the stack ended: 0 is success; an operation already
/// in progress means that it was initialized; anything else is a failure.
pub fn initialize_result(rc: i32, codes: &Errno) -> (done: BleResult<()>)
    ensures
        done == if rc == 0 {
            Ok::<(), BleError>(())
        } else if reports(rc, codes.ealready) {
            Err::<(), BleError>(BleError::AlreadyInitialized)
        } else {
            Err::<(), BleError>(BleError::SocketError)
        },
{
    if rc == 0 {
        Ok(())
    } else if is_error(rc, codes.ealready) {
        Err(BleError::AlreadyInitialized)
    } else {
        Err(BleError::SocketError)
    }
}

/// How deinitializing the stack ended: 0 is success; no device means
/// that it was not initialized; anything else is a failure.
pub fn deinitialize_result(rc: i32, codes: &Errno) -> (done: BleResult<()>)
    ensures
        done == if rc == 0 {
            Ok::<(), BleError>(())
        } else if reports(rc, codes.enodev) {
            Err::<(), BleError>(BleError::NotInitialized)
        } else {
            Err::<(), BleError>(BleError::SocketError)
        },
{
    if rc == 0 {
        Ok(())
    } else if is_error(rc, codes.enodev) {
        Err(BleError::NotInitialized)
    } else {
        Err(BleError::SocketError)
    }
}

/// How starting to advertise ended: 0 is success; no device means that
/// the stack was not initialized; not supported is passed on; anything
/// else is a failure.
pub fn start_advertising_result(rc: i32, codes: &Errno) -> (done: BleResult<()>)
    ensures
        done == if rc == 0 {
            Ok::<(), BleError>(())
        } else if reports(rc, codes.enodev) {
            Err::<(), BleError>(BleError::NotInitialized)
        } else if reports(rc, codes.enotsup) {
            Err::<(), BleError>(BleError::NotSupported)
        } else {
            Err::<(), BleError>(BleError::SocketError)
        },
{
    if rc == 0 {
        Ok(())
    } else if is_error(rc, codes.enodev) {
        Err(BleError::NotInitialized)
    } else if is_error(rc, codes.enotsup) {
        Err(BleError::NotSupported)
    } else {
        Err(BleError::SocketError)
    }
}

/// How stopping to advertise ended: 0 is success, anything else a failure.
pub fn stop_advertising_result(rc: i32) -> (done: BleResult<()>)
    ensures
        done == if rc == 0 {
            Ok::<(), BleError>(())
        } else {
            Err::<(), BleError>(BleError::SocketError)
        },
{
    if rc == 0 {
        Ok(())
    } else {
        Err(BleError::SocketError)
    }
}

/// Whether a name can be handed to the stack: it holds no zero byte.
pub open spec fn is_c_text(text: Seq<u8>) -> bool {
    forall|i: int| 0 <= i < text.len() ==> text[i] != 0
}

/// Checks that a name can be handed to the stack: one that holds a zero
/// byte is an invalid parameter.
pub fn check_c_text(text: &[u8]) -> (checked: BleResult<()>)
    ensures
        checked == if is_c_text(text@) {
            Ok::<(), BleError>(())
        } else {
            Err::<(), BleError>(BleError::InvalidParameter)
        },
{
    let mut i: usize = 0;
    while i < text.len()
        invariant
            i <= text@.len(),
            forall|k: int| 0 <= k < i ==> text@[k] != 0,
        decreases text@.len() - i,
    {
        if text[i] == 0 {
            return Err(BleError::InvalidParameter);
        }
        i += 1;
    }
    Ok(())
}

/// The number of polls of a server run: one per 100 ms of its budget,
/// and as many as can be counted where the budget is 0, which means no
/// limit.
pub fn poll_count(timeout_ms: u32) -> (polls: u32)
    ensures
        polls == if timeout_ms == 0 {
            u32::MAX
        } else {
            (timeout_ms / POLL_INTERVAL_MS) as u32
        },
{
    if timeout_ms == 0 {
        u32::MAX
    } else {
        timeout_ms / POLL_INTERVAL_MS
    }
}

/// Whether the poll with number `poll` reports a connected client: every
/// fiftieth does, while a client is connected.
pub fn reports_client(poll: u32, connected: i32) -> (report: bool)
    ensures
        report == (poll % REPORT_EVERY == 0 && connected != 0),
{
    poll % REPORT_EVERY == 0 && connected != 0
}

/// The command that the stack handed over: the first `len` bytes of the
/// buffer, where `len` is positive.
pub fn received_command(buffer: &[u8; 64], len: i32) -> (command: Option<Vec<u8>>)
    requires
        len <= COMMAND_BUFFER_LEN,
    ensures
        match command {
            Some(bytes) => len > 0 && bytes@ == buffer@.take(len as int),
            None => len <= 0,
        },
{
    if len > 0 {
        let part = vstd::slice::slice_subrange(buffer.as_slice(), 0, len as usize);
        assert(part@ =~= buffer@.take(len as int));
        Some(vstd::slice::slice_to_vec(part))
    } else {
        None
    }
}

/// The text that a notice of a received command begins with:
/// "GATT command received: ".
pub open spec fn notice_prefix() -> Seq<u8> {
    seq![
        0x47u8, 0x41, 0x54, 0x54, 0x20, 0x63, 0x6F, 0x6D, 0x6D, 0x61, 0x6E, 0x64, 0x20, 0x72,
        0x65, 0x63, 0x65, 0x69, 0x76, 0x65, 0x64, 0x3A, 0x20,
    ]
}

/// The part of a command that a notice shows: what fits the notice
/// beside its prefix and its closing zero byte.
pub open spec fn shown_command(command: Seq<u8>) -> Seq<u8> {
    if command.len() <= NOTICE_LEN - 24 {
        command
    } else {
        command.take(NOTICE_LEN - 24)
    }
}

/// The notice of a received command: the prefix, the part of the command
/// that fits, and zeros up to 80 bytes, of which at least one.
pub open spec fn notice(command: Seq<u8>) -> Seq<u8> {
    let text = notice_prefix() + shown_command(command);
    text + Seq::new((NOTICE_LEN - text.len()) as nat, |i: int| 0u8)
}

/// Writes the notice of a received command.
pub fn command_notice(command: &[u8]) -> (text: Vec<u8>)
    ensures
        text@ == notice(command@),
        text@.len() == NOTICE_LEN,
{
    let mut text: Vec<u8> = vec![
        0x47u8, 0x41, 0x54, 0x54, 0x20, 0x63, 0x6F, 0x6D, 0x6D, 0x61, 0x6E, 0x64, 0x20, 0x72,
        0x65, 0x63, 0x65, 0x69, 0x76, 0x65, 0x64, 0x3A, 0x20,
    ];
    assert(text@ =~= notice_prefix());
    let count: usize = if command.len() <= NOTICE_LEN - 24 {
        command.len()
    } else {
        NOTICE_LEN - 24
    };
    let part = vstd::slice::slice_subrange(command, 0, count);
    assert(part@ =~= shown_command(command@));
    text.extend_from_slice(part);
    let ghost shown = text@;
    assert(shown =~= notice_prefix() + shown_command(command@));
    while text.len() < NOTICE_LEN
        invariant
            shown.len() <= text@.len() <= NOTICE_LEN,
            text@ =~= shown + Seq::new((text@.len() - shown.len()) as nat, |i: int| 0u8),
        decreases NOTICE_LEN - text@.len(),
    {
        text.push(0);
    }
    text
}

} // verus!
