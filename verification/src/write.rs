//! The write/verify engine.
//!
//! Copying an image to a device is a strict sequence: resolve the device
//! among the removable ones, unmount it, check the image against it, copy
//! block by block, flush, and optionally read everything back and compare.
//! The engine takes every decision of that sequence and performs none of
//! its input or output. The caller hands it the outcome of the last request
//! as a [`WriteEvent`]; the engine answers with the next request as a
//! [`WriteAction`], and with a progress snapshot whenever a block has been
//! written or verified. [`transition`] is the complete rule book.

use vstd::prelude::*;
use crate::device::{not_found_text, resolve_device, resolved, BlockDevice};
use crate::error::PlatformError;
use crate::progress::{snapshot, Phase, ProgressView, WriteProgressEvent};
use crate::validate::{too_large_message, too_large_text};

verus! {

/// Number of bytes requested from the image per block.
pub const BLOCK_SIZE: usize = 4_194_304;

/// What the file system says about the image.
#[derive(Debug, Clone, Copy, PartialEq, Eq, Structural)]
pub struct SourceInfo {
    /// Whether the path names a regular file.
    pub is_file: bool,
    /// Length of the file in bytes.
    pub len: u64,
}

/// Where a transfer stands. The states carry the capacity of the device
/// (zero when unknown), the size of the image, and the bytes handled so far.
#[derive(Debug, Clone, Copy, PartialEq, Eq, Structural)]
pub enum WriteState {
    /// Nothing has been requested yet.
    Created,
    /// Resolving: waiting for a fresh list of removable devices.
    Resolving,
    /// Unmounting: waiting for the device to be unmounted.
    Unmounting { capacity: u64 },
    /// Source open: waiting for the image's metadata.
    InspectingSource { capacity: u64 },
    /// Source open: waiting for the image to be opened.
    OpeningSource { total: u64 },
    /// Source open: waiting for the device to be opened for writing.
    OpeningDevice { total: u64 },
    /// Writing: waiting for the next block of the image.
    ReadingSource { total: u64, written: u64 },
    /// Writing: waiting for a block of `len` bytes to reach the device.
    WritingBlock { total: u64, written: u64, len: usize },
    /// Syncing: waiting for buffered writes to reach the medium.
    Syncing { total: u64 },
    /// Verify open: waiting for the image to be opened again.
    VerifyOpeningSource { total: u64 },
    /// Verify open: waiting for the device to be opened for reading.
    VerifyOpeningDevice { total: u64 },
    /// Verifying: waiting for the next block of the image.
    VerifyReadingSource { total: u64, verified: u64 },
    /// Verifying: waiting for the same `len` bytes from the device.
    VerifyReadingDevice { total: u64, verified: u64, len: usize },
    /// The transfer succeeded.
    Done,
    /// The transfer failed; nothing further is requested.
    Failed,
}

/// The outcome of the request the engine made last. Failures of the file
/// system carry the text of the error; failures of the platform provider
/// carry the provider's error.
pub enum WriteEvent<'a> {
    /// The caller is ready to begin.
    Start,
    /// The caller gives the transfer up. It may do so in place of any
    /// outcome that is not yet under way, such as between two blocks.
    Cancel,
    /// The removable devices were enumerated.
    Devices(Result<Vec<BlockDevice>, PlatformError>),
    /// The device was unmounted.
    Unmounted(Result<(), PlatformError>),
    /// The image's metadata was read.
    SourceInspected(Result<SourceInfo, String>),
    /// The image was opened.
    SourceOpened(Result<(), String>),
    /// The device was opened.
    DeviceOpened(Result<(), PlatformError>),
    /// A block of the image was read; zero bytes mean the image has ended.
    SourceRead(Result<usize, String>),
    /// The block was written in full; `elapsed_nanos` is the time since
    /// writing began.
    DeviceWritten { outcome: Result<(), String>, elapsed_nanos: u128 },
    /// Buffered writes were flushed.
    Synced(Result<(), String>),
    /// The device's bytes for the current block were read. `source` is the
    /// block of the image, `device` what the device holds in its place, and
    /// `elapsed_nanos` the time since verification began.
    DeviceRead {
        outcome: Result<(), String>,
        source: &'a [u8],
        device: &'a [u8],
        elapsed_nanos: u128,
    },
}

/// What the caller is to do next.
#[derive(Debug, PartialEq, Eq)]
pub enum WriteAction {
    /// Enumerate the removable devices.
    ListDevices,
    /// Unmount the target device.
    Unmount,
    /// Read the image's metadata.
    InspectSource,
    /// Open the image for reading from its start.
    OpenSource,
    /// Open the device for raw writing.
    OpenDeviceForWrite,
    /// Read up to [`BLOCK_SIZE`] bytes of the image.
    ReadSource,
    /// Write the block just read, of the given length, to the device.
    WriteDevice(usize),
    /// Flush the device and release the write handle.
    SyncDevice,
    /// Open the device for raw reading.
    OpenDeviceForRead,
    /// Read exactly the given number of bytes from the device.
    ReadDevice(usize),
    /// Release every handle and report this result.
    Finish(Result<(), String>),
    /// The transfer had already ended; there is nothing to do.
    Halted,
}

/// An action as plain values.
pub enum ActionView {
    ListDevices,
    Unmount,
    InspectSource,
    OpenSource,
    OpenDeviceForWrite,
    ReadSource,
    WriteDevice(usize),
    SyncDevice,
    OpenDeviceForRead,
    ReadDevice(usize),
    Finish(Result<(), Seq<char>>),
    Halted,
}

impl View for WriteAction {
    type V = ActionView;

    open spec fn view(&self) -> ActionView {
        match self {
            WriteAction::ListDevices => ActionView::ListDevices,
            WriteAction::Unmount => ActionView::Unmount,
            WriteAction::InspectSource => ActionView::InspectSource,
            WriteAction::OpenSource => ActionView::OpenSource,
            WriteAction::OpenDeviceForWrite => ActionView::OpenDeviceForWrite,
            WriteAction::ReadSource => ActionView::ReadSource,
            WriteAction::WriteDevice(n) => ActionView::WriteDevice(*n),
            WriteAction::SyncDevice => ActionView::SyncDevice,
            WriteAction::OpenDeviceForRead => ActionView::OpenDeviceForRead,
            WriteAction::ReadDevice(n) => ActionView::ReadDevice(*n),
            WriteAction::Finish(Ok(())) => ActionView::Finish(Ok(())),
            WriteAction::Finish(Err(m)) => ActionView::Finish(Err(m@)),
            WriteAction::Halted => ActionView::Halted,
        }
    }
}

/// The engine's answer to an event.
pub struct Step {
    /// What to do next.
    pub action: WriteAction,
    /// The progress to publish before doing it, if any.
    pub report: Option<WriteProgressEvent>,
}

/// An answer as plain values, together with the state it leads to.
pub struct Outcome {
    pub state: WriteState,
    pub action: ActionView,
    pub report: Option<ProgressView>,
}

impl Step {
    /// The progress report as plain values.
    pub open spec fn report_view(self) -> Option<ProgressView> {
        match self.report {
            Some(e) => Some(e@),
            None => None,
        }
    }
}

/// Text of the failure for blocks that differ during verification.
pub open spec fn mismatch_text() -> Seq<char> {
    "Verification failed: data mismatch detected"@
}

/// Text of the failure for an event that does not answer the pending
/// request.
pub open spec fn unexpected_text() -> Seq<char> {
    "Unexpected event for the current state of the transfer"@
}

/// Text of the failure for a transfer that was given up.
pub open spec fn cancelled_text() -> Seq<char> {
    "Transfer cancelled"@
}

/// True for the two states in which the transfer has ended.
pub open spec fn is_final(state: WriteState) -> bool {
    state == WriteState::Done || state == WriteState::Failed
}

/// `done + len`, held at the largest 64-bit number.
pub open spec fn advanced(done: u64, len: usize) -> u64 {
    if done + len > u64::MAX {
        u64::MAX
    } else {
        (done + len) as u64
    }
}

/// The outcome that ends the transfer with the failure `text`.
pub open spec fn fails(text: Seq<char>) -> Outcome {
    Outcome { state: WriteState::Failed, action: ActionView::Finish(Err(text)), report: None }
}

/// The outcome that moves to `state` and requests `action`.
pub open spec fn proceeds(state: WriteState, action: ActionView) -> Outcome {
    Outcome { state, action, report: None }
}

/// The rule book of the engine: for a transfer to the device at `path`,
/// with or without verification, the state, request and progress report
/// that follow from `state` on `event`.
pub open spec fn transition(path: Seq<char>, verify: bool, state: WriteState, event: WriteEvent)
    -> Outcome {
    if event is Cancel && !is_final(state) {
        fails(cancelled_text())
    } else {
        transition_unless_cancelled(path, verify, state, event)
    }
}

/// The rule book for every event but a cancellation.
pub open spec fn transition_unless_cancelled(
    path: Seq<char>,
    verify: bool,
    state: WriteState,
    event: WriteEvent,
) -> Outcome {
    match state {
        WriteState::Created => match event {
            WriteEvent::Start => proceeds(WriteState::Resolving, ActionView::ListDevices),
            _ => fails(unexpected_text()),
        },
        WriteState::Resolving => match event {
            WriteEvent::Devices(listing) => match resolved(listing, path) {
                Ok(device) => proceeds(
                    WriteState::Unmounting { capacity: device.size },
                    ActionView::Unmount,
                ),
                Err(text) => fails(text),
            },
            _ => fails(unexpected_text()),
        },
        WriteState::Unmounting { capacity } => match event {
            WriteEvent::Unmounted(Ok(())) => proceeds(
                WriteState::InspectingSource { capacity },
                ActionView::InspectSource,
            ),
            WriteEvent::Unmounted(Err(e)) => fails("Failed to unmount device: "@ + e.message_text()),
            _ => fails(unexpected_text()),
        },
        WriteState::InspectingSource { capacity } => match event {
            WriteEvent::SourceInspected(Ok(info)) => if !info.is_file {
                fails("Selected image is not a file"@)
            } else if info.len == 0 {
                fails("Selected image is empty"@)
            } else if capacity > 0 && info.len > capacity {
                fails(too_large_text(info.len, capacity))
            } else {
                proceeds(WriteState::OpeningSource { total: info.len }, ActionView::OpenSource)
            },
            WriteEvent::SourceInspected(Err(m)) => fails("Failed to read ISO file: "@ + m@),
            _ => fails(unexpected_text()),
        },
        WriteState::OpeningSource { total } => match event {
            WriteEvent::SourceOpened(Ok(())) => proceeds(
                WriteState::OpeningDevice { total },
                ActionView::OpenDeviceForWrite,
            ),
            WriteEvent::SourceOpened(Err(m)) => fails("Failed to open ISO file: "@ + m@),
            _ => fails(unexpected_text()),
        },
        WriteState::OpeningDevice { total } => match event {
            WriteEvent::DeviceOpened(Ok(())) => proceeds(
                WriteState::ReadingSource { total, written: 0 },
                ActionView::ReadSource,
            ),
            WriteEvent::DeviceOpened(Err(e)) => fails("Failed to open device: "@ + e.message_text()),
            _ => fails(unexpected_text()),
        },
        WriteState::ReadingSource { total, written } => match event {
            WriteEvent::SourceRead(Ok(len)) => if len == 0 {
                proceeds(WriteState::Syncing { total }, ActionView::SyncDevice)
            } else {
                proceeds(
                    WriteState::WritingBlock { total, written, len },
                    ActionView::WriteDevice(len),
                )
            },
            WriteEvent::SourceRead(Err(m)) => fails("Failed to read ISO: "@ + m@),
            _ => fails(unexpected_text()),
        },
        WriteState::WritingBlock { total, written, len } => match event {
            WriteEvent::DeviceWritten { outcome: Ok(()), elapsed_nanos } => Outcome {
                state: WriteState::ReadingSource { total, written: advanced(written, len) },
                action: ActionView::ReadSource,
                report: Some(
                    snapshot(Phase::Writing, advanced(written, len), total, elapsed_nanos),
                ),
            },
            WriteEvent::DeviceWritten { outcome: Err(m), elapsed_nanos } => fails(
                "Failed to write to device: "@ + m@,
            ),
            _ => fails(unexpected_text()),
        },
        WriteState::Syncing { total } => match event {
            WriteEvent::Synced(Ok(())) => if verify {
                proceeds(WriteState::VerifyOpeningSource { total }, ActionView::OpenSource)
            } else {
                proceeds(WriteState::Done, ActionView::Finish(Ok(())))
            },
            WriteEvent::Synced(Err(m)) => fails("Failed to sync device: "@ + m@),
            _ => fails(unexpected_text()),
        },
        WriteState::VerifyOpeningSource { total } => match event {
            WriteEvent::SourceOpened(Ok(())) => proceeds(
                WriteState::VerifyOpeningDevice { total },
                ActionView::OpenDeviceForRead,
            ),
            WriteEvent::SourceOpened(Err(m)) => fails(
                "Failed to open ISO for verification: "@ + m@,
            ),
            _ => fails(unexpected_text()),
        },
        WriteState::VerifyOpeningDevice { total } => match event {
            WriteEvent::DeviceOpened(Ok(())) => proceeds(
                WriteState::VerifyReadingSource { total, verified: 0 },
                ActionView::ReadSource,
            ),
            WriteEvent::DeviceOpened(Err(e)) => fails(
                "Failed to open device for verification: "@ + e.message_text(),
            ),
            _ => fails(unexpected_text()),
        },
        WriteState::VerifyReadingSource { total, verified } => match event {
            WriteEvent::SourceRead(Ok(len)) => if len == 0 {
                proceeds(WriteState::Done, ActionView::Finish(Ok(())))
            } else {
                proceeds(
                    WriteState::VerifyReadingDevice { total, verified, len },
                    ActionView::ReadDevice(len),
                )
            },
            WriteEvent::SourceRead(Err(m)) => fails(
                "Failed to read ISO during verification: "@ + m@,
            ),
            _ => fails(unexpected_text()),
        },
        WriteState::VerifyReadingDevice { total, verified, len } => match event {
            WriteEvent::DeviceRead { outcome: Ok(()), source, device, elapsed_nanos } => if source@
                == device@ {
                Outcome {
                    state: WriteState::VerifyReadingSource {
                        total,
                        verified: advanced(verified, len),
                    },
                    action: ActionView::ReadSource,
                    report: Some(
                        snapshot(Phase::Verifying, advanced(verified, len), total, elapsed_nanos),
                    ),
                }
            } else {
                fails(mismatch_text())
            },
            WriteEvent::DeviceRead { outcome: Err(m), source, device, elapsed_nanos } => fails(
                "Failed to read device during verification: "@ + m@,
            ),
            _ => fails(unexpected_text()),
        },
        WriteState::Done => proceeds(WriteState::Done, ActionView::Halted),
        WriteState::Failed => proceeds(WriteState::Failed, ActionView::Halted),
    }
}

/// Tells whether two blocks hold the same bytes.
pub fn blocks_match(a: &[u8], b: &[u8]) -> (same: bool)
    ensures
        same == (a@ == b@),
{
    if a.len() != b.len() {
        return false;
    }
    let mut i: usize = 0;
    while i < a.len()
        invariant
            i <= a@.len() == b@.len(),
            forall|j: int| 0 <= j < i ==> a@[j] == b@[j],
        decreases a@.len() - i,
    {
        if a[i] != b[i] {
            return false;
        }
        i += 1;
    }
    assert(a@ =~= b@);
    true
}

/// `done + len`, held at the largest 64-bit number.
pub fn advance(done: u64, len: usize) -> (now: u64)
    ensures
        now == advanced(done, len),
{
    let sum: u128 = done as u128 + len as u128;
    if sum > u64::MAX as u128 {
        u64::MAX
    } else {
        sum as u64
    }
}

/// `heading` followed by `detail`.
fn headed(heading: &str, detail: &str) -> (m: String)
    ensures
        m@ == heading@ + detail@,
{
    String::from_str(heading).concat(detail)
}

/// One transfer of an image to the device at `device_path`.
pub struct WriteEngine {
    /// The device the image goes to.
    pub device_path: String,
    /// Whether the device is read back and compared after writing.
    pub verify: bool,
    /// Where the transfer stands.
    pub state: WriteState,
}

impl WriteEngine {
    /// What `event` leads to from where the engine stands.
    pub open spec fn next(&self, event: WriteEvent) -> Outcome {
        transition(self.device_path@, self.verify, self.state, event)
    }

    /// A transfer that has not begun.
    pub fn new(device_path: String, verify: bool) -> (engine: WriteEngine)
        ensures
            engine.device_path == device_path,
            engine.verify == verify,
            engine.state == WriteState::Created,
    {
        WriteEngine { device_path, verify, state: WriteState::Created }
    }

    /// True once the transfer has succeeded or failed.
    pub fn is_finished(&self) -> (b: bool)
        ensures
            b == is_final(self.state),
    {
        match self.state {
            WriteState::Done => true,
            WriteState::Failed => true,
            _ => false,
        }
    }

    fn fail(&mut self, text: String) -> (step: Step)
        ensures
            final(self).device_path == old(self).device_path,
            final(self).verify == old(self).verify,
            final(self).state == WriteState::Failed,
            step.action@ == ActionView::Finish(Err(text@)),
            step.report is None,
    {
        self.state = WriteState::Failed;
        Step { action: WriteAction::Finish(Err(text)), report: None }
    }

    fn reject(&mut self) -> (step: Step)
        ensures
            final(self).device_path == old(self).device_path,
            final(self).verify == old(self).verify,
            final(self).state == WriteState::Failed,
            step.action@ == ActionView::Finish(Err(unexpected_text())),
            step.report is None,
    {
        self.fail(String::from_str("Unexpected event for the current state of the transfer"))
    }

    fn go(&mut self, state: WriteState, action: WriteAction) -> (step: Step)
        ensures
            final(self).device_path == old(self).device_path,
            final(self).verify == old(self).verify,
            final(self).state == state,
            step.action == action,
            step.report is None,
    {
        self.state = state;
        Step { action, report: None }
    }

    fn on_devices(&mut self, listing: Result<Vec<BlockDevice>, PlatformError>) -> (step: Step)
        requires
            old(self).state == WriteState::Resolving,
        ensures
            final(self).device_path == old(self).device_path,
            final(self).verify == old(self).verify,
            final(self).state == old(self).next(WriteEvent::Devices(listing)).state,
            step.action@ == old(self).next(WriteEvent::Devices(listing)).action,
            step.report_view() == old(self).next(WriteEvent::Devices(listing)).report,
    {
        match resolve_device(listing, self.device_path.as_str()) {
            Ok(device) => self.go(
                WriteState::Unmounting { capacity: device.size },
                WriteAction::Unmount,
            ),
            Err(text) => self.fail(text),
        }
    }

    fn on_source_inspected(&mut self, capacity: u64, info: SourceInfo) -> (step: Step)
        requires
            old(self).state == (WriteState::InspectingSource { capacity }),
        ensures
            final(self).device_path == old(self).device_path,
            final(self).verify == old(self).verify,
            final(self).state == old(self).next(WriteEvent::SourceInspected(Ok(info))).state,
            step.action@ == old(self).next(WriteEvent::SourceInspected(Ok(info))).action,
            step.report_view() == old(self).next(WriteEvent::SourceInspected(Ok(info))).report,
    {
        if !info.is_file {
            self.fail(String::from_str("Selected image is not a file"))
        } else if info.len == 0 {
            self.fail(String::from_str("Selected image is empty"))
        } else if capacity > 0 && info.len > capacity {
            self.fail(too_large_message(info.len, capacity))
        } else {
            self.go(WriteState::OpeningSource { total: info.len }, WriteAction::OpenSource)
        }
    }

    fn on_block_done(&mut self, phase: Phase, total: u64, done: u64, len: usize, elapsed_nanos: u128)
        -> (step: Step)
        ensures
            final(self).device_path == old(self).device_path,
            final(self).verify == old(self).verify,
            final(self).state == (match phase {
                Phase::Writing => WriteState::ReadingSource { total, written: advanced(done, len) },
                Phase::Verifying => WriteState::VerifyReadingSource {
                    total,
                    verified: advanced(done, len),
                },
            }),
            step.action@ == ActionView::ReadSource,
            step.report_view() == Some(snapshot(phase, advanced(done, len), total, elapsed_nanos)),
    {
        let now = advance(done, len);
        self.state = match phase {
            Phase::Writing => WriteState::ReadingSource { total, written: now },
            Phase::Verifying => WriteState::VerifyReadingSource { total, verified: now },
        };
        Step {
            action: WriteAction::ReadSource,
            report: Some(WriteProgressEvent::measure(phase, now, total, elapsed_nanos)),
        }
    }

    /// Takes the outcome of the last request and answers with the next one,
    /// exactly as [`transition`] prescribes. The device path and the
    /// verification choice never change.
    pub fn step(&mut self, event: WriteEvent) -> (step: Step)
        ensures
            final(self).device_path == old(self).device_path,
            final(self).verify == old(self).verify,
            final(self).state == old(self).next(event).state,
            step.action@ == old(self).next(event).action,
            step.report_view() == old(self).next(event).report,
    {
        if let WriteEvent::Cancel = event {
            if !self.is_finished() {
                return self.fail(String::from_str("Transfer cancelled"));
            }
        }
        match self.state {
            WriteState::Created => match event {
                WriteEvent::Start => self.go(WriteState::Resolving, WriteAction::ListDevices),
                _ => self.reject(),
            },
            WriteState::Resolving => match event {
                WriteEvent::Devices(listing) => self.on_devices(listing),
                _ => self.reject(),
            },
            WriteState::Unmounting { capacity } => match event {
                WriteEvent::Unmounted(Ok(())) => self.go(
                    WriteState::InspectingSource { capacity },
                    WriteAction::InspectSource,
                ),
                WriteEvent::Unmounted(Err(e)) => self.fail(
                    headed("Failed to unmount device: ", e.message().as_str()),
                ),
                _ => self.reject(),
            },
            WriteState::InspectingSource { capacity } => match event {
                WriteEvent::SourceInspected(Ok(info)) => self.on_source_inspected(capacity, info),
                WriteEvent::SourceInspected(Err(m)) => self.fail(
                    headed("Failed to read ISO file: ", m.as_str()),
                ),
                _ => self.reject(),
            },
            WriteState::OpeningSource { total } => match event {
                WriteEvent::SourceOpened(Ok(())) => self.go(
                    WriteState::OpeningDevice { total },
                    WriteAction::OpenDeviceForWrite,
                ),
                WriteEvent::SourceOpened(Err(m)) => self.fail(
                    headed("Failed to open ISO file: ", m.as_str()),
                ),
                _ => self.reject(),
            },
            WriteState::OpeningDevice { total } => match event {
                WriteEvent::DeviceOpened(Ok(())) => self.go(
                    WriteState::ReadingSource { total, written: 0 },
                    WriteAction::ReadSource,
                ),
                WriteEvent::DeviceOpened(Err(e)) => self.fail(
                    headed("Failed to open device: ", e.message().as_str()),
                ),
                _ => self.reject(),
            },
            WriteState::ReadingSource { total, written } => match event {
                WriteEvent::SourceRead(Ok(len)) => if len == 0 {
                    self.go(WriteState::Syncing { total }, WriteAction::SyncDevice)
                } else {
                    self.go(
                        WriteState::WritingBlock { total, written, len },
                        WriteAction::WriteDevice(len),
                    )
                },
                WriteEvent::SourceRead(Err(m)) => self.fail(
                    headed("Failed to read ISO: ", m.as_str()),
                ),
                _ => self.reject(),
            },
            WriteState::WritingBlock { total, written, len } => match event {
                WriteEvent::DeviceWritten { outcome: Ok(()), elapsed_nanos } => self.on_block_done(
                    Phase::Writing,
                    total,
                    written,
                    len,
                    elapsed_nanos,
                ),
                WriteEvent::DeviceWritten { outcome: Err(m), elapsed_nanos: _ } => self.fail(
                    headed("Failed to write to device: ", m.as_str()),
                ),
                _ => self.reject(),
            },
            WriteState::Syncing { total } => match event {
                WriteEvent::Synced(Ok(())) => if self.verify {
                    self.go(WriteState::VerifyOpeningSource { total }, WriteAction::OpenSource)
                } else {
                    self.go(WriteState::Done, WriteAction::Finish(Ok(())))
                },
                WriteEvent::Synced(Err(m)) => self.fail(
                    headed("Failed to sync device: ", m.as_str()),
                ),
                _ => self.reject(),
            },
            WriteState::VerifyOpeningSource { total } => match event {
                WriteEvent::SourceOpened(Ok(())) => self.go(
                    WriteState::VerifyOpeningDevice { total },
                    WriteAction::OpenDeviceForRead,
                ),
                WriteEvent::SourceOpened(Err(m)) => self.fail(
                    headed("Failed to open ISO for verification: ", m.as_str()),
                ),
                _ => self.reject(),
            },
            WriteState::VerifyOpeningDevice { total } => match event {
                WriteEvent::DeviceOpened(Ok(())) => self.go(
                    WriteState::VerifyReadingSource { total, verified: 0 },
                    WriteAction::ReadSource,
                ),
                WriteEvent::DeviceOpened(Err(e)) => self.fail(
                    headed("Failed to open device for verification: ", e.message().as_str()),
                ),
                _ => self.reject(),
            },
            WriteState::VerifyReadingSource { total, verified } => match event {
                WriteEvent::SourceRead(Ok(len)) => if len == 0 {
                    self.go(WriteState::Done, WriteAction::Finish(Ok(())))
                } else {
                    self.go(
                        WriteState::VerifyReadingDevice { total, verified, len },
                        WriteAction::ReadDevice(len),
                    )
                },
                WriteEvent::SourceRead(Err(m)) => self.fail(
                    headed("Failed to read ISO during verification: ", m.as_str()),
                ),
                _ => self.reject(),
            },
            WriteState::VerifyReadingDevice { total, verified, len } => match event {
                WriteEvent::DeviceRead { outcome: Ok(()), source, device, elapsed_nanos } => {
                    if blocks_match(source, device) {
                        self.on_block_done(Phase::Verifying, total, verified, len, elapsed_nanos)
                    } else {
                        self.fail(String::from_str("Verification failed: data mismatch detected"))
                    }
                },
                WriteEvent::DeviceRead {
                    outcome: Err(m),
                    source: _,
                    device: _,
                    elapsed_nanos: _,
                } => self.fail(headed("Failed to read device during verification: ", m.as_str())),
                _ => self.reject(),
            },
            WriteState::Done => self.go(WriteState::Done, WriteAction::Halted),
            WriteState::Failed => self.go(WriteState::Failed, WriteAction::Halted),
        }
    }
}

/// The phase a state belongs to and the bytes handled in it so far, for
/// the states of the two phases that report progress.
pub open spec fn handled(state: WriteState) -> Option<(Phase, u64)> {
    match state {
        WriteState::ReadingSource { total, written } => Some((Phase::Writing, written)),
        WriteState::WritingBlock { total, written, len } => Some((Phase::Writing, written)),
        WriteState::VerifyReadingSource { total, verified } => Some((Phase::Verifying, verified)),
        WriteState::VerifyReadingDevice { total, verified, len } => Some(
            (Phase::Verifying, verified),
        ),
        _ => None,
    }
}

/// The image size a state carries, once it is known.
pub open spec fn image_size(state: WriteState) -> Option<u64> {
    match state {
        WriteState::OpeningSource { total } => Some(total),
        WriteState::OpeningDevice { total } => Some(total),
        WriteState::ReadingSource { total, written } => Some(total),
        WriteState::WritingBlock { total, written, len } => Some(total),
        WriteState::Syncing { total } => Some(total),
        WriteState::VerifyOpeningSource { total } => Some(total),
        WriteState::VerifyOpeningDevice { total } => Some(total),
        WriteState::VerifyReadingSource { total, verified } => Some(total),
        WriteState::VerifyReadingDevice { total, verified, len } => Some(total),
        _ => None,
    }
}

/// Within a phase the count of handled bytes never goes down, whatever
/// event arrives, and the image size, once known, stays fixed until the
/// transfer ends. Every progress report carries the phase, the count and
/// the image size of the state it leads to, so the counts of successive
/// reports of a phase never go down either.
pub proof fn lemma_progress_never_decreases(
    path: Seq<char>,
    verify: bool,
    state: WriteState,
    event: WriteEvent,
)
    ensures
        ({
            let next = transition(path, verify, state, event);
            &&& handled(state) matches Some(before) ==> handled(next.state) matches Some(after)
                ==> before.0 == after.0 ==> before.1 <= after.1
            &&& image_size(state) matches Some(total) ==> image_size(next.state) matches Some(
                later,
            ) ==> total == later
            &&& next.report matches Some(report) ==> {
                &&& handled(next.state) matches Some(after) && report.phase == after.0.label()
                    && report.bytes_written == after.1
                &&& image_size(next.state) == Some(report.total_bytes)
                &&& handled(state) matches Some(before) && before.1 <= report.bytes_written
            }
        }),
{
}

/// Sum of the block lengths.
pub open spec fn total_length(lens: Seq<usize>) -> nat
    decreases lens.len(),
{
    if lens.len() == 0 {
        0
    } else {
        total_length(lens.drop_last()) + lens.last() as nat
    }
}

/// The answer to the last of a run of successful block writes: starting
/// from `start`, each block of `lens` is read from the image and written to
/// the device, the write of block `i` ending `nanos[i]` nanoseconds into
/// the phase.
pub open spec fn after_writes(
    path: Seq<char>,
    verify: bool,
    start: WriteState,
    lens: Seq<usize>,
    nanos: Seq<u128>,
) -> Outcome
    recommends
        lens.len() == nanos.len(),
        lens.len() > 0,
    decreases lens.len(),
{
    let before = if lens.len() <= 1 {
        start
    } else {
        after_writes(path, verify, start, lens.drop_last(), nanos.drop_last()).state
    };
    let reading = transition(path, verify, before, WriteEvent::SourceRead(Ok(lens.last()))).state;
    transition(
        path,
        verify,
        reading,
        WriteEvent::DeviceWritten { outcome: Ok(()), elapsed_nanos: nanos.last() },
    )
}

/// A run of successful block writes counts every byte: after non-empty
/// blocks whose lengths, added to the count at the start, stay within 64
/// bits, the engine waits for the next block with the sum as its count, and
/// the report for the last block shows that sum.
pub proof fn lemma_blocks_add_up(
    path: Seq<char>,
    verify: bool,
    total: u64,
    written: u64,
    lens: Seq<usize>,
    nanos: Seq<u128>,
)
    requires
        lens.len() == nanos.len(),
        lens.len() > 0,
        forall|i: int| 0 <= i < lens.len() ==> lens[i] > 0,
        written + total_length(lens) <= u64::MAX,
    ensures
        ({
            let last = after_writes(
                path,
                verify,
                WriteState::ReadingSource { total, written },
                lens,
                nanos,
            );
            let count = (written + total_length(lens)) as u64;
            &&& last.state == WriteState::ReadingSource { total, written: count }
            &&& last.action == ActionView::ReadSource
            &&& last.report == Some(snapshot(Phase::Writing, count, total, nanos.last()))
        }),
    decreases lens.len(),
{
    if lens.len() > 1 {
        lemma_blocks_add_up(path, verify, total, written, lens.drop_last(), nanos.drop_last());
    } else {
        assert(total_length(lens.drop_last()) == 0);
    }
}

/// Writing an image of `total` bytes that arrives in non-empty blocks
/// adding up to `total` ends with every byte counted: the report for the
/// last block shows `bytes_written == total_bytes == total`.
pub proof fn lemma_last_report_is_complete(
    path: Seq<char>,
    verify: bool,
    total: u64,
    lens: Seq<usize>,
    nanos: Seq<u128>,
)
    requires
        lens.len() == nanos.len(),
        lens.len() > 0,
        forall|i: int| 0 <= i < lens.len() ==> lens[i] > 0,
        total_length(lens) == total,
    ensures
        ({
            let last = after_writes(
                path,
                verify,
                WriteState::ReadingSource { total, written: 0 },
                lens,
                nanos,
            );
            &&& last.state == WriteState::ReadingSource { total, written: total }
            &&& last.report is Some
            &&& last.report->0.bytes_written == total
            &&& last.report->0.total_bytes == total
        }),
{
    lemma_blocks_add_up(path, verify, total, 0, lens, nanos);
}

/// Sum of the lengths of the blocks.
pub open spec fn total_size(blocks: Seq<&[u8]>) -> nat
    decreases blocks.len(),
{
    if blocks.len() == 0 {
        0
    } else {
        total_size(blocks.drop_last()) + blocks.last()@.len()
    }
}

/// The answer to the last of a run of successful block checks: starting
/// from `start`, each block of `blocks` is read from the image and found
/// again on the device, the check of block `i` ending `nanos[i]`
/// nanoseconds into the phase.
pub open spec fn after_checks(
    path: Seq<char>,
    verify: bool,
    start: WriteState,
    blocks: Seq<&[u8]>,
    nanos: Seq<u128>,
) -> Outcome
    recommends
        blocks.len() == nanos.len(),
        blocks.len() > 0,
    decreases blocks.len(),
{
    let before = if blocks.len() <= 1 {
        start
    } else {
        after_checks(path, verify, start, blocks.drop_last(), nanos.drop_last()).state
    };
    let reading = transition(
        path,
        verify,
        before,
        WriteEvent::SourceRead(Ok(blocks.last()@.len() as usize)),
    ).state;
    transition(
        path,
        verify,
        reading,
        WriteEvent::DeviceRead {
            outcome: Ok(()),
            source: blocks.last(),
            device: blocks.last(),
            elapsed_nanos: nanos.last(),
        },
    )
}

/// A run of successful block checks counts every byte: after non-empty
/// blocks that the device holds as the image does, the engine waits for the
/// next block with the sum of their lengths added to its count, and the
/// report for the last block shows that count. When the blocks make up the
/// whole image, the last report of the verification shows
/// `bytes_written == total_bytes`.
pub proof fn lemma_checks_add_up(
    path: Seq<char>,
    verify: bool,
    total: u64,
    verified: u64,
    blocks: Seq<&[u8]>,
    nanos: Seq<u128>,
)
    requires
        blocks.len() == nanos.len(),
        blocks.len() > 0,
        forall|i: int| 0 <= i < blocks.len() ==> 0 < (#[trigger] blocks[i])@.len() <= usize::MAX,
        verified + total_size(blocks) <= u64::MAX,
    ensures
        ({
            let last = after_checks(
                path,
                verify,
                WriteState::VerifyReadingSource { total, verified },
                blocks,
                nanos,
            );
            let count = (verified + total_size(blocks)) as u64;
            &&& last.state == WriteState::VerifyReadingSource { total, verified: count }
            &&& last.action == ActionView::ReadSource
            &&& last.report == Some(snapshot(Phase::Verifying, count, total, nanos.last()))
        }),
    decreases blocks.len(),
{
    if blocks.len() > 1 {
        lemma_checks_add_up(path, verify, total, verified, blocks.drop_last(), nanos.drop_last());
    } else {
        assert(total_size(blocks.drop_last()) == 0);
    }
}

/// A block that differs from the image during verification ends the
/// transfer with the mismatch failure, whatever else is true of it.
pub proof fn lemma_mismatch_is_fatal(
    path: Seq<char>,
    verify: bool,
    total: u64,
    verified: u64,
    len: usize,
    source: &[u8],
    device: &[u8],
    elapsed_nanos: u128,
)
    requires
        source@ != device@,
    ensures
        transition(
            path,
            verify,
            WriteState::VerifyReadingDevice { total, verified, len },
            WriteEvent::DeviceRead { outcome: Ok(()), source, device, elapsed_nanos },
        ) == fails(mismatch_text()),
{
}

/// The state reached from `state` after the events of `events` in order.
pub open spec fn replay(path: Seq<char>, verify: bool, state: WriteState, events: Seq<WriteEvent>)
    -> WriteState
    decreases events.len(),
{
    if events.len() == 0 {
        state
    } else {
        transition(
            path,
            verify,
            replay(path, verify, state, events.drop_last()),
            events.last(),
        ).state
    }
}

/// A failed transfer stays failed: no later event leads anywhere else, and
/// none is answered with a report of success.
pub proof fn lemma_failure_is_final(path: Seq<char>, verify: bool, events: Seq<WriteEvent>)
    ensures
        replay(path, verify, WriteState::Failed, events) == WriteState::Failed,
        forall|event: WriteEvent| #[trigger]
            transition(path, verify, WriteState::Failed, event).action == ActionView::Halted,
    decreases events.len(),
{
    if events.len() > 0 {
        lemma_failure_is_final(path, verify, events.drop_last());
    }
}

/// Success is reported only on reaching `Done`, and `Done` is reached only
/// from the flush of an unverified transfer or from the end of the image
/// during verification.
pub proof fn lemma_success_only_when_done(
    path: Seq<char>,
    verify: bool,
    state: WriteState,
    event: WriteEvent,
)
    ensures
        ({
            let next = transition(path, verify, state, event);
            &&& next.action == ActionView::Finish(Ok(())) ==> next.state == WriteState::Done
            &&& next.action == ActionView::Finish(Ok(())) ==> (state matches WriteState::Syncing {
                total,
            } && !verify) || (state matches WriteState::VerifyReadingSource { total, verified })
            &&& next.action matches ActionView::Finish(Err(_)) ==> next.state
                == WriteState::Failed
        }),
{
}

/// A path that no device of the fresh enumeration carries is refused with
/// the device-not-found failure before anything is unmounted or written.
pub proof fn lemma_absent_device_is_refused(
    path: Seq<char>,
    verify: bool,
    devices: Vec<BlockDevice>,
)
    requires
        forall|i: int| 0 <= i < devices@.len() ==> (#[trigger] devices@[i]).path@ != path,
    ensures
        transition(path, verify, WriteState::Resolving, WriteEvent::Devices(Ok(devices))) == fails(
            not_found_text(path),
        ),
{
    crate::device::lemma_listed_iff_present(devices@, path);
}

/// Decides whether a device may be ejected: only a device found in a
/// fresh enumeration of the removable devices may.
pub fn eject_request(listing: Result<Vec<BlockDevice>, PlatformError>, device_path: &str) -> (r:
    Result<(), String>)
    ensures
        match r {
            Ok(()) => resolved(listing, device_path@) is Ok,
            Err(m) => resolved(listing, device_path@) == Err::<BlockDevice, Seq<char>>(m@),
        },
{
    match resolve_device(listing, device_path) {
        Ok(_) => Ok(()),
        Err(m) => Err(m),
    }
}

/// The result of an eject as the caller is told it.
pub fn eject_outcome(result: Result<(), PlatformError>) -> (r: Result<(), String>)
    ensures
        match r {
            Ok(()) => result is Ok,
            Err(m) => result matches Err(e) && m@ == "Failed to eject device: "@
                + e.message_text(),
        },
{
    match result {
        Ok(()) => Ok(()),
        Err(e) => Err(headed("Failed to eject device: ", e.message().as_str())),
    }
}

} // verus!
