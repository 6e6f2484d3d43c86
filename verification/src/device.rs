//! An explicit model of the device collaborator.
//!
//! The underlying USB transport is out of scope for this crate; the device is
//! a black box that can be queried for "connected" and accepts a handful of
//! primitive operations: set one cell, revert one cell, transmit a whole
//! color array, record an auto-update setting, restore the colors recorded at
//! session open, and hold a single disconnect-notification target. This
//! module renders that collaborator as an explicit in-memory state machine,
//! so that the addressing and buffering protocol built on top of it can be
//! verified against exact transition contracts.
//!
//! Every operation that performs a device round trip reports whether the
//! device acknowledged it; a disconnected device acknowledges nothing and
//! keeps its cells unchanged. Diagnostic counters record how many whole-array
//! transmissions, restore commands and auto-update commands the device has
//! received; they saturate instead of wrapping.

use vstd::prelude::*;

use crate::buffer_offset;
use crate::cell_offset;
use crate::BUFFER_SIZE;
use crate::COLUMNS;
use crate::ROWS;

verus! {

/// One saturating step of a diagnostic counter.
pub open spec fn next_count(c: u64) -> u64 {
    if c < u64::MAX {
        (c + 1) as u64
    } else {
        c
    }
}

/// The device collaborator: current cell colors, the colors recorded when
/// the session was opened, the connection state, the recorded auto-update
/// setting, the single disconnect-notification slot, and diagnostic counters
/// for the commands received.
pub struct Device {
    connected: bool,
    cells: Vec<u8>,
    original: Vec<u8>,
    auto_update: bool,
    flush_count: u64,
    restore_count: u64,
    auto_update_calls: u64,
    notifier: Option<u64>,
}

impl Device {
    /// Whether the device currently reports itself as connected.
    pub closed spec fn spec_connected(&self) -> bool {
        self.connected
    }

    /// The bytes currently shown on the device, one red/green/blue triple
    /// per matrix cell.
    pub closed spec fn spec_cells(&self) -> Seq<u8> {
        self.cells@
    }

    /// The bytes recorded when the device session was opened; restoring
    /// reverts the cells to these.
    pub closed spec fn spec_original(&self) -> Seq<u8> {
        self.original@
    }

    /// The auto-update setting last recorded by the device.
    pub closed spec fn spec_auto_update(&self) -> bool {
        self.auto_update
    }

    /// How many whole-array transmissions the device has received.
    pub closed spec fn spec_flush_count(&self) -> u64 {
        self.flush_count
    }

    /// How many restore commands the device has received.
    pub closed spec fn spec_restore_count(&self) -> u64 {
        self.restore_count
    }

    /// How many auto-update commands the device has received.
    pub closed spec fn spec_auto_update_calls(&self) -> u64 {
        self.auto_update_calls
    }

    /// The disconnect-notification target currently registered, if any.
    pub closed spec fn spec_notifier(&self) -> Option<u64> {
        self.notifier
    }

    /// Well-formedness: both color arrays cover the whole matrix.
    pub open spec fn wf(&self) -> bool {
        &&& self.spec_cells().len() == BUFFER_SIZE
        &&& self.spec_original().len() == BUFFER_SIZE
    }
}

/// The parts of the device state that a single-cell write leaves alone.
pub open spec fn frame_except_cells(pre: Device, post: Device) -> bool {
    &&& post.spec_connected() == pre.spec_connected()
    &&& post.spec_original() == pre.spec_original()
    &&& post.spec_auto_update() == pre.spec_auto_update()
    &&& post.spec_flush_count() == pre.spec_flush_count()
    &&& post.spec_restore_count() == pre.spec_restore_count()
    &&& post.spec_auto_update_calls() == pre.spec_auto_update_calls()
    &&& post.spec_notifier() == pre.spec_notifier()
}

/// Effect of an immediate single-cell write: if the device is connected, the
/// triple at `(row, col)` becomes `(red, green, blue)`; otherwise nothing
/// changes. Nothing else moves either way.
pub open spec fn set_cell_transition(
    pre: Device,
    post: Device,
    row: u8,
    col: u8,
    red: u8,
    green: u8,
    blue: u8,
) -> bool {
    let off = cell_offset(row, col);
    &&& frame_except_cells(pre, post)
    &&& post.spec_cells() == if pre.spec_connected() {
        pre.spec_cells().update(off, red).update(off + 1, green).update(off + 2, blue)
    } else {
        pre.spec_cells()
    }
}

/// Effect of an immediate single-cell revert: if the device is connected,
/// the triple at `(row, col)` returns to the colors recorded at session
/// open; otherwise nothing changes.
pub open spec fn reset_cell_transition(pre: Device, post: Device, row: u8, col: u8) -> bool {
    let off = cell_offset(row, col);
    &&& frame_except_cells(pre, post)
    &&& post.spec_cells() == if pre.spec_connected() {
        pre.spec_cells().update(off, pre.spec_original()[off]).update(
            off + 1,
            pre.spec_original()[off + 1],
        ).update(off + 2, pre.spec_original()[off + 2])
    } else {
        pre.spec_cells()
    }
}

/// Effect of one whole-array transmission: the transmission is counted, and
/// if the device is connected its cells become exactly `buffer`.
pub open spec fn flush_transition(pre: Device, post: Device, buffer: Seq<u8>) -> bool {
    &&& post.spec_connected() == pre.spec_connected()
    &&& post.spec_cells() == if pre.spec_connected() {
        buffer
    } else {
        pre.spec_cells()
    }
    &&& post.spec_original() == pre.spec_original()
    &&& post.spec_auto_update() == pre.spec_auto_update()
    &&& post.spec_flush_count() == next_count(pre.spec_flush_count())
    &&& post.spec_restore_count() == pre.spec_restore_count()
    &&& post.spec_auto_update_calls() == pre.spec_auto_update_calls()
    &&& post.spec_notifier() == pre.spec_notifier()
}

/// Effect of a restore command: the command is counted, and if the device is
/// connected every cell returns to the colors recorded at session open.
pub open spec fn restore_transition(pre: Device, post: Device) -> bool {
    &&& post.spec_connected() == pre.spec_connected()
    &&& post.spec_cells() == if pre.spec_connected() {
        pre.spec_original()
    } else {
        pre.spec_cells()
    }
    &&& post.spec_original() == pre.spec_original()
    &&& post.spec_auto_update() == pre.spec_auto_update()
    &&& post.spec_flush_count() == pre.spec_flush_count()
    &&& post.spec_restore_count() == next_count(pre.spec_restore_count())
    &&& post.spec_auto_update_calls() == pre.spec_auto_update_calls()
    &&& post.spec_notifier() == pre.spec_notifier()
}

/// Effect of an auto-update command: the command is counted and the setting
/// recorded; cells are untouched.
pub open spec fn auto_update_transition(pre: Device, post: Device, enabled: bool) -> bool {
    &&& post.spec_connected() == pre.spec_connected()
    &&& post.spec_cells() == pre.spec_cells()
    &&& post.spec_original() == pre.spec_original()
    &&& post.spec_auto_update() == enabled
    &&& post.spec_flush_count() == pre.spec_flush_count()
    &&& post.spec_restore_count() == pre.spec_restore_count()
    &&& post.spec_auto_update_calls() == next_count(pre.spec_auto_update_calls())
    &&& post.spec_notifier() == pre.spec_notifier()
}

/// Effect of registering a disconnect-notification target: the new target
/// silently replaces any previous one; nothing else moves.
pub open spec fn register_transition(pre: Device, post: Device, token: u64) -> bool {
    &&& post.spec_connected() == pre.spec_connected()
    &&& post.spec_cells() == pre.spec_cells()
    &&& post.spec_original() == pre.spec_original()
    &&& post.spec_auto_update() == pre.spec_auto_update()
    &&& post.spec_flush_count() == pre.spec_flush_count()
    &&& post.spec_restore_count() == pre.spec_restore_count()
    &&& post.spec_auto_update_calls() == pre.spec_auto_update_calls()
    &&& post.spec_notifier() == Some(token)
}

/// Effect of a failed read: the device counts as disconnected from then on;
/// its cells and the registered notification target stay as they are.
pub open spec fn failed_read_transition(pre: Device, post: Device) -> bool {
    &&& post.spec_connected() == false
    &&& post.spec_cells() == pre.spec_cells()
    &&& post.spec_original() == pre.spec_original()
    &&& post.spec_auto_update() == pre.spec_auto_update()
    &&& post.spec_flush_count() == pre.spec_flush_count()
    &&& post.spec_restore_count() == pre.spec_restore_count()
    &&& post.spec_auto_update_calls() == pre.spec_auto_update_calls()
    &&& post.spec_notifier() == pre.spec_notifier()
}

/// Byte-for-byte copy of a color array.
fn copy_bytes(src: &Vec<u8>) -> (dst: Vec<u8>)
    ensures
        dst@ == src@,
{
    let mut dst: Vec<u8> = Vec::new();
    let mut i: usize = 0;
    while i < src.len()
        invariant
            i <= src.len(),
            dst@ == src@.take(i as int),
        decreases src.len() - i,
    {
        dst.push(src[i]);
        i = i + 1;
    }
    proof {
        assert(src@.take(src.len() as int) =~= src@);
    }
    dst
}

impl Device {
    /// Open a device session. The device starts out showing `original`, the
    /// colors it records for later restoring, with no auto-update setting,
    /// no notification target, and all counters at zero.
    pub fn new(original: Vec<u8>, connected: bool) -> (d: Device)
        requires
            original.len() == BUFFER_SIZE,
        ensures
            d.wf(),
            d.spec_connected() == connected,
            d.spec_cells() == original@,
            d.spec_original() == original@,
            d.spec_auto_update() == false,
            d.spec_flush_count() == 0,
            d.spec_restore_count() == 0,
            d.spec_auto_update_calls() == 0,
            d.spec_notifier() == Option::<u64>::None,
    {
        let cells = copy_bytes(&original);
        Device {
            connected,
            cells,
            original,
            auto_update: false,
            flush_count: 0,
            restore_count: 0,
            auto_update_calls: 0,
            notifier: None,
        }
    }

    /// Whether the device reports itself as connected.
    pub fn is_connected(&self) -> (r: bool)
        ensures
            r == self.spec_connected(),
    {
        self.connected
    }

    /// The auto-update setting last recorded by the device.
    pub fn auto_update_enabled(&self) -> (r: bool)
        ensures
            r == self.spec_auto_update(),
    {
        self.auto_update
    }

    /// How many whole-array transmissions the device has received.
    pub fn flush_count(&self) -> (r: u64)
        ensures
            r == self.spec_flush_count(),
    {
        self.flush_count
    }

    /// How many restore commands the device has received.
    pub fn restore_count(&self) -> (r: u64)
        ensures
            r == self.spec_restore_count(),
    {
        self.restore_count
    }

    /// How many auto-update commands the device has received.
    pub fn auto_update_calls(&self) -> (r: u64)
        ensures
            r == self.spec_auto_update_calls(),
    {
        self.auto_update_calls
    }

    /// The disconnect-notification target currently registered, if any.
    pub fn registered_notifier(&self) -> (r: Option<u64>)
        ensures
            r == self.spec_notifier(),
    {
        self.notifier
    }

    /// The red/green/blue triple the device currently shows at `(row, col)`.
    pub fn cell(&self, row: u8, col: u8) -> (c: (u8, u8, u8))
        requires
            self.wf(),
            row < ROWS,
            col < COLUMNS,
        ensures
            c.0 == self.spec_cells()[cell_offset(row, col)],
            c.1 == self.spec_cells()[cell_offset(row, col) + 1],
            c.2 == self.spec_cells()[cell_offset(row, col) + 2],
    {
        let i = buffer_offset(row, col);
        (self.cells[i], self.cells[i + 1], self.cells[i + 2])
    }

    /// One raw byte of the colors the device currently shows.
    pub fn cell_byte(&self, index: usize) -> (b: u8)
        requires
            self.wf(),
            index < BUFFER_SIZE,
        ensures
            b == self.spec_cells()[index as int],
    {
        self.cells[index]
    }

    /// Immediately write one cell. Returns whether the device acknowledged.
    pub fn set_cell(&mut self, row: u8, col: u8, red: u8, green: u8, blue: u8) -> (ack: bool)
        requires
            old(self).wf(),
            row < ROWS,
            col < COLUMNS,
        ensures
            final(self).wf(),
            set_cell_transition(*old(self), *final(self), row, col, red, green, blue),
            ack == old(self).spec_connected(),
    {
        if self.connected {
            let i = buffer_offset(row, col);
            self.cells.set(i, red);
            self.cells.set(i + 1, green);
            self.cells.set(i + 2, blue);
            true
        } else {
            false
        }
    }

    /// Immediately revert one cell to the colors recorded at session open.
    /// Returns whether the device acknowledged.
    pub fn reset_cell(&mut self, row: u8, col: u8) -> (ack: bool)
        requires
            old(self).wf(),
            row < ROWS,
            col < COLUMNS,
        ensures
            final(self).wf(),
            reset_cell_transition(*old(self), *final(self), row, col),
            ack == old(self).spec_connected(),
    {
        if self.connected {
            let i = buffer_offset(row, col);
            let red = self.original[i];
            let green = self.original[i + 1];
            let blue = self.original[i + 2];
            self.cells.set(i, red);
            self.cells.set(i + 1, green);
            self.cells.set(i + 2, blue);
            true
        } else {
            false
        }
    }

    /// Receive one whole-array transmission. Returns whether the device
    /// acknowledged.
    pub fn flush_array(&mut self, buffer: &Vec<u8>) -> (ack: bool)
        requires
            old(self).wf(),
            buffer.len() == BUFFER_SIZE,
        ensures
            final(self).wf(),
            flush_transition(*old(self), *final(self), buffer@),
            ack == old(self).spec_connected(),
    {
        if self.flush_count < u64::MAX {
            self.flush_count = self.flush_count + 1;
        }
        if self.connected {
            self.cells = copy_bytes(buffer);
            true
        } else {
            false
        }
    }

    /// Revert every cell to the colors recorded at session open. Returns
    /// whether the device acknowledged.
    pub fn restore_original_colors(&mut self) -> (ack: bool)
        requires
            old(self).wf(),
        ensures
            final(self).wf(),
            restore_transition(*old(self), *final(self)),
            ack == old(self).spec_connected(),
    {
        if self.restore_count < u64::MAX {
            self.restore_count = self.restore_count + 1;
        }
        if self.connected {
            self.cells = copy_bytes(&self.original);
            true
        } else {
            false
        }
    }

    /// Record an auto-update setting.
    pub fn set_auto_update(&mut self, enabled: bool)
        requires
            old(self).wf(),
        ensures
            final(self).wf(),
            auto_update_transition(*old(self), *final(self), enabled),
    {
        if self.auto_update_calls < u64::MAX {
            self.auto_update_calls = self.auto_update_calls + 1;
        }
        self.auto_update = enabled;
    }

    /// Register a disconnect-notification target, silently replacing any
    /// previous one. The device holds a single slot.
    pub fn register_disconnect_notifier(&mut self, token: u64)
        requires
            old(self).wf(),
        ensures
            final(self).wf(),
            register_transition(*old(self), *final(self), token),
    {
        self.notifier = Some(token);
    }

    /// A failed read, the device's sign of disconnection: the device stops
    /// acknowledging from here on and hands back the notification target to
    /// invoke, if one is registered.
    pub fn report_failed_read(&mut self) -> (invoked: Option<u64>)
        requires
            old(self).wf(),
        ensures
            final(self).wf(),
            failed_read_transition(*old(self), *final(self)),
            invoked == old(self).spec_notifier(),
    {
        self.connected = false;
        self.notifier
    }
}

} // verus!
