//! The color buffer controller.
//!
//! A [`RgbKeyboard`] owns the device session for the duration of its
//! existence. It mediates all color changes between caller-supplied
//! key/color pairs and the device, along two complementary paths:
//!
//! * the direct path writes a single cell immediately, bypassing the staged
//!   buffer entirely;
//! * the array path stages writes in an in-memory color buffer that becomes
//!   visible on the device only when flushed, either explicitly through
//!   [`RgbKeyboard::array_update`] or implicitly after every staged write
//!   when auto-flush is enabled.
//!
//! Closing the handle is mandatory and consumes it: [`RgbKeyboard::close`]
//! restores the device to the colors recorded at session open and disables
//! any standing auto-update setting, exactly once. Because every operation
//! requires the live handle and closing takes it by value, no operation can
//! be invoked after the session has ended.

use vstd::prelude::*;

use crate::buffer_offset;
use crate::cell_offset;
use crate::device::auto_update_transition;
use crate::device::failed_read_transition;
use crate::device::flush_transition;
use crate::device::next_count;
use crate::device::register_transition;
use crate::device::reset_cell_transition;
use crate::device::restore_transition;
use crate::device::set_cell_transition;
use crate::device::Device;
use crate::keys::key_coordinate;
use crate::keys::lemma_coordinate_in_bounds;
use crate::keys::IntoMatrixRowColumn;
use crate::keys::Key;
use crate::BUFFER_SIZE;
use crate::COLUMNS;
use crate::ROWS;

verus! {

/// Whether a raw `(row, column)` pair addresses a cell of the matrix.
pub open spec fn valid_coordinate(rc: (u8, u8)) -> bool {
    rc.0 < ROWS && rc.1 < COLUMNS
}

/// One staged write: the buffer with the triple at `rc`'s offset replaced by
/// `color`.
pub open spec fn stage_cell(buffer: Seq<u8>, rc: (u8, u8), color: (u8, u8, u8)) -> Seq<u8> {
    let off = cell_offset(rc.0, rc.1);
    buffer.update(off, color.0).update(off + 1, color.1).update(off + 2, color.2)
}

/// Whether one staged write would alter the buffer: true exactly when the
/// triple currently stored at `rc`'s offset differs from `color`.
pub open spec fn stage_cell_changes(buffer: Seq<u8>, rc: (u8, u8), color: (u8, u8, u8)) -> bool {
    let off = cell_offset(rc.0, rc.1);
    ||| buffer[off] != color.0
    ||| buffer[off + 1] != color.1
    ||| buffer[off + 2] != color.2
}

/// All entries staged in order: later entries overwrite earlier ones at the
/// same coordinate (last write wins), and offsets no entry addresses keep
/// their prior bytes.
pub open spec fn stage_entries(buffer: Seq<u8>, entries: Seq<(Key, (u8, u8, u8))>) -> Seq<u8>
    decreases entries.len(),
{
    if entries.len() == 0 {
        buffer
    } else {
        stage_cell(
            stage_entries(buffer, entries.drop_last()),
            key_coordinate(entries.last().0),
            entries.last().1,
        )
    }
}

/// Whether staging `entries` in order alters the buffer at least once, each
/// write judged against the buffer state it meets.
pub open spec fn stage_entries_change(buffer: Seq<u8>, entries: Seq<(Key, (u8, u8, u8))>) -> bool
    decreases entries.len(),
{
    if entries.len() == 0 {
        false
    } else {
        stage_entries_change(buffer, entries.drop_last()) || stage_cell_changes(
            stage_entries(buffer, entries.drop_last()),
            key_coordinate(entries.last().0),
            entries.last().1,
        )
    }
}

/// The connected keyboard handle: exclusive owner of the device session and
/// of the staged color buffer. Closing it (mandatory) restores the device.
pub struct RgbKeyboard {
    device: Device,
    buffer: Vec<u8>,
    auto_flush: bool,
}

impl RgbKeyboard {
    /// The device as the controller has driven it so far.
    pub closed spec fn spec_device(&self) -> Device {
        self.device
    }

    /// The staged color buffer, one red/green/blue triple per matrix cell.
    pub closed spec fn spec_buffer(&self) -> Seq<u8> {
        self.buffer@
    }

    /// Whether every staged write currently triggers an implicit flush.
    pub closed spec fn spec_auto_flush(&self) -> bool {
        self.auto_flush
    }

    /// Well-formedness: the staged buffer covers the whole matrix and the
    /// device is well-formed.
    pub open spec fn wf(&self) -> bool {
        &&& self.spec_buffer().len() == BUFFER_SIZE
        &&& self.spec_device().wf()
    }

    /// Open a controller over a device session. The staged buffer starts out
    /// all zero and auto-flush starts out disabled.
    pub fn new(device: Device) -> (kb: RgbKeyboard)
        requires
            device.wf(),
        ensures
            kb.wf(),
            kb.spec_device() == device,
            kb.spec_auto_flush() == false,
            kb.spec_buffer().len() == BUFFER_SIZE,
            forall|i: int| 0 <= i < BUFFER_SIZE ==> kb.spec_buffer()[i] == 0,
    {
        let mut buffer: Vec<u8> = Vec::new();
        let mut i: usize = 0;
        while i < BUFFER_SIZE
            invariant
                i <= BUFFER_SIZE,
                buffer@.len() == i,
                forall|j: int| 0 <= j < i ==> buffer@[j] == 0,
            decreases BUFFER_SIZE - i,
        {
            buffer.push(0);
            i = i + 1;
        }
        RgbKeyboard { device, buffer, auto_flush: false }
    }

    /// Whether every staged write currently triggers an implicit flush.
    pub fn auto_flush_enabled(&self) -> (r: bool)
        ensures
            r == self.spec_auto_flush(),
    {
        self.auto_flush
    }

    /// One raw byte of the staged color buffer.
    pub fn staged_byte(&self, index: usize) -> (b: u8)
        requires
            self.wf(),
            index < BUFFER_SIZE,
        ensures
            b == self.spec_buffer()[index as int],
    {
        self.buffer[index]
    }

    /// The red/green/blue triple currently staged for `key`'s cell.
    pub fn staged_cell(&self, key: Key) -> (c: (u8, u8, u8))
        requires
            self.wf(),
        ensures
            ({
                let off = cell_offset(key_coordinate(key).0, key_coordinate(key).1);
                &&& c.0 == self.spec_buffer()[off]
                &&& c.1 == self.spec_buffer()[off + 1]
                &&& c.2 == self.spec_buffer()[off + 2]
            }),
    {
        proof {
            lemma_coordinate_in_bounds(key);
        }
        let (row, col) = key.get_matrix_row_and_column();
        let i = buffer_offset(row, col);
        (self.buffer[i], self.buffer[i + 1], self.buffer[i + 2])
    }

    /// Read-only view of the device as the controller has driven it so far.
    pub fn device_state(&self) -> (d: &Device)
        ensures
            d == self.spec_device(),
    {
        &self.device
    }

    /// Whether the device currently reports itself as connected.
    pub fn is_device_connected(&self) -> (r: bool)
        ensures
            r == self.spec_device().spec_connected(),
    {
        self.device.is_connected()
    }

    /// Set the color of a single key immediately, bypassing the staged
    /// buffer, which is left untouched. Returns whether the device
    /// acknowledged the write.
    pub fn direct_set_key(&mut self, key: Key, red: u8, green: u8, blue: u8) -> (ack: bool)
        requires
            old(self).wf(),
        ensures
            final(self).wf(),
            final(self).spec_buffer() == old(self).spec_buffer(),
            final(self).spec_auto_flush() == old(self).spec_auto_flush(),
            set_cell_transition(
                old(self).spec_device(),
                final(self).spec_device(),
                key_coordinate(key).0,
                key_coordinate(key).1,
                red,
                green,
                blue,
            ),
            ack == old(self).spec_device().spec_connected(),
    {
        proof {
            lemma_coordinate_in_bounds(key);
        }
        let (row, col) = key.get_matrix_row_and_column();
        self.device.set_cell(row, col, red, green, blue)
    }

    /// Immediately revert the color of a single key to the device's colors
    /// recorded at session open, bypassing the staged buffer, which is left
    /// untouched. Returns whether the device acknowledged.
    pub fn direct_reset_key(&mut self, key: Key) -> (ack: bool)
        requires
            old(self).wf(),
        ensures
            final(self).wf(),
            final(self).spec_buffer() == old(self).spec_buffer(),
            final(self).spec_auto_flush() == old(self).spec_auto_flush(),
            reset_cell_transition(
                old(self).spec_device(),
                final(self).spec_device(),
                key_coordinate(key).0,
                key_coordinate(key).1,
            ),
            ack == old(self).spec_device().spec_connected(),
    {
        proof {
            lemma_coordinate_in_bounds(key);
        }
        let (row, col) = key.get_matrix_row_and_column();
        self.device.reset_cell(row, col)
    }

    /// Transmit the entire staged buffer to the device in one operation.
    /// Returns whether the device acknowledged the update.
    pub fn array_update(&mut self) -> (ack: bool)
        requires
            old(self).wf(),
        ensures
            final(self).wf(),
            final(self).spec_buffer() == old(self).spec_buffer(),
            final(self).spec_auto_flush() == old(self).spec_auto_flush(),
            flush_transition(
                old(self).spec_device(),
                final(self).spec_device(),
                old(self).spec_buffer(),
            ),
            ack == old(self).spec_device().spec_connected(),
    {
        self.device.flush_array(&self.buffer)
    }

    /// Toggle whether every staged write implicitly flushes the whole
    /// buffer. The setting is also recorded on the device. By default no
    /// auto-flush is set.
    pub fn array_auto_update(&mut self, auto_update: bool)
        requires
            old(self).wf(),
        ensures
            final(self).wf(),
            final(self).spec_buffer() == old(self).spec_buffer(),
            final(self).spec_auto_flush() == auto_update,
            auto_update_transition(
                old(self).spec_device(),
                final(self).spec_device(),
                auto_update,
            ),
    {
        self.auto_flush = auto_update;
        self.device.set_auto_update(auto_update);
    }

    /// Write one triple into the staged buffer, reporting whether the bytes
    /// changed. Touches neither the device nor the auto-flush setting.
    fn stage_triple(&mut self, row: u8, col: u8, red: u8, green: u8, blue: u8) -> (changed: bool)
        requires
            old(self).wf(),
            row < ROWS,
            col < COLUMNS,
        ensures
            final(self).wf(),
            final(self).spec_buffer() == stage_cell(
                old(self).spec_buffer(),
                (row, col),
                (red, green, blue),
            ),
            final(self).spec_device() == old(self).spec_device(),
            final(self).spec_auto_flush() == old(self).spec_auto_flush(),
            changed == stage_cell_changes(old(self).spec_buffer(), (row, col), (red, green, blue)),
    {
        let i = buffer_offset(row, col);
        let changed = self.buffer[i] != red || self.buffer[i + 1] != green || self.buffer[i + 2]
            != blue;
        self.buffer.set(i, red);
        self.buffer.set(i + 1, green);
        self.buffer.set(i + 2, blue);
        changed
    }

    /// Stage a single key's color in the buffer. Returns whether the staged
    /// bytes changed; with auto-flush enabled the buffer is immediately
    /// transmitted as well, and the write only counts once the flush is also
    /// acknowledged. With auto-flush disabled the device is not touched.
    pub fn array_set_single(&mut self, key: Key, red: u8, green: u8, blue: u8) -> (r: bool)
        requires
            old(self).wf(),
        ensures
            final(self).wf(),
            final(self).spec_buffer() == stage_cell(
                old(self).spec_buffer(),
                key_coordinate(key),
                (red, green, blue),
            ),
            final(self).spec_auto_flush() == old(self).spec_auto_flush(),
            old(self).spec_auto_flush() ==> flush_transition(
                old(self).spec_device(),
                final(self).spec_device(),
                final(self).spec_buffer(),
            ),
            !old(self).spec_auto_flush() ==> final(self).spec_device() == old(
                self,
            ).spec_device(),
            r == (stage_cell_changes(old(self).spec_buffer(), key_coordinate(key), (red, green, blue))
                && (old(self).spec_auto_flush() ==> old(self).spec_device().spec_connected())),
    {
        proof {
            lemma_coordinate_in_bounds(key);
        }
        let (row, col) = key.get_matrix_row_and_column();
        let changed = self.stage_triple(row, col, red, green, blue);
        if self.auto_flush {
            let ack = self.device.flush_array(&self.buffer);
            changed && ack
        } else {
            changed
        }
    }

    /// Stage a single cell's color in the buffer, addressed by a raw
    /// `(row, column)` pair instead of a key. A pair outside the matrix
    /// bounds stages nothing, triggers no implicit flush and reports
    /// `false`; a valid pair behaves exactly like
    /// [`RgbKeyboard::array_set_single`] on a key with that coordinate.
    pub fn array_set_single_matrix(
        &mut self,
        row_and_column: (u8, u8),
        red: u8,
        green: u8,
        blue: u8,
    ) -> (r: bool)
        requires
            old(self).wf(),
        ensures
            final(self).wf(),
            !valid_coordinate(row_and_column) ==> *final(self) == *old(self) && r == false,
            valid_coordinate(row_and_column) ==> {
                &&& final(self).spec_buffer() == stage_cell(
                    old(self).spec_buffer(),
                    row_and_column,
                    (red, green, blue),
                )
                &&& final(self).spec_auto_flush() == old(self).spec_auto_flush()
                &&& (old(self).spec_auto_flush() ==> flush_transition(
                    old(self).spec_device(),
                    final(self).spec_device(),
                    final(self).spec_buffer(),
                ))
                &&& (!old(self).spec_auto_flush() ==> final(self).spec_device() == old(
                    self,
                ).spec_device())
                &&& r == (stage_cell_changes(
                    old(self).spec_buffer(),
                    row_and_column,
                    (red, green, blue),
                ) && (old(self).spec_auto_flush() ==> old(self).spec_device().spec_connected()))
            },
    {
        let (row, col) = row_and_column.get_matrix_row_and_column();
        if (row as usize) < ROWS && (col as usize) < COLUMNS {
            let changed = self.stage_triple(row, col, red, green, blue);
            if self.auto_flush {
                let ack = self.device.flush_array(&self.buffer);
                changed && ack
            } else {
                changed
            }
        } else {
            false
        }
    }

    /// Stage a whole list of key/color pairs in the buffer before any device
    /// interaction: every entry is resolved and written in order, so on
    /// duplicate coordinates the last write wins, and cells no entry
    /// mentions keep their prior staged bytes. Never flushes implicitly,
    /// regardless of the auto-flush setting; bulk staging is intended to
    /// precede one explicit [`RgbKeyboard::array_update`]. Returns whether
    /// any single write altered the buffer it met.
    pub fn array_set_full(&mut self, array: &Vec<(Key, (u8, u8, u8))>) -> (changed: bool)
        requires
            old(self).wf(),
        ensures
            final(self).wf(),
            final(self).spec_buffer() == stage_entries(old(self).spec_buffer(), array@),
            final(self).spec_device() == old(self).spec_device(),
            final(self).spec_auto_flush() == old(self).spec_auto_flush(),
            changed == stage_entries_change(old(self).spec_buffer(), array@),
    {
        let ghost buf0 = self.spec_buffer();
        let ghost dev0 = self.spec_device();
        let ghost af0 = self.spec_auto_flush();
        let mut changed = false;
        let mut idx: usize = 0;
        while idx < array.len()
            invariant
                self.wf(),
                idx <= array.len(),
                self.spec_device() == dev0,
                self.spec_auto_flush() == af0,
                self.spec_buffer() == stage_entries(buf0, array@.take(idx as int)),
                changed == stage_entries_change(buf0, array@.take(idx as int)),
            decreases array.len() - idx,
        {
            let (key, (red, green, blue)) = array[idx];
            proof {
                lemma_coordinate_in_bounds(key);
            }
            let (row, col) = key.get_matrix_row_and_column();
            let step = self.stage_triple(row, col, red, green, blue);
            changed = changed || step;
            idx = idx + 1;
            proof {
                assert(array@.take(idx as int).drop_last() =~= array@.take(idx as int - 1));
                assert(array@.take(idx as int).last() == array@[idx - 1]);
            }
        }
        proof {
            assert(array@.take(array.len() as int) =~= array@);
        }
        changed
    }

    /// Tell the device to revert every cell to the colors recorded at
    /// session open. Device-side only: the staged buffer is not cleared.
    /// Returns whether the device acknowledged.
    pub fn reset_all(&mut self) -> (ack: bool)
        requires
            old(self).wf(),
        ensures
            final(self).wf(),
            final(self).spec_buffer() == old(self).spec_buffer(),
            final(self).spec_auto_flush() == old(self).spec_auto_flush(),
            restore_transition(old(self).spec_device(), final(self).spec_device()),
            ack == old(self).spec_device().spec_connected(),
    {
        self.device.restore_original_colors()
    }

    /// Register the disconnect-notification target to invoke when the device
    /// reports a failed read. The device holds a single slot: a new target
    /// silently replaces the previous one.
    pub fn set_disconnected_callback(&mut self, token: u64)
        requires
            old(self).wf(),
        ensures
            final(self).wf(),
            final(self).spec_buffer() == old(self).spec_buffer(),
            final(self).spec_auto_flush() == old(self).spec_auto_flush(),
            register_transition(old(self).spec_device(), final(self).spec_device(), token),
    {
        self.device.register_disconnect_notifier(token);
    }

    /// Drive the device through a failed read, its sign of disconnection.
    /// Hands back the most recently registered notification target, to be
    /// invoked exactly once by the caller; earlier, replaced targets are
    /// never handed back.
    pub fn report_failed_read(&mut self) -> (invoked: Option<u64>)
        requires
            old(self).wf(),
        ensures
            final(self).wf(),
            final(self).spec_buffer() == old(self).spec_buffer(),
            final(self).spec_auto_flush() == old(self).spec_auto_flush(),
            failed_read_transition(old(self).spec_device(), final(self).spec_device()),
            invoked == old(self).spec_device().spec_notifier(),
    {
        self.device.report_failed_read()
    }

    /// End the session, consuming the handle: best-effort restore of the
    /// device's colors recorded at session open (its acknowledgement is
    /// ignored), followed by disabling the device's auto-update setting.
    /// Each of the two teardown commands reaches the device exactly once,
    /// whatever any earlier operation returned. Returns the device in its
    /// end-of-session state.
    pub fn close(self) -> (d: Device)
        requires
            self.wf(),
        ensures
            d.wf(),
            d.spec_connected() == self.spec_device().spec_connected(),
            d.spec_cells() == if self.spec_device().spec_connected() {
                self.spec_device().spec_original()
            } else {
                self.spec_device().spec_cells()
            },
            d.spec_original() == self.spec_device().spec_original(),
            d.spec_auto_update() == false,
            d.spec_flush_count() == self.spec_device().spec_flush_count(),
            d.spec_restore_count() == next_count(self.spec_device().spec_restore_count()),
            d.spec_auto_update_calls() == next_count(self.spec_device().spec_auto_update_calls()),
            d.spec_notifier() == self.spec_device().spec_notifier(),
    {
        let RgbKeyboard { mut device, buffer: _, auto_flush: _ } = self;
        let _ = device.restore_original_colors();
        device.set_auto_update(false);
        device
    }
}

/// Staging a list of entries never changes the buffer's length.
pub proof fn lemma_stage_entries_len(buffer: Seq<u8>, entries: Seq<(Key, (u8, u8, u8))>)
    requires
        buffer.len() == BUFFER_SIZE,
    ensures
        stage_entries(buffer, entries).len() == BUFFER_SIZE,
    decreases entries.len(),
{
    if entries.len() > 0 {
        lemma_stage_entries_len(buffer, entries.drop_last());
        lemma_coordinate_in_bounds(entries.last().0);
    }
}

/// Last write wins: if no later entry addresses the same coordinate as
/// entry `j`, the staged result holds entry `j`'s color at that
/// coordinate's offset.
pub proof fn lemma_stage_entries_last_write(
    buffer: Seq<u8>,
    entries: Seq<(Key, (u8, u8, u8))>,
    j: int,
)
    requires
        buffer.len() == BUFFER_SIZE,
        0 <= j < entries.len(),
        forall|l: int|
            j < l < entries.len() ==> key_coordinate(entries[l].0) != key_coordinate(entries[j].0),
    ensures
        ({
            let rc = key_coordinate(entries[j].0);
            let off = cell_offset(rc.0, rc.1);
            let staged = stage_entries(buffer, entries);
            &&& staged[off] == entries[j].1.0
            &&& staged[off + 1] == entries[j].1.1
            &&& staged[off + 2] == entries[j].1.2
        }),
    decreases entries.len(),
{
    let n = entries.len() as int;
    lemma_coordinate_in_bounds(entries[j].0);
    lemma_coordinate_in_bounds(entries[n - 1].0);
    lemma_stage_entries_len(buffer, entries.drop_last());
    if j < n - 1 {
        assert(entries.drop_last()[j] == entries[j]);
        assert(forall|l: int|
            j < l < n - 1 ==> entries.drop_last()[l] == entries[l]);
        lemma_stage_entries_last_write(buffer, entries.drop_last(), j);
    }
}

/// Cells never mentioned remain unchanged: an offset that lies in no
/// entry's triple keeps its prior buffer byte through bulk staging.
pub proof fn lemma_stage_entries_untouched(
    buffer: Seq<u8>,
    entries: Seq<(Key, (u8, u8, u8))>,
    off: int,
)
    requires
        buffer.len() == BUFFER_SIZE,
        0 <= off < BUFFER_SIZE,
        forall|l: int|
            0 <= l < entries.len() ==> {
                let rc = key_coordinate(#[trigger] entries[l].0);
                off < cell_offset(rc.0, rc.1) || off > cell_offset(rc.0, rc.1) + 2
            },
    ensures
        stage_entries(buffer, entries)[off] == buffer[off],
    decreases entries.len(),
{
    if entries.len() > 0 {
        let n = entries.len() as int;
        assert(forall|l: int| 0 <= l < n - 1 ==> entries.drop_last()[l] == entries[l]);
        lemma_stage_entries_untouched(buffer, entries.drop_last(), off);
        lemma_stage_entries_len(buffer, entries.drop_last());
        lemma_coordinate_in_bounds(entries[n - 1].0);
    }
}

} // verus!
