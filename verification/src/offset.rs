//! Reconciling the decode cursor with the true playback position.
//!
//! The backend only reports the sample offset inside the buffer that is
//! currently sounding, not a position in the file. The chunks that are
//! already queued but not yet sounding therefore have to be subtracted
//! from the decode cursor to recover the frame really being heard.

use crate::fill::FRAME_BOUND;
use vstd::prelude::*;

verus! {

/// The reconciled playback position before clamping: the cursor, minus the
/// frames still queued ahead of the sounding point, plus the backend's
/// offset within the sounding buffer; moved up by one file length when the
/// buffering lag has wrapped past the loop boundary.
pub open spec fn spec_raw_offset(
    total_frames: int,
    cursor: int,
    chunk_size: int,
    buffers_queued: int,
    source_offset: int,
) -> int {
    let offset = cursor - chunk_size * buffers_queued + source_offset;
    if offset < 0 {
        total_frames + offset
    } else {
        offset
    }
}

/// The reconciled playback position: the raw offset, clamped to zero on
/// any residual negative value and on overflow of the 32-bit result —
/// the calculation is defensive and never fails.
pub open spec fn spec_true_offset(
    total_frames: int,
    cursor: int,
    chunk_size: int,
    buffers_queued: int,
    source_offset: int,
) -> int {
    let offset = spec_raw_offset(total_frames, cursor, chunk_size, buffers_queued, source_offset);
    if 0 <= offset <= i32::MAX {
        offset
    } else {
        0
    }
}

/// Compute the frame currently being heard, from the decode cursor, the
/// per-buffer chunk size in frames, the number of buffers the backend
/// still holds queued, and the backend's sample offset within the
/// sounding buffer.
pub fn calculate_true_offset(
    total_frames: i64,
    cursor: i64,
    chunk_size: i64,
    buffers_queued: i32,
    source_offset: i32,
) -> (r: i32)
    requires
        0 <= total_frames <= FRAME_BOUND,
        0 <= cursor <= FRAME_BOUND,
        0 <= chunk_size,
        0 <= buffers_queued,
        chunk_size * buffers_queued <= FRAME_BOUND,
    ensures
        r == spec_true_offset(
            total_frames as int,
            cursor as int,
            chunk_size as int,
            buffers_queued as int,
            source_offset as int,
        ),
{
    let queued_buffers_size = chunk_size * (buffers_queued as i64);
    let mut offset = cursor - queued_buffers_size + (source_offset as i64);
    if offset < 0 {
        offset = total_frames + offset;
    }
    if 0 <= offset && offset <= i32::MAX as i64 {
        offset as i32
    } else {
        0
    }
}

/// Round trip of the position reconciliation: with two buffers queued and
/// the backend at the start of the sounding buffer, the true offset is the
/// cursor pulled back by two chunks — wrapped by one file length when that
/// goes negative, and clamped to zero when it stays negative even then.
pub proof fn lemma_true_offset_round_trip(total_frames: int, cursor: int, chunk_size: int)
    requires
        0 <= total_frames <= i32::MAX,
        0 <= cursor <= i32::MAX,
        0 <= chunk_size,
    ensures
        cursor - 2 * chunk_size >= 0 ==> spec_true_offset(total_frames, cursor, chunk_size, 2, 0)
            == cursor - 2 * chunk_size,
        cursor - 2 * chunk_size < 0 && cursor - 2 * chunk_size + total_frames >= 0
            ==> spec_true_offset(total_frames, cursor, chunk_size, 2, 0) == cursor - 2 * chunk_size
            + total_frames,
        cursor - 2 * chunk_size + total_frames < 0 ==> spec_true_offset(
            total_frames,
            cursor,
            chunk_size,
            2,
            0,
        ) == 0,
{
    assert(chunk_size * 2 == 2 * chunk_size) by (nonlinear_arith);
}

} // verus!
