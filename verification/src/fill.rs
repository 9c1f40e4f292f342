//! The buffer-refill algorithm.
//!
//! A refill drives the file decoder from the shared cursor position until a
//! buffer reaches its capacity or the data runs out. Each read advances the
//! cursor by the number of frames read; with looping enabled the cursor is
//! reduced modulo the file length after every read — the only place where
//! wraparound happens. A fill that would read past the end of a looping
//! file continues with a further read from frame zero, so a single fill may
//! wrap around.
//!
//! `fill_chunk` runs the whole algorithm against the ideal decoder (a read
//! returns as many frames as the file still holds, up to the request);
//! `apply_read` and `fill_continues` are the per-read steps a host program
//! uses with a real decoder, whose reads may come up short.

use vstd::arithmetic::div_mod::lemma_add_mod_noop;
use vstd::arithmetic::div_mod::lemma_mod_division_less_than_divisor;
use vstd::arithmetic::div_mod::lemma_mod_twice;
use vstd::arithmetic::mul::lemma_mul_is_distributive_sub_other_way;
use vstd::prelude::*;

verus! {

/// Frame indexes and counts stay below this bound so that the fill and
/// offset arithmetic cannot overflow a 64-bit signed integer.
pub const FRAME_BOUND: i64 = 0x4000_0000_0000_0000;

/// What one ideal decoder read returns: the requested count, capped by the
/// frames remaining between `cursor` and the end of the file.
pub open spec fn spec_ideal_read(total_frames: int, cursor: int, want: int) -> int {
    if total_frames - cursor < 0 {
        0
    } else if want < total_frames - cursor {
        want
    } else {
        total_frames - cursor
    }
}

/// The number of frames a whole fill puts into an empty buffer of capacity
/// `capacity`, under the ideal decoder.
pub open spec fn spec_fill_len(
    total_frames: int,
    cursor: int,
    capacity: int,
    looping: bool,
) -> int {
    if looping {
        if cursor < total_frames {
            capacity
        } else {
            0
        }
    } else {
        spec_ideal_read(total_frames, cursor, capacity)
    }
}

/// Where the cursor stands after a whole fill, under the ideal decoder.
pub open spec fn spec_fill_cursor(
    total_frames: int,
    cursor: int,
    capacity: int,
    looping: bool,
) -> int {
    if looping {
        if cursor < total_frames {
            (cursor + capacity) % total_frames
        } else {
            cursor % total_frames
        }
    } else {
        cursor + spec_ideal_read(total_frames, cursor, capacity)
    }
}

/// Fill one buffer from the cursor position, reading from the ideal
/// decoder until the buffer holds `capacity` frames or a read returns
/// nothing. Returns the number of frames filled and the new cursor.
///
/// Without looping, the fill stops at the end of the file and the buffer
/// may stay under capacity; with looping, reads continue from frame zero
/// after the end, so the buffer always fills completely (unless the cursor
/// already stands at or past the end, which an ideal decoder answers with
/// an empty read — the decoder-fault guard then ends the fill at once).
pub fn fill_chunk(total_frames: i64, cursor: i64, capacity: i64, looping: bool) -> (r: (i64, i64))
    requires
        0 <= total_frames <= FRAME_BOUND,
        0 <= cursor <= FRAME_BOUND,
        0 <= capacity <= FRAME_BOUND,
        looping ==> total_frames >= 1,
    ensures
        r.0 == spec_fill_len(total_frames as int, cursor as int, capacity as int, looping),
        r.1 == spec_fill_cursor(total_frames as int, cursor as int, capacity as int, looping),
        0 <= r.0 <= capacity,
        looping ==> 0 <= r.1 < total_frames,
{
    if looping && cursor >= total_frames {
        // Seeking at or past the end makes the ideal decoder read nothing:
        // the fill ends empty, with only the wraparound applied.
        return (0, cursor % total_frames);
    }
    proof {
        if looping {
            vstd::arithmetic::div_mod::lemma_small_mod(cursor as nat, total_frames as nat);
        }
    }
    let mut len: i64 = 0;
    let mut cur: i64 = cursor;
    loop
        invariant
            0 <= total_frames <= FRAME_BOUND,
            0 <= cursor <= FRAME_BOUND,
            0 <= capacity <= FRAME_BOUND,
            0 <= len <= capacity,
            looping ==> total_frames >= 1 && cursor < total_frames,
            looping ==> 0 <= cur < total_frames,
            looping ==> cur == (cursor + len) % (total_frames as int),
            !looping ==> cur == cursor + len,
            !looping ==> len <= spec_ideal_read(total_frames as int, cursor as int, capacity as int),
        ensures
            len == spec_fill_len(total_frames as int, cursor as int, capacity as int, looping),
            cur == spec_fill_cursor(total_frames as int, cursor as int, capacity as int, looping),
            looping ==> 0 <= cur < total_frames,
        decreases capacity - len,
    {
        let want = capacity - len;
        let remaining = if total_frames > cur {
            total_frames - cur
        } else {
            0
        };
        let read = if want < remaining {
            want
        } else {
            remaining
        };
        len = len + read;
        cur = cur + read;
        if looping {
            proof {
                let n = total_frames as int;
                let x = cursor + len - read;
                lemma_mod_twice(x, n);
                lemma_add_mod_noop(x % n, read as int, n);
                lemma_add_mod_noop(x, read as int, n);
            }
            cur = cur % total_frames;
            proof {
                lemma_mod_division_less_than_divisor(cursor + len, total_frames as int);
            }
        }
        if len == capacity || read == 0 {
            break;
        }
    }
    (len, cur)
}

/// Advance the cursor after a real decoder read of `frames_read` frames:
/// the cursor moves by the frames read, and with looping enabled it is
/// reduced modulo the file length — the wraparound rule, applied after
/// every read.
pub fn apply_read(cursor: i64, frames_read: i64, total_frames: i64, looping: bool) -> (new_cursor:
    i64)
    requires
        0 <= cursor,
        0 <= frames_read,
        cursor + frames_read <= FRAME_BOUND,
        looping ==> total_frames >= 1,
    ensures
        !looping ==> new_cursor == cursor + frames_read,
        looping ==> new_cursor == (cursor + frames_read) % (total_frames as int),
        looping ==> 0 <= new_cursor < total_frames,
{
    let moved = cursor + frames_read;
    if looping {
        proof {
            lemma_mod_division_less_than_divisor(cursor + frames_read, total_frames as int);
        }
        moved % total_frames
    } else {
        moved
    }
}

/// Whether a fill keeps reading after a read: only while the buffer is
/// still under capacity and the last read returned data. A read of zero
/// frames ends the fill even with looping enabled — an empty read from a
/// looping file signals a decoder fault, and looping on it would never
/// terminate.
pub fn fill_continues(filled: i64, capacity: i64, frames_read: i64) -> (r: bool)
    ensures
        r == (filled < capacity && frames_read > 0),
{
    filled < capacity && frames_read > 0
}

/// The cursor after `k` whole fills of capacity `capacity` each, starting
/// from `start`, under the ideal decoder.
pub open spec fn spec_cursor_after_fills(
    total_frames: int,
    start: int,
    capacity: int,
    looping: bool,
    k: nat,
) -> int
    decreases k,
{
    if k == 0 {
        start
    } else {
        spec_fill_cursor(
            total_frames,
            spec_cursor_after_fills(total_frames, start, capacity, looping, (k - 1) as nat),
            capacity,
            looping,
        )
    }
}

/// With looping disabled, a sequence of fills never advances the cursor
/// past the end of the file, and once the remaining data is shorter than
/// the capacity, the fill comes back under capacity — the stream ends
/// without padding.
pub proof fn lemma_fill_sequence_stays_in_file(
    total_frames: int,
    start: int,
    capacity: int,
    k: nat,
)
    requires
        0 <= start <= total_frames,
        0 <= capacity,
    ensures
        0 <= spec_cursor_after_fills(total_frames, start, capacity, false, k) <= total_frames,
        total_frames - spec_cursor_after_fills(total_frames, start, capacity, false, k) < capacity
            ==> spec_fill_len(
            total_frames,
            spec_cursor_after_fills(total_frames, start, capacity, false, k),
            capacity,
            false,
        ) < capacity,
    decreases k,
{
    if k > 0 {
        lemma_fill_sequence_stays_in_file(total_frames, start, capacity, (k - 1) as nat);
    }
}

/// With looping enabled, the cursor is in `[0, total_frames)` after every
/// fill, and repeated fills from frame zero walk the cyclic sequence
/// `0, c, 2c, ...` of frame indexes, reduced modulo the file length.
pub proof fn lemma_fill_sequence_loops_cyclically(total_frames: int, capacity: int, k: nat)
    requires
        total_frames >= 1,
        0 <= capacity,
    ensures
        spec_cursor_after_fills(total_frames, 0, capacity, true, k) == (k * capacity)
            % total_frames,
        k > 0 ==> 0 <= spec_cursor_after_fills(total_frames, 0, capacity, true, k) < total_frames,
    decreases k,
{
    lemma_mod_division_less_than_divisor(k * capacity, total_frames);
    if k == 0 {
        assert(k * capacity == 0) by (nonlinear_arith)
            requires
                k == 0,
        ;
        vstd::arithmetic::div_mod::lemma_small_mod(0, total_frames as nat);
    } else {
        lemma_fill_sequence_loops_cyclically(total_frames, capacity, (k - 1) as nat);
        let prev = spec_cursor_after_fills(total_frames, 0, capacity, true, (k - 1) as nat);
        lemma_mod_division_less_than_divisor((k - 1) as nat * capacity, total_frames);
        assert(0 <= prev < total_frames);
        vstd::arithmetic::div_mod::lemma_small_mod(prev as nat, total_frames as nat);
        lemma_add_mod_noop(prev, capacity, total_frames);
        lemma_add_mod_noop((k - 1) as nat * capacity, capacity, total_frames);
        assert((k - 1) as nat * capacity + capacity == k * capacity) by {
            lemma_mul_is_distributive_sub_other_way(capacity, k as int, 1);
        };
    }
}

} // verus!
