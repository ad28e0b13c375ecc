//! The response accumulator: writes received bytes into the client's
//! response region one at a time, and, once the end-of-stream terminator has
//! arrived, locates the header/body delimiter and compacts the region so
//! that only the body remains, left-justified.
//!
//! The terminator is the byte value `0`. It is a sentinel of the underlying
//! byte link, not an HTTP construct: the transport marks the end of the
//! inbound stream with it.

use vstd::prelude::*;
use crate::builder::{CR, LF};

verus! {

/// The end-of-stream sentinel of the underlying byte link.
pub const TERMINATOR: u8 = 0;

/// The response region after one received byte: the byte is written at the
/// cursor if space remains. When the terminator itself arrives and the
/// region is already full, it is recorded at the last slot instead, so the
/// later delimiter scan still observes it.
pub open spec fn accept_region(region: Seq<u8>, cur: int, byte: u8) -> Seq<u8> {
    if cur < region.len() {
        region.update(cur, byte)
    } else if byte == TERMINATOR && region.len() > 0 {
        region.update(region.len() - 1, TERMINATOR)
    } else {
        region
    }
}

/// The cursor after one received byte: advanced by one, bounded by the
/// region's length.
pub open spec fn accept_cursor(len: int, cur: int, byte: u8) -> int {
    if cur < len {
        cur + 1
    } else {
        cur
    }
}

/// The region and cursor after receiving every byte of `stream` in order.
pub open spec fn capture(region: Seq<u8>, cur: int, stream: Seq<u8>) -> (Seq<u8>, int)
    decreases stream.len(),
{
    if stream.len() == 0 {
        (region, cur)
    } else {
        capture(
            accept_region(region, cur, stream[0]),
            accept_cursor(region.len() as int, cur, stream[0]),
            stream.skip(1),
        )
    }
}

/// Holds when the four-byte header/body delimiter `"\r\n\r\n"` stands at
/// offset `i` of `s`.
pub open spec fn is_delimiter_at(s: Seq<u8>, i: int) -> bool {
    &&& 0 <= i
    &&& i + 4 <= s.len()
    &&& s[i] == CR
    &&& s[i + 1] == LF
    &&& s[i + 2] == CR
    &&& s[i + 3] == LF
}

/// The delimiter scan from offset `i` on: the offset of the first delimiter,
/// unless a terminator byte or the end of the scannable range comes first.
pub open spec fn scan_from(s: Seq<u8>, i: int) -> Option<int>
    decreases s.len() - i,
{
    if i < 0 || i + 4 > s.len() {
        None
    } else if s[i] == TERMINATOR {
        None
    } else if is_delimiter_at(s, i) {
        Some(i)
    } else {
        scan_from(s, i + 1)
    }
}

/// The outcome of the delimiter scan over the whole region.
pub open spec fn find_delimiter(s: Seq<u8>) -> Option<int> {
    scan_from(s, 0)
}

/// The offset of the first terminator byte at or after `i`, or the region's
/// length when there is none.
pub open spec fn first_zero_at_or_after(s: Seq<u8>, i: int) -> int
    decreases s.len() - i,
{
    if i < 0 {
        0
    } else if i >= s.len() {
        s.len() as int
    } else if s[i] == TERMINATOR {
        i
    } else {
        first_zero_at_or_after(s, i + 1)
    }
}

/// The region after the in-place shift that moves everything from offset
/// `off` on down to offset 0; the tail that the shift never writes keeps its
/// old bytes.
pub open spec fn compact(s: Seq<u8>, off: int) -> Seq<u8> {
    s.skip(off) + s.skip(s.len() - off)
}

/// What the finalize step reports to the state machine.
#[derive(Clone, Copy, PartialEq, Eq, Structural, Debug)]
pub enum Finalized {
    /// A delimiter was found; the body, of the given length, now stands at
    /// the start of the region.
    Body(usize),
    /// No delimiter was found before a terminator or the end of the region:
    /// the captured response is malformed or incomplete.
    NoDelimiter,
}

/// Consumes one received byte: writes it at the cursor if space remains and
/// advances the cursor, bounded by the region's length. A terminator that
/// arrives when the region is full is recorded at the last slot instead.
pub fn accept_byte(response: &mut Vec<u8>, cursor: &mut usize, byte: u8)
    ensures
        final(response)@ == accept_region(old(response)@, *old(cursor) as int, byte),
        *final(cursor) == accept_cursor(
            old(response)@.len() as int,
            *old(cursor) as int,
            byte,
        ),
{
    let len: usize = response.len();
    if *cursor < len {
        response[*cursor] = byte;
        *cursor = *cursor + 1;
    } else if byte == TERMINATOR && len > 0 {
        response[len - 1] = TERMINATOR;
    }
}

/// The delimiter scan over `s` never stops before `i`, so it ends as the
/// scan from `i` on does.
proof fn lemma_scan_skip(s: Seq<u8>, i: int)
    requires
        0 <= i <= s.len(),
        forall|j: int| 0 <= j < i ==> s[j] != TERMINATOR && !is_delimiter_at(s, j),
    ensures
        scan_from(s, 0) == scan_from(s, i),
    decreases i,
{
    if i > 0 {
        lemma_scan_skip(s, i - 1);
        assert(scan_from(s, i - 1) == scan_from(s, i));
    }
}

/// There is no terminator in `s` between `from` and `t`, so the first
/// terminator at or after `from` is the one at or after `t`.
proof fn lemma_first_zero_skip(s: Seq<u8>, from: int, t: int)
    requires
        0 <= from <= t <= s.len(),
        forall|j: int| from <= j < t ==> s[j] != TERMINATOR,
    ensures
        first_zero_at_or_after(s, from) == first_zero_at_or_after(s, t),
    decreases t - from,
{
    if from < t {
        lemma_first_zero_skip(s, from + 1, t);
    }
}

/// Finds the first delimiter of the region, unless a terminator byte or the
/// end of the scannable range comes first.
fn scan_delimiter(response: &Vec<u8>) -> (r: Option<usize>)
    ensures
        match r {
            Some(u) => {
                &&& find_delimiter(response@) == Some(u as int)
                &&& is_delimiter_at(response@, u as int)
            },
            None => find_delimiter(response@) is None,
        },
{
    let n: usize = response.len();
    if n < 4 {
        return None;
    }
    let mut i: usize = 0;
    while i <= n - 4
        invariant
            4 <= n == response@.len(),
            i <= n - 3,
            forall|j: int|
                0 <= j < i ==> response@[j] != TERMINATOR && !is_delimiter_at(response@, j),
        decreases n - i,
    {
        if response[i] == TERMINATOR {
            proof {
                lemma_scan_skip(response@, i as int);
            }
            return None;
        }
        if response[i] == CR && response[i + 1] == LF && response[i + 2] == CR && response[i + 3]
            == LF {
            proof {
                lemma_scan_skip(response@, i as int);
            }
            return Some(i);
        }
        i = i + 1;
    }
    proof {
        lemma_scan_skip(response@, i as int);
    }
    None
}

/// Finds the first terminator at or after `from`, or the region's length
/// when there is none.
fn scan_terminator(response: &Vec<u8>, from: usize) -> (t: usize)
    requires
        from <= response@.len(),
    ensures
        t == first_zero_at_or_after(response@, from as int),
        from <= t <= response@.len(),
{
    let n: usize = response.len();
    let mut t: usize = from;
    while t < n
        invariant
            from <= t <= n == response@.len(),
            forall|j: int| from <= j < t ==> response@[j] != TERMINATOR,
        decreases n - t,
    {
        if response[t] == TERMINATOR {
            proof {
                lemma_first_zero_skip(response@, from as int, t as int);
            }
            return t;
        }
        t = t + 1;
    }
    proof {
        lemma_first_zero_skip(response@, from as int, n as int);
    }
    n
}

/// Shifts every byte from offset `off` on down to offset 0, in place.
fn shift_down(response: &mut Vec<u8>, off: usize)
    requires
        off <= old(response)@.len(),
    ensures
        final(response)@ == compact(old(response)@, off as int),
{
    let n: usize = response.len();
    let mut k: usize = off;
    while k < n
        invariant
            off <= k <= n == response@.len(),
            response@.len() == old(response)@.len(),
            forall|j: int| 0 <= j < k - off ==> response@[j] == old(response)@[j + off],
            forall|j: int| k - off <= j < n ==> response@[j] == old(response)@[j],
        decreases n - k,
    {
        let b: u8 = response[k];
        response[k - off] = b;
        k = k + 1;
    }
    proof {
        assert(response@ =~= compact(old(response)@, off as int));
    }
}

/// The finalize step, run once the terminator has been observed: scans the
/// region for the delimiter, stopping early at a terminator byte; when the
/// delimiter stands at offset `i`, shifts everything from `i + 4` on down to
/// offset 0 and reports the length of the body, the bytes from `i + 4` up to
/// the first terminator after the delimiter. When no delimiter is found the
/// region is left as it is.
pub fn finalize(response: &mut Vec<u8>) -> (r: Finalized)
    ensures
        final(response)@.len() == old(response)@.len(),
        match find_delimiter(old(response)@) {
            Some(i) => {
                &&& r == Finalized::Body(
                    (first_zero_at_or_after(old(response)@, i + 4) - (i + 4)) as usize,
                )
                &&& final(response)@ == compact(old(response)@, i + 4)
            },
            None => {
                &&& r == Finalized::NoDelimiter
                &&& final(response)@ == old(response)@
            },
        },
{
    let n: usize = response.len();
    match scan_delimiter(response) {
        Some(i) => {
            let off: usize = i + 4;
            let t: usize = scan_terminator(response, off);
            shift_down(response, off);
            Finalized::Body(t - off)
        },
        None => Finalized::NoDelimiter,
    }
}

/// Receiving a stream that fits the region writes it, byte for byte, at the
/// cursor's starting offset, advances the cursor past it, and touches
/// nothing else.
pub proof fn lemma_capture_writes_stream(region: Seq<u8>, cur: int, stream: Seq<u8>)
    requires
        0 <= cur,
        cur + stream.len() <= region.len(),
    ensures
        capture(region, cur, stream).0.len() == region.len(),
        capture(region, cur, stream).1 == cur + stream.len(),
        forall|j: int|
            0 <= j < stream.len() ==> capture(region, cur, stream).0[cur + j] == stream[j],
        forall|j: int|
            0 <= j < region.len() && !(cur <= j < cur + stream.len())
                ==> capture(region, cur, stream).0[j] == region[j],
    decreases stream.len(),
{
    if stream.len() > 0 {
        let region1 = accept_region(region, cur, stream[0]);
        let rest = stream.skip(1);
        lemma_capture_writes_stream(region1, cur + 1, rest);
        assert forall|j: int|
            0 <= j < stream.len() implies capture(region, cur, stream).0[cur + j]
            == stream[j] by {
            if j == 0 {
                assert(capture(region1, cur + 1, rest).0[cur] == region1[cur]);
            } else {
                assert(capture(region1, cur + 1, rest).0[(cur + 1) + (j - 1)] == rest[j - 1]);
                assert(rest[j - 1] == stream[j]);
            }
        }
        assert forall|j: int|
            0 <= j < region.len() && !(cur <= j < cur + stream.len()) implies capture(
            region,
            cur,
            stream,
        ).0[j] == region[j] by {
            assert(capture(region1, cur + 1, rest).0[j] == region1[j]);
            assert(region1[j] == region[j]);
        }
    }
}

/// Law: for a byte stream ending in its one terminator, captured whole into
/// a large enough region, whose first delimiter stands at offset `i` before
/// the terminator, the finalize scan finds that delimiter, the terminator
/// scan stops at the stream's terminator, and the compacted region starts
/// with exactly the stream's bytes between delimiter and terminator — the
/// body, left-justified, of that very length.
pub proof fn lemma_exchange_extracts_body(region: Seq<u8>, stream: Seq<u8>, i: int)
    requires
        stream.len() <= region.len(),
        stream.len() > 0,
        stream[stream.len() - 1] == TERMINATOR,
        forall|k: int| 0 <= k < stream.len() - 1 ==> stream[k] != TERMINATOR,
        0 <= i,
        i + 4 <= stream.len() - 1,
        is_delimiter_at(stream, i),
        forall|j: int| 0 <= j < i ==> !is_delimiter_at(stream, j),
    ensures
        find_delimiter(capture(region, 0, stream).0) == Some(i),
        first_zero_at_or_after(capture(region, 0, stream).0, i + 4) == stream.len() - 1,
        compact(capture(region, 0, stream).0, i + 4).subrange(
            0,
            stream.len() - 1 - (i + 4),
        ) == stream.subrange(i + 4, stream.len() - 1),
{
    lemma_capture_writes_stream(region, 0, stream);
    let captured = capture(region, 0, stream).0;
    assert forall|j: int| 0 <= j < i implies captured[j] != TERMINATOR && !is_delimiter_at(
        captured,
        j,
    ) by {
        assert(captured[j] == stream[j]);
        assert(!is_delimiter_at(stream, j));
        if is_delimiter_at(captured, j) {
            assert(captured[j + 1] == stream[j + 1]);
            assert(captured[j + 2] == stream[j + 2]);
            assert(captured[j + 3] == stream[j + 3]);
        }
    }
    lemma_scan_skip(captured, i);
    assert(is_delimiter_at(captured, i)) by {
        assert(captured[i] == stream[i]);
        assert(captured[i + 1] == stream[i + 1]);
        assert(captured[i + 2] == stream[i + 2]);
        assert(captured[i + 3] == stream[i + 3]);
    }
    assert(scan_from(captured, i) == Some(i));
    assert forall|j: int| i + 4 <= j < stream.len() - 1 implies captured[j] != TERMINATOR by {
        assert(captured[j] == stream[j]);
    }
    lemma_first_zero_skip(captured, i + 4, stream.len() - 1);
    assert(captured[stream.len() - 1] == stream[stream.len() - 1]);
    assert(first_zero_at_or_after(captured, stream.len() - 1) == stream.len() - 1);
    assert(compact(captured, i + 4).subrange(0, stream.len() - 1 - (i + 4)) =~= stream.subrange(
        i + 4,
        stream.len() - 1,
    ));
}

/// Law: for a byte stream ending in its one terminator, captured whole into
/// a large enough region, that holds the delimiter nowhere, the finalize
/// scan finds no delimiter — however much data was captured, the exchange is
/// reported as having no body.
pub proof fn lemma_exchange_without_delimiter(region: Seq<u8>, stream: Seq<u8>)
    requires
        stream.len() <= region.len(),
        stream.len() > 0,
        stream[stream.len() - 1] == TERMINATOR,
        forall|k: int| 0 <= k < stream.len() - 1 ==> stream[k] != TERMINATOR,
        forall|j: int| !is_delimiter_at(stream, j),
    ensures
        find_delimiter(capture(region, 0, stream).0) is None,
{
    lemma_capture_writes_stream(region, 0, stream);
    let captured = capture(region, 0, stream).0;
    let z = stream.len() - 1;
    assert forall|j: int| 0 <= j < z implies captured[j] != TERMINATOR && !is_delimiter_at(
        captured,
        j,
    ) by {
        assert(captured[j] == stream[j]);
        if is_delimiter_at(captured, j) {
            if j + 4 <= z + 1 {
                // the window lies inside the stream, where no delimiter stands
                assert(captured[j + 1] == stream[j + 1]);
                assert(captured[j + 2] == stream[j + 2]);
                assert(captured[j + 3] == stream[j + 3]);
                assert(is_delimiter_at(stream, j));
            } else {
                // the window would have to cover the terminator, which is
                // neither of the delimiter's bytes
                assert(j < z < j + 4);
                assert(captured[z] == TERMINATOR);
            }
        }
    }
    lemma_scan_skip(captured, z);
    assert(scan_from(captured, z) is None);
}

} // verus!
