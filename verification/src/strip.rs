//! The strip engine: removes one or more SAUCE trailers, and the single
//! end-marker byte tied to each, from the tail of a raw buffer.
//!
//! A trailer is only ever recognized exactly at the tail; nothing is
//! scanned for. Under the `All` policies, records count as contiguous
//! when at most one end-marker byte separates them: a single marker is
//! taken to belong to the inner trailer, while two or more stacked
//! markers are treated as a deliberate boundary and stop the removal.

use vstd::prelude::*;
use vstd::slice::slice_subrange;

use crate::header::{spec_total_len, tail_has_header, tail_window, SauceHeader};

verus! {

/// Which trailers to remove and what to do with end-marker bytes.
#[derive(Debug, Clone, Copy, PartialEq, Eq, Structural)]
pub enum StripMode {
    /// Remove only the trailer at the tail; keep every marker byte.
    Last,
    /// Remove the trailer at the tail and one marker directly before it.
    LastStripFinalEof,
    /// Remove every contiguous trailer, keeping the markers left at the
    /// new tail.
    All,
    /// Remove every contiguous trailer and one final marker.
    AllStripFinalEof,
}

impl Default for StripMode {
    /// The most common cleaning mode: remove the last trailer and its
    /// marker.
    fn default() -> (r: Self)
        ensures
            r == StripMode::LastStripFinalEof,
    {
        StripMode::LastStripFinalEof
    }
}

/// Where the content would end after removing one trailer found exactly
/// at the tail of `s`: the header must parse and the buffer must hold
/// the whole declared trailer (header plus comment block).
pub open spec fn probe_spec(s: Seq<u8>) -> Option<int> {
    if tail_has_header(s) && s.len() >= spec_total_len(tail_window(s)[104]) {
        Some(s.len() - spec_total_len(tail_window(s)[104]))
    } else {
        None
    }
}

/// Consume at most one end-marker byte directly before `end`.
pub open spec fn consume_eof_spec(data: Seq<u8>, end: int) -> int {
    if end > 0 && data[end - 1] == 26 {
        end - 1
    } else {
        end
    }
}

/// One pass of the contiguous removal loop, started at `cursor`: the
/// final end index, the number of trailers removed and the number of
/// marker bytes consumed. Removal continues only while a new header
/// stands exactly at the tail after each trailer and its single marker
/// are gone.
pub open spec fn strip_all_trace(data: Seq<u8>, cursor: int) -> (int, int, int)
    decreases cursor,
    when 0 <= cursor <= data.len()
{
    match probe_spec(data.subrange(0, cursor)) {
        Some(end) => {
            let c = consume_eof_spec(data, end);
            let e1: int = if c != end {
                1
            } else {
                0
            };
            if tail_has_header(data.subrange(0, c)) {
                let rest = strip_all_trace(data, c);
                (rest.0, rest.1 + 1, rest.2 + e1)
            } else {
                (c, 1, e1)
            }
        },
        None => (cursor, 0, 0),
    }
}

/// The trace stays within the buffer and its counts are bounded by the
/// starting cursor.
pub proof fn lemma_strip_all_trace_bounds(data: Seq<u8>, cursor: int)
    requires
        0 <= cursor <= data.len(),
    ensures
        0 <= strip_all_trace(data, cursor).0 <= cursor,
        0 <= strip_all_trace(data, cursor).1,
        0 <= strip_all_trace(data, cursor).2,
        strip_all_trace(data, cursor).0 + 128 * strip_all_trace(data, cursor).1 + strip_all_trace(
            data,
            cursor,
        ).2 <= cursor,
        probe_spec(data.subrange(0, cursor)) is Some ==> strip_all_trace(data, cursor).1 >= 1,
    decreases cursor,
{
    match probe_spec(data.subrange(0, cursor)) {
        Some(end) => {
            let c = consume_eof_spec(data, end);
            if tail_has_header(data.subrange(0, c)) {
                lemma_strip_all_trace_bounds(data, c);
            }
        },
        None => {},
    }
}

/// The position the content ends at under a policy, or `None` when no
/// trailer stands at the tail at all.
pub open spec fn strip_pos_spec(data: Seq<u8>, mode: StripMode) -> Option<int> {
    match mode {
        StripMode::Last => probe_spec(data),
        StripMode::LastStripFinalEof => match probe_spec(data) {
            Some(end) => Some(consume_eof_spec(data, end)),
            None => None,
        },
        StripMode::All => match probe_spec(data) {
            Some(_) => Some(strip_all_trace(data, data.len() as int).0),
            None => None,
        },
        StripMode::AllStripFinalEof => match probe_spec(data) {
            Some(_) => Some(
                consume_eof_spec(data, strip_all_trace(data, data.len() as int).0),
            ),
            None => None,
        },
    }
}

/// The end of the content after stripping: the policy's position, or the
/// whole buffer when nothing was removed.
pub open spec fn strip_end_spec(data: Seq<u8>, mode: StripMode) -> int {
    match strip_pos_spec(data, mode) {
        Some(e) => e,
        None => data.len() as int,
    }
}

/// Probe for one trailer exactly at the tail of `data`.
fn attempt_single_strip(data: &[u8]) -> (r: Option<usize>)
    ensures
        (match r {
            Some(e) => probe_spec(data@) == Some(e as int),
            None => probe_spec(data@) is None,
        }),
{
    let header = match SauceHeader::from_bytes(data) {
        Ok(Some(h)) => h,
        _ => {
            return None;
        },
    };
    let sauce_len = header.total_length();
    if data.len() < sauce_len {
        return None;
    }
    Some(data.len() - sauce_len)
}

/// Consume at most one end-marker byte directly before `end`.
fn consume_single_eof(data: &[u8], end: usize) -> (r: usize)
    requires
        end <= data@.len(),
    ensures
        r == consume_eof_spec(data@, end as int),
        r <= end,
{
    if end > 0 && data[end - 1] == 26 {
        end - 1
    } else {
        end
    }
}

/// Whether a header stands exactly at the tail of `data`.
fn tail_has_sauce_header(data: &[u8]) -> (r: bool)
    ensures
        r == tail_has_header(data@),
{
    match SauceHeader::from_bytes(data) {
        Ok(Some(_)) => true,
        _ => false,
    }
}

/// Remove contiguous trailers starting from `cursor`, returning the new
/// end index with the removal counts.
fn strip_all_from(data: &[u8], cursor: usize) -> (r: (usize, usize, usize))
    requires
        cursor <= data@.len(),
    ensures
        (r.0 as int, r.1 as int, r.2 as int) == strip_all_trace(data@, cursor as int),
        r.0 <= cursor,
    decreases cursor,
{
    proof {
        lemma_strip_all_trace_bounds(data@, cursor as int);
    }
    match attempt_single_strip(slice_subrange(data, 0, cursor)) {
        Some(end) => {
            proof {
                assert(data@.subrange(0, cursor as int).len() == cursor);
            }
            let c = consume_single_eof(data, end);
            let e1: usize = if c != end {
                1
            } else {
                0
            };
            if tail_has_sauce_header(slice_subrange(data, 0, c)) {
                let rest = strip_all_from(data, c);
                proof {
                    lemma_strip_all_trace_bounds(data@, c as int);
                }
                (rest.0, rest.1 + 1, rest.2 + e1)
            } else {
                (c, 1, e1)
            }
        },
        None => (cursor, 0, 0),
    }
}

/// The end position a policy leaves, or `None` when no trailer stands at
/// the tail.
fn calculate_strip_position(data: &[u8], mode: StripMode) -> (r: Option<usize>)
    ensures
        (match r {
            Some(e) => strip_pos_spec(data@, mode) == Some(e as int) && e <= data@.len(),
            None => strip_pos_spec(data@, mode) is None,
        }),
{
    match mode {
        StripMode::Last => attempt_single_strip(data),
        StripMode::LastStripFinalEof => match attempt_single_strip(data) {
            Some(end) => Some(consume_single_eof(data, end)),
            None => None,
        },
        StripMode::All => match attempt_single_strip(data) {
            Some(_) => {
                let t = strip_all_from(data, data.len());
                proof {
                    assert(data@.subrange(0, data@.len() as int) =~= data@);
                }
                Some(t.0)
            },
            None => None,
        },
        StripMode::AllStripFinalEof => match attempt_single_strip(data) {
            Some(_) => {
                let t = strip_all_from(data, data.len());
                proof {
                    assert(data@.subrange(0, data@.len() as int) =~= data@);
                }
                Some(consume_single_eof(data, t.0))
            },
            None => None,
        },
    }
}

/// Strip SAUCE trailers from the end of `data` under the given policy,
/// returning the remaining content as a subslice. The buffer is returned
/// whole when no trailer stands at its tail.
pub fn strip_sauce(data: &[u8], mode: StripMode) -> (r: &[u8])
    ensures
        r@ == data@.subrange(0, strip_end_spec(data@, mode)),
{
    let pos = match calculate_strip_position(data, mode) {
        Some(p) => p,
        None => data.len(),
    };
    slice_subrange(data, 0, pos)
}

/// Relies on mutable range indexing of a slice: the prefix of `data` up
/// to `end`, borrowed mutably; writes through the result land in that
/// prefix.
#[verifier::external_body]
fn subslice_mut<'a>(data: &'a mut [u8], end: usize) -> (out: &'a mut [u8])
    requires
        end <= old(data)@.len(),
    ensures
        out@ == old(data)@.subrange(0, end as int),
        final(data)@ == final(out)@ + old(data)@.subrange(end as int, old(data)@.len() as int),
{
    &mut data[..end]
}

/// [`strip_sauce`] over a mutable buffer: the same content is selected,
/// but the caller may modify it in place afterwards.
pub fn strip_sauce_mut(data: &mut [u8], mode: StripMode) -> (r: &mut [u8])
    ensures
        r@ == old(data)@.subrange(0, strip_end_spec(old(data)@, mode)),
        final(data)@ == final(r)@ + old(data)@.subrange(
            strip_end_spec(old(data)@, mode),
            old(data)@.len() as int,
        ),
{
    let pos = match calculate_strip_position(data, mode) {
        Some(p) => p,
        None => data.len(),
    };
    subslice_mut(data, pos)
}

/// What [`strip_sauce_ex`] reports: the remaining content and how much
/// was removed.
#[derive(Debug, Clone)]
pub struct StripResult<'a> {
    /// The content with trailers and their markers removed.
    pub data: &'a [u8],
    /// Number of trailers removed.
    pub records_removed: usize,
    /// Number of end-marker bytes removed.
    pub eof_bytes_removed: usize,
}

impl<'a> StripResult<'a> {
    /// How many bytes stripping removed from a buffer that originally
    /// held `original_len` bytes.
    pub fn bytes_removed(&self, original_len: usize) -> (r: usize)
        requires
            self.data@.len() <= original_len,
        ensures
            r == original_len - self.data@.len(),
    {
        original_len - self.data.len()
    }
}

/// Strip trailers like [`strip_sauce`], and also report how many
/// trailers and marker bytes were removed.
pub fn strip_sauce_ex(data: &[u8], mode: StripMode) -> (r: StripResult<'_>)
    ensures
        r.data@ == data@.subrange(0, strip_end_spec(data@, mode)),
        (match mode {
            StripMode::Last => (match probe_spec(data@) {
                Some(_) => r.records_removed == 1 && r.eof_bytes_removed == 0,
                None => r.records_removed == 0 && r.eof_bytes_removed == 0,
            }),
            StripMode::LastStripFinalEof => (match probe_spec(data@) {
                Some(end) => r.records_removed == 1 && r.eof_bytes_removed == (
                if consume_eof_spec(data@, end) != end {
                    1int
                } else {
                    0int
                }),
                None => r.records_removed == 0 && r.eof_bytes_removed == 0,
            }),
            StripMode::All => (match probe_spec(data@) {
                Some(_) => r.records_removed == strip_all_trace(data@, data@.len() as int).1
                    && r.eof_bytes_removed == strip_all_trace(data@, data@.len() as int).2,
                None => r.records_removed == 0 && r.eof_bytes_removed == 0,
            }),
            StripMode::AllStripFinalEof => (match probe_spec(data@) {
                Some(_) => {
                    let t = strip_all_trace(data@, data@.len() as int);
                    r.records_removed == t.1 && r.eof_bytes_removed == t.2 + (
                    if consume_eof_spec(data@, t.0) != t.0 {
                        1int
                    } else {
                        0int
                    })
                },
                None => r.records_removed == 0 && r.eof_bytes_removed == 0,
            }),
        }),
{
    match mode {
        StripMode::Last => match attempt_single_strip(data) {
            Some(end) => StripResult {
                data: slice_subrange(data, 0, end),
                records_removed: 1,
                eof_bytes_removed: 0,
            },
            None => StripResult { data, records_removed: 0, eof_bytes_removed: 0 },
        },
        StripMode::LastStripFinalEof => match attempt_single_strip(data) {
            Some(end) => {
                let c = consume_single_eof(data, end);
                let eofs: usize = if c != end {
                    1
                } else {
                    0
                };
                StripResult {
                    data: slice_subrange(data, 0, c),
                    records_removed: 1,
                    eof_bytes_removed: eofs,
                }
            },
            None => StripResult { data, records_removed: 0, eof_bytes_removed: 0 },
        },
        StripMode::All => match attempt_single_strip(data) {
            Some(_) => {
                let t = strip_all_from(data, data.len());
                proof {
                    assert(data@.subrange(0, data@.len() as int) =~= data@);
                }
                StripResult {
                    data: slice_subrange(data, 0, t.0),
                    records_removed: t.1,
                    eof_bytes_removed: t.2,
                }
            },
            None => StripResult { data, records_removed: 0, eof_bytes_removed: 0 },
        },
        StripMode::AllStripFinalEof => match attempt_single_strip(data) {
            Some(_) => {
                let t = strip_all_from(data, data.len());
                proof {
                    assert(data@.subrange(0, data@.len() as int) =~= data@);
                }
                let c = consume_single_eof(data, t.0);
                let extra: usize = if c != t.0 {
                    1
                } else {
                    0
                };
                proof {
                    lemma_strip_all_trace_bounds(data@, data@.len() as int);
                }
                StripResult {
                    data: slice_subrange(data, 0, c),
                    records_removed: t.1,
                    eof_bytes_removed: t.2 + extra,
                }
            },
            None => StripResult { data, records_removed: 0, eof_bytes_removed: 0 },
        },
    }
}

} // verus!
