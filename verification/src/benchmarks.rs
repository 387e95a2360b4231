//! Lightweight benchmark helpers for critical paths.

use std::time::Instant;
use vstd::prelude::*;

use crate::clock::{elapsed_nanos, monotonic_now};
use crate::text::{
    chars_of, chars_range, chars_start_with, has_prefix, line_at, lines, next_word, parse_u64,
    parse_u64_range, words,
};

verus! {

/// A simple timing sample.
#[derive(Debug, Clone, Copy, PartialEq, Eq, Structural)]
pub struct TimingSample {
    /// Elapsed time spent in the benchmarked operation, in nanoseconds.
    pub elapsed_nanos: u128,
    /// How many iterations were executed.
    pub iterations: usize,
}

/// Measures a closure over a fixed number of iterations.
pub fn measure<F: Fn()>(iterations: usize, f: F) -> (sample: TimingSample)
    requires
        f.requires(()),
    ensures
        sample.iterations == iterations,
        sample.elapsed_nanos / 1_000_000_000 <= u64::MAX,
{
    let started_at: Instant = monotonic_now();
    let mut i: usize = 0;
    while i < iterations
        invariant
            i <= iterations,
            f.requires(()),
        decreases iterations - i,
    {
        f();
        i = i + 1;
    }
    TimingSample { elapsed_nanos: elapsed_nanos(&started_at), iterations }
}

/// The average time per iteration, in whole nanoseconds: the elapsed
/// nanoseconds taken as a `u64` (their low 64 bits) divided by the
/// iterations, and 0 when there were none.
pub open spec fn average_nanos(sample: TimingSample) -> u64 {
    if sample.iterations == 0 {
        0
    } else {
        ((sample.elapsed_nanos as u64) / (sample.iterations as u64)) as u64
    }
}

/// Returns the average duration per iteration, in nanoseconds.
pub fn average_duration(sample: TimingSample) -> (average: u64)
    ensures
        average == average_nanos(sample),
{
    if sample.iterations == 0 {
        return 0;
    }
    (sample.elapsed_nanos as u64) / (sample.iterations as u64)
}

/// A simple memory sample.
#[derive(Debug, Clone, Copy, PartialEq, Eq, Structural)]
pub struct MemorySample {
    /// Resident set size before the operation.
    pub rss_before: Option<u64>,
    /// Resident set size after the operation.
    pub rss_after: Option<u64>,
    /// How many iterations were executed.
    pub iterations: usize,
}

/// Measures resident memory, as `read_rss` reports it, before and after
/// running a closure repeatedly.
pub fn measure_memory<F: Fn(), R: Fn() -> Option<u64>>(iterations: usize, f: F, read_rss: R) -> (sample: MemorySample)
    requires
        f.requires(()),
        read_rss.requires(()),
    ensures
        sample.iterations == iterations,
        read_rss.ensures((), sample.rss_before),
        read_rss.ensures((), sample.rss_after),
{
    let rss_before = read_rss();
    let mut i: usize = 0;
    while i < iterations
        invariant
            i <= iterations,
            f.requires(()),
        decreases iterations - i,
    {
        f();
        i = i + 1;
    }
    let rss_after = read_rss();
    MemorySample { rss_before, rss_after, iterations }
}

} // verus!

verus! {

/// The first of `lines` that begins with `prefix`.
pub open spec fn first_line_with_prefix(lines: Seq<Seq<char>>, prefix: Seq<char>) -> Option<Seq<char>>
    decreases lines.len(),
{
    if lines.len() == 0 {
        None
    } else if has_prefix(lines[0], prefix) {
        Some(lines[0])
    } else {
        first_line_with_prefix(lines.drop_first(), prefix)
    }
}

/// The resident set size, in kB, that a `/proc/self/status` text reports:
/// the second word of its first line starting with `VmRSS:`, read as a `u64`.
pub open spec fn rss_kb(status: Seq<char>) -> Option<u64> {
    match first_line_with_prefix(lines(status), "VmRSS:"@) {
        Some(line) => if words(line).len() > 1 {
            parse_u64(words(line)[1])
        } else {
            None
        },
        None => None,
    }
}

/// Reads the resident set size in kB from the text of `/proc/self/status`.
pub fn parse_rss_kb(status: &str) -> (kb: Option<u64>)
    ensures
        kb == rss_kb(status@),
{
    let v = chars_of(status);
    let prefix = chars_of("VmRSS:");
    let mut pos: usize = 0;
    assert(v@.skip(0) =~= v@);
    while pos < v.len()
        invariant
            pos <= v.len(),
            v@ == status@,
            prefix@ == "VmRSS:"@,
            first_line_with_prefix(lines(status@), "VmRSS:"@) == first_line_with_prefix(
                lines(v@.skip(pos as int)),
                "VmRSS:"@,
            ),
        decreases v.len() - pos,
    {
        let (text_end, end) = line_at(&v, pos);
        let line = chars_range(&v, pos, text_end);
        if chars_start_with(&line, &prefix) {
            assert(line@.skip(0) =~= line@);
            return match next_word(&line, 0) {
                None => None,
                Some((_, first_end)) => match next_word(&line, first_end) {
                    None => None,
                    Some((start, word_end)) => parse_u64_range(&line, start, word_end),
                },
            };
        }
        if end == v.len() {
            assert(lines(v@.skip(pos as int)).drop_first() =~= Seq::<Seq<char>>::empty());
            assert(first_line_with_prefix(lines(v@.skip(pos as int)).drop_first(), "VmRSS:"@) is None);
            return None;
        }
        pos = end + 1;
    }
    assert(v@.skip(pos as int) =~= Seq::<char>::empty());
    None
}

} // verus!
