//! The configured test mode and the choice of operation for one request.

use vstd::prelude::*;
use vstd::string::*;

verus! {

/// What a run asks of its workers.
#[derive(Clone, Copy, Debug, PartialEq, Eq, Structural)]
pub enum Mode {
    /// Every request is a write.
    Write,
    /// Every request is a read.
    Read,
    /// Each request is a write or a read, chosen by a random draw.
    Mixed,
}

/// One request's operation.
#[derive(Clone, Copy, Debug, PartialEq, Eq, Structural)]
pub enum Operation {
    Write,
    Read,
}

/// Number of distinct draws: a draw is a whole number below this bound and
/// stands for the fraction `draw / DRAW_RANGE` in `[0, 1)`.
pub const DRAW_RANGE: u64 = 9007199254740992u64;

/// The mode that a configuration word names, if any.
pub open spec fn mode_named(s: Seq<char>) -> Option<Mode> {
    if s == "write"@ {
        Some(Mode::Write)
    } else if s == "read"@ {
        Some(Mode::Read)
    } else if s == "mixed"@ {
        Some(Mode::Mixed)
    } else {
        None
    }
}

/// Reads a mode from its configuration word: `write`, `read` or `mixed`.
/// Any other word names no mode, so that a run never starts with one.
pub fn parse_mode(s: &str) -> (r: Option<Mode>)
    ensures
        r == mode_named(s@),
{
    let word = String::from_str(s);
    if word == String::from_str("write") {
        Some(Mode::Write)
    } else if word == String::from_str("read") {
        Some(Mode::Read)
    } else if word == String::from_str("mixed") {
        Some(Mode::Mixed)
    } else {
        None
    }
}

/// The draw that a random 64-bit word gives: its upper 53 bits.
pub open spec fn draw_of(word: u64) -> u64 {
    word / 2048
}

/// Reduces a random 64-bit word to a draw below `DRAW_RANGE`.
pub fn draw_from_word(word: u64) -> (d: u64)
    ensures
        d == draw_of(word),
        d < DRAW_RANGE,
{
    assert(word >> 11 == word / 2048) by (bit_vector);
    assert(word >> 11 < 9007199254740992u64) by (bit_vector);
    word >> 11
}

/// The operation for one request: fixed by the mode, except in mixed mode,
/// where a draw below the threshold gives a write and any other a read.
pub open spec fn operation_for(mode: Mode, draw: u64, threshold: u64) -> Operation {
    match mode {
        Mode::Write => Operation::Write,
        Mode::Read => Operation::Read,
        Mode::Mixed => if draw < threshold {
            Operation::Write
        } else {
            Operation::Read
        },
    }
}

/// Chooses the operation for one request. `threshold` is the write ratio
/// scaled to `[0, DRAW_RANGE]`; it matters in mixed mode only.
pub fn select_operation(mode: Mode, draw: u64, threshold: u64) -> (op: Operation)
    ensures
        op == operation_for(mode, draw, threshold),
{
    match mode {
        Mode::Write => Operation::Write,
        Mode::Read => Operation::Read,
        Mode::Mixed => if draw < threshold {
            Operation::Write
        } else {
            Operation::Read
        },
    }
}

/// With a write ratio of one, mixed mode issues a write on every draw.
pub proof fn lemma_full_ratio_only_writes(word: u64)
    ensures
        operation_for(Mode::Mixed, draw_of(word), DRAW_RANGE) == Operation::Write,
{
    assert(word / 2048 < 9007199254740992u64) by (bit_vector);
}

/// With a write ratio of zero, mixed mode issues a read on every draw.
pub proof fn lemma_zero_ratio_only_reads(draw: u64)
    ensures
        operation_for(Mode::Mixed, draw, 0) == Operation::Read,
{
}

/// Calls `rand::random::<u64>()`, which draws a 64-bit word from the
/// thread's generator. Nothing is claimed of the word.
#[verifier::external_body]
fn random_word() -> (word: u64) {
    rand::random::<u64>()
}

/// A fresh random draw below `DRAW_RANGE`.
pub fn random_draw() -> (d: u64)
    ensures
        d < DRAW_RANGE,
{
    draw_from_word(random_word())
}

} // verus!
