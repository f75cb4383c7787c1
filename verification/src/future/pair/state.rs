//! The state word of a paired future: the future's state in bits 0 to 3, the
//! wait strategy in bits 4 to 7, and the number of live handles above them.

use vstd::prelude::*;

verus! {

// Future state
pub const STATE_MASK: usize = 0x0f;

pub const PENDING: usize = 0x00;

pub const COMPLETE: usize = 0x01;

pub const CANCELED: usize = 0x02;

pub const CONSUMED: usize = 0x03;

// Wait state
pub const WAIT_MASK: usize = 0xf0;

pub const SYNC: usize = 0x10;

/// The word of a new pair: two handles, pending, nobody waits.
pub const INITIAL: usize = 0x0200;

/// One handle, as it counts in the word.
pub const ONE_REF: usize = 0x0100;

/// The future's state in `state`: `PENDING`, `COMPLETE`, `CANCELED` or
/// `CONSUMED` in a word that this module made.
pub open spec fn phase(state: usize) -> int {
    state as int % 16
}

/// The wait strategy in `state`: 0 where nobody waits, 1 where the consumer
/// sleeps.
pub open spec fn waiting(state: usize) -> int {
    (state as int / 16) % 16
}

/// The number of handles in `state`.
pub open spec fn ref_count(state: usize) -> int {
    state as int / 256
}

/// The word with the given parts.
pub open spec fn word(refs: int, waiting: int, phase: int) -> int {
    refs * 256 + waiting * 16 + phase
}

/// A word is made of its three parts.
pub proof fn lemma_word_parts(state: usize)
    ensures
        state == word(ref_count(state), waiting(state), phase(state)),
        0 <= phase(state) < 16,
        0 <= waiting(state) < 16,
        0 <= ref_count(state),
{
}

/// Whether or not the future has been completed
pub fn is_complete(state: usize) -> (b: bool)
    ensures
        b == (phase(state) == COMPLETE),
{
    assert(state & 0x0f == state % 16) by (bit_vector);
    state & STATE_MASK == COMPLETE
}

/// Whether or not the future has been canceled
pub fn is_canceled(state: usize) -> (b: bool)
    ensures
        b == (phase(state) == CANCELED),
{
    assert(state & 0x0f == state % 16) by (bit_vector);
    state & STATE_MASK == CANCELED
}

/// Whether or not the wait strategy has been set
pub fn is_waiting(state: usize) -> (b: bool)
    ensures
        b == (waiting(state) > 0),
{
    assert(state & 0xf0 == ((state / 16) % 16) * 16) by (bit_vector);
    state & WAIT_MASK > 0
}

/// Track that the future was consumed
pub fn as_consumed(state: usize) -> (new: usize)
    ensures
        new == word(ref_count(state), waiting(state), CONSUMED as int),
        phase(new) == CONSUMED,
        waiting(new) == waiting(state),
        ref_count(new) == ref_count(state),
{
    assert((state & !0x0fusize) | 0x03 == (state / 16) * 16 + 3) by (bit_vector);
    (state & (!STATE_MASK)) | CONSUMED
}

pub fn is_wait_sync(state: usize) -> (b: bool)
    ensures
        b == (waiting(state) == 1),
{
    assert(state & 0xf0 == ((state / 16) % 16) * 16) by (bit_vector);
    state & WAIT_MASK == SYNC
}

/// Track that the future is waiting synchronously for the result
pub fn as_wait_sync(state: usize) -> (new: usize)
    ensures
        new == word(ref_count(state), 1, phase(state)),
        phase(new) == phase(state),
        waiting(new) == 1,
        ref_count(new) == ref_count(state),
{
    assert((state & !0xf0usize) | 0x10 == (state / 256) * 256 + 16 + state % 16) by (bit_vector);
    (state & (!WAIT_MASK)) | SYNC
}

/// A new pair has two handles, is pending, and nobody waits.
pub proof fn lemma_initial()
    ensures
        phase(INITIAL) == PENDING,
        waiting(INITIAL) == 0,
        ref_count(INITIAL) == 2,
{
}

/// A pending word is not the largest word.
proof fn lemma_pending_has_room(prev: usize)
    requires
        phase(prev) == PENDING,
    ensures
        prev + 15 <= usize::MAX,
{
    assert(usize::MAX == 0xffff_ffff || usize::MAX == 0xffff_ffff_ffff_ffff) by {
        assert(usize::BITS == 32 || usize::BITS == 64);
    }
    let top: int = usize::MAX as int;
    assert(top % 16 == 15);
    assert(prev as int % 16 == 0);
    assert(prev + 15 <= top) by {
        if prev + 15 > top {
            assert(top - prev < 15 && top - prev >= 0);
            assert((top - prev) % 16 == top - prev);
            assert(top % 16 == ((top - prev) + prev) % 16);
        }
    }
}

/// Adding `COMPLETE` to a pending word completes the future and keeps
/// the rest of the word.
pub proof fn lemma_complete_word(prev: usize)
    requires
        phase(prev) == PENDING,
    ensures
        prev + COMPLETE <= usize::MAX,
        phase((prev + COMPLETE) as usize) == COMPLETE,
        waiting((prev + COMPLETE) as usize) == waiting(prev),
        ref_count((prev + COMPLETE) as usize) == ref_count(prev),
{
    lemma_pending_has_room(prev);
}

/// Adding `CANCELED` to a pending word cancels the future and keeps the
/// rest of the word.
pub proof fn lemma_cancel_word(prev: usize)
    requires
        phase(prev) == PENDING,
    ensures
        prev + CANCELED <= usize::MAX,
        phase((prev + CANCELED) as usize) == CANCELED,
        waiting((prev + CANCELED) as usize) == waiting(prev),
        ref_count((prev + CANCELED) as usize) == ref_count(prev),
{
    lemma_pending_has_room(prev);
}

/// Taking `ONE_REF` from a word that counts a handle counts one handle
/// less and keeps the rest of the word.
pub proof fn lemma_release_word(prev: usize)
    requires
        ref_count(prev) >= 1,
    ensures
        prev - ONE_REF >= 0,
        phase((prev - ONE_REF) as usize) == phase(prev),
        waiting((prev - ONE_REF) as usize) == waiting(prev),
        ref_count((prev - ONE_REF) as usize) == ref_count(prev) - 1,
{
}

} // verus!
