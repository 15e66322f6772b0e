//! The pool of voices: who is ringing, and which voice a new note takes.
//!
//! A new note takes the first idle voice in pool order.  Where every voice
//! is ringing it takes the quietest one, and among equally quiet voices the
//! first.

use vstd::prelude::*;
use crate::voice::Voice;

verus! {

/// Number of voices ringing among `voices`.
pub open spec fn active_count(voices: Seq<Voice>) -> nat
    decreases voices.len(),
{
    if voices.len() == 0 {
        0
    } else {
        active_count(voices.drop_last()) + if voices.last().active {
            1nat
        } else {
            0nat
        }
    }
}

/// Every voice is ringing.
pub open spec fn all_active(voices: Seq<Voice>) -> bool {
    forall|j: int| 0 <= j < voices.len() ==> (#[trigger] voices[j]).active
}

/// `slot` is the first idle voice.
pub open spec fn is_first_idle(voices: Seq<Voice>, slot: int) -> bool {
    &&& 0 <= slot < voices.len()
    &&& !voices[slot].active
    &&& forall|j: int| 0 <= j < slot ==> (#[trigger] voices[j]).active
}

/// `slot` is the first among the voices of lowest level.
pub open spec fn is_quietest(voices: Seq<Voice>, slot: int) -> bool {
    &&& 0 <= slot < voices.len()
    &&& forall|j: int| 0 <= j < voices.len() ==> voices[slot].level <= (#[trigger] voices[j]).level
    &&& forall|j: int| 0 <= j < slot ==> voices[slot].level < (#[trigger] voices[j]).level
}

/// `slot` is the voice that a new note takes.
pub open spec fn is_target(voices: Seq<Voice>, slot: int) -> bool {
    is_first_idle(voices, slot) || (all_active(voices) && is_quietest(voices, slot))
}

/// Not more voices ring than there are.
pub proof fn lemma_active_count_bound(voices: Seq<Voice>)
    ensures
        active_count(voices) <= voices.len(),
    decreases voices.len(),
{
    if voices.len() > 0 {
        lemma_active_count_bound(voices.drop_last());
    }
}

/// The count reaches the number of voices exactly when all of them ring.
pub proof fn lemma_active_count_full(voices: Seq<Voice>)
    ensures
        active_count(voices) == voices.len() <==> all_active(voices),
    decreases voices.len(),
{
    if voices.len() > 0 {
        let front = voices.drop_last();
        lemma_active_count_full(front);
        lemma_active_count_bound(front);
        if all_active(voices) {
            assert forall|j: int| 0 <= j < front.len() implies (#[trigger] front[j]).active by {
            }
        }
        if active_count(voices) == voices.len() {
            assert forall|j: int| 0 <= j < voices.len() implies (#[trigger] voices[j]).active by {
                if j < front.len() {
                    assert(front[j].active);
                }
            }
        }
    }
}

/// The count is zero exactly when no voice rings.
pub proof fn lemma_active_count_zero(voices: Seq<Voice>)
    ensures
        active_count(voices) == 0 <==> forall|j: int|
            0 <= j < voices.len() ==> !(#[trigger] voices[j]).active,
    decreases voices.len(),
{
    if voices.len() > 0 {
        let front = voices.drop_last();
        lemma_active_count_zero(front);
        if forall|j: int| 0 <= j < voices.len() ==> !(#[trigger] voices[j]).active {
            assert forall|j: int| 0 <= j < front.len() implies !(#[trigger] front[j]).active by {
            }
        }
        if active_count(voices) == 0 {
            assert forall|j: int| 0 <= j < voices.len() implies !(#[trigger] voices[j]).active by {
                if j < front.len() {
                    assert(!front[j].active);
                }
            }
        }
    }
}

/// Replacing one voice changes the count by what that voice adds or takes
/// away.
pub proof fn lemma_active_count_update(voices: Seq<Voice>, slot: int, voice: Voice)
    requires
        0 <= slot < voices.len(),
    ensures
        active_count(voices.update(slot, voice)) + (if voices[slot].active {
            1nat
        } else {
            0nat
        }) == active_count(voices) + (if voice.active {
            1nat
        } else {
            0nat
        }),
    decreases voices.len(),
{
    let after = voices.update(slot, voice);
    if slot == voices.len() - 1 {
        assert(after.drop_last() =~= voices.drop_last());
    } else {
        assert(after.drop_last() =~= voices.drop_last().update(slot, voice));
        lemma_active_count_update(voices.drop_last(), slot, voice);
    }
}

/// Only one voice can be the target of a new note.
pub proof fn lemma_target_unique(voices: Seq<Voice>, a: int, b: int)
    requires
        is_target(voices, a),
        is_target(voices, b),
    ensures
        a == b,
{
}

/// Counts the voices that ring.
pub fn count_active(voices: &[Voice]) -> (count: usize)
    ensures
        count == active_count(voices@),
        count <= voices@.len(),
{
    let mut count: usize = 0;
    let mut i: usize = 0;
    while i < voices.len()
        invariant
            i <= voices@.len(),
            count == active_count(voices@.take(i as int)),
            count <= i,
        decreases voices@.len() - i,
    {
        proof {
            assert(voices@.take(i + 1).drop_last() =~= voices@.take(i as int));
        }
        if voices[i].active {
            count = count + 1;
        }
        i = i + 1;
    }
    proof {
        assert(voices@.take(i as int) =~= voices@);
    }
    count
}

/// Finds the voice that a new note takes.  A pool without voices has none.
pub fn select_voice(voices: &[Voice]) -> (target: Option<usize>)
    ensures
        voices@.len() == 0 <==> target.is_none(),
        target matches Some(slot) ==> is_target(voices@, slot as int),
{
    if voices.len() == 0 {
        return None;
    }
    let mut i: usize = 0;
    while i < voices.len()
        invariant
            i <= voices@.len(),
            forall|j: int| 0 <= j < i ==> (#[trigger] voices@[j]).active,
        decreases voices@.len() - i,
    {
        if !voices[i].active {
            return Some(i);
        }
        i = i + 1;
    }
    let mut best: usize = 0;
    let mut k: usize = 1;
    while k < voices.len()
        invariant
            1 <= k <= voices@.len(),
            best < k,
            forall|j: int|
                0 <= j < k ==> voices@[best as int].level <= (#[trigger] voices@[j]).level,
            forall|j: int|
                0 <= j < best ==> voices@[best as int].level < (#[trigger] voices@[j]).level,
        decreases voices@.len() - k,
    {
        if voices[k].level < voices[best].level {
            best = k;
        }
        k = k + 1;
    }
    Some(best)
}

} // verus!
