//! The performance script: one triad gesture on each root of a key range.
//!
//! The range is clamped: the roots run from the lowest key of the range up to
//! the last one whose fifth is still in the range. A range that is too
//! narrow for one triad gives an empty script.

use crate::chord::{
    build_triad_gesture, is_key, is_note_duration, lemma_triad_gesture_shape, scripted_duration,
    triad_gesture, Cue, Gesture, Panning, Triad, MAX_ROOT, PERFECT_FIFTH,
};
use vstd::prelude::*;

verus! {

/// The number of triads in the key range from `from` to `to`, both
/// included: one on each root whose fifth is at most `to`.
pub open spec fn triad_count(from: u8, to: u8) -> nat {
    if from + PERFECT_FIFTH <= to {
        (to - PERFECT_FIFTH - from + 1) as nat
    } else {
        0
    }
}

/// The triad gestures on `count` successive roots from `first`, one after
/// the other.
pub open spec fn triads_from(first: u8, count: nat, note_duration: u64, panning: Panning) -> Seq<
    Cue,
>
    decreases count,
{
    if count == 0 {
        Seq::empty()
    } else {
        triads_from(first, (count - 1) as nat, note_duration, panning) + triad_gesture(
            (first + count - 1) as u8,
            note_duration,
            panning,
        )
    }
}

/// The script over the key range from `from` to `to`.
pub open spec fn performance_script(from: u8, to: u8, note_duration: u64, panning: Panning) -> Seq<
    Cue,
> {
    triads_from(from, triad_count(from, to), note_duration, panning)
}

/// Yields the triad gestures of a key range one by one, from the lowest root
/// up. It can be restarted, and then yields the same gestures again.
pub struct PerformanceGenerator {
    from: u8,
    to: u8,
    note_duration: u64,
    panning: Panning,
    produced: u8,
}

impl PerformanceGenerator {
    #[verifier::type_invariant]
    spec fn consistent(self) -> bool {
        &&& is_note_duration(self.note_duration)
        &&& self.produced <= triad_count(self.from, self.to)
    }

    /// The lowest key of the range.
    pub closed spec fn from(&self) -> u8 {
        self.from
    }

    /// The highest key of the range.
    pub closed spec fn to(&self) -> u8 {
        self.to
    }

    /// The duration of a note of an arpeggio, in nanoseconds.
    pub closed spec fn note_duration(&self) -> u64 {
        self.note_duration
    }

    /// Where the notes of the arpeggios are placed.
    pub closed spec fn panning(&self) -> Panning {
        self.panning
    }

    /// The number of triads yielded since the start.
    pub closed spec fn produced(&self) -> nat {
        self.produced as nat
    }

    /// Whether both generators go over the same range in the same way.
    pub open spec fn same_range(&self, other: &PerformanceGenerator) -> bool {
        &&& self.from() == other.from()
        &&& self.to() == other.to()
        &&& self.note_duration() == other.note_duration()
        &&& self.panning() == other.panning()
    }

    /// The whole script that the generator goes through.
    pub open spec fn script(&self) -> Seq<Cue> {
        performance_script(self.from(), self.to(), self.note_duration(), self.panning())
    }

    /// A generator at the start of the key range from `from` to `to`.
    pub fn new(from: u8, to: u8, note_duration: u64, panning: Panning) -> (generator:
        PerformanceGenerator)
        requires
            is_note_duration(note_duration),
        ensures
            generator.from() == from,
            generator.to() == to,
            generator.note_duration() == note_duration,
            generator.panning() == panning,
            generator.produced() == 0,
    {
        PerformanceGenerator { from, to, note_duration, panning, produced: 0 }
    }

    /// The number of triads in the range.
    pub fn count(&self) -> (count: u8)
        ensures
            count == triad_count(self.from(), self.to()),
    {
        if self.to >= PERFECT_FIFTH && self.from <= self.to - PERFECT_FIFTH {
            self.to - PERFECT_FIFTH - self.from + 1
        } else {
            0
        }
    }

    /// The number of triads still to come.
    pub fn remaining(&self) -> (remaining: u8)
        ensures
            remaining == triad_count(self.from(), self.to()) - self.produced(),
    {
        proof {
            use_type_invariant(self);
        }
        self.count() - self.produced
    }

    /// Yields the gesture on the next root, or `None` once the range is
    /// through.
    pub fn next_triad(&mut self) -> (next: Option<Vec<Cue>>)
        ensures
            final(self).same_range(old(self)),
            old(self).produced() < triad_count(old(self).from(), old(self).to()) ==> {
                &&& next matches Some(cues)
                &&& cues@ == triad_gesture(
                    (old(self).from() + old(self).produced()) as u8,
                    old(self).note_duration(),
                    old(self).panning(),
                )
                &&& final(self).produced() == old(self).produced() + 1
            },
            old(self).produced() >= triad_count(old(self).from(), old(self).to()) ==> {
                &&& next is None
                &&& final(self).produced() == old(self).produced()
            },
    {
        proof {
            use_type_invariant(&*self);
        }
        if self.produced < self.count() {
            let root: u8 = self.from + self.produced;
            let cues = build_triad_gesture(root, self.note_duration, self.panning);
            self.produced = self.produced + 1;
            Some(cues)
        } else {
            None
        }
    }

    /// Goes back to the start of the range.
    pub fn restart(&mut self)
        ensures
            final(self).same_range(old(self)),
            final(self).produced() == 0,
    {
        proof {
            use_type_invariant(&*self);
        }
        self.produced = 0;
    }

    /// The whole script, from the first root to the last, wherever the
    /// generator stands.
    pub fn collect(&self) -> (script: Vec<Cue>)
        ensures
            script@ == self.script(),
    {
        proof {
            use_type_invariant(self);
        }
        let count: u8 = self.count();
        let mut script: Vec<Cue> = Vec::new();
        let mut i: u8 = 0;
        while i < count
            invariant
                i <= count,
                count == triad_count(self.from, self.to),
                is_note_duration(self.note_duration),
                script@ == triads_from(self.from, i as nat, self.note_duration, self.panning),
            decreases count - i,
        {
            let mut cues = build_triad_gesture(self.from + i, self.note_duration, self.panning);
            script.append(&mut cues);
            i += 1;
        }
        script
    }
}

/// The script over the key range from `from` to `to`: the triad gesture on
/// each root from `from` up to `to - 7`, in order.
pub fn generate_script(from: u8, to: u8, note_duration: u64, panning: Panning) -> (script: Vec<Cue>)
    requires
        is_note_duration(note_duration),
    ensures
        script@ == performance_script(from, to, note_duration, panning),
{
    PerformanceGenerator::new(from, to, note_duration, panning).collect()
}

/// A script of `count` triads has six cues for each and takes eight note
/// durations for each.
pub proof fn lemma_triads_from_shape(first: u8, count: nat, note_duration: u64, panning: Panning)
    requires
        count > 0 ==> first + count <= MAX_ROOT + 1,
        is_note_duration(note_duration),
    ensures
        triads_from(first, count, note_duration, panning).len() == 6 * count,
        scripted_duration(triads_from(first, count, note_duration, panning)) == 8 * count
            * note_duration,
    decreases count,
{
    if count == 0 {
        assert(8 * count * note_duration == 0) by (nonlinear_arith)
            requires
                count == 0,
        ;
    } else {
        let before = triads_from(first, (count - 1) as nat, note_duration, panning);
        let last = triad_gesture((first + count - 1) as u8, note_duration, panning);
        lemma_triads_from_shape(first, (count - 1) as nat, note_duration, panning);
        lemma_triad_gesture_shape((first + count - 1) as u8, note_duration, panning);
        lemma_scripted_duration_adds(before, last);
        assert(8 * (count - 1) * note_duration + 8 * note_duration == 8 * count * note_duration)
            by (nonlinear_arith);
        assert(scripted_duration(before + last) == 8 * count * note_duration);
    }
}

/// The time of two scripts played one after the other is the sum of their
/// times.
pub proof fn lemma_scripted_duration_adds(first: Seq<Cue>, second: Seq<Cue>)
    ensures
        scripted_duration(first + second) == scripted_duration(first) + scripted_duration(second),
    decreases second.len(),
{
    if second.len() == 0 {
        assert(first + second =~= first);
    } else {
        assert((first + second).drop_last() =~= first + second.drop_last());
        lemma_scripted_duration_adds(first, second.drop_last());
    }
}

/// The script over a key range holds as many triads as the range has roots
/// whose fifth is in it: `to - 7 - from + 1`, or none where `to - 7` is below
/// `from`. Each triad is six gestures and eight note durations long.
pub proof fn lemma_script_shape(from: u8, to: u8, note_duration: u64, panning: Panning)
    requires
        is_note_duration(note_duration),
    ensures
        to - 7 < from ==> triad_count(from, to) == 0,
        to - 7 >= from ==> triad_count(from, to) == to - 7 - from + 1,
        performance_script(from, to, note_duration, panning).len() == 6 * triad_count(from, to),
        scripted_duration(performance_script(from, to, note_duration, panning)) == 8 * triad_count(
            from,
            to,
        ) * note_duration,
{
    lemma_triads_from_shape(from, triad_count(from, to), note_duration, panning);
}

/// No key of the script lies outside the range: every root is at least
/// `from`, and every fifth at most `to`. Over a range of keys that the
/// synthesizer addresses, it addresses every key of the script.
pub proof fn lemma_script_keys_in_range(
    from: u8,
    to: u8,
    note_duration: u64,
    panning: Panning,
    i: int,
)
    requires
        is_note_duration(note_duration),
        0 <= i < performance_script(from, to, note_duration, panning).len(),
    ensures
        match performance_script(from, to, note_duration, panning)[i].gesture {
            Gesture::NoteEvent { key, .. } => from <= key <= to && (is_key(to) ==> is_key(key)),
            Gesture::ChordEvent { keys, .. } => from <= keys.root && keys.fifth <= to
                && keys.is_major() && (is_key(to) ==> is_key(keys.root) && is_key(keys.third)
                && is_key(keys.fifth)),
        },
{
    lemma_triads_keys_in_range(from, triad_count(from, to), note_duration, panning, i);
}

/// Every gesture of the script can be played.
pub proof fn lemma_script_well_formed(
    from: u8,
    to: u8,
    note_duration: u64,
    panning: Panning,
    i: int,
)
    requires
        is_note_duration(note_duration),
        0 <= i < performance_script(from, to, note_duration, panning).len(),
    ensures
        performance_script(from, to, note_duration, panning)[i].gesture.well_formed(),
{
    lemma_triads_well_formed(from, triad_count(from, to), note_duration, panning, i);
}

/// Every gesture of `count` triads from `first` can be played.
proof fn lemma_triads_well_formed(
    first: u8,
    count: nat,
    note_duration: u64,
    panning: Panning,
    i: int,
)
    requires
        count > 0 ==> first + count <= MAX_ROOT + 1,
        is_note_duration(note_duration),
        0 <= i < triads_from(first, count, note_duration, panning).len(),
    ensures
        triads_from(first, count, note_duration, panning)[i].gesture.well_formed(),
    decreases count,
{
    if count > 0 {
        let before = triads_from(first, (count - 1) as nat, note_duration, panning);
        let root = (first + count - 1) as u8;
        let last = triad_gesture(root, note_duration, panning);
        lemma_triads_from_shape(first, (count - 1) as nat, note_duration, panning);
        if i < before.len() {
            lemma_triads_well_formed(first, (count - 1) as nat, note_duration, panning, i);
        } else {
            let k = i - before.len();
            lemma_triad_gesture_shape(root, note_duration, panning);
            assert(triads_from(first, count, note_duration, panning)[i] == last[k]);
        }
    }
}

/// No key of `count` triads from `first` lies below `first` or above the
/// fifth of the last root.
proof fn lemma_triads_keys_in_range(
    first: u8,
    count: nat,
    note_duration: u64,
    panning: Panning,
    i: int,
)
    requires
        count > 0 ==> first + count <= MAX_ROOT + 1,
        is_note_duration(note_duration),
        0 <= i < triads_from(first, count, note_duration, panning).len(),
    ensures
        match triads_from(first, count, note_duration, panning)[i].gesture {
            Gesture::NoteEvent { key, .. } => first <= key <= first + count - 1 + PERFECT_FIFTH,
            Gesture::ChordEvent { keys, .. } => first <= keys.root && keys.fifth <= first + count
                - 1 + PERFECT_FIFTH && keys.is_major(),
        },
    decreases count,
{
    if count > 0 {
        let before = triads_from(first, (count - 1) as nat, note_duration, panning);
        let root = (first + count - 1) as u8;
        let last = triad_gesture(root, note_duration, panning);
        lemma_triads_from_shape(first, (count - 1) as nat, note_duration, panning);
        if i < before.len() {
            lemma_triads_keys_in_range(first, (count - 1) as nat, note_duration, panning, i);
        } else {
            let k = i - before.len();
            assert(0 <= k < 6);
            assert(triads_from(first, count, note_duration, panning)[i] == last[k]);
            assert(Triad::major_on(root).is_major());
        }
    }
}

} // verus!
