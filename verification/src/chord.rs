//! Major triads and the gesture built on one: an arpeggio up and down the
//! triad, a rest, and the held chord.

use vstd::prelude::*;

verus! {

/// Semitones from the root of a major triad to its third.
pub const MAJOR_THIRD: u8 = 4;

/// Semitones from the root of a major triad to its fifth.
pub const PERFECT_FIFTH: u8 = 7;

/// The highest root on which a triad can be built: its fifth is the highest
/// key that fits the key type.
pub const MAX_ROOT: u8 = 248;

/// The pan of the notes of an arpeggio that are placed to the left: half of
/// the way from the centre.
pub const PAN_LEFT: i8 = -32;

/// The pan of the notes of an arpeggio that are placed to the right.
pub const PAN_RIGHT: i8 = 32;

/// Whether `key` is in the range that the synthesizer addresses.
pub open spec fn is_key(key: u8) -> bool {
    key <= 127
}

/// Whether `pan` is a stereo position: 64 steps to each side of the centre,
/// -64 hard left, 0 the centre, 63 the last step to the right.
pub open spec fn is_pan(pan: i8) -> bool {
    -64 <= pan <= 63
}

/// Three keys that sound as a chord.
#[derive(Clone, Copy, Debug, PartialEq, Eq, Structural)]
pub struct Triad {
    pub root: u8,
    pub third: u8,
    pub fifth: u8,
}

impl Triad {
    /// Whether the triad is major: the third 4, the fifth 7 semitones above
    /// the root.
    pub open spec fn is_major(&self) -> bool {
        self.third == self.root + MAJOR_THIRD && self.fifth == self.root + PERFECT_FIFTH
    }

    /// The keys of the triad, from the root up.
    pub open spec fn keys(&self) -> Seq<u8> {
        seq![self.root, self.third, self.fifth]
    }

    /// The major triad on `root`.
    pub open spec fn major_on(root: u8) -> Triad {
        Triad {
            root,
            third: (root + MAJOR_THIRD) as u8,
            fifth: (root + PERFECT_FIFTH) as u8,
        }
    }

    /// The major triad on `root`.
    pub fn major(root: u8) -> (triad: Triad)
        requires
            root <= MAX_ROOT,
        ensures
            triad == Triad::major_on(root),
            triad.is_major(),
    {
        Triad { root, third: root + MAJOR_THIRD, fifth: root + PERFECT_FIFTH }
    }

    /// The keys of the triad, from the root up.
    pub fn to_vec(&self) -> (keys: Vec<u8>)
        ensures
            keys@ == self.keys(),
    {
        let mut keys: Vec<u8> = Vec::with_capacity(3);
        keys.push(self.root);
        keys.push(self.third);
        keys.push(self.fifth);
        keys
    }
}

/// The keys of the major triad on `key`: the root, its major third and its
/// perfect fifth.
pub fn get_major_chord(key: u8) -> (chord: Vec<u8>)
    requires
        key <= MAX_ROOT,
    ensures
        chord@ == seq![key, (key + 4) as u8, (key + 7) as u8],
{
    Triad::major(key).to_vec()
}

/// A timed musical action. Durations are in nanoseconds.
#[derive(Clone, Copy, Debug, PartialEq, Eq, Structural)]
pub enum Gesture {
    /// One key sounding for `duration`, at the stereo position `pan` if one is
    /// given.
    NoteEvent { key: u8, duration: u64, pan: Option<i8> },
    /// The keys of a triad sounding together for `duration`.
    ChordEvent { keys: Triad, duration: u64 },
}

impl Gesture {
    /// How long the gesture sounds.
    pub open spec fn duration(&self) -> u64 {
        match *self {
            Gesture::NoteEvent { duration, .. } => duration,
            Gesture::ChordEvent { duration, .. } => duration,
        }
    }

    /// Whether the gesture can be played: it lasts, a pan is a stereo
    /// position, and a chord is a major triad.
    pub open spec fn well_formed(&self) -> bool {
        &&& self.duration() > 0
        &&& *self matches Gesture::NoteEvent { pan: Some(pan), .. } ==> is_pan(pan)
        &&& *self matches Gesture::ChordEvent { keys, .. } ==> keys.is_major()
    }
}

/// An entry of a performance script: a gesture and the silence before it.
#[derive(Clone, Copy, Debug, PartialEq, Eq, Structural)]
pub struct Cue {
    /// The silence before the gesture, in nanoseconds; 0 for none.
    pub lead_in: u64,
    pub gesture: Gesture,
}

impl Cue {
    /// The time the cue takes: its silence and its gesture.
    pub open spec fn duration(&self) -> nat {
        (self.lead_in + self.gesture.duration()) as nat
    }
}

/// Where the notes of an arpeggio are placed in the stereo field.
#[derive(Clone, Copy, Debug, PartialEq, Eq, Structural)]
pub enum Panning {
    /// No note carries a pan.
    Off,
    /// The notes alternate between `PAN_LEFT` and `PAN_RIGHT`, the first to
    /// the left.
    Alternating,
}

/// The pan of the note at `position` of an arpeggio.
pub open spec fn pan_at(panning: Panning, position: int) -> Option<i8> {
    match panning {
        Panning::Off => None,
        Panning::Alternating => if position % 2 == 0 {
            Some(PAN_LEFT)
        } else {
            Some(PAN_RIGHT)
        },
    }
}

/// The cue of a note of an arpeggio: no silence before it.
pub open spec fn note_cue(key: u8, duration: u64, pan: Option<i8>) -> Cue {
    Cue { lead_in: 0, gesture: Gesture::NoteEvent { key, duration, pan } }
}

/// The gesture on the major triad on `root`: five notes of `note_duration`
/// each, up the triad and down again, then, after a rest of `note_duration`,
/// the chord held for twice `note_duration`.
pub open spec fn triad_gesture(root: u8, note_duration: u64, panning: Panning) -> Seq<Cue> {
    let triad = Triad::major_on(root);
    seq![
        note_cue(triad.root, note_duration, pan_at(panning, 0)),
        note_cue(triad.third, note_duration, pan_at(panning, 1)),
        note_cue(triad.fifth, note_duration, pan_at(panning, 2)),
        note_cue(triad.third, note_duration, pan_at(panning, 3)),
        note_cue(triad.root, note_duration, pan_at(panning, 4)),
        Cue {
            lead_in: note_duration,
            gesture: Gesture::ChordEvent { keys: triad, duration: (2 * note_duration) as u64 },
        },
    ]
}

/// The time a script takes: the sum of its cues' durations.
pub open spec fn scripted_duration(script: Seq<Cue>) -> nat
    decreases script.len(),
{
    if script.len() == 0 {
        0
    } else {
        scripted_duration(script.drop_last()) + script.last().duration()
    }
}

/// Whether a note duration can be scripted: it is positive, and twice as
/// much, the duration of the held chord, fits the duration type.
pub open spec fn is_note_duration(note_duration: u64) -> bool {
    0 < note_duration <= u64::MAX / 2
}

/// Whether a note duration can be scripted.
pub fn check_note_duration(note_duration: u64) -> (valid: bool)
    ensures
        valid == is_note_duration(note_duration),
{
    0 < note_duration && note_duration <= u64::MAX / 2
}

/// The cue of a note of an arpeggio.
fn arpeggio_note(key: u8, duration: u64, pan: Option<i8>) -> (cue: Cue)
    ensures
        cue == note_cue(key, duration, pan),
{
    Cue { lead_in: 0, gesture: Gesture::NoteEvent { key, duration, pan } }
}

/// Builds the gesture on the major triad on `root`: the arpeggio root, third,
/// fifth, third, root, each note lasting `note_duration`; a rest of
/// `note_duration`; the chord held for twice `note_duration`.
///
/// With `Panning::Alternating` the notes of the arpeggio are placed left and
/// right in turn, the first to the left.
pub fn build_triad_gesture(root: u8, note_duration: u64, panning: Panning) -> (cues: Vec<Cue>)
    requires
        root <= MAX_ROOT,
        is_note_duration(note_duration),
    ensures
        cues@ == triad_gesture(root, note_duration, panning),
{
    let triad = Triad::major(root);
    let (left, right) = match panning {
        Panning::Off => (None, None),
        Panning::Alternating => (Some(PAN_LEFT), Some(PAN_RIGHT)),
    };
    let mut cues: Vec<Cue> = Vec::with_capacity(6);
    cues.push(arpeggio_note(triad.root, note_duration, left));
    cues.push(arpeggio_note(triad.third, note_duration, right));
    cues.push(arpeggio_note(triad.fifth, note_duration, left));
    cues.push(arpeggio_note(triad.third, note_duration, right));
    cues.push(arpeggio_note(triad.root, note_duration, left));
    cues.push(
        Cue {
            lead_in: note_duration,
            gesture: Gesture::ChordEvent { keys: triad, duration: 2 * note_duration },
        },
    );
    cues
}

/// The shape of a triad gesture: six gestures, each well formed, five notes
/// then one chord of twice their duration, and eight note durations in all.
pub proof fn lemma_triad_gesture_shape(root: u8, note_duration: u64, panning: Panning)
    requires
        root <= MAX_ROOT,
        is_note_duration(note_duration),
    ensures
        triad_gesture(root, note_duration, panning).len() == 6,
        forall|i: int|
            0 <= i < 6 ==> (#[trigger] triad_gesture(
                root,
                note_duration,
                panning,
            )[i]).gesture.well_formed(),
        forall|i: int|
            0 <= i < 5 ==> (#[trigger] triad_gesture(root, note_duration, panning)[i]).gesture
                is NoteEvent,
        triad_gesture(root, note_duration, panning)[5].gesture == (Gesture::ChordEvent {
            keys: Triad::major_on(root),
            duration: (2 * note_duration) as u64,
        }),
        scripted_duration(triad_gesture(root, note_duration, panning)) == 8 * note_duration,
{
    let script = triad_gesture(root, note_duration, panning);
    let s5 = script.drop_last();
    let s4 = s5.drop_last();
    let s3 = s4.drop_last();
    let s2 = s3.drop_last();
    let s1 = s2.drop_last();
    let s0 = s1.drop_last();
    assert(s0.len() == 0);
    assert(scripted_duration(s0) == 0);
    assert(scripted_duration(s1) == note_duration);
    assert(scripted_duration(s2) == 2 * note_duration);
    assert(scripted_duration(s3) == 3 * note_duration);
    assert(scripted_duration(s4) == 4 * note_duration);
    assert(scripted_duration(s5) == 5 * note_duration);
}

} // verus!
