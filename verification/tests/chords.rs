use triad_player::chord::{
    build_triad_gesture, check_note_duration, get_major_chord, Cue, Gesture, Panning, Triad,
    MAX_ROOT, PAN_LEFT, PAN_RIGHT,
};

fn note(key: u8, duration: u64, pan: Option<i8>) -> Cue {
    Cue { lead_in: 0, gesture: Gesture::NoteEvent { key, duration, pan } }
}

#[test]
fn major_chord_is_root_third_fifth() {
    assert_eq!(get_major_chord(60), vec![60, 64, 67]);
    assert_eq!(get_major_chord(43), vec![43, 47, 50]);
}

#[test]
fn major_chord_on_every_root() {
    for root in 0..=MAX_ROOT {
        assert_eq!(get_major_chord(root), vec![root, root + 4, root + 7]);
    }
}

#[test]
fn major_chord_on_the_lowest_and_highest_root() {
    assert_eq!(get_major_chord(0), vec![0, 4, 7]);
    assert_eq!(get_major_chord(248), vec![248, 252, 255]);
}

#[test]
fn triad_holds_the_keys_of_the_chord() {
    let triad = Triad::major(57);
    assert_eq!(triad, Triad { root: 57, third: 61, fifth: 64 });
    assert_eq!(triad.to_vec(), get_major_chord(57));
}

#[test]
fn triad_gesture_is_arpeggio_rest_chord() {
    let cues = build_triad_gesture(60, 500, Panning::Off);
    assert_eq!(
        cues,
        vec![
            note(60, 500, None),
            note(64, 500, None),
            note(67, 500, None),
            note(64, 500, None),
            note(60, 500, None),
            Cue {
                lead_in: 500,
                gesture: Gesture::ChordEvent {
                    keys: Triad { root: 60, third: 64, fifth: 67 },
                    duration: 1000,
                },
            },
        ]
    );
}

#[test]
fn triad_gesture_has_five_notes_then_one_chord_on_every_root() {
    for root in 0..=MAX_ROOT {
        let cues = build_triad_gesture(root, 3, Panning::Off);
        assert_eq!(cues.len(), 6);
        let order = [root, root + 4, root + 7, root + 4, root];
        for (cue, key) in cues.iter().zip(order) {
            assert_eq!(*cue, note(key, 3, None));
        }
        assert_eq!(cues[5].lead_in, 3);
        assert_eq!(
            cues[5].gesture,
            Gesture::ChordEvent { keys: Triad::major(root), duration: 6 }
        );
    }
}

#[test]
fn alternating_pan_starts_left_and_flips_after_each_note() {
    let cues = build_triad_gesture(43, 10, Panning::Alternating);
    let pans: Vec<Option<i8>> = cues
        .iter()
        .take(5)
        .map(|cue| match cue.gesture {
            Gesture::NoteEvent { pan, .. } => pan,
            Gesture::ChordEvent { .. } => panic!("a chord in the arpeggio"),
        })
        .collect();
    assert_eq!(pans, vec![Some(-32), Some(32), Some(-32), Some(32), Some(-32)]);
    assert_eq!(PAN_LEFT, -PAN_RIGHT);
    assert!(matches!(cues[5].gesture, Gesture::ChordEvent { .. }));
}

#[test]
fn panning_changes_nothing_but_the_pans() {
    let plain = build_triad_gesture(43, 10, Panning::Off);
    let panned = build_triad_gesture(43, 10, Panning::Alternating);
    assert_eq!(plain.len(), panned.len());
    for (a, b) in plain.iter().zip(panned.iter()) {
        assert_eq!(a.lead_in, b.lead_in);
        match (a.gesture, b.gesture) {
            (
                Gesture::NoteEvent { key: k1, duration: d1, pan: None },
                Gesture::NoteEvent { key: k2, duration: d2, pan: Some(_) },
            ) => {
                assert_eq!((k1, d1), (k2, d2));
            }
            (g1 @ Gesture::ChordEvent { .. }, g2) => assert_eq!(g1, g2),
            other => panic!("unexpected pair {:?}", other),
        }
    }
}

#[test]
fn chord_lasts_twice_the_note_at_the_longest_duration() {
    let longest = u64::MAX / 2;
    let cues = build_triad_gesture(0, longest, Panning::Off);
    assert_eq!(cues[5].lead_in, longest);
    assert_eq!(
        cues[5].gesture,
        Gesture::ChordEvent { keys: Triad { root: 0, third: 4, fifth: 7 }, duration: u64::MAX - 1 }
    );
}

#[test]
fn note_durations_are_positive_and_can_be_doubled() {
    assert!(!check_note_duration(0));
    assert!(check_note_duration(1));
    assert!(check_note_duration(700_000_000));
    assert!(check_note_duration(u64::MAX / 2));
    assert!(!check_note_duration(u64::MAX / 2 + 1));
    assert!(!check_note_duration(u64::MAX));
}
