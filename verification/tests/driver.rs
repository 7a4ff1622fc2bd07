use triad_player::chord::{build_triad_gesture, Cue, Gesture, Panning, Triad};
use triad_player::driver::{
    Action, DriverError, DriverKind, DriverState, EngineEvent, PlaybackDriver, PAN_CONTROLLER,
    VELOCITY,
};
use triad_player::script::generate_script;

const NOTE: u64 = 700_000_000;

fn ready(kind: DriverKind) -> PlaybackDriver {
    let mut driver = PlaybackDriver::new(kind);
    assert_eq!(driver.load_instrument(true), Ok(()));
    driver
}

fn on(key: u8) -> Action {
    Action::Emit(EngineEvent::NoteOn { key, velocity: 127 })
}

fn off(key: u8) -> Action {
    Action::Emit(EngineEvent::NoteOff { key })
}

fn events(actions: &[Action]) -> Vec<EngineEvent> {
    actions
        .iter()
        .filter_map(|action| match action {
            Action::Emit(event) => Some(*event),
            _ => None,
        })
        .collect()
}

fn advanced(actions: &[Action]) -> u128 {
    actions
        .iter()
        .map(|action| match action {
            Action::Sleep(duration) | Action::Render(duration) => *duration as u128,
            _ => 0,
        })
        .sum()
}

#[test]
fn a_new_driver_has_no_instrument() {
    let driver = PlaybackDriver::new(DriverKind::Realtime);
    assert_eq!(driver.current_state(), DriverState::Unloaded);
    assert_eq!(driver.current_kind(), DriverKind::Realtime);
    assert_eq!(PlaybackDriver::new(DriverKind::Offline).current_kind(), DriverKind::Offline);
}

#[test]
fn a_loaded_instrument_lets_the_run_begin() {
    let mut driver = PlaybackDriver::new(DriverKind::Offline);
    assert_eq!(driver.load_instrument(true), Ok(()));
    assert_eq!(driver.current_state(), DriverState::InstrumentLoaded);
}

#[test]
fn a_failed_load_is_fatal_and_plays_nothing() {
    let mut driver = PlaybackDriver::new(DriverKind::Realtime);
    assert_eq!(driver.load_instrument(false), Err(DriverError::InstrumentLoadFailure));
    assert_eq!(driver.current_state(), DriverState::Unloaded);
}

#[test]
fn a_lost_engine_ends_the_run() {
    let mut driver = ready(DriverKind::Realtime);
    driver.note_on(60, 100);
    assert_eq!(driver.engine_lost(), DriverError::EngineCommunicationFailure);
    assert_eq!(driver.current_state(), DriverState::Finalized);
}

#[test]
fn events_are_forwarded_as_given() {
    let mut driver = ready(DriverKind::Realtime);
    assert_eq!(driver.note_on(60, 90), Action::Emit(EngineEvent::NoteOn { key: 60, velocity: 90 }));
    assert_eq!(driver.current_state(), DriverState::Playing);
    assert_eq!(driver.note_off(60), Action::Emit(EngineEvent::NoteOff { key: 60 }));
    assert_eq!(
        driver.control(7, 100),
        Action::Emit(EngineEvent::Control { controller: 7, value: 100 })
    );
}

#[test]
fn realtime_advance_sleeps_and_offline_advance_renders() {
    assert_eq!(ready(DriverKind::Realtime).advance(NOTE), Action::Sleep(NOTE));
    assert_eq!(ready(DriverKind::Offline).advance(NOTE), Action::Render(NOTE));
    assert_eq!(ready(DriverKind::Offline).advance(0), Action::Render(0));
}

#[test]
fn realtime_finalize_is_a_no_op() {
    let mut driver = ready(DriverKind::Realtime);
    assert_eq!(driver.finalize(), None);
    assert_eq!(driver.current_state(), DriverState::Finalized);
}

#[test]
fn offline_finalize_closes_the_container() {
    let mut driver = ready(DriverKind::Offline);
    driver.play_note(60, NOTE, None);
    assert_eq!(driver.finalize(), Some(Action::CloseContainer));
    assert_eq!(driver.current_state(), DriverState::Finalized);
}

#[test]
fn a_note_is_on_wait_off() {
    let mut driver = ready(DriverKind::Realtime);
    assert_eq!(driver.play_note(43, NOTE, None), vec![on(43), Action::Sleep(NOTE), off(43)]);
    assert_eq!(driver.current_state(), DriverState::Playing);
    let mut driver = ready(DriverKind::Offline);
    assert_eq!(driver.play_note(43, NOTE, None), vec![on(43), Action::Render(NOTE), off(43)]);
}

#[test]
fn a_panned_note_sets_the_pan_first() {
    let mut driver = ready(DriverKind::Offline);
    let pan = |value| Action::Emit(EngineEvent::Control { controller: 10, value });
    assert_eq!(
        driver.play_note(43, 5, Some(-32)),
        vec![pan(32), on(43), Action::Render(5), off(43)]
    );
    assert_eq!(driver.play_note(43, 5, Some(32))[0], pan(96));
    assert_eq!(driver.play_note(43, 5, Some(0))[0], pan(64));
    assert_eq!(driver.play_note(43, 5, Some(-64))[0], pan(0));
    assert_eq!(driver.play_note(43, 5, Some(63))[0], pan(127));
    assert_eq!(PAN_CONTROLLER, 10);
    assert_eq!(VELOCITY, 127);
}

#[test]
fn a_chord_sounds_all_keys_over_one_wait() {
    let mut driver = ready(DriverKind::Realtime);
    assert_eq!(
        driver.play_chord(&[43, 47, 50], 2 * NOTE),
        vec![on(43), on(47), on(50), Action::Sleep(2 * NOTE), off(43), off(47), off(50)]
    );
    let mut driver = ready(DriverKind::Offline);
    assert_eq!(
        driver.play_chord(&[60, 64], 9),
        vec![on(60), on(64), Action::Render(9), off(60), off(64)]
    );
}

#[test]
fn a_chord_without_keys_only_waits() {
    let mut driver = ready(DriverKind::Offline);
    assert_eq!(driver.play_chord(&[], 9), vec![Action::Render(9)]);
    assert_eq!(driver.current_state(), DriverState::Playing);
}

#[test]
fn a_gesture_is_played_by_its_variant() {
    let mut driver = ready(DriverKind::Realtime);
    let note = Gesture::NoteEvent { key: 60, duration: 4, pan: None };
    assert_eq!(driver.play_gesture(&note), vec![on(60), Action::Sleep(4), off(60)]);
    let chord = Gesture::ChordEvent { keys: Triad::major(60), duration: 8 };
    assert_eq!(
        driver.play_gesture(&chord),
        vec![on(60), on(64), on(67), Action::Sleep(8), off(60), off(64), off(67)]
    );
}

#[test]
fn a_lead_in_is_waited_before_the_gesture() {
    let mut driver = ready(DriverKind::Offline);
    let cue = Cue { lead_in: 3, gesture: Gesture::NoteEvent { key: 60, duration: 4, pan: None } };
    assert_eq!(
        driver.perform(&[cue]),
        vec![Action::Render(3), on(60), Action::Render(4), off(60)]
    );
    assert!(driver.perform(&[]).is_empty());
    assert_eq!(driver.current_state(), DriverState::Playing);
}

#[test]
fn single_triad_rooted_at_key_43() {
    let script = build_triad_gesture(43, NOTE, Panning::Off);
    assert_eq!(script.len(), 6);
    let is_note = |cue: &&Cue| matches!(cue.gesture, Gesture::NoteEvent { .. });
    let is_chord = |cue: &&Cue| matches!(cue.gesture, Gesture::ChordEvent { .. });
    let notes = script.iter().filter(is_note).count();
    let chords = script.iter().filter(is_chord).count();
    assert_eq!((notes, chords), (5, 1));

    let mut driver = ready(DriverKind::Realtime);
    let actions = driver.play_triad(43, NOTE, Panning::Off);
    let wait = Action::Sleep(NOTE);
    assert_eq!(
        actions,
        vec![
            on(43), wait, off(43),
            on(47), wait, off(47),
            on(50), wait, off(50),
            on(47), wait, off(47),
            on(43), wait, off(43),
            wait,
            on(43), on(47), on(50), Action::Sleep(2 * NOTE), off(43), off(47), off(50),
        ]
    );
    assert_eq!(advanced(&actions), 5_600_000_000);
    assert_eq!(advanced(&actions), 5 * NOTE as u128 + NOTE as u128 + 2 * NOTE as u128);
    assert_eq!(driver.perform(&script), actions);
}

#[test]
fn both_kinds_emit_the_same_events_in_the_same_order() {
    for panning in [Panning::Off, Panning::Alternating] {
        let realtime = ready(DriverKind::Realtime).play_triads_from(57, 81, NOTE, panning);
        let offline = ready(DriverKind::Offline).play_triads_from(57, 81, NOTE, panning);
        assert_eq!(events(&realtime), events(&offline));
        assert_eq!(advanced(&realtime), advanced(&offline));
        assert_eq!(realtime.len(), offline.len());
        for (a, b) in realtime.iter().zip(offline.iter()) {
            match (a, b) {
                (Action::Sleep(slept), Action::Render(rendered)) => assert_eq!(slept, rendered),
                (Action::Emit(_), Action::Emit(_)) => assert_eq!(a, b),
                other => panic!("actions differ in more than the way of waiting: {:?}", other),
            }
        }
        assert!(!events(&realtime).is_empty());
    }
}

#[test]
fn a_range_is_played_triad_by_triad() {
    let mut driver = ready(DriverKind::Offline);
    let actions = driver.play_triads_from(60, 69, 100, Panning::Off);
    let mut expected = Vec::new();
    for root in 60..=62u8 {
        expected.extend(ready(DriverKind::Offline).play_triad(root, 100, Panning::Off));
    }
    assert_eq!(actions, expected);
    assert_eq!(advanced(&actions), 3 * 8 * 100);
    let script = generate_script(60, 69, 100, Panning::Off);
    assert_eq!(ready(DriverKind::Offline).perform(&script), actions);
}

#[test]
fn an_empty_range_plays_nothing() {
    let mut driver = ready(DriverKind::Realtime);
    assert!(driver.play_triads_from(60, 66, 100, Panning::Off).is_empty());
    assert!(driver.play_triads_from(3, 2, 100, Panning::Off).is_empty());
    assert_eq!(driver.finalize(), None);
}

#[test]
fn panned_triad_places_each_note_of_the_arpeggio() {
    let mut driver = ready(DriverKind::Offline);
    let actions = driver.play_triad(43, 10, Panning::Alternating);
    let pans: Vec<u8> = events(&actions)
        .iter()
        .filter_map(|event| match event {
            EngineEvent::Control { controller: 10, value } => Some(*value),
            _ => None,
        })
        .collect();
    assert_eq!(pans, vec![32, 96, 32, 96, 32]);
    assert_eq!(advanced(&actions), 80);
}
