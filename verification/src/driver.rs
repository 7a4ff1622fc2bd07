//! The playback driver: it turns a performance script into the actions to
//! carry out against the synthesis engine, and keeps the state of the run.
//!
//! The driver decides; it performs nothing. Its caller carries each action
//! out, in order: it sends the events to the engine, and it lets the time
//! pass. A realtime driver lets wall-clock time pass while the engine plays;
//! an offline driver has the engine render that much audio into its
//! container. The two differ in nothing else.

use crate::chord::{
    build_triad_gesture, is_note_duration, is_pan, lemma_triad_gesture_shape, scripted_duration,
    triad_gesture, Cue, Gesture, Panning, MAX_ROOT,
};
use crate::script::{generate_script, lemma_script_well_formed, performance_script};
use vstd::prelude::*;

verus! {

/// The velocity of every note.
pub const VELOCITY: u8 = 127;

/// The controller that places a channel in the stereo field.
pub const PAN_CONTROLLER: u8 = 10;

/// The value of the pan controller at the centre.
pub const PAN_CENTRE: u8 = 64;

/// How a driver lets time pass.
#[derive(Clone, Copy, Debug, PartialEq, Eq, Structural)]
pub enum DriverKind {
    /// The engine plays live; the driver waits in wall-clock time.
    Realtime,
    /// The engine renders into a container; no time passes but that of the
    /// computation.
    Offline,
}

/// Where a run stands.
#[derive(Clone, Copy, Debug, PartialEq, Eq, Structural)]
pub enum DriverState {
    /// No instrument is attached.
    Unloaded,
    /// An instrument is attached; nothing was played yet.
    InstrumentLoaded,
    /// Gestures are being played.
    Playing,
    /// The run is over. Terminal.
    Finalized,
}

/// A fatal condition of a run.
#[derive(Clone, Copy, Debug, PartialEq, Eq, Structural)]
pub enum DriverError {
    /// The instrument bank could not be attached. No gesture was played.
    InstrumentLoadFailure,
    /// The engine could not be reached in the middle of the performance.
    EngineCommunicationFailure,
}

/// An event for the synthesis engine.
#[derive(Clone, Copy, Debug, PartialEq, Eq, Structural)]
pub enum EngineEvent {
    NoteOn { key: u8, velocity: u8 },
    NoteOff { key: u8 },
    Control { controller: u8, value: u8 },
}

/// What the caller of a driver is to carry out. Durations are in
/// nanoseconds.
#[derive(Clone, Copy, Debug, PartialEq, Eq, Structural)]
pub enum Action {
    /// Send the event to the engine.
    Emit(EngineEvent),
    /// Block for this long in wall-clock time.
    Sleep(u64),
    /// Have the engine render this much audio into the container.
    Render(u64),
    /// Flush and close the container. It can be read only after this.
    CloseContainer,
}

/// The action that lets `duration` pass.
pub open spec fn advance_action(kind: DriverKind, duration: u64) -> Action {
    match kind {
        DriverKind::Realtime => Action::Sleep(duration),
        DriverKind::Offline => Action::Render(duration),
    }
}

/// The event that places the channel at `pan`.
pub open spec fn pan_event(pan: i8) -> EngineEvent {
    EngineEvent::Control { controller: PAN_CONTROLLER, value: (PAN_CENTRE + pan) as u8 }
}

/// The actions of a note: the pan if one is given, the note on, the time of
/// its duration, the note off.
pub open spec fn note_actions(kind: DriverKind, key: u8, duration: u64, pan: Option<i8>) -> Seq<
    Action,
> {
    let sounding = seq![
        Action::Emit(EngineEvent::NoteOn { key, velocity: VELOCITY }),
        advance_action(kind, duration),
        Action::Emit(EngineEvent::NoteOff { key }),
    ];
    match pan {
        Some(pan) => seq![Action::Emit(pan_event(pan))] + sounding,
        None => sounding,
    }
}

/// A note on for each key, in order.
pub open spec fn note_ons(keys: Seq<u8>) -> Seq<Action> {
    Seq::new(
        keys.len(),
        |i: int| Action::Emit(EngineEvent::NoteOn { key: keys[i], velocity: VELOCITY }),
    )
}

/// A note off for each key, in order.
pub open spec fn note_offs(keys: Seq<u8>) -> Seq<Action> {
    Seq::new(keys.len(), |i: int| Action::Emit(EngineEvent::NoteOff { key: keys[i] }))
}

/// The actions of a chord: every note on, then the time of its duration, once,
/// then every note off.
pub open spec fn chord_actions(kind: DriverKind, keys: Seq<u8>, duration: u64) -> Seq<Action> {
    note_ons(keys) + seq![advance_action(kind, duration)] + note_offs(keys)
}

/// The actions of a gesture.
pub open spec fn gesture_actions(kind: DriverKind, gesture: Gesture) -> Seq<Action> {
    match gesture {
        Gesture::NoteEvent { key, duration, pan } => note_actions(kind, key, duration, pan),
        Gesture::ChordEvent { keys, duration } => chord_actions(kind, keys.keys(), duration),
    }
}

/// The actions of a cue: the time of its silence, if it has one, then its
/// gesture.
pub open spec fn cue_actions(kind: DriverKind, cue: Cue) -> Seq<Action> {
    if cue.lead_in > 0 {
        seq![advance_action(kind, cue.lead_in)] + gesture_actions(kind, cue.gesture)
    } else {
        gesture_actions(kind, cue.gesture)
    }
}

/// The actions of a script: those of its cues, strictly in order.
pub open spec fn script_actions(kind: DriverKind, script: Seq<Cue>) -> Seq<Action>
    decreases script.len(),
{
    if script.len() == 0 {
        Seq::empty()
    } else {
        script_actions(kind, script.drop_last()) + cue_actions(kind, script.last())
    }
}

/// The events among the actions, in order.
pub open spec fn events_of(actions: Seq<Action>) -> Seq<EngineEvent>
    decreases actions.len(),
{
    if actions.len() == 0 {
        Seq::empty()
    } else {
        match actions.last() {
            Action::Emit(event) => events_of(actions.drop_last()).push(event),
            _ => events_of(actions.drop_last()),
        }
    }
}

/// The time that the actions let pass, in nanoseconds.
pub open spec fn time_advanced(actions: Seq<Action>) -> nat
    decreases actions.len(),
{
    if actions.len() == 0 {
        0
    } else {
        time_advanced(actions.drop_last()) + match actions.last() {
            Action::Sleep(duration) => duration as nat,
            Action::Render(duration) => duration as nat,
            _ => 0,
        }
    }
}

/// Whether every cue of the script can be played.
pub open spec fn playable(script: Seq<Cue>) -> bool {
    forall|i: int| 0 <= i < script.len() ==> (#[trigger] script[i]).gesture.well_formed()
}

/// A playback driver: its kind, chosen once, and the state of its run.
pub struct PlaybackDriver {
    kind: DriverKind,
    state: DriverState,
}

impl PlaybackDriver {
    /// How the driver lets time pass.
    pub closed spec fn kind(&self) -> DriverKind {
        self.kind
    }

    /// Where the run stands.
    pub closed spec fn state(&self) -> DriverState {
        self.state
    }

    /// Whether the driver accepts events and gestures: an instrument is
    /// attached and the run is not over.
    pub open spec fn can_play(&self) -> bool {
        self.state() == DriverState::InstrumentLoaded || self.state() == DriverState::Playing
    }

    /// A driver of the given kind, with no instrument attached.
    pub fn new(kind: DriverKind) -> (driver: PlaybackDriver)
        ensures
            driver.kind() == kind,
            driver.state() == DriverState::Unloaded,
    {
        PlaybackDriver { kind, state: DriverState::Unloaded }
    }

    /// How the driver lets time pass.
    pub fn current_kind(&self) -> (kind: DriverKind)
        ensures
            kind == self.kind(),
    {
        self.kind
    }

    /// Where the run stands.
    pub fn current_state(&self) -> (state: DriverState)
        ensures
            state == self.state(),
    {
        self.state
    }

    /// Takes note of whether the instrument bank was attached. If it was not,
    /// the run cannot go on: the failure is reported and the driver stays
    /// without an instrument.
    pub fn load_instrument(&mut self, loaded: bool) -> (res: Result<(), DriverError>)
        requires
            old(self).state() == DriverState::Unloaded,
        ensures
            final(self).kind() == old(self).kind(),
            loaded ==> res is Ok && final(self).state() == DriverState::InstrumentLoaded,
            !loaded ==> res == Err::<(), DriverError>(DriverError::InstrumentLoadFailure)
                && final(self).state() == DriverState::Unloaded,
    {
        if loaded {
            self.state = DriverState::InstrumentLoaded;
            Ok(())
        } else {
            Err(DriverError::InstrumentLoadFailure)
        }
    }

    /// Takes note that the engine could not be reached. The run is over.
    pub fn engine_lost(&mut self) -> (error: DriverError)
        requires
            old(self).can_play(),
        ensures
            error == DriverError::EngineCommunicationFailure,
            final(self).kind() == old(self).kind(),
            final(self).state() == DriverState::Finalized,
    {
        self.state = DriverState::Finalized;
        DriverError::EngineCommunicationFailure
    }

    /// Starts a note.
    pub fn note_on(&mut self, key: u8, velocity: u8) -> (action: Action)
        requires
            old(self).can_play(),
        ensures
            action == Action::Emit(EngineEvent::NoteOn { key, velocity }),
            final(self).kind() == old(self).kind(),
            final(self).state() == DriverState::Playing,
    {
        self.state = DriverState::Playing;
        Action::Emit(EngineEvent::NoteOn { key, velocity })
    }

    /// Ends a note.
    pub fn note_off(&mut self, key: u8) -> (action: Action)
        requires
            old(self).can_play(),
        ensures
            action == Action::Emit(EngineEvent::NoteOff { key }),
            final(self).kind() == old(self).kind(),
            final(self).state() == DriverState::Playing,
    {
        self.state = DriverState::Playing;
        Action::Emit(EngineEvent::NoteOff { key })
    }

    /// Sets a controller of the channel.
    pub fn control(&mut self, controller: u8, value: u8) -> (action: Action)
        requires
            old(self).can_play(),
        ensures
            action == Action::Emit(EngineEvent::Control { controller, value }),
            final(self).kind() == old(self).kind(),
            final(self).state() == DriverState::Playing,
    {
        self.state = DriverState::Playing;
        Action::Emit(EngineEvent::Control { controller, value })
    }

    /// Lets `duration` pass: a realtime driver sleeps, an offline driver
    /// renders.
    pub fn advance(&mut self, duration: u64) -> (action: Action)
        requires
            old(self).can_play(),
        ensures
            action == advance_action(old(self).kind(), duration),
            final(self).kind() == old(self).kind(),
            final(self).state() == DriverState::Playing,
    {
        self.state = DriverState::Playing;
        match self.kind {
            DriverKind::Realtime => Action::Sleep(duration),
            DriverKind::Offline => Action::Render(duration),
        }
    }

    /// Ends the run. A realtime driver has nothing left to do: its output
    /// was delivered live. An offline driver closes its container.
    pub fn finalize(&mut self) -> (action: Option<Action>)
        requires
            old(self).can_play(),
        ensures
            action == match old(self).kind() {
                DriverKind::Realtime => None,
                DriverKind::Offline => Some(Action::CloseContainer),
            },
            final(self).kind() == old(self).kind(),
            final(self).state() == DriverState::Finalized,
    {
        self.state = DriverState::Finalized;
        match self.kind {
            DriverKind::Realtime => None,
            DriverKind::Offline => Some(Action::CloseContainer),
        }
    }

    /// Plays one key for `duration`, at the stereo position `pan` if one is
    /// given.
    pub fn play_note(&mut self, key: u8, duration: u64, pan: Option<i8>) -> (actions: Vec<Action>)
        requires
            old(self).can_play(),
            pan matches Some(p) ==> is_pan(p),
        ensures
            actions@ == note_actions(old(self).kind(), key, duration, pan),
            final(self).kind() == old(self).kind(),
            final(self).state() == DriverState::Playing,
    {
        let mut actions: Vec<Action> = Vec::with_capacity(4);
        if let Some(p) = pan {
            let value: u8 = (PAN_CENTRE as i16 + p as i16) as u8;
            actions.push(self.control(PAN_CONTROLLER, value));
        }
        actions.push(self.note_on(key, VELOCITY));
        actions.push(self.advance(duration));
        actions.push(self.note_off(key));
        actions
    }

    /// Plays the keys together for `duration`: every note on, one wait, every
    /// note off.
    pub fn play_chord(&mut self, keys: &[u8], duration: u64) -> (actions: Vec<Action>)
        requires
            old(self).can_play(),
        ensures
            actions@ == chord_actions(old(self).kind(), keys@, duration),
            final(self).kind() == old(self).kind(),
            final(self).state() == DriverState::Playing,
    {
        let ghost kind = self.kind();
        let mut actions: Vec<Action> = Vec::new();
        let mut i: usize = 0;
        while i < keys.len()
            invariant
                i <= keys.len(),
                self.can_play(),
                self.kind() == kind,
                actions@ == note_ons(keys@.take(i as int)),
            decreases keys.len() - i,
        {
            actions.push(self.note_on(keys[i], VELOCITY));
            i += 1;
        }
        assert(keys@.take(i as int) =~= keys@);
        actions.push(self.advance(duration));
        let mut j: usize = 0;
        while j < keys.len()
            invariant
                j <= keys.len(),
                self.can_play(),
                self.state() == DriverState::Playing,
                self.kind() == kind,
                actions@ == note_ons(keys@) + seq![advance_action(kind, duration)] + note_offs(
                    keys@.take(j as int),
                ),
            decreases keys.len() - j,
        {
            actions.push(self.note_off(keys[j]));
            j += 1;
        }
        assert(keys@.take(j as int) =~= keys@);
        actions
    }

    /// Plays a gesture.
    pub fn play_gesture(&mut self, gesture: &Gesture) -> (actions: Vec<Action>)
        requires
            old(self).can_play(),
            gesture.well_formed(),
        ensures
            actions@ == gesture_actions(old(self).kind(), *gesture),
            final(self).kind() == old(self).kind(),
            final(self).state() == DriverState::Playing,
    {
        match *gesture {
            Gesture::NoteEvent { key, duration, pan } => self.play_note(key, duration, pan),
            Gesture::ChordEvent { keys, duration } => {
                let keys = keys.to_vec();
                self.play_chord(keys.as_slice(), duration)
            },
        }
    }

    /// Plays a script: its cues strictly in order, each with the silence
    /// before it.
    pub fn perform(&mut self, script: &[Cue]) -> (actions: Vec<Action>)
        requires
            old(self).can_play(),
            playable(script@),
        ensures
            actions@ == script_actions(old(self).kind(), script@),
            final(self).kind() == old(self).kind(),
            final(self).state() == DriverState::Playing,
    {
        let ghost kind = self.kind();
        let mut actions: Vec<Action> = Vec::new();
        self.state = DriverState::Playing;
        let mut i: usize = 0;
        while i < script.len()
            invariant
                i <= script.len(),
                playable(script@),
                self.state() == DriverState::Playing,
                self.kind() == kind,
                actions@ == script_actions(kind, script@.take(i as int)),
            decreases script.len() - i,
        {
            let cue = script[i];
            if cue.lead_in > 0 {
                actions.push(self.advance(cue.lead_in));
            }
            let mut sounding = self.play_gesture(&cue.gesture);
            actions.append(&mut sounding);
            proof {
                assert(script@.take(i + 1).drop_last() =~= script@.take(i as int));
                assert(script@.take(i + 1).last() == cue);
            }
            i += 1;
        }
        assert(script@.take(i as int) =~= script@);
        actions
    }

    /// Plays the gesture on the major triad on `root`.
    pub fn play_triad(&mut self, root: u8, note_duration: u64, panning: Panning) -> (actions: Vec<
        Action,
    >)
        requires
            old(self).can_play(),
            root <= MAX_ROOT,
            is_note_duration(note_duration),
        ensures
            actions@ == script_actions(
                old(self).kind(),
                triad_gesture(root, note_duration, panning),
            ),
            final(self).kind() == old(self).kind(),
            final(self).state() == DriverState::Playing,
    {
        let cues = build_triad_gesture(root, note_duration, panning);
        proof {
            lemma_triad_gesture_shape(root, note_duration, panning);
        }
        self.perform(cues.as_slice())
    }

    /// Plays the script over the key range from `from` to `to`: the triad
    /// gesture on each root from `from` up to `to - 7`.
    pub fn play_triads_from(
        &mut self,
        from: u8,
        to: u8,
        note_duration: u64,
        panning: Panning,
    ) -> (actions: Vec<Action>)
        requires
            old(self).can_play(),
            is_note_duration(note_duration),
        ensures
            actions@ == script_actions(
                old(self).kind(),
                performance_script(from, to, note_duration, panning),
            ),
            final(self).kind() == old(self).kind(),
            final(self).state() == DriverState::Playing,
    {
        let script = generate_script(from, to, note_duration, panning);
        proof {
            assert forall|i: int| 0 <= i < script@.len() implies (#[trigger] script@[i])
                .gesture.well_formed() by {
                lemma_script_well_formed(from, to, note_duration, panning, i);
            }
        }
        self.perform(script.as_slice())
    }
}

/// Within a chord, every note on comes before the one wait, and every note
/// off after it; the keys keep their order on both sides.
pub proof fn lemma_chord_order(kind: DriverKind, keys: Seq<u8>, duration: u64)
    ensures
        chord_actions(kind, keys, duration).len() == 2 * keys.len() + 1,
        forall|i: int|
            0 <= i < keys.len() ==> #[trigger] chord_actions(kind, keys, duration)[i]
                == Action::Emit(EngineEvent::NoteOn { key: keys[i], velocity: VELOCITY }),
        chord_actions(kind, keys, duration)[keys.len() as int] == advance_action(kind, duration),
        forall|i: int|
            0 <= i < keys.len() ==> #[trigger] chord_actions(kind, keys, duration)[keys.len() + 1
                + i] == Action::Emit(EngineEvent::NoteOff { key: keys[i] }),
{
}

/// The actions of two scripts played one after the other are the actions of
/// the first, then those of the second: the cues are played strictly in
/// order.
pub proof fn lemma_script_actions_adds(kind: DriverKind, first: Seq<Cue>, second: Seq<Cue>)
    ensures
        script_actions(kind, first + second) == script_actions(kind, first) + script_actions(
            kind,
            second,
        ),
    decreases second.len(),
{
    if second.len() == 0 {
        assert(first + second =~= first);
        assert(script_actions(kind, first) + script_actions(kind, second) =~= script_actions(
            kind,
            first,
        ));
    } else {
        assert((first + second).drop_last() =~= first + second.drop_last());
        lemma_script_actions_adds(kind, first, second.drop_last());
        assert(script_actions(kind, first + second) =~= script_actions(kind, first)
            + script_actions(kind, second));
    }
}

/// The events of actions carried out one after the other are the events of
/// the first, then those of the second.
pub proof fn lemma_events_of_adds(first: Seq<Action>, second: Seq<Action>)
    ensures
        events_of(first + second) == events_of(first) + events_of(second),
    decreases second.len(),
{
    if second.len() == 0 {
        assert(first + second =~= first);
        assert(events_of(first) + events_of(second) =~= events_of(first));
    } else {
        assert((first + second).drop_last() =~= first + second.drop_last());
        lemma_events_of_adds(first, second.drop_last());
        assert(events_of(first + second) =~= events_of(first) + events_of(second));
    }
}

/// The time that actions let pass, carried out one after the other, is the
/// sum of their times.
pub proof fn lemma_time_advanced_adds(first: Seq<Action>, second: Seq<Action>)
    ensures
        time_advanced(first + second) == time_advanced(first) + time_advanced(second),
    decreases second.len(),
{
    if second.len() == 0 {
        assert(first + second =~= first);
    } else {
        assert((first + second).drop_last() =~= first + second.drop_last());
        lemma_time_advanced_adds(first, second.drop_last());
    }
}

/// The events of a run of note ons or note offs are all of its actions, and no
/// time passes in it.
proof fn lemma_emitted(actions: Seq<Action>, events: Seq<EngineEvent>)
    requires
        actions.len() == events.len(),
        forall|i: int| 0 <= i < actions.len() ==> actions[i] == Action::Emit(events[i]),
    ensures
        events_of(actions) == events,
        time_advanced(actions) == 0,
    decreases actions.len(),
{
    if actions.len() == 0 {
        assert(events =~= Seq::empty());
    } else {
        lemma_emitted(actions.drop_last(), events.drop_last());
        assert(events.drop_last().push(events.last()) =~= events);
    }
}

/// The events of a single action that lets time pass: none.
proof fn lemma_advance_alone(kind: DriverKind, duration: u64)
    ensures
        events_of(seq![advance_action(kind, duration)]) == Seq::<EngineEvent>::empty(),
        time_advanced(seq![advance_action(kind, duration)]) == duration,
{
    let alone = seq![advance_action(kind, duration)];
    assert(alone.drop_last() =~= Seq::<Action>::empty());
    assert(alone.last() == advance_action(kind, duration));
    assert(events_of(alone.drop_last()) == Seq::<EngineEvent>::empty());
    assert(time_advanced(alone.drop_last()) == 0);
}

/// The events of a gesture, whatever the kind of the driver: for a note the
/// pan, if one is given, the note on and the note off; for a chord every note
/// on, then every note off.
pub open spec fn gesture_events(gesture: Gesture) -> Seq<EngineEvent> {
    match gesture {
        Gesture::NoteEvent { key, pan, .. } => {
            let sounding = seq![
                EngineEvent::NoteOn { key, velocity: VELOCITY },
                EngineEvent::NoteOff { key },
            ];
            match pan {
                Some(pan) => seq![pan_event(pan)] + sounding,
                None => sounding,
            }
        },
        Gesture::ChordEvent { keys, .. } => Seq::new(
            3,
            |i: int| EngineEvent::NoteOn { key: keys.keys()[i], velocity: VELOCITY },
        ) + Seq::new(3, |i: int| EngineEvent::NoteOff { key: keys.keys()[i] }),
    }
}

/// A gesture gives the same events under a driver of either kind, and lets
/// its duration pass.
pub proof fn lemma_gesture_actions(kind: DriverKind, gesture: Gesture)
    ensures
        events_of(gesture_actions(kind, gesture)) == gesture_events(gesture),
        time_advanced(gesture_actions(kind, gesture)) == gesture.duration(),
{
    match gesture {
        Gesture::NoteEvent { key, duration, pan } => {
            let on = seq![Action::Emit(EngineEvent::NoteOn { key, velocity: VELOCITY })];
            let wait = seq![advance_action(kind, duration)];
            let off = seq![Action::Emit(EngineEvent::NoteOff { key })];
            lemma_emitted(on, seq![EngineEvent::NoteOn { key, velocity: VELOCITY }]);
            lemma_emitted(off, seq![EngineEvent::NoteOff { key }]);
            lemma_advance_alone(kind, duration);
            lemma_events_of_adds(on, wait);
            lemma_events_of_adds(on + wait, off);
            lemma_time_advanced_adds(on, wait);
            lemma_time_advanced_adds(on + wait, off);
            let sounding = on + wait + off;
            assert(sounding =~= seq![
                Action::Emit(EngineEvent::NoteOn { key, velocity: VELOCITY }),
                advance_action(kind, duration),
                Action::Emit(EngineEvent::NoteOff { key }),
            ]);
            assert(events_of(sounding) =~= seq![
                EngineEvent::NoteOn { key, velocity: VELOCITY },
                EngineEvent::NoteOff { key },
            ]);
            match pan {
                Some(p) => {
                    let placed = seq![Action::Emit(pan_event(p))];
                    lemma_emitted(placed, seq![pan_event(p)]);
                    lemma_events_of_adds(placed, sounding);
                    lemma_time_advanced_adds(placed, sounding);
                },
                None => {},
            }
        },
        Gesture::ChordEvent { keys, duration } => {
            let ons = note_ons(keys.keys());
            let wait = seq![advance_action(kind, duration)];
            let offs = note_offs(keys.keys());
            lemma_emitted(
                ons,
                Seq::new(
                    3,
                    |i: int| EngineEvent::NoteOn { key: keys.keys()[i], velocity: VELOCITY },
                ),
            );
            lemma_emitted(
                offs,
                Seq::new(3, |i: int| EngineEvent::NoteOff { key: keys.keys()[i] }),
            );
            lemma_advance_alone(kind, duration);
            lemma_events_of_adds(ons, wait);
            lemma_events_of_adds(ons + wait, offs);
            lemma_time_advanced_adds(ons, wait);
            lemma_time_advanced_adds(ons + wait, offs);
            assert(events_of(ons + wait) =~= events_of(ons));
        },
    }
}

/// The events of a script, whatever the kind of the driver: those of its
/// gestures, in order.
pub open spec fn script_events(script: Seq<Cue>) -> Seq<EngineEvent>
    decreases script.len(),
{
    if script.len() == 0 {
        Seq::empty()
    } else {
        script_events(script.drop_last()) + gesture_events(script.last().gesture)
    }
}

/// A script gives the same events under a driver of either kind, and lets its
/// scripted duration pass.
pub proof fn lemma_script_actions(kind: DriverKind, script: Seq<Cue>)
    ensures
        events_of(script_actions(kind, script)) == script_events(script),
        time_advanced(script_actions(kind, script)) == scripted_duration(script),
    decreases script.len(),
{
    if script.len() > 0 {
        let cue = script.last();
        let before = script_actions(kind, script.drop_last());
        let sounding = gesture_actions(kind, cue.gesture);
        lemma_script_actions(kind, script.drop_last());
        lemma_gesture_actions(kind, cue.gesture);
        lemma_events_of_adds(before, cue_actions(kind, cue));
        lemma_time_advanced_adds(before, cue_actions(kind, cue));
        if cue.lead_in > 0 {
            let silence = seq![advance_action(kind, cue.lead_in)];
            lemma_advance_alone(kind, cue.lead_in);
            lemma_events_of_adds(silence, sounding);
            lemma_time_advanced_adds(silence, sounding);
            assert(events_of(silence + sounding) =~= events_of(sounding));
        }
    }
}

/// A realtime and an offline driver that play the same script emit the same
/// events in the same order, and let the same time pass: they differ only in
/// how they let it pass.
pub proof fn lemma_kinds_agree(script: Seq<Cue>)
    ensures
        events_of(script_actions(DriverKind::Realtime, script)) == events_of(
            script_actions(DriverKind::Offline, script),
        ),
        time_advanced(script_actions(DriverKind::Realtime, script)) == time_advanced(
            script_actions(DriverKind::Offline, script),
        ),
{
    lemma_script_actions(DriverKind::Realtime, script);
    lemma_script_actions(DriverKind::Offline, script);
}

} // verus!
