//! The top-level measurement state machine's decisions: phase transitions,
//! status rendering, and the mapping of debounced key transitions to note
//! events and LED updates.
//!
//! The surrounding loop — timers, pin access, queue waits — lives outside
//! the library; everything it decides per iteration is here.

use vstd::prelude::*;

use crate::calibration::{CalibrationDataSet, CalibrationStatus};
use crate::config::{
    spec_led_to_sensor, spec_sensor_to_led, spec_sensor_to_note, spec_sensor_to_piano_key,
    spec_welcome_color, led_to_sensor, sensor_to_led, sensor_to_note, sensor_to_piano_key,
    lemma_led_wiring_inverse, PianoKey, COL_BLACK_OFF, COL_BLACK_ON, COL_BROKEN, COL_CAL_BAD,
    COL_CAL_NA, COL_CAL_OK, COL_UNUSED, COL_WHITE_OFF, COL_WHITE_ON, NUM_LEDS, NUM_SENSORS,
    ROOT_NOTE,
};
use crate::midi::MidiMsg;
use crate::touch_sensors::TouchSensorStatus;

verus! {

/// Phase of the top-level state machine. There is no terminal phase: the
/// machine runs until power-off.
#[derive(Clone, Copy, PartialEq, Eq, Structural, Debug)]
pub enum Phase {
    /// Welcome animation, no sensing.
    Startup,
    /// Calibration rounds run and are rendered until the button is pressed.
    Calibrating,
    /// The finished round is judged: usable proceeds, faulty recalibrates.
    CalibrationCheck,
    /// Keys are sampled and events emitted until the button is pressed.
    Playing,
}

/// The next phase, given whether the button was pressed since the last poll
/// and whether the last calibration round was usable.
pub fn next_phase(p: Phase, button_pressed: bool, calib_usable: bool) -> (r: Phase)
    ensures
        p is Startup ==> r is Calibrating,
        p is Calibrating ==> r == (if button_pressed { Phase::CalibrationCheck } else {
            Phase::Calibrating
        }),
        p is CalibrationCheck ==> r == (if calib_usable { Phase::Playing } else {
            Phase::Calibrating
        }),
        p is Playing ==> r == (if button_pressed { Phase::Calibrating } else { Phase::Playing }),
{
    match p {
        Phase::Startup => Phase::Calibrating,
        Phase::Calibrating => if button_pressed { Phase::CalibrationCheck } else {
            Phase::Calibrating
        },
        Phase::CalibrationCheck => if calib_usable { Phase::Playing } else { Phase::Calibrating },
        Phase::Playing => if button_pressed { Phase::Calibrating } else { Phase::Playing },
    }
}

/// Color showing a key's calibration progress; the key the round cursor
/// points at is shown four times brighter.
pub open spec fn spec_cal_color(st: CalibrationStatus, highlight: bool) -> u32 {
    let base = match st {
        CalibrationStatus::Unknown => COL_CAL_NA,
        CalibrationStatus::Usable => COL_CAL_OK,
        CalibrationStatus::Faulty => COL_CAL_BAD,
    };
    if highlight { (base * 4) as u32 } else { base }
}

pub fn cal_color(st: CalibrationStatus, highlight: bool) -> (r: u32)
    ensures r == spec_cal_color(st, highlight),
{
    let base = match st {
        CalibrationStatus::Unknown => COL_CAL_NA,
        CalibrationStatus::Usable => COL_CAL_OK,
        CalibrationStatus::Faulty => COL_CAL_BAD,
    };
    if highlight { base * 4 } else { base }
}

/// The whole LED frame shown while calibrating: every wired key shows its
/// calibration status, the cursor key brighter; unwired LEDs show the
/// no-data color.
pub fn calibration_colors(calib: &CalibrationDataSet, cycle: usize) -> (r: Vec<u32>)
    requires
        calib.pins@.len() == NUM_SENSORS,
    ensures
        r@.len() == NUM_LEDS,
        forall|l: int| 0 <= l < NUM_LEDS ==> #[trigger] r@[l] == (
            match spec_led_to_sensor(l) {
                Some(i) => spec_cal_color(calib.pins@[i as int].status, i == cycle),
                None => COL_CAL_NA,
            }),
{
    let mut r: Vec<u32> = Vec::new();
    let mut l: usize = 0;
    while l < NUM_LEDS
        invariant
            l <= NUM_LEDS,
            calib.pins@.len() == NUM_SENSORS,
            r@.len() == l,
            forall|k: int| 0 <= k < l ==> #[trigger] r@[k] == (
                match spec_led_to_sensor(k) {
                    Some(i) => spec_cal_color(calib.pins@[i as int].status, i == cycle),
                    None => COL_CAL_NA,
                }),
        decreases NUM_LEDS - l,
    {
        let c = match led_to_sensor(l) {
            Some(i) => {
                assert(0 <= spec_led_to_sensor(l as int)->Some_0 < NUM_SENSORS);
                cal_color(calib.pins[i].status, i == cycle)
            }
            None => COL_CAL_NA,
        };
        r.push(c);
        l += 1;
    }
    r
}

/// Color of a key at rest, right after a usable calibration round: broken
/// keys show the fault color, unfitted positions stay dark.
pub open spec fn spec_idle_color(st: CalibrationStatus, key: PianoKey) -> u32 {
    match (st, key) {
        (CalibrationStatus::Faulty, _) => COL_BROKEN,
        (_, PianoKey::White) => COL_WHITE_OFF,
        (_, PianoKey::Black) => COL_BLACK_OFF,
        (_, PianoKey::Missing) => COL_UNUSED,
    }
}

pub fn idle_color(st: CalibrationStatus, key: PianoKey) -> (r: u32)
    ensures r == spec_idle_color(st, key),
{
    match (st, key) {
        (CalibrationStatus::Faulty, _) => COL_BROKEN,
        (_, PianoKey::White) => COL_WHITE_OFF,
        (_, PianoKey::Black) => COL_BLACK_OFF,
        (_, PianoKey::Missing) => COL_UNUSED,
    }
}

/// The whole LED frame shown when playing starts: every wired key at rest,
/// unwired LEDs dark.
pub fn idle_colors(calib: &CalibrationDataSet) -> (r: Vec<u32>)
    requires
        calib.pins@.len() == NUM_SENSORS,
    ensures
        r@.len() == NUM_LEDS,
        forall|l: int| 0 <= l < NUM_LEDS ==> #[trigger] r@[l] == (
            match spec_led_to_sensor(l) {
                Some(i) => spec_idle_color(calib.pins@[i as int].status,
                    spec_sensor_to_piano_key(i as int)),
                None => COL_UNUSED,
            }),
{
    let mut r: Vec<u32> = Vec::new();
    let mut l: usize = 0;
    while l < NUM_LEDS
        invariant
            l <= NUM_LEDS,
            calib.pins@.len() == NUM_SENSORS,
            r@.len() == l,
            forall|k: int| 0 <= k < l ==> #[trigger] r@[k] == (
                match spec_led_to_sensor(k) {
                    Some(i) => spec_idle_color(calib.pins@[i as int].status,
                        spec_sensor_to_piano_key(i as int)),
                    None => COL_UNUSED,
                }),
        decreases NUM_LEDS - l,
    {
        let c = match led_to_sensor(l) {
            Some(i) => {
                assert(0 <= spec_led_to_sensor(l as int)->Some_0 < NUM_SENSORS);
                idle_color(calib.pins[i].status, sensor_to_piano_key(i))
            }
            None => COL_UNUSED,
        };
        r.push(c);
        l += 1;
    }
    r
}

/// Color of a key that just reached a definite state.
pub open spec fn spec_state_color(st: TouchSensorStatus, key: PianoKey) -> u32 {
    match (st, key) {
        (TouchSensorStatus::Off, PianoKey::White) => COL_WHITE_OFF,
        (TouchSensorStatus::Off, PianoKey::Black) => COL_BLACK_OFF,
        (TouchSensorStatus::On, PianoKey::White) => COL_WHITE_ON,
        (TouchSensorStatus::On, PianoKey::Black) => COL_BLACK_ON,
        (_, PianoKey::Missing) => COL_UNUSED,
        (TouchSensorStatus::Unknown, _) => COL_UNUSED,
    }
}

pub fn state_color(st: TouchSensorStatus, key: PianoKey) -> (r: u32)
    requires !(st is Unknown),
    ensures r == spec_state_color(st, key),
{
    match (st, key) {
        (TouchSensorStatus::Off, PianoKey::White) => COL_WHITE_OFF,
        (TouchSensorStatus::Off, PianoKey::Black) => COL_BLACK_OFF,
        (TouchSensorStatus::On, PianoKey::White) => COL_WHITE_ON,
        (TouchSensorStatus::On, PianoKey::Black) => COL_BLACK_ON,
        (_, PianoKey::Missing) => COL_UNUSED,
        (TouchSensorStatus::Unknown, _) => COL_UNUSED,
    }
}

/// MIDI note number sounded by sensor `i`: the root note plus the sensor's
/// offset, when the sensor has a note and the sum is a valid (non-negative)
/// note number.
pub open spec fn spec_note_for_sensor(i: int) -> Option<i8> {
    match spec_sensor_to_note(i) {
        Some(nr) => if ROOT_NOTE + nr >= 0 { Some((ROOT_NOTE + nr) as i8) } else { None },
        None => None,
    }
}

pub fn note_for_sensor(i: usize) -> (r: Option<i8>)
    requires i < NUM_SENSORS,
    ensures r == spec_note_for_sensor(i as int),
{
    match sensor_to_note(i) {
        Some(nr) => {
            assert(-1 <= nr <= 14);
            let note = ROOT_NOTE + nr;
            if note >= 0 { Some(note) } else { None }
        }
        None => None,
    }
}

/// The event emitted for a key that just reached a definite state: a
/// note-on at fixed velocity on touch, a note-off on release, nothing for a
/// key without a note.
pub open spec fn spec_event_for(st: TouchSensorStatus, note: Option<i8>) -> Option<MidiMsg> {
    match (st, note) {
        (TouchSensorStatus::On, Some(n)) => Some(MidiMsg::NoteOn { note: n, velocity: 64 }),
        (TouchSensorStatus::Off, Some(n)) => Some(MidiMsg::NoteOff { note: n, velocity: 0 }),
        _ => None,
    }
}

pub fn event_for(st: TouchSensorStatus, note: Option<i8>) -> (r: Option<MidiMsg>)
    ensures r == spec_event_for(st, note),
{
    match (st, note) {
        (TouchSensorStatus::On, Some(n)) => Some(MidiMsg::NoteOn { note: n, velocity: 64 }),
        (TouchSensorStatus::Off, Some(n)) => Some(MidiMsg::NoteOff { note: n, velocity: 0 }),
        _ => None,
    }
}

/// A key's reported state makes it act this cycle: the state is definite
/// and differs from the remembered one. A transition to no-data never acts.
pub open spec fn spec_key_updates(prev: TouchSensorStatus, cur: TouchSensorStatus) -> bool {
    cur != prev && !(cur is Unknown)
}

/// The events one playing cycle emits for keys `0..i`, in key order: one
/// per key that reached a new definite state and has a note.
pub open spec fn spec_cycle_events(
    prev: Seq<TouchSensorStatus>,
    cur: Seq<TouchSensorStatus>,
    i: int,
) -> Seq<MidiMsg>
    decreases i,
{
    if i <= 0 {
        Seq::empty()
    } else {
        let rest = spec_cycle_events(prev, cur, i - 1);
        if spec_key_updates(prev[i - 1], cur[i - 1]) {
            match spec_event_for(cur[i - 1], spec_note_for_sensor(i - 1)) {
                Some(m) => rest.push(m),
                None => rest,
            }
        } else {
            rest
        }
    }
}

/// A cycle in which no key reaches a new definite state emits no event; in
/// particular a key that goes from a definite state to no-data stays
/// silent.
pub proof fn lemma_no_definite_change_no_events(
    prev: Seq<TouchSensorStatus>,
    cur: Seq<TouchSensorStatus>,
    i: int,
)
    requires
        forall|j: int| 0 <= j < i ==> !spec_key_updates(prev[j], #[trigger] cur[j]),
    ensures
        spec_cycle_events(prev, cur, i) == Seq::<MidiMsg>::empty(),
    decreases i,
{
    if i > 0 {
        lemma_no_definite_change_no_events(prev, cur, i - 1);
    }
}

/// One playing cycle: diff the debounced states against the remembered
/// ones; every key that reached a new definite state is remembered, gets
/// its LED recolored, and emits its note event. Keys without a definite
/// change — including transitions to no-data — change nothing.
pub fn playing_step(
    prev: &mut Vec<TouchSensorStatus>,
    cur: &Vec<TouchSensorStatus>,
    colors: &mut Vec<u32>,
) -> (events: Vec<MidiMsg>)
    requires
        old(prev)@.len() == NUM_SENSORS,
        cur@.len() == NUM_SENSORS,
        old(colors)@.len() == NUM_LEDS,
    ensures
        final(prev)@.len() == NUM_SENSORS,
        final(colors)@.len() == NUM_LEDS,
        forall|i: int| 0 <= i < NUM_SENSORS ==> #[trigger] final(prev)@[i]
            == (if spec_key_updates(old(prev)@[i], cur@[i]) { cur@[i] } else { old(prev)@[i] }),
        events@ == spec_cycle_events(old(prev)@, cur@, NUM_SENSORS as int),
        forall|l: int| 0 <= l < NUM_LEDS ==> #[trigger] final(colors)@[l] == (
            match spec_led_to_sensor(l) {
                Some(i) => if spec_key_updates(old(prev)@[i as int], cur@[i as int]) {
                    spec_state_color(cur@[i as int], spec_sensor_to_piano_key(i as int))
                } else {
                    old(colors)@[l]
                },
                None => old(colors)@[l],
            }),
{
    let ghost prev0 = prev@;
    let ghost colors0 = colors@;
    let mut events: Vec<MidiMsg> = Vec::new();
    let mut i: usize = 0;
    while i < NUM_SENSORS
        invariant
            i <= NUM_SENSORS,
            prev@.len() == NUM_SENSORS,
            cur@.len() == NUM_SENSORS,
            colors@.len() == NUM_LEDS,
            prev0.len() == NUM_SENSORS,
            colors0.len() == NUM_LEDS,
            forall|j: int| 0 <= j < i ==> #[trigger] prev@[j]
                == (if spec_key_updates(prev0[j], cur@[j]) { cur@[j] } else { prev0[j] }),
            forall|j: int| i <= j < NUM_SENSORS ==> #[trigger] prev@[j] == prev0[j],
            events@ == spec_cycle_events(prev0, cur@, i as int),
            forall|l: int| 0 <= l < NUM_LEDS ==> #[trigger] colors@[l] == (
                match spec_led_to_sensor(l) {
                    Some(s) => if s < i && spec_key_updates(prev0[s as int], cur@[s as int]) {
                        spec_state_color(cur@[s as int], spec_sensor_to_piano_key(s as int))
                    } else {
                        colors0[l]
                    },
                    None => colors0[l],
                }),
        decreases NUM_SENSORS - i,
    {
        let c = cur[i];
        let p = prev[i];
        if c != p && !matches!(c, TouchSensorStatus::Unknown) {
            prev.set(i, c);
            let color = state_color(c, sensor_to_piano_key(i));
            let maybe_note = note_for_sensor(i);
            match event_for(c, maybe_note) {
                Some(m) => events.push(m),
                None => {}
            }
            if let Some(l) = sensor_to_led(i) {
                proof {
                    lemma_led_wiring_inverse();
                }
                assert(l < NUM_LEDS);
                colors.set(l, color);
            }
        }
        i += 1;
    }
    events
}

/// The sensitivity setting for the next sampling cycle: the knob's channel,
/// rescaled to per-mille. Always within the range the sampler accepts.
pub fn sensitivity_permille(adc: &crate::adc::AdcValues) -> (r: u32)
    requires
        adc.wf(),
    ensures
        r as int == adc.values@[0] * 1001 / 4096,
        r <= 1000,
{
    let r = match adc.get_value(0, 1000) {
        Ok(v) => v,
        Err(_) => 500,
    };
    proof {
        assert(adc.values@[0] * 1001 <= 4095 * 1001) by (nonlinear_arith)
            requires adc.values@[0] <= 4095u32,
        {}
    }
    r
}

/// One frame of the welcome animation: in its first half the LEDs light one
/// by one in the welcome palette; in its second half they go dark one by
/// one.
pub fn welcome_frame(colors: &mut Vec<u32>, step: usize)
    requires
        old(colors)@.len() == NUM_LEDS,
        step < 2 * NUM_LEDS,
    ensures
        final(colors)@.len() == NUM_LEDS,
        step < NUM_LEDS ==> final(colors)@
            == old(colors)@.update(step as int, spec_welcome_color(step as int)),
        step >= NUM_LEDS ==> final(colors)@
            == old(colors)@.update(step - NUM_LEDS, 0u32),
{
    if step < NUM_LEDS {
        let c = crate::config::welcome_color(step);
        colors.set(step, c);
    } else {
        colors.set(step - NUM_LEDS, 0);
    }
}

} // verus!
