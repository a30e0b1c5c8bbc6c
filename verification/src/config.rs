//! Fixed configuration of the instrument: key count, timing limits,
//! status colors and the wiring of sensors to LEDs and MIDI notes.
//!
//! All times are in microseconds.

use vstd::prelude::*;

verus! {

/// Number of capacitive sensing channels.
pub const NUM_SENSORS: usize = 16;

/// Number of consecutive samples that must agree for a definite key state.
pub const SENSOR_SAMPLES: usize = 10;

/// Time budget of one calibration round, in microseconds.
pub const CALIBRATION_STEP_TIME: u64 = 5000;

/// A key whose decay time falls below this floor is faulty (shorted or
/// missing pull element).
pub const MIN_TIME_REQUIRED: u64 = 10;

/// Minimum spread between a key's fastest and slowest decay time before the
/// key counts as usable.
pub const MIN_MARGIN_REQUIRED: u64 = 100;

/// Threshold used when a calibration round produced no usable band.
pub const FALLBACK_THRESHOLD: u64 = CALIBRATION_STEP_TIME / 2;

/// Upper bound on a single decay-time reading accepted by calibration;
/// keeps all derived arithmetic inside `u64`.
pub const MAX_READING_TIME: u64 = 0x1_0000_0000;

/// Number of status LEDs.
pub const NUM_LEDS: usize = 19;

/// Button settle delay, in microseconds.
pub const DEBOUNCE_TIME: u64 = 2000;

/// Refresh interval of the sensitivity readings, in microseconds.
pub const ADC_INTERVAL: u64 = 10000;

/// Capacity of every event queue.
pub const MIDI_CHANNEL_SIZE: usize = 16;

/// Size of the serial transport's byte buffer.
pub const SERIAL_MIDI_BUF_LEN: usize = 128;

/// MIDI number of the note that key offset 0 maps to.
pub const ROOT_NOTE: i8 = 60;

// Status colors, 24-bit RGB.
pub const COL_WHITE_OFF: u32 = 0x020202;
pub const COL_WHITE_ON: u32 = 0x101010;
pub const COL_BLACK_OFF: u32 = 0x000101;
pub const COL_BLACK_ON: u32 = 0x00808;
pub const COL_BROKEN: u32 = 0x010000;
pub const COL_UNUSED: u32 = 0x000000;

// Calibration colors; must still be a valid color when multiplied by 4.
pub const COL_CAL_NA: u32 = 0x020100;
pub const COL_CAL_OK: u32 = 0x000200;
pub const COL_CAL_BAD: u32 = 0x040000;

/// Kind of piano key a sensor stands behind.
#[derive(Clone, Copy, PartialEq, Eq, Structural, Debug)]
pub enum PianoKey {
    White,
    Black,
    Missing,
}

/// LED index showing the state of sensor `i`.
pub open spec fn spec_sensor_to_led(i: int) -> Option<usize> {
    if i == 0 { Some(9usize) }
    else if i == 1 { Some(8usize) }
    else if i == 2 { Some(11usize) }
    else if i == 3 { Some(7usize) }
    else if i == 4 { Some(12usize) }
    else if i == 5 { Some(6usize) }
    else if i == 6 { Some(5usize) }
    else if i == 7 { Some(14usize) }
    else if i == 8 { Some(4usize) }
    else if i == 9 { Some(15usize) }
    else if i == 10 { Some(3usize) }
    else if i == 11 { Some(16usize) }
    else if i == 12 { Some(2usize) }
    else if i == 13 { Some(1usize) }
    else if i == 14 { Some(18usize) }
    else if i == 15 { Some(0usize) }
    else { None }
}

/// Sensor whose state LED `l` shows: the inverse of the sensor-to-LED wiring.
pub open spec fn spec_led_to_sensor(l: int) -> Option<usize> {
    if l == 9 { Some(0usize) }
    else if l == 8 { Some(1usize) }
    else if l == 11 { Some(2usize) }
    else if l == 7 { Some(3usize) }
    else if l == 12 { Some(4usize) }
    else if l == 6 { Some(5usize) }
    else if l == 5 { Some(6usize) }
    else if l == 14 { Some(7usize) }
    else if l == 4 { Some(8usize) }
    else if l == 15 { Some(9usize) }
    else if l == 3 { Some(10usize) }
    else if l == 16 { Some(11usize) }
    else if l == 2 { Some(12usize) }
    else if l == 1 { Some(13usize) }
    else if l == 18 { Some(14usize) }
    else if l == 0 { Some(15usize) }
    else { None }
}

/// The two wiring tables are inverse to each other.
pub proof fn lemma_led_wiring_inverse()
    ensures
        forall|i: int| 0 <= i < NUM_SENSORS ==>
            spec_led_to_sensor(#[trigger] spec_sensor_to_led(i)->Some_0 as int) == Some(i as usize),
        forall|l: int| 0 <= l < NUM_LEDS && spec_led_to_sensor(l) is Some ==>
            spec_sensor_to_led(#[trigger] spec_led_to_sensor(l)->Some_0 as int) == Some(l as usize),
{
}

pub fn sensor_to_led(i: usize) -> (r: Option<usize>)
    ensures r == spec_sensor_to_led(i as int),
{
    match i {
        0 => Some(9),
        1 => Some(8),
        2 => Some(11),
        3 => Some(7),
        4 => Some(12),
        5 => Some(6),
        6 => Some(5),
        7 => Some(14),
        8 => Some(4),
        9 => Some(15),
        10 => Some(3),
        11 => Some(16),
        12 => Some(2),
        13 => Some(1),
        14 => Some(18),
        15 => Some(0),
        _ => None,
    }
}

pub fn led_to_sensor(l: usize) -> (r: Option<usize>)
    ensures r == spec_led_to_sensor(l as int),
{
    match l {
        9 => Some(0),
        8 => Some(1),
        11 => Some(2),
        7 => Some(3),
        12 => Some(4),
        6 => Some(5),
        5 => Some(6),
        14 => Some(7),
        4 => Some(8),
        15 => Some(9),
        3 => Some(10),
        16 => Some(11),
        2 => Some(12),
        1 => Some(13),
        18 => Some(14),
        0 => Some(15),
        _ => None,
    }
}

/// Offset of the note sounded by sensor `i`, relative to the root note.
pub open spec fn spec_sensor_to_note(i: int) -> Option<i8> {
    if i == 0 { Some(-1i8) }
    else if 1 <= i < NUM_SENSORS { Some((i - 1) as i8) }
    else { None }
}

pub fn sensor_to_note(i: usize) -> (r: Option<i8>)
    requires i < NUM_SENSORS,
    ensures r == spec_sensor_to_note(i as int),
{
    if i == 0 {
        Some(-1)
    } else {
        Some((i - 1) as i8)
    }
}

/// Kind of piano key that sensor `i` stands behind.
pub open spec fn spec_sensor_to_piano_key(i: int) -> PianoKey {
    if i == 2 || i == 4 || i == 7 || i == 9 || i == 11 || i == 14 {
        PianoKey::Black
    } else {
        PianoKey::White
    }
}

pub fn sensor_to_piano_key(i: usize) -> (r: PianoKey)
    requires i < NUM_SENSORS,
    ensures r == spec_sensor_to_piano_key(i as int),
{
    match i {
        2 | 4 | 7 | 9 | 11 | 14 => PianoKey::Black,
        _ => PianoKey::White,
    }
}

/// Color of LED `i` in the welcome animation.
pub open spec fn spec_welcome_color(i: int) -> u32 {
    if i == 0 || i == 9 { 0x80000u32 }
    else if i == 1 || i == 10 { 0x008000u32 }
    else if i == 2 || i == 11 { 0x000080u32 }
    else if i == 3 || i == 12 { 0x40000u32 }
    else if i == 4 || i == 13 { 0x004000u32 }
    else if i == 5 || i == 14 { 0x000040u32 }
    else if i == 6 || i == 15 { 0x20000u32 }
    else if i == 7 || i == 16 { 0x002000u32 }
    else if i == 8 || i == 17 { 0x000020u32 }
    else { 0x10000u32 }
}

pub fn welcome_color(i: usize) -> (r: u32)
    requires i < NUM_LEDS,
    ensures r == spec_welcome_color(i as int),
{
    match i {
        0 | 9 => 0x80000,
        1 | 10 => 0x008000,
        2 | 11 => 0x000080,
        3 | 12 => 0x40000,
        4 | 13 => 0x004000,
        5 | 14 => 0x000040,
        6 | 15 => 0x20000,
        7 | 16 => 0x002000,
        8 | 17 => 0x000020,
        _ => 0x10000,
    }
}

} // verus!
