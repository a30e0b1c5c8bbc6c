//! Verified core of a capacitive-touch MIDI keyboard controller.
//!
//! An array of capacitive keys is scanned, calibrated and debounced, and the
//! resulting key transitions are mapped to MIDI note events which are fanned
//! out to two transport queues with an asymmetric backpressure policy.
//! Everything that decides or computes lives here with a contract; pin,
//! timer, UART and USB plumbing lives outside the library.

pub mod adc;
pub mod button;
pub mod calibration;
pub mod config;
pub mod controller;
pub mod midi;
pub mod queue;
pub mod router;
pub mod touch_sensors;
pub mod usb_midi;
pub mod ws2812b;
