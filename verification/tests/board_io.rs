use midi_touch::adc::AdcValues;
use midi_touch::button::Button;
use midi_touch::calibration::CalibrationStatus;
use midi_touch::config::{COL_BROKEN, COL_CAL_NA, COL_CAL_OK, COL_WHITE_OFF, NUM_LEDS};
use midi_touch::controller::{
    calibration_colors, idle_colors, sensitivity_permille, welcome_frame,
};
use midi_touch::touch_sensors::TouchSensors;
use midi_touch::ws2812b::grb_of;

#[test]
fn button_coalesces_presses() {
    // two presses before a single poll yield exactly one positive poll
    let mut b = Button::new();
    b.init_level(false);
    b.edge_settled(true); // press
    b.edge_settled(false); // release
    b.edge_settled(true); // press again
    assert!(b.is_pressed());
    assert!(b.was_pressed());
    // no new press since: the next poll is negative
    assert!(!b.was_pressed());
}

#[test]
fn button_release_does_not_latch() {
    let mut b = Button::new();
    b.init_level(true);
    b.edge_settled(false); // release only
    assert!(!b.was_pressed());
    b.edge_settled(true);
    assert!(b.was_pressed());
}

#[test]
fn button_bounce_is_ignored() {
    // the settled level equals the remembered one: no state change, no latch
    let mut b = Button::new();
    b.init_level(false);
    b.edge_settled(false);
    assert!(!b.is_pressed());
    assert!(!b.was_pressed());
}

#[test]
fn adc_scaling() {
    let mut adc = AdcValues::new();
    assert_eq!(adc.get_value(0, 100), Ok(0));
    adc.set_value(0, 4095);
    assert_eq!(adc.get_value(0, 100), Ok(100));
    assert_eq!(adc.get_value(0, 1000), Ok(1000));
    adc.set_value(0, 2048);
    assert_eq!(adc.get_value(0, 1000), Ok(2048 * 1001 / 4096));
    adc.set_value(1, 1000);
    assert_eq!(adc.get_value(1, 100), Ok(1000 * 101 / 4096));
    assert!(adc.get_value(2, 100).is_err());
}

#[test]
fn sensitivity_is_permille() {
    let mut adc = AdcValues::new();
    adc.set_value(0, 4095);
    assert_eq!(sensitivity_permille(&adc), 1000);
    adc.set_value(0, 0);
    assert_eq!(sensitivity_permille(&adc), 0);
    adc.set_value(0, 2048);
    assert_eq!(sensitivity_permille(&adc), 2048 * 1001 / 4096);
}

#[test]
fn calibration_frame_shows_status() {
    let mut sensors = TouchSensors::new();
    sensors.calibration.pins[0].status = CalibrationStatus::Usable;
    let frame = calibration_colors(&sensors.calibration, 3);
    assert_eq!(frame.len(), NUM_LEDS);
    // sensor 0 is wired to LED 9; sensor 3 (the cursor) to LED 7
    assert_eq!(frame[9], COL_CAL_OK);
    assert_eq!(frame[7], COL_CAL_NA * 4);
    // LED 10 is not wired to any sensor
    assert_eq!(frame[10], COL_CAL_NA);
}

#[test]
fn idle_frame_shows_faults() {
    let mut sensors = TouchSensors::new();
    sensors.calibration.pins[1].status = CalibrationStatus::Faulty;
    let frame = idle_colors(&sensors.calibration);
    // sensor 1 is wired to LED 8; sensor 0 (a white key) to LED 9
    assert_eq!(frame[8], COL_BROKEN);
    assert_eq!(frame[9], COL_WHITE_OFF);
}

#[test]
fn welcome_animation_lights_then_clears() {
    let mut colors = vec![0u32; NUM_LEDS];
    welcome_frame(&mut colors, 0);
    assert_eq!(colors[0], 0x80000);
    welcome_frame(&mut colors, NUM_LEDS);
    assert_eq!(colors[0], 0);
}

#[test]
fn grb_rearranges_color_bytes() {
    assert_eq!(grb_of(0x123456), 0x34125600);
    assert_eq!(grb_of(0x00ff00), 0xff000000);
    assert_eq!(grb_of(0xff0000), 0x00ff0000);
    assert_eq!(grb_of(0x0000ff), 0x0000ff00);
}
