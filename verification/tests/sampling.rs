use midi_touch::calibration::CalibrationStatus;
use midi_touch::config::{NUM_SENSORS, SENSOR_SAMPLES};
use midi_touch::touch_sensors::{TouchSensorStatus, TouchSensors};

fn all_high() -> Vec<bool> {
    vec![true; NUM_SENSORS]
}

fn sample_of(status: TouchSensorStatus) -> Vec<TouchSensorStatus> {
    vec![status; NUM_SENSORS]
}

#[test]
fn take_sample_classifies_levels() {
    let mut sensors = TouchSensors::new();
    let mut high = vec![false; NUM_SENSORS];
    high[2] = true;
    high[5] = true;
    // key 7 is faulty: it must read as no-data whatever its level
    sensors.calibration.pins[7].status = CalibrationStatus::Faulty;
    let mut high2 = high.clone();
    high2[7] = true;

    let s = sensors.take_sample(&high);
    assert_eq!(s[2], TouchSensorStatus::On);
    assert_eq!(s[5], TouchSensorStatus::On);
    assert_eq!(s[0], TouchSensorStatus::Off);
    assert_eq!(s[7], TouchSensorStatus::Unknown);

    let s2 = sensors.take_sample(&high2);
    assert_eq!(s2[7], TouchSensorStatus::Unknown);
}

#[test]
fn consensus_reports_unanimous_state() {
    // ten identical On samples: the key reports On
    let sensors = TouchSensors::new();
    let samples = vec![sample_of(TouchSensorStatus::On); SENSOR_SAMPLES];
    let r = sensors.run(&samples);
    for i in 0..NUM_SENSORS {
        assert_eq!(r[i], TouchSensorStatus::On);
    }
}

#[test]
fn consensus_single_dissent_suppresses() {
    // nine On samples and one Off: the key reports no definite state,
    // wherever the dissenting sample sits
    let sensors = TouchSensors::new();
    for dissent_at in 0..SENSOR_SAMPLES {
        let mut samples = vec![sample_of(TouchSensorStatus::On); SENSOR_SAMPLES];
        samples[dissent_at][4] = TouchSensorStatus::Off;
        let r = sensors.run(&samples);
        assert_eq!(r[4], TouchSensorStatus::Unknown);
        // the other keys still agree
        assert_eq!(r[3], TouchSensorStatus::On);
    }
}

#[test]
fn consensus_mixed_disagreement_suppresses() {
    let sensors = TouchSensors::new();
    let mut samples = vec![sample_of(TouchSensorStatus::Off); SENSOR_SAMPLES];
    samples[1][0] = TouchSensorStatus::Unknown;
    samples[8][0] = TouchSensorStatus::On;
    let r = sensors.run(&samples);
    assert_eq!(r[0], TouchSensorStatus::Unknown);
    assert_eq!(r[1], TouchSensorStatus::Off);
}

#[test]
fn faulty_key_never_definite_through_cycle() {
    // a faulty key yields Unknown in every sample, so the consensus also
    // reports Unknown
    let mut sensors = TouchSensors::new();
    sensors.calibration.pins[6].status = CalibrationStatus::Faulty;
    let mut samples: Vec<Vec<TouchSensorStatus>> = Vec::new();
    for _ in 0..SENSOR_SAMPLES {
        samples.push(sensors.take_sample(&all_high()));
    }
    let r = sensors.run(&samples);
    assert_eq!(r[6], TouchSensorStatus::Unknown);
    assert_eq!(r[0], TouchSensorStatus::On);
}
