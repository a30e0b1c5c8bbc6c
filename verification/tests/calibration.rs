use midi_touch::calibration::{CalibrationRound, CalibrationStatus};
use midi_touch::config::{FALLBACK_THRESHOLD, NUM_SENSORS};
use midi_touch::touch_sensors::TouchSensors;

fn levels(low_keys: &[usize]) -> Vec<bool> {
    let mut v = vec![false; NUM_SENSORS];
    for &k in low_keys {
        v[k] = true;
    }
    v
}

fn all_low() -> Vec<bool> {
    vec![true; NUM_SENSORS]
}

#[test]
fn start_then_stop_is_faulty() {
    // A round with no measurement step has no usable key: deterministically
    // faulty, with the fallback threshold.
    let mut sensors = TouchSensors::new();
    sensors.calibrate_start();
    let result = sensors.calibrate_stop();
    assert_eq!(result.status, CalibrationStatus::Faulty);
    assert_eq!(result.all.status, CalibrationStatus::Faulty);
    assert_eq!(sensors.threshold, FALLBACK_THRESHOLD);
}

#[test]
fn fallback_threshold_value() {
    assert_eq!(FALLBACK_THRESHOLD, 2500);
}

#[test]
fn full_round_with_one_fast_key() {
    // All keys calibrate with a 50..150 band except key 3, which reports
    // 5 microseconds: below the too-fast floor, so it is faulty; the other
    // keys are usable; the round is usable and the threshold is the
    // midpoint of the usable band.
    let mut sensors = TouchSensors::new();
    sensors.calibrate_start();

    // first measurement step: key 3 decays at 5us, the rest at 50us
    let step1 = sensors.calibrate_step(&vec![5, 50], &vec![levels(&[3]), all_low()]);
    assert_eq!(step1.pins[3].status, CalibrationStatus::Faulty);

    // second measurement step: every key decays at 150us
    let step2 = sensors.calibrate_step(&vec![150], &vec![all_low()]);
    for i in 0..NUM_SENSORS {
        if i == 3 {
            assert_eq!(step2.pins[i].status, CalibrationStatus::Faulty);
        } else {
            assert_eq!(step2.pins[i].status, CalibrationStatus::Usable);
            assert_eq!(step2.pins[i].min_time, 50);
            assert_eq!(step2.pins[i].max_time, 150);
        }
    }

    let result = sensors.calibrate_stop();
    assert_eq!(result.status, CalibrationStatus::Usable);
    assert_eq!(result.pins[3].status, CalibrationStatus::Faulty);
    assert_eq!(result.all.min_time, 50);
    assert_eq!(result.all.max_time, 150);
    // midpoint of the usable band
    assert_eq!(sensors.threshold, 100);
}

#[test]
fn usable_key_band_is_ordered() {
    // A key that recorded anything keeps min_time <= max_time, and a key is
    // never usable with an inverted band.
    let mut sensors = TouchSensors::new();
    sensors.calibrate_start();
    // one reading per key per step: two steps build the 40..200 band
    sensors.calibrate_step(&vec![40], &vec![all_low()]);
    let snap = sensors.calibrate_step(&vec![200], &vec![all_low()]);
    for i in 0..NUM_SENSORS {
        if snap.pins[i].status == CalibrationStatus::Usable {
            assert!(snap.pins[i].min_time <= snap.pins[i].max_time);
        }
        assert!(
            snap.pins[i].status == CalibrationStatus::Unknown
                || snap.pins[i].status == CalibrationStatus::Usable
                || snap.pins[i].status == CalibrationStatus::Faulty
        );
    }
}

#[test]
fn narrow_inner_band_is_faulty() {
    // Every key usable, but all with the same band: the inner band is
    // zero-wide, narrower than a tenth of the required margin, so the round
    // falls back.
    let mut sensors = TouchSensors::new();
    sensors.calibrate_start();
    sensors.calibrate_step(&vec![50], &vec![all_low()]);
    sensors.calibrate_step(&vec![150], &vec![all_low()]);
    // tighten every key to the same 50..150 band: inner band is [50, 150],
    // which is fine -- so instead check the opposite: shrink it.
    let result = sensors.calibrate_stop();
    assert_eq!(result.status, CalibrationStatus::Usable);

    // now a fresh round where the bands do not overlap enough: key 0 gets
    // 50..150, key 1 gets 145..245; inner band [145, 150] is narrower than
    // a tenth of the margin
    let mut sensors2 = TouchSensors::new();
    sensors2.calibrate_start();
    sensors2.calibrate_step(&vec![50, 145], &vec![levels(&[0]), levels(&[1])]);
    sensors2.calibrate_step(&vec![150, 245], &vec![levels(&[0]), levels(&[1])]);
    let result2 = sensors2.calibrate_stop();
    assert_eq!(result2.status, CalibrationStatus::Faulty);
    assert_eq!(sensors2.threshold, FALLBACK_THRESHOLD);
}

#[test]
fn round_time_budget_stops_tick() {
    let mut sensors = TouchSensors::new();
    sensors.calibrate_start();
    let mut round = CalibrationRound::new();
    // nothing decays, but the budget is exhausted
    let stop = sensors.calibrate_tick(&mut round, 5000, &levels(&[]));
    assert!(stop);
    let stop_early = sensors.calibrate_tick(&mut round, 10, &levels(&[]));
    assert!(!stop_early);
}

#[test]
fn outlier_key_is_flagged() {
    // Keys 1 and 4 become usable with staggered bands, which gives the
    // combined band real width; key 5 then reports far above it and is
    // flagged as an outlier.
    let mut sensors = TouchSensors::new();
    sensors.calibrate_start();
    sensors.calibrate_step(&vec![150], &vec![levels(&[1, 4])]);
    let snap = sensors.calibrate_step(
        &vec![50, 260, 4000],
        &vec![levels(&[1]), levels(&[4]), levels(&[5])],
    );
    assert_eq!(snap.pins[1].status, CalibrationStatus::Usable);
    assert_eq!(snap.pins[4].status, CalibrationStatus::Usable);
    assert_eq!(snap.pins[5].status, CalibrationStatus::Faulty);
}

#[test]
fn set_sensitivity_moves_threshold() {
    let mut sensors = TouchSensors::new();
    sensors.calibrate_start();
    sensors.calibrate_step(&vec![50], &vec![all_low()]);
    sensors.calibrate_step(&vec![150], &vec![all_low()]);
    let result = sensors.calibrate_stop();
    assert_eq!(result.status, CalibrationStatus::Usable);

    // band is [50, 150]: full sensitivity puts the threshold at the fast
    // end, zero at the slow end, the middle at the midpoint
    sensors.set_sensitivity(1000);
    assert_eq!(sensors.threshold, 50);
    sensors.set_sensitivity(0);
    assert_eq!(sensors.threshold, 150);
    sensors.set_sensitivity(500);
    assert_eq!(sensors.threshold, 100);
    sensors.set_sensitivity(250);
    assert_eq!(sensors.threshold, 50 + 100 * 750 / 1000);
}
