//! The touch-sensor array: calibration rounds, threshold sensitivity, and
//! consensus-debounced sampling.
//!
//! The hardware charge/release cycle delivers, per poll, one logic level per
//! key; everything that is decided from those levels is here. A reading is
//! classified against the calibrated threshold, and a sampling cycle reports
//! a definite state for a key only when a fixed number of consecutive
//! samples agree unanimously — any disagreement suppresses the key's result
//! for the whole cycle.

use vstd::prelude::*;

use crate::calibration::{
    spec_all_after, spec_stop_all, spec_stop_status, spec_stop_threshold, spec_tick_pin,
    lemma_inner_band_bounded, CalibrationData, CalibrationDataSet, CalibrationRound,
    CalibrationStatus,
};
use crate::config::{
    FALLBACK_THRESHOLD, MAX_READING_TIME, MIN_MARGIN_REQUIRED, NUM_SENSORS, SENSOR_SAMPLES,
};

verus! {

/// Debounced state of one key.
#[derive(Clone, Copy, PartialEq, Eq, Structural, Debug)]
pub enum TouchSensorStatus {
    /// No definite state: the key is faulty or the samples disagreed.
    Unknown,
    /// Touched.
    On,
    /// Not touched.
    Off,
}

/// State of one sample reading for one key: a faulty key never reports a
/// definite state; otherwise a level still at the charged polarity means
/// touched.
pub open spec fn spec_classify_one(st: CalibrationStatus, high: bool) -> TouchSensorStatus {
    if st == CalibrationStatus::Faulty {
        TouchSensorStatus::Unknown
    } else if high {
        TouchSensorStatus::On
    } else {
        TouchSensorStatus::Off
    }
}

/// All of `samples[0..k]` agree with the first sample on key `i`.
pub open spec fn spec_agree_up_to(samples: Seq<Vec<TouchSensorStatus>>, i: int, k: int) -> bool {
    forall|j: int| 0 <= j < k ==> #[trigger] samples[j]@[i] == samples[0]@[i]
}

/// The sensor array's calibration state and the derived decision threshold.
pub struct TouchSensors {
    pub calibration: CalibrationDataSet,
    pub threshold: u64,
}

impl TouchSensors {
    pub open spec fn wf(self) -> bool {
        self.calibration.wf()
    }

    /// A fresh array: unbounded bands and a conservative default threshold.
    pub fn new() -> (r: Self)
        ensures
            r.wf(),
            r.calibration.is_initial(),
            r.threshold == 500u64,
    {
        TouchSensors { calibration: CalibrationDataSet::new(), threshold: 500 }
    }

    /// Reset all bands to their initial, unbounded state.
    pub fn calibrate_start(&mut self)
        ensures
            final(self).wf(),
            final(self).calibration.is_initial(),
            final(self).threshold == old(self).threshold,
    {
        self.calibration = CalibrationDataSet::new();
    }

    /// One polling tick of a calibration round step; see
    /// [`CalibrationDataSet::tick`].
    pub fn calibrate_tick(
        &mut self,
        round: &mut CalibrationRound,
        t: u64,
        low: &Vec<bool>,
    ) -> (stop: bool)
        requires
            old(self).wf(),
            old(round).wf(),
            low@.len() == NUM_SENSORS,
            t < MAX_READING_TIME,
        ensures
            final(self).wf(),
            final(round).wf(),
            final(self).threshold == old(self).threshold,
            final(self).calibration.status == old(self).calibration.status,
            final(self).calibration.all == spec_all_after(
                old(self).calibration.pins@, old(round).done@, low@, t,
                old(self).calibration.all, NUM_SENSORS as int),
            forall|i: int| 0 <= i < NUM_SENSORS ==> #[trigger] final(self).calibration.pins@[i]
                == spec_tick_pin(old(self).calibration.pins@[i], old(round).done@[i], low@[i], t,
                    final(self).calibration.all),
            forall|i: int| 0 <= i < NUM_SENSORS ==> #[trigger] final(round).done@[i]
                == (old(round).done@[i] || low@[i]),
            stop == (final(round).num_done == NUM_SENSORS
                || t >= crate::config::CALIBRATION_STEP_TIME),
    {
        self.calibration.tick(round, t, low)
    }

    /// One measurement round step driven from a recorded trace of poll
    /// times and levels: ticks are applied in order until every key has
    /// reported or the time budget is spent (or the trace ends). Returns a
    /// snapshot of the accumulated calibration data.
    pub fn calibrate_step(&mut self, times: &Vec<u64>, lows: &Vec<Vec<bool>>) -> (r: CalibrationDataSet)
        requires
            old(self).wf(),
            times@.len() == lows@.len(),
            forall|k: int| 0 <= k < times@.len() ==> #[trigger] times@[k] < MAX_READING_TIME,
            forall|k: int| 0 <= k < lows@.len() ==> (#[trigger] lows@[k])@.len() == NUM_SENSORS,
        ensures
            final(self).wf(),
            final(self).threshold == old(self).threshold,
            final(self).calibration.status == old(self).calibration.status,
            ({
                let end = crate::calibration::spec_step_from(
                    old(self).calibration.pins@, old(self).calibration.all,
                    Seq::new(NUM_SENSORS as nat, |i: int| false), times@, lows@, 0);
                final(self).calibration.pins@ == end.0 && final(self).calibration.all == end.1
            }),
            r.pins@ == final(self).calibration.pins@,
            r.all == final(self).calibration.all,
            r.status == final(self).calibration.status,
    {
        let ghost pins0 = self.calibration.pins@;
        let ghost all0 = self.calibration.all;
        let ghost done0 = Seq::new(NUM_SENSORS as nat, |i: int| false);
        let ghost end = crate::calibration::spec_step_from(pins0, all0, done0, times@, lows@, 0);
        let mut round = CalibrationRound::new();
        proof {
            assert(round.done@ =~= done0);
        }
        let mut stopped = false;
        let mut k: usize = 0;
        while k < times.len() && !stopped
            invariant
                k <= times@.len(),
                times@.len() == lows@.len(),
                forall|j: int| 0 <= j < times@.len() ==> #[trigger] times@[j] < MAX_READING_TIME,
                forall|j: int| 0 <= j < lows@.len() ==> (#[trigger] lows@[j])@.len() == NUM_SENSORS,
                self.wf(),
                round.wf(),
                self.threshold == old(self).threshold,
                self.calibration.status == old(self).calibration.status,
                end == crate::calibration::spec_step_from(pins0, all0, done0, times@, lows@, 0),
                !stopped ==> end == crate::calibration::spec_step_from(
                    self.calibration.pins@, self.calibration.all, round.done@, times@, lows@,
                    k as int),
                stopped ==> end.0 == self.calibration.pins@ && end.1 == self.calibration.all,
            decreases times@.len() - k,
        {
            let ghost pins_b = self.calibration.pins@;
            let ghost all_b = self.calibration.all;
            let ghost done_b = round.done@;
            let t = times[k];
            let stop = self.calibration.tick(&mut round, t, &lows[k]);
            proof {
                let st = crate::calibration::spec_tick_state(
                    pins_b, all_b, done_b, lows@[k as int]@, t);
                assert(self.calibration.pins@ =~= st.0);
                assert(round.done@ =~= st.2);
                assert(stop == crate::calibration::spec_step_stopped(st.2, t));
            }
            k += 1;
            if stop {
                stopped = true;
            }
        }
        self.calibration.snapshot()
    }

    /// Finish a calibration round: derive the shared threshold from the
    /// inner band of the usable keys, or fall back to the constant default
    /// and mark the round faulty. Never derives a threshold from the
    /// combined bounds when the round is faulty, and a round without usable
    /// keys is always faulty. Returns a snapshot of the result.
    pub fn calibrate_stop(&mut self) -> (r: CalibrationDataSet)
        requires
            old(self).wf(),
        ensures
            final(self).wf(),
            final(self).calibration.pins@ == old(self).calibration.pins@,
            final(self).calibration.status == spec_stop_status(old(self).calibration.pins@),
            final(self).calibration.all
                == spec_stop_all(old(self).calibration.pins@, old(self).calibration.all),
            final(self).threshold == spec_stop_threshold(old(self).calibration.pins@),
            final(self).calibration.status == CalibrationStatus::Faulty
                ==> final(self).threshold == FALLBACK_THRESHOLD,
            r.pins@ == final(self).calibration.pins@,
            r.all == final(self).calibration.all,
            r.status == final(self).calibration.status,
    {
        let ghost pins0 = self.calibration.pins@;
        let mut max_min: Option<u64> = None;
        let mut min_max: Option<u64> = None;
        let mut i: usize = 0;
        while i < NUM_SENSORS
            invariant
                i <= NUM_SENSORS,
                self == old(self),
                old(self).wf(),
                pins0 == self.calibration.pins@,
                max_min == crate::calibration::spec_max_min(pins0, i as int),
                min_max == crate::calibration::spec_min_max(pins0, i as int),
            decreases NUM_SENSORS - i,
        {
            let d = self.calibration.pins[i];
            if d.status == CalibrationStatus::Usable {
                max_min = Some(match max_min {
                    None => d.min_time,
                    Some(m) => if d.min_time > m { d.min_time } else { m },
                });
                min_max = Some(match min_max {
                    None => d.max_time,
                    Some(m) => if d.max_time < m { d.max_time } else { m },
                });
            }
            i += 1;
        }
        proof {
            lemma_inner_band_bounded(pins0, NUM_SENSORS as int);
        }
        match (max_min, min_max) {
            (Some(mm), Some(mx)) => {
                if mx < mm || mx - mm < MIN_MARGIN_REQUIRED / 10 {
                    self.threshold = FALLBACK_THRESHOLD;
                    self.calibration.status = CalibrationStatus::Faulty;
                } else {
                    self.calibration.all.min_time = mm;
                    self.calibration.all.max_time = mx;
                    self.threshold = mm + (mx - mm) / 2;
                    self.calibration.status = CalibrationStatus::Usable;
                }
            }
            _ => {
                self.threshold = FALLBACK_THRESHOLD;
                self.calibration.status = CalibrationStatus::Faulty;
            }
        }
        self.calibration.all.status = self.calibration.status;
        self.calibration.snapshot()
    }

    /// Shift the decision threshold inside the combined band: higher
    /// sensitivity values move it toward the touched end.
    pub fn set_sensitivity(&mut self, permille: u32)
        requires
            old(self).wf(),
            permille <= 1000,
            old(self).calibration.all.min_time < u64::MAX,
        ensures
            final(self).wf(),
            final(self).calibration == old(self).calibration,
            final(self).threshold as int == old(self).calibration.all.min_time as int
                + (old(self).calibration.all.max_time - old(self).calibration.all.min_time)
                    * (1000 - permille as int) / 1000,
    {
        let range = self.calibration.all.max_time - self.calibration.all.min_time;
        let factor = (1000 - permille) as u64;
        assert(range * factor <= range * 1000) by (nonlinear_arith)
            requires factor <= 1000, range >= 0,
        {}
        assert(range * 1000 < MAX_READING_TIME * 1000) by (nonlinear_arith)
            requires range < MAX_READING_TIME,
        {}
        self.threshold = self.calibration.all.min_time + range * factor / 1000;
    }

    /// Classify one instantaneous reading of every key against the
    /// calibration: a faulty key reports no definite state; otherwise a
    /// level still at the charged polarity is touched.
    pub fn take_sample(&self, high: &Vec<bool>) -> (r: Vec<TouchSensorStatus>)
        requires
            self.wf(),
            high@.len() == NUM_SENSORS,
        ensures
            r@.len() == NUM_SENSORS,
            forall|i: int| 0 <= i < NUM_SENSORS ==> #[trigger] r@[i]
                == spec_classify_one(self.calibration.pins@[i].status, high@[i]),
    {
        let mut r: Vec<TouchSensorStatus> = Vec::new();
        let mut i: usize = 0;
        while i < NUM_SENSORS
            invariant
                i <= NUM_SENSORS,
                self.wf(),
                high@.len() == NUM_SENSORS,
                r@.len() == i,
                forall|j: int| 0 <= j < i ==> #[trigger] r@[j]
                    == spec_classify_one(self.calibration.pins@[j].status, high@[j]),
            decreases NUM_SENSORS - i,
        {
            let st = self.calibration.pins[i].status;
            let one = if st == CalibrationStatus::Faulty {
                TouchSensorStatus::Unknown
            } else if high[i] {
                TouchSensorStatus::On
            } else {
                TouchSensorStatus::Off
            };
            r.push(one);
            i += 1;
        }
        r
    }

    /// Strict consensus debounce over one sampling cycle: a key reports the
    /// common state when all samples of the cycle agree, and no definite
    /// state when any two samples disagree — regardless of which samples
    /// disagree.
    pub fn run(&self, samples: &Vec<Vec<TouchSensorStatus>>) -> (r: Vec<TouchSensorStatus>)
        requires
            samples@.len() == SENSOR_SAMPLES,
            forall|k: int| 0 <= k < samples@.len()
                ==> (#[trigger] samples@[k])@.len() == NUM_SENSORS,
        ensures
            r@.len() == NUM_SENSORS,
            forall|i: int| 0 <= i < NUM_SENSORS ==>
                #[trigger] r@[i] == (if spec_agree_up_to(samples@, i, SENSOR_SAMPLES as int) {
                    samples@[0]@[i]
                } else {
                    TouchSensorStatus::Unknown
                }),
    {
        let mut r: Vec<TouchSensorStatus> = Vec::new();
        let mut i: usize = 0;
        while i < NUM_SENSORS
            invariant
                i <= NUM_SENSORS,
                samples@.len() == SENSOR_SAMPLES,
                forall|k: int| 0 <= k < samples@.len()
                    ==> (#[trigger] samples@[k])@.len() == NUM_SENSORS,
                r@.len() == i,
                forall|j: int| 0 <= j < i ==> #[trigger] r@[j] == samples@[0]@[j],
            decreases NUM_SENSORS - i,
        {
            let first: TouchSensorStatus = samples[0][i];
            r.push(first);
            i += 1;
        }
        let mut k: usize = 1;
        while k < SENSOR_SAMPLES
            invariant
                1 <= k <= SENSOR_SAMPLES,
                samples@.len() == SENSOR_SAMPLES,
                forall|kk: int| 0 <= kk < samples@.len()
                    ==> (#[trigger] samples@[kk])@.len() == NUM_SENSORS,
                r@.len() == NUM_SENSORS,
                forall|j: int| 0 <= j < NUM_SENSORS ==>
                    #[trigger] r@[j] == (if spec_agree_up_to(samples@, j, k as int) {
                        samples@[0]@[j]
                    } else {
                        TouchSensorStatus::Unknown
                    }),
            decreases SENSOR_SAMPLES - k,
        {
            let mut i2: usize = 0;
            while i2 < NUM_SENSORS
                invariant
                    i2 <= NUM_SENSORS,
                    1 <= k < SENSOR_SAMPLES,
                    samples@.len() == SENSOR_SAMPLES,
                    forall|kk: int| 0 <= kk < samples@.len()
                        ==> (#[trigger] samples@[kk])@.len() == NUM_SENSORS,
                    r@.len() == NUM_SENSORS,
                    forall|j: int| i2 <= j < NUM_SENSORS ==>
                        #[trigger] r@[j] == (if spec_agree_up_to(samples@, j, k as int) {
                            samples@[0]@[j]
                        } else {
                            TouchSensorStatus::Unknown
                        }),
                    forall|j: int| 0 <= j < i2 ==>
                        #[trigger] r@[j] == (if spec_agree_up_to(samples@, j, k as int + 1) {
                            samples@[0]@[j]
                        } else {
                            TouchSensorStatus::Unknown
                        }),
                decreases NUM_SENSORS - i2,
            {
                let cur: TouchSensorStatus = samples[k][i2];
                if r[i2] != cur {
                    r.set(i2, TouchSensorStatus::Unknown);
                }
                proof {
                    if spec_agree_up_to(samples@, i2 as int, k as int) {
                        assert(spec_agree_up_to(samples@, i2 as int, k as int + 1)
                            <==> samples@[k as int]@[i2 as int] == samples@[0]@[i2 as int]);
                    } else {
                        assert(!spec_agree_up_to(samples@, i2 as int, k as int + 1));
                    }
                }
                i2 += 1;
            }
            k += 1;
        }
        r
    }
}

} // verus!
