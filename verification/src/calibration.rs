//! Per-key calibration of the capacitive sensors.
//!
//! A calibration round repeatedly charges all keys, lets them decay, and
//! records for every key the elapsed time at which its level first fell.
//! Each key accumulates a `[min_time, max_time]` band; a key is faulty when
//! it decays implausibly fast, usable once its band is wide enough, and the
//! combined band of the usable keys retroactively flags outliers. Stopping a
//! round derives one shared threshold from the inner band of the usable keys,
//! or falls back to a constant when no usable band exists.

use vstd::prelude::*;

use crate::config::{
    CALIBRATION_STEP_TIME, FALLBACK_THRESHOLD, MAX_READING_TIME, MIN_MARGIN_REQUIRED,
    MIN_TIME_REQUIRED, NUM_SENSORS,
};

verus! {

/// Classification of one key, or of a whole round.
#[derive(Clone, Copy, PartialEq, Eq, Structural, Debug)]
pub enum CalibrationStatus {
    /// No decision yet.
    Unknown,
    /// Produced a valid, separable timing band.
    Usable,
    /// Decays too fast, is an outlier, or (for a round) no usable band exists.
    Faulty,
}

/// Timing band and classification of one key (or the combined band).
#[derive(Clone, Copy, PartialEq, Eq, Structural, Debug)]
pub struct CalibrationData {
    /// Fastest observed decay time, in microseconds; `u64::MAX` until a
    /// reading arrives, so that any real measurement tightens it.
    pub min_time: u64,
    /// Slowest observed decay time, in microseconds; 0 until a reading
    /// arrives.
    pub max_time: u64,
    pub status: CalibrationStatus,
}

/// The state a key's band has before any reading.
pub open spec fn spec_initial_data() -> CalibrationData {
    CalibrationData { min_time: u64::MAX, max_time: 0u64, status: CalibrationStatus::Unknown }
}

/// Well-formed band: untouched, or tight and bounded. A key is never usable
/// while `max_time < min_time`.
pub open spec fn band_wf(d: CalibrationData) -> bool {
    if d.min_time == u64::MAX {
        d.max_time == 0
    } else {
        d.min_time <= d.max_time && d.max_time < MAX_READING_TIME
    }
}

/// Well-formed per-key band: additionally, a key without any reading cannot
/// be usable, and a usable key's spread reached the required margin (so a
/// usable key never has `max_time < min_time`).
pub open spec fn pin_wf(d: CalibrationData) -> bool {
    &&& band_wf(d)
    &&& d.min_time == u64::MAX ==> d.status != CalibrationStatus::Usable
    &&& d.status == CalibrationStatus::Usable
        ==> d.max_time - d.min_time >= MIN_MARGIN_REQUIRED
}

impl Default for CalibrationData {
    fn default() -> (d: Self)
        ensures
            d == spec_initial_data(),
            pin_wf(d),
    {
        CalibrationData {
            min_time: u64::MAX,
            max_time: 0,
            status: CalibrationStatus::Unknown,
        }
    }
}

/// One key's band after recording a decay time `t`: the band is tightened
/// and the key reclassified. A too-fast key is faulty; a key whose spread
/// reaches the required margin is usable; otherwise the classification is
/// kept.
pub open spec fn spec_record_pin(d: CalibrationData, t: u64) -> CalibrationData {
    let min2 = if t < d.min_time { t } else { d.min_time };
    let max2 = if t > d.max_time { t } else { d.max_time };
    let st = if min2 < MIN_TIME_REQUIRED {
        CalibrationStatus::Faulty
    } else if max2 - min2 >= MIN_MARGIN_REQUIRED {
        CalibrationStatus::Usable
    } else {
        d.status
    };
    CalibrationData { min_time: min2, max_time: max2, status: st }
}

/// Whether this recording feeds the combined band: exactly when it put the
/// key in the usable branch.
pub open spec fn spec_feeds_all(d2: CalibrationData) -> bool {
    !(d2.min_time < MIN_TIME_REQUIRED) && d2.max_time - d2.min_time >= MIN_MARGIN_REQUIRED
}

/// The combined band after a usable recording at time `t` of a key whose
/// band is now `d2`.
pub open spec fn spec_feed_all(all: CalibrationData, d2: CalibrationData, t: u64) -> CalibrationData {
    let min2 = if d2.min_time < all.min_time { t } else { all.min_time };
    let max2 = if d2.max_time > all.max_time { t } else { all.max_time };
    CalibrationData { min_time: min2, max_time: max2, status: all.status }
}

/// The combined band after the keys `0..i` have been processed for a tick at
/// time `t`: every not-yet-done key whose level fell and whose recording is
/// usable feeds the band, in key order.
pub open spec fn spec_all_after(
    pins: Seq<CalibrationData>,
    done: Seq<bool>,
    low: Seq<bool>,
    t: u64,
    all: CalibrationData,
    i: int,
) -> CalibrationData
    decreases i,
{
    if i <= 0 {
        all
    } else {
        let prev = spec_all_after(pins, done, low, t, all, i - 1);
        let d2 = spec_record_pin(pins[i - 1], t);
        if !done[i - 1] && low[i - 1] && spec_feeds_all(d2) {
            spec_feed_all(prev, d2, t)
        } else {
            prev
        }
    }
}

/// One key's band after a whole tick: recorded if it newly fell, then marked
/// faulty when its fastest time lies above the combined band (`all2` is the
/// combined band after this tick).
pub open spec fn spec_tick_pin(
    d: CalibrationData,
    done: bool,
    low: bool,
    t: u64,
    all2: CalibrationData,
) -> CalibrationData {
    let d2 = if !done && low { spec_record_pin(d, t) } else { d };
    if all2.max_time > all2.min_time && d2.min_time > all2.max_time {
        CalibrationData { min_time: d2.min_time, max_time: d2.max_time, status: CalibrationStatus::Faulty }
    } else {
        d2
    }
}

/// Across any tick a key's band only tightens — the fastest recorded time
/// never rises and the slowest never falls — and the too-fast floor is
/// permanent: once a key's fastest time lies below it, the key is faulty
/// after every further tick. Induction over a round's ticks therefore shows
/// that a key that ever decayed below the floor stays faulty to the end of
/// the round.
pub proof fn lemma_tick_pin_monotone(
    d: CalibrationData,
    done: bool,
    low: bool,
    t: u64,
    all2: CalibrationData,
)
    requires
        d.min_time < MIN_TIME_REQUIRED ==> d.status == CalibrationStatus::Faulty,
    ensures
        ({
            let d2 = spec_tick_pin(d, done, low, t, all2);
            &&& d2.min_time <= d.min_time
            &&& d2.max_time >= d.max_time
            &&& d2.min_time < MIN_TIME_REQUIRED ==> d2.status == CalibrationStatus::Faulty
        }),
{
}

/// Number of `true` entries among the first `i` of `s`.
pub open spec fn count_true(s: Seq<bool>, i: int) -> int
    decreases i,
{
    if i <= 0 {
        0
    } else {
        count_true(s, i - 1) + (if s[i - 1] { 1int } else { 0int })
    }
}

pub proof fn lemma_count_true_bounds(s: Seq<bool>, i: int)
    requires 0 <= i,
    ensures 0 <= count_true(s, i) <= i,
    decreases i,
{
    if i > 0 {
        lemma_count_true_bounds(s, i - 1);
    }
}

pub proof fn lemma_count_true_update(s: Seq<bool>, k: int, i: int)
    requires 0 <= k < i, i <= s.len(),
    ensures count_true(s.update(k, true), i)
        == count_true(s, i) + (if s[k] { 0int } else { 1int }),
    decreases i,
{
    if i > 0 {
        if k < i - 1 {
            lemma_count_true_update(s, k, i - 1);
            assert(s.update(k, true)[i - 1] == s[i - 1]);
        } else {
            assert(count_true(s.update(k, true), i - 1) == count_true(s, i - 1)) by {
                lemma_count_true_same_prefix(s, s.update(k, true), i - 1);
            }
        }
    }
}

pub proof fn lemma_count_true_same_prefix(s1: Seq<bool>, s2: Seq<bool>, i: int)
    requires forall|j: int| 0 <= j < i ==> s1[j] == s2[j],
    ensures count_true(s1, i) == count_true(s2, i),
    decreases i,
{
    if i > 0 {
        lemma_count_true_same_prefix(s1, s2, i - 1);
    }
}

/// Progress of one calibration tick loop: which keys have already produced
/// their reading in the current round step, and how many.
pub struct CalibrationRound {
    pub done: Vec<bool>,
    pub num_done: usize,
}

impl CalibrationRound {
    pub open spec fn wf(self) -> bool {
        &&& self.done@.len() == NUM_SENSORS
        &&& self.num_done == count_true(self.done@, NUM_SENSORS as int)
    }

    /// Begin a round step: no key has produced a reading yet.
    pub fn new() -> (r: Self)
        ensures
            r.wf(),
            r.num_done == 0,
            forall|i: int| 0 <= i < NUM_SENSORS ==> !(#[trigger] r.done@[i]),
    {
        let mut done: Vec<bool> = Vec::new();
        let mut i: usize = 0;
        while i < NUM_SENSORS
            invariant
                i <= NUM_SENSORS,
                done@.len() == i,
                forall|j: int| 0 <= j < i ==> !(#[trigger] done@[j]),
            decreases NUM_SENSORS - i,
        {
            done.push(false);
            i += 1;
        }
        proof {
            lemma_count_all_false(done@, NUM_SENSORS as int);
        }
        CalibrationRound { done, num_done: 0 }
    }
}

pub proof fn lemma_count_all_false(s: Seq<bool>, i: int)
    requires forall|j: int| 0 <= j < i ==> !(#[trigger] s[j]),
    ensures count_true(s, i) == 0,
    decreases i,
{
    if i > 0 {
        lemma_count_all_false(s, i - 1);
    }
}

/// The per-key bands, the combined band of the usable keys, and the round's
/// classification.
#[derive(Debug)]
pub struct CalibrationDataSet {
    pub pins: Vec<CalibrationData>,
    pub all: CalibrationData,
    pub status: CalibrationStatus,
}

impl CalibrationDataSet {
    /// Every key's band is well-formed (in particular, a key is never usable
    /// with `max_time < min_time`), and so is the combined band.
    pub open spec fn wf(self) -> bool {
        &&& self.pins@.len() == NUM_SENSORS
        &&& forall|i: int| 0 <= i < NUM_SENSORS ==> pin_wf(#[trigger] self.pins@[i])
        &&& band_wf(self.all)
    }

    /// All bands reset to their initial, unbounded state.
    pub open spec fn is_initial(self) -> bool {
        &&& self.pins@.len() == NUM_SENSORS
        &&& forall|i: int| 0 <= i < NUM_SENSORS ==> #[trigger] self.pins@[i] == spec_initial_data()
        &&& self.all == spec_initial_data()
        &&& self.status == CalibrationStatus::Unknown
    }

    pub fn new() -> (r: Self)
        ensures
            r.wf(),
            r.is_initial(),
    {
        let mut pins: Vec<CalibrationData> = Vec::new();
        let mut i: usize = 0;
        while i < NUM_SENSORS
            invariant
                i <= NUM_SENSORS,
                pins@.len() == i,
                forall|j: int| 0 <= j < i ==> #[trigger] pins@[j] == spec_initial_data(),
            decreases NUM_SENSORS - i,
        {
            pins.push(CalibrationData::default());
            i += 1;
        }
        CalibrationDataSet {
            pins,
            all: CalibrationData::default(),
            status: CalibrationStatus::Unknown,
        }
    }

    /// A copy of the data set, field for field.
    pub fn snapshot(&self) -> (r: Self)
        requires self.pins@.len() == NUM_SENSORS,
        ensures
            r.pins@ == self.pins@,
            r.all == self.all,
            r.status == self.status,
    {
        let mut pins: Vec<CalibrationData> = Vec::new();
        let mut i: usize = 0;
        while i < NUM_SENSORS
            invariant
                i <= NUM_SENSORS,
                self.pins@.len() == NUM_SENSORS,
                pins@.len() == i,
                forall|j: int| 0 <= j < i ==> #[trigger] pins@[j] == self.pins@[j],
            decreases NUM_SENSORS - i,
        {
            let d = self.pins[i];
            pins.push(d);
            i += 1;
        }
        proof {
            assert(pins@ =~= self.pins@);
        }
        CalibrationDataSet { pins, all: self.all, status: self.status }
    }

    /// One polling tick of a calibration round step, at elapsed time `t`.
    ///
    /// `low[i]` is whether key `i`'s level has fallen. Every key that newly
    /// fell records `t` into its band and is reclassified; usable recordings
    /// feed the combined band; finally every key whose fastest time lies
    /// above the combined band is flagged faulty. Returns whether the round
    /// step is over: all keys have reported, or the time budget is spent.
    pub fn tick(&mut self, round: &mut CalibrationRound, t: u64, low: &Vec<bool>) -> (stop: bool)
        requires
            old(self).wf(),
            old(round).wf(),
            low@.len() == NUM_SENSORS,
            t < MAX_READING_TIME,
        ensures
            final(self).wf(),
            final(round).wf(),
            final(self).status == old(self).status,
            final(self).all == spec_all_after(
                old(self).pins@, old(round).done@, low@, t, old(self).all, NUM_SENSORS as int),
            forall|i: int| 0 <= i < NUM_SENSORS ==> #[trigger] final(self).pins@[i]
                == spec_tick_pin(old(self).pins@[i], old(round).done@[i], low@[i], t, final(self).all),
            forall|i: int| 0 <= i < NUM_SENSORS ==> #[trigger] final(round).done@[i]
                == (old(round).done@[i] || low@[i]),
            stop == (final(round).num_done == NUM_SENSORS || t >= CALIBRATION_STEP_TIME),
    {
        let ghost pins0 = self.pins@;
        let ghost done0 = round.done@;
        let ghost all0 = self.all;

        let mut i: usize = 0;
        while i < NUM_SENSORS
            invariant
                i <= NUM_SENSORS,
                low@.len() == NUM_SENSORS,
                t < MAX_READING_TIME,
                self.pins@.len() == NUM_SENSORS,
                round.done@.len() == NUM_SENSORS,
                pins0.len() == NUM_SENSORS,
                done0.len() == NUM_SENSORS,
                round.num_done == count_true(round.done@, NUM_SENSORS as int),
                self.status == old(self).status,
                band_wf(all0),
                forall|j: int| 0 <= j < NUM_SENSORS ==> pin_wf(#[trigger] pins0[j]),
                self.all == spec_all_after(pins0, done0, low@, t, all0, i as int),
                band_wf(self.all),
                forall|j: int| i <= j < NUM_SENSORS ==> #[trigger] self.pins@[j] == pins0[j],
                forall|j: int| i <= j < NUM_SENSORS ==> #[trigger] round.done@[j] == done0[j],
                forall|j: int| 0 <= j < i ==> #[trigger] self.pins@[j]
                    == (if !done0[j] && low@[j] { spec_record_pin(pins0[j], t) } else { pins0[j] }),
                forall|j: int| 0 <= j < i ==> #[trigger] round.done@[j] == (done0[j] || low@[j]),
                forall|j: int| 0 <= j < NUM_SENSORS ==> pin_wf(#[trigger] self.pins@[j]),
            decreases NUM_SENSORS - i,
        {
            let ghost done_pre = round.done@;
            if !round.done[i] && low[i] {
                let mut d = self.pins[i];
                if t < d.min_time {
                    d.min_time = t;
                }
                if t > d.max_time {
                    d.max_time = t;
                }
                assert(d.min_time <= t && t <= d.max_time);
                if d.min_time < MIN_TIME_REQUIRED {
                    d.status = CalibrationStatus::Faulty;
                } else if d.max_time - d.min_time >= MIN_MARGIN_REQUIRED {
                    d.status = CalibrationStatus::Usable;
                    // only reasonably-behaving keys feed the combined band
                    if d.min_time < self.all.min_time {
                        self.all.min_time = t;
                    }
                    if d.max_time > self.all.max_time {
                        self.all.max_time = t;
                    }
                }
                assert(d == spec_record_pin(pins0[i as int], t));
                self.pins.set(i, d);
                round.done.set(i, true);
                proof {
                    lemma_count_true_bounds(done_pre, NUM_SENSORS as int);
                    lemma_count_true_update(done_pre, i as int, NUM_SENSORS as int);
                }
                round.num_done += 1;
            }
            i += 1;
        }

        let ghost all2 = self.all;

        if self.all.max_time > self.all.min_time {
            // the combined band has real data: use it to flag outliers
            let mut j: usize = 0;
            while j < NUM_SENSORS
                invariant
                    j <= NUM_SENSORS,
                    self.pins@.len() == NUM_SENSORS,
                    self.all == all2,
                    self.status == old(self).status,
                    round.done@.len() == NUM_SENSORS,
                    round.num_done == count_true(round.done@, NUM_SENSORS as int),
                    all2.max_time > all2.min_time,
                    forall|k: int| j <= k < NUM_SENSORS ==> #[trigger] self.pins@[k]
                        == (if !done0[k] && low@[k] { spec_record_pin(pins0[k], t) } else { pins0[k] }),
                    forall|k: int| 0 <= k < j ==> #[trigger] self.pins@[k]
                        == spec_tick_pin(pins0[k], done0[k], low@[k], t, all2),
                    forall|k: int| 0 <= k < NUM_SENSORS ==> pin_wf(#[trigger] self.pins@[k]),
                    pins0.len() == NUM_SENSORS,
                    done0.len() == NUM_SENSORS,
                    low@.len() == NUM_SENSORS,
                decreases NUM_SENSORS - j,
            {
                let d = self.pins[j];
                if d.min_time > self.all.max_time {
                    let marked = CalibrationData {
                        min_time: d.min_time,
                        max_time: d.max_time,
                        status: CalibrationStatus::Faulty,
                    };
                    self.pins.set(j, marked);
                }
                j += 1;
            }
        }

        round.num_done == NUM_SENSORS || t >= CALIBRATION_STEP_TIME
    }
}

/// The whole state transform of one tick at time `t`: the combined band
/// absorbs the usable recordings, every key is recorded and outlier-checked,
/// and the done flags absorb the fallen levels.
pub open spec fn spec_tick_state(
    pins: Seq<CalibrationData>,
    all: CalibrationData,
    done: Seq<bool>,
    low: Seq<bool>,
    t: u64,
) -> (Seq<CalibrationData>, CalibrationData, Seq<bool>) {
    let all2 = spec_all_after(pins, done, low, t, all, pins.len() as int);
    let pins2 = Seq::new(pins.len(), |i: int| spec_tick_pin(pins[i], done[i], low[i], t, all2));
    let done2 = Seq::new(done.len(), |i: int| done[i] || low[i]);
    (pins2, all2, done2)
}

/// A round step ends after the tick at time `t` when every key has
/// reported or the time budget is spent.
pub open spec fn spec_step_stopped(done2: Seq<bool>, t: u64) -> bool {
    count_true(done2, done2.len() as int) == done2.len() || t >= CALIBRATION_STEP_TIME
}

/// The per-key bands and the combined band after a round step driven from
/// tick `k` onward of a recorded trace: ticks are applied in order until
/// the step is over or the trace ends.
pub open spec fn spec_step_from(
    pins: Seq<CalibrationData>,
    all: CalibrationData,
    done: Seq<bool>,
    times: Seq<u64>,
    lows: Seq<Vec<bool>>,
    k: int,
) -> (Seq<CalibrationData>, CalibrationData)
    decreases times.len() - k,
{
    if k < 0 || k >= times.len() {
        (pins, all)
    } else {
        let (pins2, all2, done2) = spec_tick_state(pins, all, done, lows[k]@, times[k]);
        if spec_step_stopped(done2, times[k]) {
            (pins2, all2)
        } else {
            spec_step_from(pins2, all2, done2, times, lows, k + 1)
        }
    }
}

/// Largest `min_time` among the usable keys of `pins[..i]`, if any.
pub open spec fn spec_max_min(pins: Seq<CalibrationData>, i: int) -> Option<u64>
    decreases i,
{
    if i <= 0 {
        None
    } else {
        let prev = spec_max_min(pins, i - 1);
        if pins[i - 1].status == CalibrationStatus::Usable {
            match prev {
                None => Some(pins[i - 1].min_time),
                Some(m) => Some(if pins[i - 1].min_time > m { pins[i - 1].min_time } else { m }),
            }
        } else {
            prev
        }
    }
}

/// Smallest `max_time` among the usable keys of `pins[..i]`, if any.
pub open spec fn spec_min_max(pins: Seq<CalibrationData>, i: int) -> Option<u64>
    decreases i,
{
    if i <= 0 {
        None
    } else {
        let prev = spec_min_max(pins, i - 1);
        if pins[i - 1].status == CalibrationStatus::Usable {
            match prev {
                None => Some(pins[i - 1].max_time),
                Some(m) => Some(if pins[i - 1].max_time < m { pins[i - 1].max_time } else { m }),
            }
        } else {
            prev
        }
    }
}

/// The inner band `[max of min_times, min of max_times]` of the usable keys
/// is well-formed: it is non-empty and at least a tenth of the required
/// margin wide.
pub open spec fn spec_band_usable(pins: Seq<CalibrationData>) -> bool {
    match (spec_max_min(pins, pins.len() as int), spec_min_max(pins, pins.len() as int)) {
        (Some(mm), Some(mx)) => !(mx < mm || mx - mm < MIN_MARGIN_REQUIRED / 10),
        _ => false,
    }
}

/// Classification of a finished round: usable exactly when the usable keys
/// leave a well-formed inner band.
pub open spec fn spec_stop_status(pins: Seq<CalibrationData>) -> CalibrationStatus {
    if spec_band_usable(pins) {
        CalibrationStatus::Usable
    } else {
        CalibrationStatus::Faulty
    }
}

/// Threshold derived by a finished round: the midpoint of the inner band of
/// the usable keys, or the constant fallback when the round is faulty.
pub open spec fn spec_stop_threshold(pins: Seq<CalibrationData>) -> u64 {
    if spec_band_usable(pins) {
        let mm = spec_max_min(pins, pins.len() as int)->Some_0;
        let mx = spec_min_max(pins, pins.len() as int)->Some_0;
        ((mm + (mx - mm) / 2) as u64)
    } else {
        FALLBACK_THRESHOLD
    }
}

/// The combined band after a finished round: the inner band of the usable
/// keys when the round is usable, otherwise unchanged except for the
/// round's status.
pub open spec fn spec_stop_all(pins: Seq<CalibrationData>, all: CalibrationData) -> CalibrationData {
    if spec_band_usable(pins) {
        CalibrationData {
            min_time: spec_max_min(pins, pins.len() as int)->Some_0,
            max_time: spec_min_max(pins, pins.len() as int)->Some_0,
            status: CalibrationStatus::Usable,
        }
    } else {
        CalibrationData {
            min_time: all.min_time,
            max_time: all.max_time,
            status: CalibrationStatus::Faulty,
        }
    }
}

/// Any value in the usable keys' inner band comes from a well-formed key
/// band, so it is bounded.
pub proof fn lemma_inner_band_bounded(pins: Seq<CalibrationData>, i: int)
    requires
        0 <= i <= pins.len(),
        forall|j: int| 0 <= j < pins.len() ==> pin_wf(#[trigger] pins[j]),
    ensures
        spec_max_min(pins, i) matches Some(v) ==> v < MAX_READING_TIME,
        spec_min_max(pins, i) matches Some(v) ==> v < MAX_READING_TIME,
        spec_max_min(pins, i) is Some <==> spec_min_max(pins, i) is Some,
    decreases i,
{
    if i > 0 {
        lemma_inner_band_bounded(pins, i - 1);
    }
}

/// What the inner-band folds mean: `spec_max_min` is the largest
/// `min_time` among the usable keys of `pins[..i]` and `spec_min_max` the
/// smallest `max_time`, and each exists exactly when a usable key does.
pub proof fn lemma_inner_band_characterization(pins: Seq<CalibrationData>, i: int)
    requires
        0 <= i <= pins.len(),
    ensures
        (spec_max_min(pins, i) is None) <==> (forall|k: int| 0 <= k < i
            ==> (#[trigger] pins[k]).status != CalibrationStatus::Usable),
        (spec_min_max(pins, i) is None) <==> (forall|k: int| 0 <= k < i
            ==> (#[trigger] pins[k]).status != CalibrationStatus::Usable),
        spec_max_min(pins, i) matches Some(mm) ==> {
            &&& exists|k: int| 0 <= k < i && (#[trigger] pins[k]).status == CalibrationStatus::Usable
                && pins[k].min_time == mm
            &&& forall|k: int| 0 <= k < i && (#[trigger] pins[k]).status == CalibrationStatus::Usable
                ==> pins[k].min_time <= mm
        },
        spec_min_max(pins, i) matches Some(mx) ==> {
            &&& exists|k: int| 0 <= k < i && (#[trigger] pins[k]).status == CalibrationStatus::Usable
                && pins[k].max_time == mx
            &&& forall|k: int| 0 <= k < i && (#[trigger] pins[k]).status == CalibrationStatus::Usable
                ==> pins[k].max_time >= mx
        },
    decreases i,
{
    if i > 0 {
        lemma_inner_band_characterization(pins, i - 1);
    }
}

/// A key is never usable while its band is inverted, and a usable key's
/// spread always reached the required margin: both follow from
/// well-formedness, which every operation preserves.
pub proof fn lemma_usable_band_ordered(cal: CalibrationDataSet)
    requires
        cal.wf(),
    ensures
        forall|i: int| 0 <= i < cal.pins@.len()
            && (#[trigger] cal.pins@[i]).status == CalibrationStatus::Usable
            ==> cal.pins@[i].min_time <= cal.pins@[i].max_time,
        forall|i: int| 0 <= i < cal.pins@.len()
            && (#[trigger] cal.pins@[i]).status == CalibrationStatus::Usable
            ==> cal.pins@[i].max_time - cal.pins@[i].min_time >= MIN_MARGIN_REQUIRED,
{
}

/// A faulty round always selects the constant fallback threshold; it never
/// derives the threshold from the combined bounds.
pub proof fn lemma_faulty_round_uses_fallback(pins: Seq<CalibrationData>)
    ensures
        spec_stop_status(pins) == CalibrationStatus::Faulty
            ==> spec_stop_threshold(pins) == FALLBACK_THRESHOLD,
{
}

/// Without any usable key the inner band does not exist.
pub proof fn lemma_no_usable_no_band(pins: Seq<CalibrationData>, i: int)
    requires
        0 <= i,
        forall|j: int| 0 <= j < i ==> (#[trigger] pins[j]).status != CalibrationStatus::Usable,
    ensures
        spec_max_min(pins, i) is None,
        spec_min_max(pins, i) is None,
    decreases i,
{
    if i > 0 {
        lemma_no_usable_no_band(pins, i - 1);
    }
}

/// Starting a round and stopping it without any measurement step always
/// yields a faulty result with the fallback threshold: fresh bands hold no
/// usable key.
pub proof fn lemma_fresh_stop_is_faulty(pins: Seq<CalibrationData>)
    requires
        forall|j: int| 0 <= j < pins.len() ==> #[trigger] pins[j] == spec_initial_data(),
    ensures
        spec_stop_status(pins) == CalibrationStatus::Faulty,
        spec_stop_threshold(pins) == FALLBACK_THRESHOLD,
{
    lemma_no_usable_no_band(pins, pins.len() as int);
}

} // verus!
