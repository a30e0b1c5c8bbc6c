//! The sensitivity feed: periodically refreshed analog readings, rescaled on
//! demand.
//!
//! A refresher task stores one raw 12-bit reading per channel; consumers ask
//! for a reading linearly rescaled to `0..=scale`. Only channels 0 and 1
//! exist.

use vstd::prelude::*;

verus! {

/// Latest raw readings of the two analog channels.
pub struct AdcValues {
    pub values: Vec<u32>,
}

impl AdcValues {
    /// Two channels, each holding a raw 12-bit reading.
    pub open spec fn wf(self) -> bool {
        &&& self.values@.len() == 2
        &&& forall|i: int| 0 <= i < 2 ==> #[trigger] self.values@[i] <= 4095u32
    }

    pub fn new() -> (r: Self)
        ensures
            r.wf(),
            forall|i: int| 0 <= i < 2 ==> #[trigger] r.values@[i] == 0u32,
    {
        let mut values: Vec<u32> = Vec::new();
        values.push(0);
        values.push(0);
        AdcValues { values }
    }

    /// Store a fresh raw reading for one channel. The converter delivers
    /// 12-bit readings.
    pub fn set_value(&mut self, input_number: usize, raw: u16)
        requires
            old(self).wf(),
            input_number < 2,
            raw <= 4095,
        ensures
            final(self).wf(),
            final(self).values@ == old(self).values@.update(input_number as int, raw as u32),
    {
        self.values.set(input_number, raw as u32);
    }

    /// The channel's reading rescaled linearly from the 12-bit range to
    /// `0..=scale`; any channel other than 0 and 1 is an input-contract
    /// violation and yields an error.
    pub fn get_value(&self, input_number: usize, scale: u32) -> (r: Result<u32, &'static str>)
        requires
            self.wf(),
            scale <= 0xFFFFu32,
        ensures
            input_number >= 2 ==> r is Err,
            input_number < 2 ==> (r matches Ok(v)
                && v as int == self.values@[input_number as int] * (scale + 1) / 4096),
    {
        if input_number >= 2 {
            Err("Wrong input number")
        } else {
            let value = self.values[input_number];
            assert(value * (scale + 1) <= 4095u32 * 0x10000u32) by (nonlinear_arith)
                requires value <= 4095u32, scale <= 0xFFFFu32,
            {}
            Ok(value * (scale + 1) / 4096)
        }
    }
}

} // verus!
