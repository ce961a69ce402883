//! Generation parameters and their validation.
//!
//! The frequency is a floating-point number of hertz. It crosses this library's
//! boundary as its IEEE 754 binary64 bit pattern (what `f64::to_bits` gives), so
//! that it is stored and handed back exactly. The tick period is a whole number
//! of microseconds.
//!
//! An update is accepted when the new value is greater than zero. Anything else
//! is turned down with [`ConfigError::InvalidConfig`] and the value in force
//! stays: a reader of the configuration never sees a value that was not accepted.

use vstd::prelude::*;

verus! {

/// The frequency in force until another is set: 50 Hz.
pub const DEFAULT_FREQUENCY: u64 = 0x4049_0000_0000_0000;

/// The tick period in force until another is set: 50 microseconds.
pub const DEFAULT_TICK_PERIOD: u64 = 50;

/// Why a configuration update was turned down.
#[derive(Clone, Copy, Debug, PartialEq, Eq, Structural)]
pub enum ConfigError {
    /// The frequency or the tick period offered was not greater than zero.
    InvalidConfig,
}

/// Whether `bits`, read as an IEEE 754 binary64 bit pattern, is a number greater
/// than zero: the sign bit is clear, the number is not zero and it is not a NaN.
/// Positive infinity is greater than zero.
pub open spec fn is_positive(bits: u64) -> bool {
    0 < bits <= 0x7ff0_0000_0000_0000
}

/// Decides [`is_positive`].
pub fn check_positive(bits: u64) -> (r: bool)
    ensures
        r == is_positive(bits),
    no_unwind
{
    0 < bits && bits <= 0x7ff0_0000_0000_0000
}

/// The parameters that the generator reads at every tick.
#[derive(Clone, Copy, Debug)]
pub struct GenerationConfig {
    frequency: u64,
    tick_period: u64,
}

impl GenerationConfig {
    /// The frequency in force, as a bit pattern.
    pub closed spec fn frequency(&self) -> u64 {
        self.frequency
    }

    /// The tick period in force, in microseconds.
    pub closed spec fn tick_period(&self) -> u64 {
        self.tick_period
    }

    /// In every configuration both parameters are greater than zero.
    #[verifier::type_invariant]
    pub open spec fn wf(&self) -> bool {
        is_positive(self.frequency()) && self.tick_period() > 0
    }

    /// The default configuration.
    pub fn new() -> (r: GenerationConfig)
        ensures
            r.wf(),
            r.frequency() == DEFAULT_FREQUENCY,
            r.tick_period() == DEFAULT_TICK_PERIOD,
    {
        GenerationConfig { frequency: DEFAULT_FREQUENCY, tick_period: DEFAULT_TICK_PERIOD }
    }

    /// Puts `frequency` in force if it is greater than zero; otherwise reports
    /// `InvalidConfig` and keeps the frequency that was in force. The tick period
    /// is never touched.
    pub fn set_frequency(&mut self, frequency: u64) -> (r: Result<(), ConfigError>)
        ensures
            is_positive(frequency) ==> r is Ok && final(self).frequency() == frequency,
            !is_positive(frequency) ==> r == Err::<(), ConfigError>(ConfigError::InvalidConfig)
                && final(self).frequency() == old(self).frequency(),
            final(self).tick_period() == old(self).tick_period(),
            final(self).wf(),
        no_unwind
    {
        proof {
            use_type_invariant(&*self);
        }
        if check_positive(frequency) {
            self.frequency = frequency;
            Ok(())
        } else {
            Err(ConfigError::InvalidConfig)
        }
    }

    /// Puts `tick_period` in force if it is greater than zero; otherwise reports
    /// `InvalidConfig` and keeps the period that was in force. The frequency is
    /// never touched.
    pub fn set_tick_period(&mut self, tick_period: u64) -> (r: Result<(), ConfigError>)
        ensures
            tick_period > 0 ==> r is Ok && final(self).tick_period() == tick_period,
            tick_period == 0 ==> r == Err::<(), ConfigError>(ConfigError::InvalidConfig)
                && final(self).tick_period() == old(self).tick_period(),
            final(self).frequency() == old(self).frequency(),
            final(self).wf(),
        no_unwind
    {
        proof {
            use_type_invariant(&*self);
        }
        if tick_period > 0 {
            self.tick_period = tick_period;
            Ok(())
        } else {
            Err(ConfigError::InvalidConfig)
        }
    }

    /// The frequency in force.
    pub fn get_frequency(&self) -> (r: u64)
        ensures
            r == self.frequency(),
            is_positive(r),
    {
        proof {
            use_type_invariant(self);
        }
        self.frequency
    }

    /// The tick period in force.
    pub fn get_tick_period(&self) -> (r: u64)
        ensures
            r == self.tick_period(),
            r > 0,
    {
        proof {
            use_type_invariant(self);
        }
        self.tick_period
    }
}

} // verus!
