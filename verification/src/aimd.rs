//! The control state: the configured bounds and the current limit, with the
//! additive-increase / multiplicative-decrease transitions.
//!
//! The decrease factor is an exact fraction `dec_num / dec_den`, so that the
//! rounded-down product is computed in integers.

use vstd::prelude::*;

verus! {

/// The limit after one additive increase: `limit + inc`, capped at `max`.
pub open spec fn increased(limit: nat, inc: nat, max: nat) -> nat {
    if limit + inc <= max {
        limit + inc
    } else {
        max
    }
}

/// The limit after one multiplicative decrease by `num / den`, rounded down,
/// and no lower than `min`.
pub open spec fn decreased(limit: nat, num: nat, den: nat, min: nat) -> nat
    recommends
        den > 0,
{
    let scaled = (limit * num) / den;
    if scaled >= min {
        scaled
    } else {
        min
    }
}

/// An additive increase never lowers a limit, and keeps it within bounds
/// that held before.
pub proof fn increase_within_bounds(limit: nat, inc: nat, min: nat, max: nat)
    requires
        min <= limit <= max,
    ensures
        limit <= increased(limit, inc, max) <= max,
        min <= increased(limit, inc, max),
{
}

/// A multiplicative decrease by a factor strictly between zero and one never
/// raises a limit, and keeps it within bounds that held before.
pub proof fn decrease_within_bounds(limit: nat, num: nat, den: nat, min: nat, max: nat)
    requires
        min <= limit <= max,
        0 < num < den,
    ensures
        min <= decreased(limit, num, den, min) <= limit,
        decreased(limit, num, den, min) <= max,
        (limit * num) / den <= limit,
{
    assert((limit * num) / den <= limit) by (nonlinear_arith)
        requires
            0 < num < den,
    ;
}

/// Why a configuration is refused.
#[derive(Clone, Copy, Debug, PartialEq, Eq, Structural)]
pub enum ConfigError {
    /// The lower bound lies above the upper bound.
    InvertedBounds,
    /// The decrease factor is not strictly between zero and one.
    FactorOutOfRange,
}

/// The configuration of the control law.
#[derive(Clone, Copy, Debug, PartialEq, Eq, Structural)]
pub struct AimdConfig {
    /// The lowest value the limit may take.
    pub min: u64,
    /// The highest value the limit may take, and its initial value.
    pub max: u64,
    /// What a success adds to the limit.
    pub inc: u64,
    /// Numerator of the factor by which a failure scales the limit.
    pub dec_num: u64,
    /// Denominator of the factor by which a failure scales the limit.
    pub dec_den: u64,
}

impl AimdConfig {
    /// The bounds are consistent.
    pub open spec fn bounds_ok(&self) -> bool {
        self.min <= self.max
    }

    /// The decrease factor lies strictly between zero and one.
    pub open spec fn factor_ok(&self) -> bool {
        0 < self.dec_num < self.dec_den
    }

    /// The configuration can be used to build a control state.
    pub open spec fn valid(&self) -> bool {
        self.bounds_ok() && self.factor_ok()
    }

    /// The error that this configuration is refused with, if any. The bounds
    /// are looked at before the factor.
    pub open spec fn defect(&self) -> Option<ConfigError> {
        if !self.bounds_ok() {
            Some(ConfigError::InvertedBounds)
        } else if !self.factor_ok() {
            Some(ConfigError::FactorOutOfRange)
        } else {
            None
        }
    }

    /// Accepts the configuration or says what is wrong with it.
    pub fn validate(&self) -> (r: Result<(), ConfigError>)
        ensures
            r is Ok <==> self.valid(),
            r is Err ==> Some(r->Err_0) == self.defect(),
    {
        if self.min > self.max {
            Err(ConfigError::InvertedBounds)
        } else if self.dec_num == 0 || self.dec_num >= self.dec_den {
            Err(ConfigError::FactorOutOfRange)
        } else {
            Ok(())
        }
    }
}

/// The control state: a valid configuration and the current limit.
#[derive(Clone, Copy, Debug)]
pub struct Aimd {
    config: AimdConfig,
    limit: u64,
}

impl Aimd {
    /// The configuration this state was built with.
    pub closed spec fn config(&self) -> AimdConfig {
        self.config
    }

    /// The current limit.
    pub closed spec fn current(&self) -> u64 {
        self.limit
    }

    /// The configuration is valid and the limit lies within its bounds.
    pub open spec fn wf(&self) -> bool {
        &&& self.config().valid()
        &&& self.config().min <= self.current() <= self.config().max
    }

    /// The state that a success leads to.
    pub open spec fn after_success(&self, next: Aimd) -> bool {
        &&& next.config() == self.config()
        &&& next.current() == increased(
            self.current() as nat,
            self.config().inc as nat,
            self.config().max as nat,
        )
    }

    /// The state that a failure leads to.
    pub open spec fn after_failure(&self, next: Aimd) -> bool {
        &&& next.config() == self.config()
        &&& next.current() == decreased(
            self.current() as nat,
            self.config().dec_num as nat,
            self.config().dec_den as nat,
            self.config().min as nat,
        )
    }

    /// Builds the control state with the limit at its maximum, or refuses an
    /// invalid configuration.
    pub fn new(config: AimdConfig) -> (r: Result<Aimd, ConfigError>)
        ensures
            r is Ok <==> config.valid(),
            r is Ok ==> r->Ok_0.wf() && r->Ok_0.config() == config && r->Ok_0.current()
                == config.max,
            r is Err ==> Some(r->Err_0) == config.defect(),
    {
        match config.validate() {
            Ok(()) => Ok(Aimd { config, limit: config.max }),
            Err(e) => Err(e),
        }
    }

    /// Additive increase: the limit grows by the increment, up to the maximum.
    pub fn success(&mut self)
        requires
            old(self).wf(),
        ensures
            final(self).wf(),
            old(self).after_success(*final(self)),
            final(self).current() >= old(self).current(),
    {
        proof {
            increase_within_bounds(
                self.limit as nat,
                self.config.inc as nat,
                self.config.min as nat,
                self.config.max as nat,
            );
        }
        if self.config.inc <= self.config.max - self.limit {
            self.limit = self.limit + self.config.inc;
        } else {
            self.limit = self.config.max;
        }
    }

    /// Multiplicative decrease: the limit is scaled by the factor, rounded
    /// down, and kept at or above the minimum.
    pub fn failure(&mut self)
        requires
            old(self).wf(),
        ensures
            final(self).wf(),
            old(self).after_failure(*final(self)),
            final(self).current() <= old(self).current(),
    {
        proof {
            decrease_within_bounds(
                self.limit as nat,
                self.config.dec_num as nat,
                self.config.dec_den as nat,
                self.config.min as nat,
                self.config.max as nat,
            );
            assert(self.limit as nat * self.config.dec_num as nat <= u128::MAX) by (nonlinear_arith)
                requires
                    self.limit <= u64::MAX,
                    self.config.dec_num <= u64::MAX,
            ;
        }
        let product: u128 = (self.limit as u128) * (self.config.dec_num as u128);
        let scaled: u128 = product / (self.config.dec_den as u128);
        let scaled: u64 = scaled as u64;
        if scaled >= self.config.min {
            self.limit = scaled;
        } else {
            self.limit = self.config.min;
        }
    }

    /// The current limit.
    pub fn limit(&self) -> (r: u64)
        ensures
            r == self.current(),
    {
        self.limit
    }
}

} // verus!
