//! Fault injection: the checking of configured settings, the fallback for
//! refused ones, and the sampling of delays and failures.

use crate::config::{FaultInjectConfig, RATE_SCALE};
use crate::logging::{LogMessage, LogMessageView, LogType};
use vstd::prelude::*;

verus! {

/// Settings of the fault-injection middleware. Rates are in millionths,
/// delays in microseconds, the timeout in seconds.
#[derive(Clone, Copy, Debug, PartialEq, Eq, Structural)]
pub struct FaultInject {
    /// Share of requests to fail, in millionths: 0 to 1 000 000.
    pub error_rate: i64,
    /// Least added delay, in microseconds.
    pub min_delay: u64,
    /// Greatest added delay, in microseconds.
    pub max_delay: u64,
    /// Time allowed to the inner handler, in seconds.
    pub timeout: Option<u64>,
    /// Status code of an injected failure and of a timeout.
    pub status_on_error: u16,
}

/// Why configured settings were refused.
#[derive(Clone, Copy, Debug, PartialEq, Eq, Structural)]
pub enum FaultInjectError {
    InvalidErrorRate,
    InvalidDelay,
    InvalidTimeout,
    InvalidStatusCode,
}

impl FaultInjectError {
    /// The text that describes the error.
    pub open spec fn message(self) -> Seq<char> {
        match self {
            FaultInjectError::InvalidErrorRate => "Invalid error rate"@,
            FaultInjectError::InvalidDelay => "Invalid delay range"@,
            FaultInjectError::InvalidTimeout => "Invalid timeout"@,
            FaultInjectError::InvalidStatusCode => "Invalid status code"@,
        }
    }

    /// The text that describes the error.
    pub fn into(self) -> (text: String)
        ensures
            text@ == self.message(),
    {
        match self {
            FaultInjectError::InvalidErrorRate => "Invalid error rate".to_owned(),
            FaultInjectError::InvalidDelay => "Invalid delay range".to_owned(),
            FaultInjectError::InvalidTimeout => "Invalid timeout".to_owned(),
            FaultInjectError::InvalidStatusCode => "Invalid status code".to_owned(),
        }
    }
}

/// Whether a number is a status code that HTTP can carry: three digits.
pub open spec fn is_status_code(code: u16) -> bool {
    100 <= code <= 999
}

/// Calls `http::StatusCode::from_u16` and says whether it took the code,
/// which it does exactly for the codes from 100 to 999.
#[verifier::external_body]
fn status_code_parses(code: u16) -> (parses: bool)
    ensures
        parses == is_status_code(code),
{
    poem::http::StatusCode::from_u16(code).is_ok()
}

/// The timeout of the fallback settings, in seconds.
pub const DEFAULT_TIMEOUT: u64 = 2;

/// What checking configured settings comes to. The checks run in this
/// order: the rate, the delays, the timeout, the status code. Settings
/// that pass are taken as they are: where no timeout is configured, there
/// is none.
pub open spec fn checked(config: FaultInjectConfig) -> Result<FaultInject, FaultInjectError> {
    if config.error_rate < 0 || config.error_rate > RATE_SCALE {
        Err(FaultInjectError::InvalidErrorRate)
    } else if config.min_delay > config.max_delay {
        Err(FaultInjectError::InvalidDelay)
    } else if config.timeout == Some(0u64) {
        Err(FaultInjectError::InvalidTimeout)
    } else if !is_status_code(config.status_on_error) {
        Err(FaultInjectError::InvalidStatusCode)
    } else {
        Ok(
            FaultInject {
                error_rate: config.error_rate,
                min_delay: config.min_delay,
                max_delay: config.max_delay,
                timeout: config.timeout,
                status_on_error: config.status_on_error,
            },
        )
    }
}

impl FaultInject {
    /// Settings that inject nothing: no failures, no delay, no timeout.
    pub open spec fn inert() -> FaultInject {
        FaultInject {
            error_rate: 0,
            min_delay: 0,
            max_delay: 0,
            timeout: None,
            status_on_error: 500,
        }
    }

    /// The settings that stand in where configured ones are refused: one
    /// request in ten fails, 50 to 100 microseconds of delay, two seconds
    /// of timeout, status 500.
    pub open spec fn default_spec() -> FaultInject {
        FaultInject {
            error_rate: 100_000,
            min_delay: 50,
            max_delay: 100,
            timeout: Some(DEFAULT_TIMEOUT),
            status_on_error: 500,
        }
    }

    /// Whether the settings are sound: the rate is a share, the delays are
    /// a range, the timeout is not zero, the status is a status code.
    pub open spec fn is_valid(self) -> bool {
        &&& 0 <= self.error_rate <= RATE_SCALE
        &&& self.min_delay <= self.max_delay
        &&& self.timeout != Some(0u64)
        &&& is_status_code(self.status_on_error)
    }

    pub fn new() -> (r: Self)
        ensures
            r == FaultInject::inert(),
    {
        FaultInject {
            error_rate: 0,
            min_delay: 0,
            max_delay: 0,
            timeout: None,
            status_on_error: 500,
        }
    }

    pub fn with_error_rate(self, p: i64) -> (r: Self)
        ensures
            r == (FaultInject { error_rate: p, ..self }),
    {
        let mut f = self;
        f.error_rate = p;
        f
    }

    pub fn with_delay(self, min: u64, max: u64) -> (r: Self)
        ensures
            r == (FaultInject { min_delay: min, max_delay: max, ..self }),
    {
        let mut f = self;
        f.min_delay = min;
        f.max_delay = max;
        f
    }

    pub fn with_timeout(self, dur: u64) -> (r: Self)
        ensures
            r == (FaultInject { timeout: Some(dur), ..self }),
    {
        let mut f = self;
        f.timeout = Some(dur);
        f
    }

    pub fn with_status(self, status: u16) -> (r: Self)
        ensures
            r == (FaultInject { status_on_error: status, ..self }),
    {
        let mut f = self;
        f.status_on_error = status;
        f
    }
}

impl Default for FaultInject {
    fn default() -> (r: Self)
        ensures
            r == FaultInject::default_spec(),
    {
        FaultInject::new().with_error_rate(100_000).with_delay(50, 100).with_timeout(
            DEFAULT_TIMEOUT,
        ).with_status(500)
    }
}

impl TryFrom<&FaultInjectConfig> for FaultInject {
    type Error = FaultInjectError;

    /// Checks configured settings. They are refused with
    /// `InvalidErrorRate` where the rate is below zero or above one, with
    /// `InvalidDelay` where the least delay is above the greatest, with
    /// `InvalidTimeout` where the timeout is zero, and with
    /// `InvalidStatusCode` where the status is no status code.
    fn try_from(value: &FaultInjectConfig) -> (r: Result<FaultInject, FaultInjectError>)
        ensures
            r == checked(*value),
    {
        if value.error_rate < 0 || value.error_rate > RATE_SCALE {
            return Err(FaultInjectError::InvalidErrorRate);
        }
        if value.min_delay > value.max_delay {
            return Err(FaultInjectError::InvalidDelay);
        }
        if let Some(timeout) = value.timeout {
            if timeout == 0 {
                return Err(FaultInjectError::InvalidTimeout);
            }
        }
        if !status_code_parses(value.status_on_error) {
            return Err(FaultInjectError::InvalidStatusCode);
        }
        let settings = FaultInject::new().with_error_rate(value.error_rate).with_delay(
            value.min_delay,
            value.max_delay,
        ).with_status(value.status_on_error);
        match value.timeout {
            Some(timeout) => Ok(settings.with_timeout(timeout)),
            None => Ok(settings),
        }
    }
}

impl vstd::std_specs::convert::TryFromSpecImpl<&FaultInjectConfig> for FaultInject {
    open spec fn obeys_try_from_spec() -> bool {
        true
    }

    open spec fn try_from_spec(v: &FaultInjectConfig) -> Result<Self, FaultInjectError> {
        checked(*v)
    }
}

/// Calls `rand::Rng::gen_range` on `rand::rngs::OsRng` with the inclusive
/// range from zero to `bound`, which is never empty. The draw is random;
/// what holds of every draw is that it lies in the range. `OsRng` gives up
/// where the operating system has no random bytes to give.
#[verifier::external_body]
pub(crate) fn draw_up_to(bound: u64) -> (draw: u64)
    ensures
        draw <= bound,
{
    rand::Rng::gen_range(&mut rand::rngs::OsRng, 0..=bound)
}

impl FaultInject {
    /// The width of the delay range: how far a delay may lie above the
    /// least one.
    pub open spec fn spread(self) -> u64 {
        if self.min_delay <= self.max_delay {
            (self.max_delay - self.min_delay) as u64
        } else {
            0
        }
    }

    /// The delay that an offset into the range stands for: the least delay
    /// plus the offset, where an offset beyond the range counts as the end
    /// of the range. Settings whose least delay is above the greatest give
    /// no delay.
    pub open spec fn delay_at(self, offset: u64) -> u64 {
        if self.min_delay > self.max_delay {
            0
        } else if offset <= self.spread() {
            (self.min_delay + offset) as u64
        } else {
            self.max_delay
        }
    }

    /// Whether a draw out of a million means that the request is to fail:
    /// the draws below the rate do.
    pub open spec fn fails_on(self, draw: u64) -> bool {
        draw < self.error_rate
    }

    /// The delay, in microseconds, that an offset into the delay range
    /// stands for.
    pub fn delay_with(&self, offset: u64) -> (delay: u64)
        ensures
            delay == self.delay_at(offset),
            self.min_delay <= self.max_delay ==> self.min_delay <= delay <= self.max_delay,
    {
        if self.min_delay > self.max_delay {
            0
        } else {
            let spread = self.max_delay - self.min_delay;
            if offset <= spread {
                self.min_delay + offset
            } else {
                self.max_delay
            }
        }
    }

    /// Samples the delay to add to a request, in microseconds: uniformly
    /// from the least to the greatest delay, both included. Where the two
    /// are equal the delay is exactly that; where both are zero there is
    /// none.
    pub fn sample_delay(&self) -> (delay: u64)
        ensures
            self.min_delay <= self.max_delay ==> self.min_delay <= delay <= self.max_delay,
            self.min_delay > self.max_delay ==> delay == 0,
            exists|offset: u64| offset <= self.spread() && delay == self.delay_at(offset),
    {
        let spread = if self.min_delay <= self.max_delay {
            self.max_delay - self.min_delay
        } else {
            0
        };
        let offset = draw_up_to(spread);
        self.delay_with(offset)
    }

    /// Whether a draw out of a million means that the request is to fail.
    pub fn should_fail(&self, draw: u64) -> (fails: bool)
        ensures
            fails == self.fails_on(draw),
    {
        self.error_rate > 0 && draw < self.error_rate as u64
    }

    /// Decides at random whether a request is to fail: a share of the
    /// requests that is the error rate does.
    pub fn sample_failure(&self) -> (fails: bool)
        ensures
            self.error_rate <= 0 ==> !fails,
            self.error_rate >= RATE_SCALE ==> fails,
            exists|draw: u64| draw < RATE_SCALE && fails == self.fails_on(draw),
    {
        let draw = draw_up_to(RATE_SCALE as u64 - 1);
        self.should_fail(draw)
    }
}

/// Settings that pass the checks are sound, and so are the defaults: the
/// middleware never runs with a rate outside zero to one, a reversed delay
/// range, a timeout of zero or a status that is no status code.
pub proof fn lemma_checked_settings_are_valid(config: FaultInjectConfig)
    ensures
        checked(config) matches Ok(settings) ==> settings.is_valid(),
        FaultInject::default_spec().is_valid(),
        settled(config).is_valid(),
{
}

/// The settings that the middleware runs with, given the configured ones:
/// those, where they pass the checks, and the defaults where they do not.
pub open spec fn settled(config: FaultInjectConfig) -> FaultInject {
    match checked(config) {
        Ok(fi) => fi,
        Err(_) => FaultInject::default_spec(),
    }
}

/// The report of refused settings: nothing where they pass the checks,
/// and an error message that names the reason where they do not.
pub open spec fn refusal_report(config: FaultInjectConfig) -> Option<LogMessageView> {
    match checked(config) {
        Ok(_) => None,
        Err(e) => Some(
            LogMessageView {
                severity: LogType::Error,
                text: "Failed to initialize fault injection middleware: "@ + e.message(),
            },
        ),
    }
}

/// The view of a message that may be absent.
pub open spec fn report_view(report: Option<LogMessage>) -> Option<LogMessageView> {
    match report {
        Some(message) => Some(message@),
        None => None,
    }
}

/// Settles the settings of the middleware at startup. Configured settings
/// that pass the checks are used. Refused settings never stop the service:
/// the defaults take their place, and the second part of the result is the
/// error message to log. Either way the settings that come out are sound.
pub fn init_fault_inject(config: &FaultInjectConfig) -> (r: (FaultInject, Option<LogMessage>))
    ensures
        r.0 == settled(*config),
        r.0.is_valid(),
        report_view(r.1) == refusal_report(*config),
{
    match FaultInject::try_from(config) {
        Ok(fi) => (fi, None),
        Err(e) => {
            let text = "Failed to initialize fault injection middleware: ".to_owned().concat(
                e.into().as_str(),
            );
            (FaultInject::default(), Some(LogMessage::error(text)))
        },
    }
}

} // verus!
