use std::time::Duration;
use vstd::prelude::*;

verus! {

/// The time value that `Duration::from_millis` builds from a number of milliseconds.
pub uninterp spec fn duration_from_millis(millis: u64) -> Duration;

/// Calls `std::time::Duration::from_millis`.  Trusted: the result is the
/// value named by `duration_from_millis` for the same argument (the
/// constructor is a pure function of its argument).
#[verifier::external_body]
pub(crate) fn millis(ms: u64) -> (d: Duration)
    ensures
        d == duration_from_millis(ms),
{
    Duration::from_millis(ms)
}

/// Reliability policy of a topic, with the maximum blocking time of a writer.
#[derive(Clone, Copy, Debug)]
pub enum QosReliability {
    BestEffort(Duration),
    Reliable(Duration),
}

/// The reliability a topic gets when none is asked for: reliable, blocking at most 100 ms.
pub open spec fn default_reliability() -> QosReliability {
    QosReliability::Reliable(duration_from_millis(100))
}

impl Default for QosReliability {
    fn default() -> (r: Self)
        ensures
            r == default_reliability(),
    {
        QosReliability::Reliable(millis(100))
    }
}

/// Durability policy of a topic.
#[derive(Clone, Copy, Debug, PartialEq, Eq, Structural)]
pub enum QosDurability {
    /// Receive only new data.
    Volatile,
    /// Receive valid data even if old.
    TransientLocal,
}

/// The durability a topic gets when none is asked for.
pub open spec fn default_durability() -> QosDurability {
    QosDurability::Volatile
}

impl Default for QosDurability {
    fn default() -> (r: Self)
        ensures
            r == default_durability(),
    {
        QosDurability::Volatile
    }
}

/// History policy of a topic.
#[derive(Clone, Copy, Debug, PartialEq, Eq, Structural)]
pub enum QosHistory {
    KeepAll,
    KeepLast(usize),
}

/// The history a topic gets when none is asked for: the last sample only.
pub open spec fn default_history() -> QosHistory {
    QosHistory::KeepLast(1)
}

impl Default for QosHistory {
    fn default() -> (r: Self)
        ensures
            r == default_history(),
    {
        QosHistory::KeepLast(1)
    }
}

/// A set of quality-of-service policies that the three policies can be applied to.
pub trait Qos: Default {
    fn set_reliability(&mut self, reliability: QosReliability) -> Result<(), QosError>;

    fn set_durability(&mut self, durability: QosDurability) -> Result<(), QosError>;

    fn set_history(&mut self, history: QosHistory) -> Result<(), QosError>;
}

/// A QoS that can be created empty, with no policy set.
pub trait QosCreate: Qos {
    fn create() -> Self;
}

/// Failure to apply a QoS policy.
#[derive(Debug, PartialEq, Eq, Structural)]
pub enum QosError {
    InternalError,
}

impl QosError {
    /// The message of the error.
    pub fn message(&self) -> (s: &'static str)
        ensures
            s@ == "Internal DDS error"@,
    {
        "Internal DDS error"
    }
}

} // verus!
