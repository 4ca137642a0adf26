use vstd::prelude::*;

use crate::error::MiddlewareError;
use crate::qos::{
    default_durability, default_history, default_reliability, Qos, QosCreate, QosDurability,
    QosError, QosHistory, QosReliability, duration_from_millis,
};
use crate::{PublishOptions, SubscribeOptions};

verus! {

/// The policies set on a DDS quality-of-service object; a policy that was
/// never set is `None` and keeps the DDS layer's own default.
pub struct CddsQos {
    pub reliability: Option<QosReliability>,
    pub durability: Option<QosDurability>,
    pub history: Option<QosHistory>,
}

/// The QoS with the three default policies set.
pub open spec fn default_qos() -> CddsQos {
    CddsQos {
        reliability: Some(default_reliability()),
        durability: Some(default_durability()),
        history: Some(default_history()),
    }
}

/// The QoS that a choice of policies gives: each chosen policy, and the
/// default one for each policy left open.
pub open spec fn spec_options_qos(
    reliability: Option<QosReliability>,
    durability: Option<QosDurability>,
    history: Option<QosHistory>,
) -> CddsQos {
    CddsQos {
        reliability: Some(reliability.unwrap_or(default_reliability())),
        durability: Some(durability.unwrap_or(default_durability())),
        history: Some(history.unwrap_or(default_history())),
    }
}

impl QosCreate for CddsQos {
    /// A QoS with no policy set.
    fn create() -> (r: Self)
        ensures
            r == (CddsQos { reliability: None, durability: None, history: None }),
    {
        CddsQos { reliability: None, durability: None, history: None }
    }
}

impl Qos for CddsQos {
    fn set_reliability(&mut self, reliability: QosReliability) -> (r: Result<(), QosError>)
        ensures
            r is Ok,
            *final(self) == (CddsQos { reliability: Some(reliability), ..*old(self) }),
    {
        self.reliability = Some(reliability);
        Ok(())
    }

    fn set_durability(&mut self, durability: QosDurability) -> (r: Result<(), QosError>)
        ensures
            r is Ok,
            *final(self) == (CddsQos { durability: Some(durability), ..*old(self) }),
    {
        self.durability = Some(durability);
        Ok(())
    }

    fn set_history(&mut self, history: QosHistory) -> (r: Result<(), QosError>)
        ensures
            r is Ok,
            *final(self) == (CddsQos { history: Some(history), ..*old(self) }),
    {
        self.history = Some(history);
        Ok(())
    }
}

impl Default for CddsQos {
    fn default() -> (r: Self)
        ensures
            r == default_qos(),
    {
        let mut qos = CddsQos::create();
        let _ = qos.set_durability(QosDurability::default());
        let _ = qos.set_reliability(QosReliability::default());
        let _ = qos.set_history(QosHistory::default());
        qos
    }
}

/// A QoS with the given policies applied, in the order durability,
/// reliability, history; a policy left open gets its default.
fn options_to_cdds_qos(
    reliability: &Option<QosReliability>,
    durability: &Option<QosDurability>,
    history: &Option<QosHistory>,
) -> (r: Result<CddsQos, MiddlewareError>)
    ensures
        r == Ok::<CddsQos, MiddlewareError>(spec_options_qos(*reliability, *durability, *history)),
{
    let mut qos = CddsQos::create();
    let d = match durability {
        Some(d) => *d,
        None => QosDurability::default(),
    };
    if qos.set_durability(d).is_err() {
        return Err(MiddlewareError::QosError);
    }
    let rel = match reliability {
        Some(rel) => *rel,
        None => QosReliability::default(),
    };
    if qos.set_reliability(rel).is_err() {
        return Err(MiddlewareError::QosError);
    }
    let h = match history {
        Some(h) => *h,
        None => QosHistory::default(),
    };
    if qos.set_history(h).is_err() {
        return Err(MiddlewareError::QosError);
    }
    Ok(qos)
}

/// The QoS of a reader with the given options.
pub fn subscribe_options_to_cdds_qos(options: &SubscribeOptions) -> (r: Result<
    CddsQos,
    MiddlewareError,
>)
    ensures
        r == Ok::<CddsQos, MiddlewareError>(
            spec_options_qos(options.reliability, options.durability, options.history),
        ),
        options.durability is None ==> r.unwrap().durability == Some(QosDurability::Volatile),
        options.reliability is None ==> r.unwrap().reliability == Some(
            QosReliability::Reliable(duration_from_millis(100)),
        ),
        options.history is None ==> r.unwrap().history == Some(QosHistory::KeepLast(1)),
        options.durability is Some ==> r.unwrap().durability == options.durability,
        options.reliability is Some ==> r.unwrap().reliability == options.reliability,
        options.history is Some ==> r.unwrap().history == options.history,
{
    options_to_cdds_qos(&options.reliability, &options.durability, &options.history)
}

/// The QoS of a writer with the given options.
pub fn publish_options_to_cdds_qos(options: &PublishOptions) -> (r: Result<
    CddsQos,
    MiddlewareError,
>)
    ensures
        r == Ok::<CddsQos, MiddlewareError>(
            spec_options_qos(options.reliability, options.durability, options.history),
        ),
        options.durability is None ==> r.unwrap().durability == Some(QosDurability::Volatile),
        options.reliability is None ==> r.unwrap().reliability == Some(
            QosReliability::Reliable(duration_from_millis(100)),
        ),
        options.history is None ==> r.unwrap().history == Some(QosHistory::KeepLast(1)),
        options.durability is Some ==> r.unwrap().durability == options.durability,
        options.reliability is Some ==> r.unwrap().reliability == options.reliability,
        options.history is Some ==> r.unwrap().history == options.history,
{
    options_to_cdds_qos(&options.reliability, &options.durability, &options.history)
}

/// Options that set no policy give the default QoS.
pub proof fn lemma_open_options_give_default_qos()
    ensures
        spec_options_qos(None, None, None) == default_qos(),
{
}

/// Each policy gets what the options ask for, and a policy left open gets
/// its default whatever the other two options are: volatile durability,
/// reliable delivery blocking at most 100 ms, and a history of the last sample.
pub proof fn lemma_open_policies_get_defaults(
    reliability: Option<QosReliability>,
    durability: Option<QosDurability>,
    history: Option<QosHistory>,
)
    ensures
        durability is None ==> spec_options_qos(reliability, durability, history).durability
            == Some(QosDurability::Volatile),
        reliability is None ==> spec_options_qos(reliability, durability, history).reliability
            == Some(QosReliability::Reliable(duration_from_millis(100))),
        history is None ==> spec_options_qos(reliability, durability, history).history == Some(
            QosHistory::KeepLast(1),
        ),
        durability is Some ==> spec_options_qos(reliability, durability, history).durability
            == durability,
        reliability is Some ==> spec_options_qos(reliability, durability, history).reliability
            == reliability,
        history is Some ==> spec_options_qos(reliability, durability, history).history == history,
{
}

/// A writer and a reader that ask for the same policies get the same QoS.
pub proof fn lemma_publish_and_subscribe_qos_agree(p: PublishOptions, s: SubscribeOptions)
    requires
        p.reliability == s.reliability,
        p.durability == s.durability,
        p.history == s.history,
    ensures
        spec_options_qos(p.reliability, p.durability, p.history) == spec_options_qos(
            s.reliability,
            s.durability,
            s.history,
        ),
{
}

/// A policy that the options ask for is the one the QoS gets, whatever the
/// other settings are.
pub proof fn lemma_requested_policy_is_applied(
    reliability: QosReliability,
    durability: QosDurability,
    history: QosHistory,
    o_rel: Option<QosReliability>,
    o_dur: Option<QosDurability>,
    o_hist: Option<QosHistory>,
)
    ensures
        spec_options_qos(Some(reliability), o_dur, o_hist).reliability == Some(reliability),
        spec_options_qos(o_rel, Some(durability), o_hist).durability == Some(durability),
        spec_options_qos(o_rel, o_dur, Some(history)).history == Some(history),
{
}

} // verus!
