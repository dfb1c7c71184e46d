//! Properties of the engine as a whole, stated over the contracts of its
//! functions and proved.
use vstd::prelude::*;
use crate::breach::{breach_views, breaches_of, NvcBreach};
use crate::ghost_engine::{load_reading, simulated, DriftReport, ResonanceReading, SimulateRequest, SimulateResponse};
use crate::persona::{classify, PartnerPersona};
use crate::reply::{pressure_of, reply_text, tier_flag, tier_of};
use crate::risk::risk_of;

verus! {

/// Every percentage of a response lies in `[0, 100]`, whatever intensity
/// the caller asked for, as long as the analyzer's score and the drift
/// tracker's loads lie there themselves.
pub proof fn lemma_response_percentages_bounded(
    req: SimulateRequest,
    live: u8,
    reading: ResonanceReading,
    drift: DriftReport,
    r: SimulateResponse,
)
    requires
        simulated(req, live, reading, drift, r),
        reading.resonance_score <= 100,
        drift.system_load_start <= 100,
        drift.system_load_end <= 100,
    ensures
        r.intensity_level <= 100,
        r.resonance_score <= 100,
        r.risk_score <= 100,
        r.system_load_start <= 100,
        r.system_load_end <= 100,
{
}

/// A load reading of 85 or more forces the `Secure` persona and flags the
/// override, whatever persona the request names.
pub proof fn lemma_high_load_forces_secure(
    req: SimulateRequest,
    live: u8,
    reading: ResonanceReading,
    drift: DriftReport,
    r: SimulateResponse,
)
    requires
        simulated(req, live, reading, drift, r),
        load_reading(req, live) >= 85,
    ensures
        r.persona@ == "Secure"@,
        r.override_deescalate,
{
}

/// A reply depends only on the persona, the alignment tier and that tier's
/// flag: two messages in the same tier with the same flag get the same reply.
pub proof fn lemma_reply_depends_on_tier_and_flag(
    persona: PartnerPersona,
    score1: u8,
    intensity1: u8,
    score2: u8,
    intensity2: u8,
)
    requires
        tier_of(score1 as int) == tier_of(score2 as int),
        tier_flag(tier_of(score1 as int), intensity1 as int) == tier_flag(
            tier_of(score2 as int),
            intensity2 as int,
        ),
    ensures
        reply_text(persona, tier_of(score1 as int), pressure_of(intensity1 as int)) == reply_text(
            persona,
            tier_of(score2 as int),
            pressure_of(intensity2 as int),
        ),
{
}

/// The classifier, the breach detector, the risk estimate and the reply
/// policy give the same output each time they are called on the same input.
pub proof fn lemma_pure_parts_repeatable(
    label: Seq<char>,
    first: PartnerPersona,
    second: PartnerPersona,
    script: Seq<char>,
    b1: Seq<NvcBreach>,
    b2: Seq<NvcBreach>,
    score: u8,
    intensity: u8,
    count: usize,
    risk1: u8,
    risk2: u8,
    persona: PartnerPersona,
    reply1: Seq<char>,
    reply2: Seq<char>,
)
    requires
        first == classify(label),
        second == classify(label),
        breach_views(b1) == breaches_of(script),
        breach_views(b2) == breaches_of(script),
        risk1 as int == risk_of(score as int, intensity as int, count as int),
        risk2 as int == risk_of(score as int, intensity as int, count as int),
        reply1 == reply_text(persona, tier_of(score as int), pressure_of(intensity as int)),
        reply2 == reply_text(persona, tier_of(score as int), pressure_of(intensity as int)),
    ensures
        first == second,
        breach_views(b1) == breach_views(b2),
        risk1 == risk2,
        reply1 == reply2,
{
}

} // verus!
