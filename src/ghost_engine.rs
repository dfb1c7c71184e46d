//! One simulation cycle. The decisions are taken here; the collaborators
//! (telemetry sampler, resonance analyzer, drift tracker) are run by the
//! caller, which hands their results in:
//!
//! 1. `plan_simulation` fixes the intensity, the load sample, the override and
//!    the effective persona;
//! 2. the caller asks the analyzer about the script under `plan.persona`, and
//!    the drift tracker for a session opened at `plan.load_sample` and closed
//!    at `bounded_load` of a fresh sample;
//! 3. `simulate` assembles the response.
use vstd::prelude::*;
use vstd::string::*;
use crate::breach::{breach_views, breaches_of, detect_breaches, NvcBreach};
use crate::persona::{classify, normalize_persona_label, persona_label, PartnerPersona};
use crate::reply::{choose_reply, pressure_of, reply_text, tier_of};
use crate::risk::{estimate_risk_score, overrides, risk_of, should_override};

verus! {

/// A request to simulate the counterpart's reaction to a message.
#[derive(Clone, Debug)]
pub struct SimulateRequest {
    /// The message the user intends to send.
    pub script: String,
    /// Loose persona label.
    pub persona_type: String,
    /// Pressure on the counterpart; values above 100 count as 100.
    pub intensity_level: u8,
    /// System load sampled by the caller; when absent a live sample is used.
    pub system_load: Option<u8>,
}

/// What the resonance analyzer reports for a script.
#[derive(Clone, Debug)]
pub struct ResonanceReading {
    pub resonance_score: u8,
    pub flags: Vec<String>,
    pub suggestions: Vec<String>,
}

/// What the drift tracker reports when a session is closed.
#[derive(Clone, Debug)]
pub struct DriftReport {
    pub session_id: String,
    pub system_load_start: u8,
    pub system_load_end: u8,
    pub drift_delta: i16,
    pub drift_alert: bool,
}

/// The decisions taken before any collaborator is asked.
#[derive(Clone, Copy, Debug, PartialEq, Eq, Structural)]
pub struct SimulationPlan {
    pub intensity: u8,
    pub load_sample: u8,
    pub override_deescalate: bool,
    pub persona: PartnerPersona,
}

#[derive(Clone, Debug)]
pub struct SimulateResponse {
    pub success: bool,
    pub persona: String,
    pub intensity_level: u8,
    pub resonance_score: u8,
    pub ghost_reply: String,
    pub flags: Vec<String>,
    pub suggestions: Vec<String>,
    pub breaches: Vec<NvcBreach>,
    /// Coarse risk score that a UI can use to trigger a brake.
    pub risk_score: u8,
    pub session_id: String,
    pub system_load_start: u8,
    pub system_load_end: u8,
    pub drift_delta: i16,
    pub drift_alert: bool,
    /// Whether a high load forced the de-escalated persona.
    pub override_deescalate: bool,
}

/// `v` held to at most 100.
pub open spec fn bounded(v: u8) -> u8 {
    if v > 100 {
        100
    } else {
        v
    }
}

/// The load reading a request is judged by: its own, else the live sample.
pub open spec fn load_reading(req: SimulateRequest, live: u8) -> u8 {
    match req.system_load {
        Some(l) => l,
        None => live,
    }
}

pub open spec fn planned(req: SimulateRequest, live: u8) -> SimulationPlan {
    let load = bounded(load_reading(req, live));
    let forced = overrides(load as int);
    SimulationPlan {
        intensity: bounded(req.intensity_level),
        load_sample: load,
        override_deescalate: forced,
        persona: if forced {
            PartnerPersona::Secure
        } else {
            classify(req.persona_type@)
        },
    }
}

/// The response to `req`, given the live load sample, the analyzer's
/// reading and the drift tracker's report.
pub open spec fn simulated(
    req: SimulateRequest,
    live: u8,
    reading: ResonanceReading,
    drift: DriftReport,
    r: SimulateResponse,
) -> bool {
    let plan = planned(req, live);
    let score = reading.resonance_score;
    &&& r.success
    &&& r.persona@ == persona_label(plan.persona)
    &&& r.intensity_level == plan.intensity
    &&& r.resonance_score == score
    &&& r.ghost_reply@ == reply_text(
        plan.persona,
        tier_of(score as int),
        pressure_of(plan.intensity as int),
    )
    &&& r.flags@ == reading.flags@
    &&& r.suggestions@ == reading.suggestions@
    &&& breach_views(r.breaches@) == breaches_of(req.script@)
    &&& r.risk_score as int == risk_of(
        score as int,
        plan.intensity as int,
        breaches_of(req.script@).len() as int,
    )
    &&& r.session_id@ == drift.session_id@
    &&& r.system_load_start == drift.system_load_start
    &&& r.system_load_end == drift.system_load_end
    &&& r.drift_delta == drift.drift_delta
    &&& r.drift_alert == drift.drift_alert
    &&& r.override_deescalate == plan.override_deescalate
}

/// A load or intensity reading held to at most 100.
pub fn bounded_load(v: u8) -> (r: u8)
    ensures
        r == bounded(v),
{
    if v > 100 {
        100
    } else {
        v
    }
}

/// The decisions of a cycle: `live` is the sampler's reading, used only when
/// the request carries no load of its own.
pub fn plan_simulation(req: &SimulateRequest, live: u8) -> (r: SimulationPlan)
    ensures
        r == planned(*req, live),
{
    let intensity = bounded_load(req.intensity_level);
    let reading = match req.system_load {
        Some(l) => l,
        None => live,
    };
    let load_sample = bounded_load(reading);
    let forced = should_override(load_sample);
    let persona = if forced {
        PartnerPersona::Secure
    } else {
        PartnerPersona::from_loose(req.persona_type.as_str())
    };
    SimulationPlan { intensity, load_sample, override_deescalate: forced, persona }
}

/// Assembles the response of a cycle from the request, the live load sample
/// and the collaborators' results.
pub fn simulate(req: SimulateRequest, live: u8, reading: ResonanceReading, drift: DriftReport) -> (r:
    SimulateResponse)
    ensures
        simulated(req, live, reading, drift, r),
{
    let plan = plan_simulation(&req, live);
    let breaches = detect_breaches(req.script.as_str());
    let risk_score = estimate_risk_score(reading.resonance_score, plan.intensity, breaches.len());
    let ghost_reply = choose_reply(plan.persona, reading.resonance_score, plan.intensity);
    SimulateResponse {
        success: true,
        persona: String::from_str(normalize_persona_label(&plan.persona)),
        intensity_level: plan.intensity,
        resonance_score: reading.resonance_score,
        ghost_reply,
        flags: reading.flags,
        suggestions: reading.suggestions,
        breaches,
        risk_score,
        session_id: drift.session_id,
        system_load_start: drift.system_load_start,
        system_load_end: drift.system_load_end,
        drift_delta: drift.drift_delta,
        drift_alert: drift.drift_alert,
        override_deescalate: plan.override_deescalate,
    }
}

} // verus!
