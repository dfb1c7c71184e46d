//! The risk estimate and the load-driven de-escalation gate.
use vstd::prelude::*;

verus! {

/// `v` held to `[0, 100]`.
pub open spec fn clamp_percent(v: int) -> int {
    if v < 0 {
        0
    } else if v > 100 {
        100
    } else {
        v
    }
}

pub open spec fn excess(v: int) -> int {
    if v > 0 {
        v
    } else {
        0
    }
}

/// The risk formula: a floor of 20, plus the intensity above 40, plus 8 per
/// breach, plus the alignment shortfall below 70, held to `[0, 100]`.
pub open spec fn risk_of(alignment: int, intensity: int, breach_count: int) -> int {
    clamp_percent(20 + excess(intensity - 40) + breach_count * 8 + excess(70 - alignment))
}

/// The load from which the counterpart is forced to de-escalate.
pub const OVERRIDE_LOAD: u8 = 85;

pub open spec fn overrides(load: int) -> bool {
    load >= OVERRIDE_LOAD
}

pub fn clamp_u8(v: i32) -> (r: u8)
    ensures
        r as int == clamp_percent(v as int),
{
    if v < 0 {
        0
    } else if v > 100 {
        100
    } else {
        v as u8
    }
}

/// The risk of a message with alignment `resonance_score`, sent at
/// `intensity`, with `breach_count` breaches.
pub fn estimate_risk_score(resonance_score: u8, intensity: u8, breach_count: usize) -> (r: u8)
    ensures
        r as int == risk_of(resonance_score as int, intensity as int, breach_count as int),
{
    // Past 13 breaches the sum is above 100 whatever the other terms are.
    let counted: i32 = if breach_count > 13 {
        13
    } else {
        breach_count as i32
    };
    let mut risk: i32 = 20;
    if intensity > 40 {
        risk += intensity as i32 - 40;
    }
    risk += counted * 8;
    if (resonance_score as i32) < 70 {
        risk += 70 - resonance_score as i32;
    }
    clamp_u8(risk)
}

/// Whether a sampled load forces the de-escalated persona.
pub fn should_override(load: u8) -> (r: bool)
    ensures
        r == overrides(load as int),
{
    load >= OVERRIDE_LOAD
}

} // verus!
