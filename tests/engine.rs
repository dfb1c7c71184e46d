use phoenix_ghost::breach::{detect_breaches, NvcBreach};
use phoenix_ghost::ghost_engine::{
    bounded_load, plan_simulation, simulate, DriftReport, ResonanceReading, SimulateRequest,
    SimulateResponse,
};
use phoenix_ghost::persona::{normalize_persona_label, PartnerPersona};
use phoenix_ghost::reply::choose_reply;
use phoenix_ghost::risk::{clamp_u8, estimate_risk_score, should_override};

const SCRIPT: &str = "You always ignore me and you should apologize";
const AVOIDANT_MID_PRESSED: &str = "This is starting to feel like pressure. I’m going to need space right now. If you can send one clear request with options, I’ll respond.";

fn request(script: &str, persona: &str, intensity: u8, load: Option<u8>) -> SimulateRequest {
    SimulateRequest {
        script: script.to_string(),
        persona_type: persona.to_string(),
        intensity_level: intensity,
        system_load: load,
    }
}

fn reading(score: u8) -> ResonanceReading {
    ResonanceReading {
        resonance_score: score,
        flags: vec!["absolute_language".to_string()],
        suggestions: vec!["Name one recent instance.".to_string()],
    }
}

fn drift(start: u8, end: u8) -> DriftReport {
    DriftReport {
        session_id: "session-1".to_string(),
        system_load_start: start,
        system_load_end: end,
        drift_delta: end as i16 - start as i16,
        drift_alert: false,
    }
}

fn kinds_and_needles(bs: &[NvcBreach]) -> Vec<(String, String)> {
    bs.iter().map(|b| (b.kind.clone(), b.needle.clone())).collect()
}

fn run(req: SimulateRequest, live: u8, score: u8) -> SimulateResponse {
    let plan = plan_simulation(&req, live);
    let d = drift(plan.load_sample, 40);
    simulate(req, live, reading(score), d)
}

#[test]
fn risk_formula_exact_value() {
    assert_eq!(estimate_risk_score(60, 75, 2), 81);
}

#[test]
fn risk_floor_and_ceiling() {
    // Intensity below 40 adds nothing and takes nothing away.
    assert_eq!(estimate_risk_score(90, 10, 0), 20);
    assert_eq!(estimate_risk_score(70, 40, 0), 20);
    assert_eq!(estimate_risk_score(0, 100, 9), 100);
    assert_eq!(estimate_risk_score(100, 0, usize::MAX), 100);
    assert_eq!(estimate_risk_score(69, 41, 1), 30);
}

#[test]
fn clamp_holds_to_percent() {
    assert_eq!(clamp_u8(-5), 0);
    assert_eq!(clamp_u8(0), 0);
    assert_eq!(clamp_u8(57), 57);
    assert_eq!(clamp_u8(100), 100);
    assert_eq!(clamp_u8(i32::MAX), 100);
}

#[test]
fn override_threshold() {
    assert!(!should_override(84));
    assert!(should_override(85));
    assert!(should_override(100));
}

#[test]
fn breaches_in_table_order() {
    let bs = detect_breaches(SCRIPT);
    assert_eq!(
        kinds_and_needles(&bs),
        vec![
            ("absolute".to_string(), "always".to_string()),
            ("directive".to_string(), "you should".to_string()),
        ]
    );
    assert_eq!(
        bs[0].message,
        "Absolutes can be heard as character judgments. Swap for a specific recent instance."
    );
    // Order follows the table, not the text.
    let flipped = detect_breaches("you should stop, you always do this");
    assert_eq!(kinds_and_needles(&flipped), kinds_and_needles(&bs));
}

#[test]
fn breaches_of_empty_and_clean_scripts() {
    assert!(detect_breaches("").is_empty());
    assert!(detect_breaches("I felt hurt when the plan changed yesterday.").is_empty());
}

#[test]
fn breaches_ignore_case_and_overlap() {
    let bs = detect_breaches("  YOUR FAULT, You Are NEVER on time because you forget  ");
    assert_eq!(
        kinds_and_needles(&bs),
        vec![
            ("absolute".to_string(), "never".to_string()),
            ("blame".to_string(), "because you".to_string()),
            ("blame".to_string(), "your fault".to_string()),
            ("you_statement".to_string(), "you are".to_string()),
        ]
    );
    let all = detect_breaches(
        "always never you should you need to you have to you make me feel because you your fault you are",
    );
    assert_eq!(all.len(), 9);
}

#[test]
fn persona_labels_and_aliases() {
    assert_eq!(PartnerPersona::from_loose("secure"), PartnerPersona::Secure);
    assert_eq!(PartnerPersona::from_loose("avoidant"), PartnerPersona::AvoidantDismissive);
    assert_eq!(
        PartnerPersona::from_loose("Avoidant-DISMISSIVE"),
        PartnerPersona::AvoidantDismissive
    );
    assert_eq!(PartnerPersona::from_loose("ANXIOUS"), PartnerPersona::AnxiousPreoccupied);
    assert_eq!(
        PartnerPersona::from_loose("anxious-preoccupied"),
        PartnerPersona::AnxiousPreoccupied
    );
    assert_eq!(PartnerPersona::from_loose("Fearful-Avoidant"), PartnerPersona::FearfulAvoidant);
    assert_eq!(PartnerPersona::from_loose("hostile"), PartnerPersona::Secure);
    assert_eq!(PartnerPersona::from_loose(""), PartnerPersona::Secure);
    assert_eq!(normalize_persona_label(&PartnerPersona::Secure), "Secure");
    assert_eq!(
        normalize_persona_label(&PartnerPersona::AvoidantDismissive),
        "Dismissive-Avoidant"
    );
    assert_eq!(
        normalize_persona_label(&PartnerPersona::AnxiousPreoccupied),
        "Anxious-Preoccupied"
    );
    assert_eq!(normalize_persona_label(&PartnerPersona::FearfulAvoidant), "Fearful-Avoidant");
}

#[test]
fn reply_avoidant_mid_aggressive() {
    let r = choose_reply(PartnerPersona::AvoidantDismissive, 60, 75);
    assert_eq!(r, AVOIDANT_MID_PRESSED);
    // Anywhere in the same tier and flag gives the same text.
    assert_eq!(choose_reply(PartnerPersona::AvoidantDismissive, 79, 84), r);
    assert_eq!(choose_reply(PartnerPersona::AvoidantDismissive, 55, 70), r);
}

#[test]
fn reply_tiers_and_flags() {
    assert_eq!(
        choose_reply(PartnerPersona::AvoidantDismissive, 10, 90),
        "No response. (Withdrawn — avoidant persona disengages under high pressure.)"
    );
    assert_eq!(
        choose_reply(PartnerPersona::Secure, 80, 0),
        "I appreciate you being clear. Let’s talk—what time works for a short check-in?"
    );
    assert_eq!(
        choose_reply(PartnerPersona::Secure, 54, 84),
        "That felt like a judgment. Can you rephrase as an observation and a request so I can respond?"
    );
    assert_eq!(
        choose_reply(PartnerPersona::AnxiousPreoccupied, 60, 69),
        "I’m getting nervous. Can you reassure me and say what you’re asking for?"
    );
    assert_eq!(
        choose_reply(PartnerPersona::FearfulAvoidant, 90, 85),
        "I hear you. I want to work on this, but I’m feeling activated—can we slow down and keep it to one request?"
    );
    assert_eq!(
        choose_reply(PartnerPersona::FearfulAvoidant, 90, 84),
        "I hear you. I want to work on this, but I’m feeling activated—can we slow down and keep it to one request?"
    );
    assert_eq!(
        choose_reply(PartnerPersona::FearfulAvoidant, 0, 0),
        "This is landing as criticism. I need a softer reframe (observation + feeling + need) and one doable request."
    );
    // In the high and mid tiers a hot intensity reads as aggressive, for
    // every persona.
    for p in [
        PartnerPersona::Secure,
        PartnerPersona::AvoidantDismissive,
        PartnerPersona::AnxiousPreoccupied,
        PartnerPersona::FearfulAvoidant,
    ] {
        assert_eq!(choose_reply(p, 85, 99), choose_reply(p, 85, 70));
        assert_eq!(choose_reply(p, 60, 85), choose_reply(p, 79, 70));
        assert_ne!(choose_reply(p, 60, 69), choose_reply(p, 60, 70));
        assert_ne!(choose_reply(p, 10, 84), choose_reply(p, 10, 85));
    }
    assert_eq!(
        choose_reply(PartnerPersona::FearfulAvoidant, 60, 90),
        "I’m starting to feel unsafe/defensive. Can we restate this as an observation + feeling + request, and agree on a time limit?"
    );
}

#[test]
fn end_to_end_avoidant_scenario() {
    let req = request(SCRIPT, "avoidant", 75, Some(50));
    let r = run(req, 0, 60);
    assert!(r.success);
    assert!(!r.override_deescalate);
    assert_eq!(r.persona, "Dismissive-Avoidant");
    assert_eq!(r.intensity_level, 75);
    assert_eq!(r.resonance_score, 60);
    assert_eq!(r.breaches.len(), 2);
    assert_eq!(r.risk_score, 81);
    assert_eq!(r.ghost_reply, AVOIDANT_MID_PRESSED);
    assert_eq!(r.flags, vec!["absolute_language".to_string()]);
    assert_eq!(r.suggestions, vec!["Name one recent instance.".to_string()]);
    assert_eq!(r.session_id, "session-1");
    assert_eq!(r.system_load_start, 50);
    assert_eq!(r.system_load_end, 40);
    assert_eq!(r.drift_delta, -10);
    assert!(!r.drift_alert);
}

#[test]
fn high_load_forces_secure() {
    for label in ["avoidant", "anxious", "fearful-avoidant", "whatever"] {
        let r = run(request(SCRIPT, label, 75, Some(90)), 0, 60);
        assert_eq!(r.persona, "Secure");
        assert!(r.override_deescalate);
    }
}

#[test]
fn live_sample_used_only_without_request_load() {
    let plan = plan_simulation(&request("hi", "anxious", 10, None), 95);
    assert_eq!(plan.load_sample, 95);
    assert!(plan.override_deescalate);
    assert_eq!(plan.persona, PartnerPersona::Secure);
    let plan = plan_simulation(&request("hi", "anxious", 10, Some(20)), 95);
    assert_eq!(plan.load_sample, 20);
    assert!(!plan.override_deescalate);
    assert_eq!(plan.persona, PartnerPersona::AnxiousPreoccupied);
    let plan = plan_simulation(&request("hi", "anxious", 10, Some(250)), 0);
    assert_eq!(plan.load_sample, 100);
    assert!(plan.override_deescalate);
}

#[test]
fn percentages_stay_in_range() {
    let r = run(request(SCRIPT, "fearful-avoidant", 255, Some(255)), 255, 100);
    assert_eq!(r.intensity_level, 100);
    assert!(r.risk_score <= 100);
    assert!(r.resonance_score <= 100);
    assert!(r.system_load_start <= 100);
    assert!(r.system_load_end <= 100);
    assert_eq!(bounded_load(255), 100);
    assert_eq!(bounded_load(7), 7);
}

#[test]
fn pure_parts_repeat_identically() {
    assert_eq!(PartnerPersona::from_loose("Anxious"), PartnerPersona::from_loose("Anxious"));
    assert_eq!(
        kinds_and_needles(&detect_breaches(SCRIPT)),
        kinds_and_needles(&detect_breaches(SCRIPT))
    );
    assert_eq!(estimate_risk_score(33, 88, 4), estimate_risk_score(33, 88, 4));
    assert_eq!(
        choose_reply(PartnerPersona::FearfulAvoidant, 60, 86),
        choose_reply(PartnerPersona::FearfulAvoidant, 60, 86)
    );
}
