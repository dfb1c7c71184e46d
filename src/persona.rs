//! The four counterpart personas and the classifier for free-text labels.
use vstd::prelude::*;
use crate::text::{lower_seq, lowercase_chars, spells};

verus! {

/// The attachment style that the simulated counterpart adopts.
#[derive(Clone, Copy, Debug, PartialEq, Eq, Structural)]
pub enum PartnerPersona {
    Secure,
    AvoidantDismissive,
    AnxiousPreoccupied,
    FearfulAvoidant,
}

/// The persona that a free-text label names, compared without regard to
/// ASCII case; a label outside the alias table names `Secure`.
pub open spec fn classify(label: Seq<char>) -> PartnerPersona {
    let l = lower_seq(label);
    if l == "avoidant"@ || l == "avoidant-dismissive"@ {
        PartnerPersona::AvoidantDismissive
    } else if l == "anxious"@ || l == "anxious-preoccupied"@ {
        PartnerPersona::AnxiousPreoccupied
    } else if l == "fearful-avoidant"@ {
        PartnerPersona::FearfulAvoidant
    } else {
        PartnerPersona::Secure
    }
}

/// The canonical label reported for a persona.
pub open spec fn persona_label(p: PartnerPersona) -> Seq<char> {
    match p {
        PartnerPersona::Secure => "Secure"@,
        PartnerPersona::AvoidantDismissive => "Dismissive-Avoidant"@,
        PartnerPersona::AnxiousPreoccupied => "Anxious-Preoccupied"@,
        PartnerPersona::FearfulAvoidant => "Fearful-Avoidant"@,
    }
}

impl PartnerPersona {
    /// Reads a loose persona label (`secure`, `avoidant`, `avoidant-dismissive`,
    /// `anxious`, `anxious-preoccupied`, `fearful-avoidant`, any ASCII case).
    /// Anything else falls back to `Secure`.
    pub fn from_loose(label: &str) -> (r: PartnerPersona)
        ensures
            r == classify(label@),
    {
        let l = lowercase_chars(label);
        if spells(&l, "avoidant") || spells(&l, "avoidant-dismissive") {
            PartnerPersona::AvoidantDismissive
        } else if spells(&l, "anxious") || spells(&l, "anxious-preoccupied") {
            PartnerPersona::AnxiousPreoccupied
        } else if spells(&l, "fearful-avoidant") {
            PartnerPersona::FearfulAvoidant
        } else {
            PartnerPersona::Secure
        }
    }
}

/// The canonical label of a persona.
pub fn normalize_persona_label(p: &PartnerPersona) -> (r: &'static str)
    ensures
        r@ == persona_label(*p),
{
    match p {
        PartnerPersona::Secure => "Secure",
        PartnerPersona::AvoidantDismissive => "Dismissive-Avoidant",
        PartnerPersona::AnxiousPreoccupied => "Anxious-Preoccupied",
        PartnerPersona::FearfulAvoidant => "Fearful-Avoidant",
    }
}

} // verus!
