//! The scripted reply policy: a fixed table from persona, alignment tier and
//! pressure to one reply text.
use vstd::prelude::*;
use vstd::string::*;
use crate::persona::PartnerPersona;

verus! {

/// How well a message aligns: `High` from 80, `Mid` from 55, else `Low`.
#[derive(Clone, Copy, Debug, PartialEq, Eq, Structural)]
pub enum AlignmentTier {
    High,
    Mid,
    Low,
}

/// The pressure that an intensity puts on the counterpart: `Hot` from 85,
/// `Aggressive` from 70, else `Calm`. Both `Hot` and `Aggressive` count as
/// aggressive; `Hot` is told apart only in the low alignment tier.
#[derive(Clone, Copy, Debug, PartialEq, Eq, Structural)]
pub enum Pressure {
    Calm,
    Aggressive,
    Hot,
}

pub open spec fn tier_of(score: int) -> AlignmentTier {
    if score >= 80 {
        AlignmentTier::High
    } else if score >= 55 {
        AlignmentTier::Mid
    } else {
        AlignmentTier::Low
    }
}

pub open spec fn pressure_of(intensity: int) -> Pressure {
    if intensity >= 85 {
        Pressure::Hot
    } else if intensity >= 70 {
        Pressure::Aggressive
    } else {
        Pressure::Calm
    }
}

pub const SECURE_HIGH_PRESSED: &'static str = "I can hear this matters. I want to understand, but I need us to stay respectful. What’s the specific request?";
pub const SECURE_HIGH_CALM: &'static str = "I appreciate you being clear. Let’s talk—what time works for a short check-in?";
pub const SECURE_MID_PRESSED: &'static str = "I’m starting to feel some heat here. Can we slow down and restate this as what you noticed, how you feel, and what you’re asking for?";
pub const SECURE_MID_CALM: &'static str = "I hear you, and I want to get this right. Can you tell me what you need most right now?";
pub const SECURE_LOW_HOT: &'static str = "This is landing as blame/criticism and I’m shutting down a bit. I’m going to pause and come back when we can reframe it as an observation + request.";
pub const SECURE_LOW: &'static str = "That felt like a judgment. Can you rephrase as an observation and a request so I can respond?";

pub const AVOIDANT_HIGH_PRESSED: &'static str = "Ok. Keep it short. What’s the one request—and how much time will this take?";
pub const AVOIDANT_HIGH_CALM: &'static str = "I hear you. I can do a short check-in. What’s the one thing you want from me?";
pub const AVOIDANT_MID_PRESSED: &'static str = "This is starting to feel like pressure. I’m going to need space right now. If you can send one clear request with options, I’ll respond.";
pub const AVOIDANT_MID_CALM: &'static str = "This feels like a lot. Can we schedule 10 minutes later instead of doing this right now?";
pub const AVOIDANT_LOW_HOT: &'static str = "No response. (Withdrawn — avoidant persona disengages under high pressure.)";
pub const AVOIDANT_LOW: &'static str = "This feels like criticism. I’m stepping back. If you can keep it to an observation and a request, I’ll revisit.";

pub const ANXIOUS_HIGH_PRESSED: &'static str = "Thank you for saying it plainly. I’m a little activated, but I want to stay connected—are we okay? When can we talk?";
pub const ANXIOUS_HIGH_CALM: &'static str = "Thank you for being clear. I want to reconnect too. Are we okay? Let’s talk tonight.";
pub const ANXIOUS_MID_PRESSED: &'static str = "I feel attacked and scared. Do you still want us? I need reassurance and a clear plan for when we’ll talk.";
pub const ANXIOUS_MID_CALM: &'static str = "I’m getting nervous. Can you reassure me and say what you’re asking for?";
pub const ANXIOUS_LOW_HOT: &'static str = "I’m panicking a bit. This feels like you’re pulling away and blaming me. Please tell me we’re okay and what you want me to do.";
pub const ANXIOUS_LOW: &'static str = "That’s landing as a judgment. Can you rephrase it gently and tell me what you need?";

pub const FEARFUL_HIGH_PRESSED: &'static str = "I hear you. I want to work on this, but I’m feeling activated—can we slow down and keep it to one request?";
pub const FEARFUL_HIGH_CALM: &'static str = "I appreciate you saying it clearly. I want to talk—can we do a short calm check-in and take breaks if either of us gets flooded?";
pub const FEARFUL_MID_PRESSED: &'static str = "I’m starting to feel unsafe/defensive. Can we restate this as an observation + feeling + request, and agree on a time limit?";
pub const FEARFUL_MID_CALM: &'static str = "I’m trying to hear you, but I’m getting overwhelmed. Can you reassure me you want connection and then say the request?";
pub const FEARFUL_LOW_HOT: &'static str = "I’m shutting down and also panicking. I’m going to step back. If you can rephrase as an observation + feeling + request, I can re-engage later.";
pub const FEARFUL_LOW: &'static str = "This is landing as criticism. I need a softer reframe (observation + feeling + need) and one doable request.";

/// The reply table. In the high and mid tiers a reply depends on whether the
/// message is aggressive (`Aggressive` or `Hot`); in the low tier only on
/// whether it is `Hot`.
pub open spec fn reply_text(p: PartnerPersona, t: AlignmentTier, pr: Pressure) -> Seq<char> {
    match (p, t, pr) {
        (PartnerPersona::Secure, AlignmentTier::High, Pressure::Calm) => SECURE_HIGH_CALM@,
        (PartnerPersona::Secure, AlignmentTier::High, _) => SECURE_HIGH_PRESSED@,
        (PartnerPersona::Secure, AlignmentTier::Mid, Pressure::Calm) => SECURE_MID_CALM@,
        (PartnerPersona::Secure, AlignmentTier::Mid, _) => SECURE_MID_PRESSED@,
        (PartnerPersona::Secure, AlignmentTier::Low, Pressure::Hot) => SECURE_LOW_HOT@,
        (PartnerPersona::Secure, AlignmentTier::Low, _) => SECURE_LOW@,
        (PartnerPersona::AvoidantDismissive, AlignmentTier::High, Pressure::Calm) => AVOIDANT_HIGH_CALM@,
        (PartnerPersona::AvoidantDismissive, AlignmentTier::High, _) => AVOIDANT_HIGH_PRESSED@,
        (PartnerPersona::AvoidantDismissive, AlignmentTier::Mid, Pressure::Calm) => AVOIDANT_MID_CALM@,
        (PartnerPersona::AvoidantDismissive, AlignmentTier::Mid, _) => AVOIDANT_MID_PRESSED@,
        (PartnerPersona::AvoidantDismissive, AlignmentTier::Low, Pressure::Hot) => AVOIDANT_LOW_HOT@,
        (PartnerPersona::AvoidantDismissive, AlignmentTier::Low, _) => AVOIDANT_LOW@,
        (PartnerPersona::AnxiousPreoccupied, AlignmentTier::High, Pressure::Calm) => ANXIOUS_HIGH_CALM@,
        (PartnerPersona::AnxiousPreoccupied, AlignmentTier::High, _) => ANXIOUS_HIGH_PRESSED@,
        (PartnerPersona::AnxiousPreoccupied, AlignmentTier::Mid, Pressure::Calm) => ANXIOUS_MID_CALM@,
        (PartnerPersona::AnxiousPreoccupied, AlignmentTier::Mid, _) => ANXIOUS_MID_PRESSED@,
        (PartnerPersona::AnxiousPreoccupied, AlignmentTier::Low, Pressure::Hot) => ANXIOUS_LOW_HOT@,
        (PartnerPersona::AnxiousPreoccupied, AlignmentTier::Low, _) => ANXIOUS_LOW@,
        (PartnerPersona::FearfulAvoidant, AlignmentTier::High, Pressure::Calm) => FEARFUL_HIGH_CALM@,
        (PartnerPersona::FearfulAvoidant, AlignmentTier::High, _) => FEARFUL_HIGH_PRESSED@,
        (PartnerPersona::FearfulAvoidant, AlignmentTier::Mid, Pressure::Calm) => FEARFUL_MID_CALM@,
        (PartnerPersona::FearfulAvoidant, AlignmentTier::Mid, _) => FEARFUL_MID_PRESSED@,
        (PartnerPersona::FearfulAvoidant, AlignmentTier::Low, Pressure::Hot) => FEARFUL_LOW_HOT@,
        (PartnerPersona::FearfulAvoidant, AlignmentTier::Low, _) => FEARFUL_LOW@,
    }
}

/// The flag that selects a reply within a tier: aggressive (from 70) in the
/// high and mid tiers, hot (from 85) in the low tier.
pub open spec fn tier_flag(t: AlignmentTier, intensity: int) -> bool {
    match t {
        AlignmentTier::Low => intensity >= 85,
        _ => intensity >= 70,
    }
}

pub fn alignment_tier(score: u8) -> (r: AlignmentTier)
    ensures
        r == tier_of(score as int),
{
    if score >= 80 {
        AlignmentTier::High
    } else if score >= 55 {
        AlignmentTier::Mid
    } else {
        AlignmentTier::Low
    }
}

pub fn pressure(intensity: u8) -> (r: Pressure)
    ensures
        r == pressure_of(intensity as int),
{
    if intensity >= 85 {
        Pressure::Hot
    } else if intensity >= 70 {
        Pressure::Aggressive
    } else {
        Pressure::Calm
    }
}

/// One cell of the reply table.
pub fn reply_cell(p: PartnerPersona, t: AlignmentTier, pr: Pressure) -> (r: &'static str)
    ensures
        r@ == reply_text(p, t, pr),
{
    match (p, t, pr) {
        (PartnerPersona::Secure, AlignmentTier::High, Pressure::Calm) => SECURE_HIGH_CALM,
        (PartnerPersona::Secure, AlignmentTier::High, _) => SECURE_HIGH_PRESSED,
        (PartnerPersona::Secure, AlignmentTier::Mid, Pressure::Calm) => SECURE_MID_CALM,
        (PartnerPersona::Secure, AlignmentTier::Mid, _) => SECURE_MID_PRESSED,
        (PartnerPersona::Secure, AlignmentTier::Low, Pressure::Hot) => SECURE_LOW_HOT,
        (PartnerPersona::Secure, AlignmentTier::Low, _) => SECURE_LOW,
        (PartnerPersona::AvoidantDismissive, AlignmentTier::High, Pressure::Calm) => AVOIDANT_HIGH_CALM,
        (PartnerPersona::AvoidantDismissive, AlignmentTier::High, _) => AVOIDANT_HIGH_PRESSED,
        (PartnerPersona::AvoidantDismissive, AlignmentTier::Mid, Pressure::Calm) => AVOIDANT_MID_CALM,
        (PartnerPersona::AvoidantDismissive, AlignmentTier::Mid, _) => AVOIDANT_MID_PRESSED,
        (PartnerPersona::AvoidantDismissive, AlignmentTier::Low, Pressure::Hot) => AVOIDANT_LOW_HOT,
        (PartnerPersona::AvoidantDismissive, AlignmentTier::Low, _) => AVOIDANT_LOW,
        (PartnerPersona::AnxiousPreoccupied, AlignmentTier::High, Pressure::Calm) => ANXIOUS_HIGH_CALM,
        (PartnerPersona::AnxiousPreoccupied, AlignmentTier::High, _) => ANXIOUS_HIGH_PRESSED,
        (PartnerPersona::AnxiousPreoccupied, AlignmentTier::Mid, Pressure::Calm) => ANXIOUS_MID_CALM,
        (PartnerPersona::AnxiousPreoccupied, AlignmentTier::Mid, _) => ANXIOUS_MID_PRESSED,
        (PartnerPersona::AnxiousPreoccupied, AlignmentTier::Low, Pressure::Hot) => ANXIOUS_LOW_HOT,
        (PartnerPersona::AnxiousPreoccupied, AlignmentTier::Low, _) => ANXIOUS_LOW,
        (PartnerPersona::FearfulAvoidant, AlignmentTier::High, Pressure::Calm) => FEARFUL_HIGH_CALM,
        (PartnerPersona::FearfulAvoidant, AlignmentTier::High, _) => FEARFUL_HIGH_PRESSED,
        (PartnerPersona::FearfulAvoidant, AlignmentTier::Mid, Pressure::Calm) => FEARFUL_MID_CALM,
        (PartnerPersona::FearfulAvoidant, AlignmentTier::Mid, _) => FEARFUL_MID_PRESSED,
        (PartnerPersona::FearfulAvoidant, AlignmentTier::Low, Pressure::Hot) => FEARFUL_LOW_HOT,
        (PartnerPersona::FearfulAvoidant, AlignmentTier::Low, _) => FEARFUL_LOW,
    }
}

/// The counterpart's reply to a message with alignment `score` sent at
/// `intensity`.
pub fn choose_reply(persona: PartnerPersona, score: u8, intensity: u8) -> (r: String)
    ensures
        r@ == reply_text(persona, tier_of(score as int), pressure_of(intensity as int)),
{
    let cell = reply_cell(persona, alignment_tier(score), pressure(intensity));
    String::from_str(cell)
}

} // verus!
