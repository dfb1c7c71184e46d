//! Detection of communication-style breaches by case-insensitive substring
//! search over a fixed, ordered table of needles.
use vstd::prelude::*;
use vstd::string::*;
use crate::text::{contains_str, lower_seq, lowercase_chars, seq_contains};

verus! {

/// One matched needle: its category, the needle itself and the category's
/// coaching hint.
#[derive(Clone, Debug)]
pub struct NvcBreach {
    pub kind: String,
    pub needle: String,
    pub message: String,
}

/// A breach as three texts: kind, needle, message.
pub type BreachView = (Seq<char>, Seq<char>, Seq<char>);

impl View for NvcBreach {
    type V = BreachView;

    open spec fn view(&self) -> BreachView {
        (self.kind@, self.needle@, self.message@)
    }
}

pub open spec fn breach_views(bs: Seq<NvcBreach>) -> Seq<BreachView> {
    bs.map_values(|b: NvcBreach| b@)
}

pub const ABSOLUTE: &'static str = "absolute";
pub const DIRECTIVE: &'static str = "directive";
pub const BLAME: &'static str = "blame";
pub const YOU_STATEMENT: &'static str = "you_statement";

pub const ABSOLUTE_HINT: &'static str = "Absolutes can be heard as character judgments. Swap for a specific recent instance.";
pub const DIRECTIVE_HINT: &'static str = "Directive language often triggers defensiveness. Try an invitational request (e.g., ‘Would you be willing to…’).";
pub const BLAME_HINT: &'static str = "This reads as blame. Try: ‘When I notice…, I feel…, because I need… Would you be willing to…’";
pub const YOU_STATEMENT_HINT: &'static str = "‘You are…’ often lands as evaluation. Try describing an observable behavior instead.";

/// The breach that one table entry contributes to a lowercased text: one
/// record if the needle occurs, none otherwise.
pub open spec fn hit(t: Seq<char>, kind: &str, needle: &str, hint: &str) -> Seq<BreachView> {
    if seq_contains(t, needle@) {
        seq![(kind@, needle@, hint@)]
    } else {
        Seq::empty()
    }
}

/// The breaches of a lowercased text, in table order.
pub open spec fn breaches_in(t: Seq<char>) -> Seq<BreachView> {
    hit(t, ABSOLUTE, "always", ABSOLUTE_HINT)
        + hit(t, ABSOLUTE, "never", ABSOLUTE_HINT)
        + hit(t, DIRECTIVE, "you should", DIRECTIVE_HINT)
        + hit(t, DIRECTIVE, "you need to", DIRECTIVE_HINT)
        + hit(t, DIRECTIVE, "you have to", DIRECTIVE_HINT)
        + hit(t, BLAME, "you make me feel", BLAME_HINT)
        + hit(t, BLAME, "because you", BLAME_HINT)
        + hit(t, BLAME, "your fault", BLAME_HINT)
        + hit(t, YOU_STATEMENT, "you are", YOU_STATEMENT_HINT)
}

/// The breaches of a script: those of its ASCII lowercase.
pub open spec fn breaches_of(script: Seq<char>) -> Seq<BreachView> {
    breaches_in(lower_seq(script))
}

/// Appends the breach of one table entry, if its needle occurs in `t`.
fn scan_entry(
    t: &Vec<char>,
    out: &mut Vec<NvcBreach>,
    kind: &'static str,
    needle: &'static str,
    hint: &'static str,
)
    ensures
        breach_views(final(out)@) == breach_views(old(out)@) + hit(t@, kind, needle, hint),
{
    if contains_str(t, needle) {
        let b = NvcBreach {
            kind: String::from_str(kind),
            needle: String::from_str(needle),
            message: String::from_str(hint),
        };
        out.push(b);
        assert(breach_views(final(out)@) =~= breach_views(old(out)@) + hit(t@, kind, needle, hint));
    } else {
        assert(breach_views(final(out)@) =~= breach_views(old(out)@) + hit(t@, kind, needle, hint));
    }
}

/// Every needle of the breach table that occurs in the script, compared
/// without regard to ASCII case, in table order (not in text order).
pub fn detect_breaches(script: &str) -> (r: Vec<NvcBreach>)
    ensures
        breach_views(r@) == breaches_of(script@),
{
    let t = lowercase_chars(script);
    let mut out: Vec<NvcBreach> = Vec::new();
    assert(breach_views(out@) =~= Seq::<BreachView>::empty());
    scan_entry(&t, &mut out, ABSOLUTE, "always", ABSOLUTE_HINT);
    assert(breach_views(out@) =~= hit(t@, ABSOLUTE, "always", ABSOLUTE_HINT));
    scan_entry(&t, &mut out, ABSOLUTE, "never", ABSOLUTE_HINT);
    scan_entry(&t, &mut out, DIRECTIVE, "you should", DIRECTIVE_HINT);
    scan_entry(&t, &mut out, DIRECTIVE, "you need to", DIRECTIVE_HINT);
    scan_entry(&t, &mut out, DIRECTIVE, "you have to", DIRECTIVE_HINT);
    scan_entry(&t, &mut out, BLAME, "you make me feel", BLAME_HINT);
    scan_entry(&t, &mut out, BLAME, "because you", BLAME_HINT);
    scan_entry(&t, &mut out, BLAME, "your fault", BLAME_HINT);
    scan_entry(&t, &mut out, YOU_STATEMENT, "you are", YOU_STATEMENT_HINT);
    out
}

} // verus!
