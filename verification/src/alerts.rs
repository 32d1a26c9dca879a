//! Alert severity levels and their textual form.
use crate::text::{ascii_lowercase, text_eq};
use vstd::prelude::*;
use vstd::string::*;
use vstd::utf8::is_ascii_chars;

verus! {

/// Severity of an alert raised by the detectors.
#[derive(Debug, Clone, Copy, PartialEq, Eq, Structural)]
pub enum AlertLevel {
    Info,
    Warning,
    Critical,
}

impl AlertLevel {
    /// The label under which a level is stored and shown.
    pub open spec fn label(self) -> Seq<char> {
        match self {
            AlertLevel::Info => "info"@,
            AlertLevel::Warning => "warning"@,
            AlertLevel::Critical => "critical"@,
        }
    }

    pub fn as_str(&self) -> (s: &'static str)
        ensures
            s@ == self.label(),
    {
        match self {
            AlertLevel::Info => "info",
            AlertLevel::Warning => "warning",
            AlertLevel::Critical => "critical",
        }
    }
}

/// The level named by an already lower-cased label: `critical` and
/// `warning` name their levels, everything else is `Info`.
pub open spec fn level_of_lowercase(t: Seq<char>) -> AlertLevel {
    if t == "critical"@ {
        AlertLevel::Critical
    } else if t == "warning"@ {
        AlertLevel::Warning
    } else {
        AlertLevel::Info
    }
}

/// What `str::to_lowercase` gives for a text: Unicode's lowercase mapping.
pub uninterp spec fn unicode_lowercase(s: Seq<char>) -> Seq<char>;

/// `str::to_lowercase` (std). Claimed: the result is the Unicode lowercase
/// mapping of the argument (`unicode_lowercase`), and on pure ASCII text that
/// mapping folds `A`..`Z` to `a`..`z` and keeps every other character.
#[verifier::external_body]
fn to_lowercase(s: &str) -> (r: String)
    ensures
        r@ == unicode_lowercase(s@),
        is_ascii_chars(s@) ==> r@ == ascii_lowercase(s@),
{
    s.to_lowercase()
}

/// Reads an already lower-cased level label.
pub fn alert_level_from_lowercase(lower: &str) -> (level: AlertLevel)
    ensures
        level == level_of_lowercase(lower@),
{
    if text_eq(lower, "critical") {
        AlertLevel::Critical
    } else if text_eq(lower, "warning") {
        AlertLevel::Warning
    } else {
        AlertLevel::Info
    }
}

/// Reads a level label, ignoring case; unknown labels read as `Info`.
pub fn alert_level_from_str(level: &str) -> (r: AlertLevel)
    ensures
        r == level_of_lowercase(unicode_lowercase(level@)),
        is_ascii_chars(level@) ==> r == level_of_lowercase(ascii_lowercase(level@)),
{
    let lower = to_lowercase(level);
    alert_level_from_lowercase(lower.as_str())
}

/// Every level's label is ASCII, and reading it back (in any case) gives
/// the level again.
pub proof fn lemma_label_round_trip(level: AlertLevel)
    ensures
        is_ascii_chars(level.label()),
        level_of_lowercase(ascii_lowercase(level.label())) == level,
{
    reveal_strlit("info");
    reveal_strlit("warning");
    reveal_strlit("critical");
    let l = level.label();
    assert(ascii_lowercase(l) =~= l);
}

} // verus!
