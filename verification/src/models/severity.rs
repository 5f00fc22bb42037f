use crate::text::{eq_ignoring_case, lowercased};
use vstd::prelude::*;
use vstd::std_specs::convert::FromSpecImpl;

verus! {

/// How grave a finding is, gravest first.
#[derive(Debug, Clone, Copy, PartialEq, Eq, PartialOrd, Ord, Structural)]
pub enum Severity {
    Critical,
    High,
    Medium,
    Low,
}

/// The token that stands for a severity on the wire.
pub open spec fn severity_token(severity: Severity) -> Seq<char> {
    match severity {
        Severity::Critical => "critical"@,
        Severity::High => "high"@,
        Severity::Medium => "medium"@,
        Severity::Low => "low"@,
    }
}

/// A token that names a severity: one of the four wire tokens, in any mix of
/// capital and small letters.
pub open spec fn is_severity_token(token: Seq<char>) -> bool {
    exists|severity: Severity| lowercased(token) == #[trigger] severity_token(severity)
}

/// The severity that a token stands for: the one it names, and `Low` for a
/// token that names none.
pub open spec fn severity_of_token(token: Seq<char>) -> Severity {
    let lower = lowercased(token);
    if lower == severity_token(Severity::Critical) {
        Severity::Critical
    } else if lower == severity_token(Severity::High) {
        Severity::High
    } else if lower == severity_token(Severity::Medium) {
        Severity::Medium
    } else {
        Severity::Low
    }
}

impl Severity {
    /// The wire token of this severity.
    pub fn as_str(&self) -> (token: &'static str)
        ensures
            token@ == severity_token(*self),
    {
        match self {
            Severity::Critical => "critical",
            Severity::High => "high",
            Severity::Medium => "medium",
            Severity::Low => "low",
        }
    }

    /// The wire token of this severity, owned.
    pub fn to_string(&self) -> (token: String)
        ensures
            token@ == severity_token(*self),
    {
        String::from_str(self.as_str())
    }
}

impl From<&str> for Severity {
    /// Reads a token as `severity_of_token` says.
    fn from(s: &str) -> (severity: Severity) {
        proof {
            lemma_tokens_are_lowercase();
        }
        if eq_ignoring_case(s, "critical") {
            Severity::Critical
        } else if eq_ignoring_case(s, "high") {
            Severity::High
        } else if eq_ignoring_case(s, "medium") {
            Severity::Medium
        } else {
            Severity::Low
        }
    }
}

impl FromSpecImpl<&str> for Severity {
    open spec fn obeys_from_spec() -> bool {
        true
    }

    open spec fn from_spec(s: &str) -> Severity {
        severity_of_token(s@)
    }
}

/// The four wire tokens are written in small letters and differ from one
/// another.
pub proof fn lemma_tokens_are_lowercase()
    ensures
        forall|severity: Severity|
            lowercased(#[trigger] severity_token(severity)) == severity_token(severity),
        forall|a: Severity, b: Severity|
            #[trigger] severity_token(a) == #[trigger] severity_token(b) ==> a == b,
{
    reveal_strlit("critical");
    reveal_strlit("high");
    reveal_strlit("medium");
    reveal_strlit("low");
    assert forall|severity: Severity|
        lowercased(#[trigger] severity_token(severity)) == severity_token(severity) by {
        assert(lowercased(severity_token(severity)) =~= severity_token(severity));
    }
}

/// Each severity is read back from its own wire token.
pub proof fn lemma_severity_round_trip(severity: Severity)
    ensures
        severity_of_token(severity_token(severity)) == severity,
{
    lemma_tokens_are_lowercase();
}

/// A token that names no severity is read as `Low`, and a token that names
/// one is read as that one.
pub proof fn lemma_severity_of_token(token: Seq<char>)
    ensures
        !is_severity_token(token) ==> severity_of_token(token) == Severity::Low,
        forall|severity: Severity|
            lowercased(token) == #[trigger] severity_token(severity) ==> severity_of_token(token)
                == severity,
{
    lemma_tokens_are_lowercase();
}

/// Writing, reading and writing again gives what the first writing gave:
/// reading any token and writing the result is a fixed point of reading.
pub proof fn lemma_severity_encoding_idempotent(token: Seq<char>)
    ensures
        severity_of_token(severity_token(severity_of_token(token))) == severity_of_token(token),
{
    lemma_severity_round_trip(severity_of_token(token));
}

} // verus!
