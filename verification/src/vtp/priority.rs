//! Semantic priority queuing: the priority of a packet follows the domain
//! of its datum.

use vstd::prelude::*;
use core::cmp::Ordering;
use crate::text::{str_eq, to_lowercase, unicode_lowercase};

verus! {

/// Semantic priority of a packet; it decides the order of transmission.
#[derive(Debug, Clone, Copy, PartialEq, Eq, Structural, Ord)]
pub enum SemanticPriority {
    /// Emergencies: critical clinical data, disaster alerts.
    Critical,
    /// Real-time finance, security updates.
    High,
    /// Research data, standard updates.
    Normal,
    /// Aggregate statistics, historical data.
    Low,
    /// Backups, predictive pre-placement.
    Background,
}

/// Numeric level of a priority (lower is more urgent).
pub open spec fn level(p: SemanticPriority) -> u8 {
    match p {
        SemanticPriority::Critical => 0,
        SemanticPriority::High => 1,
        SemanticPriority::Normal => 2,
        SemanticPriority::Low => 3,
        SemanticPriority::Background => 4,
    }
}

/// The priority of a lowercase domain name.
pub open spec fn priority_of_domain(d: Seq<char>) -> SemanticPriority {
    if d == "emergency"@ || d == "disaster"@ || d == "critical_health"@ {
        SemanticPriority::Critical
    } else if d == "health"@ || d == "finance"@ || d == "security"@ {
        SemanticPriority::High
    } else if d == "climate"@ || d == "science"@ || d == "education"@ {
        SemanticPriority::Normal
    } else if d == "statistics"@ || d == "historical"@ || d == "archive"@ {
        SemanticPriority::Low
    } else {
        SemanticPriority::Normal
    }
}

impl SemanticPriority {
    /// The priority of a datum's domain (case-insensitive); unknown domains
    /// are `Normal`.
    pub fn from_domain(domain: &str) -> (p: SemanticPriority)
        ensures
            p == priority_of_domain(unicode_lowercase(domain@)),
    {
        let l = to_lowercase(domain);
        Self::from_lowercase_domain(l.as_str())
    }

    /// The priority of a domain name that is already lowercase; unknown
    /// domains are `Normal`.
    pub fn from_lowercase_domain(d: &str) -> (p: SemanticPriority)
        ensures
            p == priority_of_domain(d@),
    {
        if str_eq(d, "emergency") || str_eq(d, "disaster") || str_eq(d, "critical_health") {
            SemanticPriority::Critical
        } else if str_eq(d, "health") || str_eq(d, "finance") || str_eq(d, "security") {
            SemanticPriority::High
        } else if str_eq(d, "climate") || str_eq(d, "science") || str_eq(d, "education") {
            SemanticPriority::Normal
        } else if str_eq(d, "statistics") || str_eq(d, "historical") || str_eq(d, "archive") {
            SemanticPriority::Low
        } else {
            SemanticPriority::Normal
        }
    }

    /// The numeric level (lower is more urgent).
    pub fn value(&self) -> (v: u8)
        ensures
            v == level(*self),
    {
        match self {
            SemanticPriority::Critical => 0,
            SemanticPriority::High => 1,
            SemanticPriority::Normal => 2,
            SemanticPriority::Low => 3,
            SemanticPriority::Background => 4,
        }
    }
}

impl PartialOrd for SemanticPriority {
    fn partial_cmp(&self, other: &Self) -> (r: Option<Ordering>) {
        let a = self.value();
        let b = other.value();
        if a < b {
            Some(Ordering::Less)
        } else if a == b {
            Some(Ordering::Equal)
        } else {
            Some(Ordering::Greater)
        }
    }
}

impl vstd::std_specs::cmp::PartialOrdSpecImpl for SemanticPriority {
    open spec fn obeys_partial_cmp_spec() -> bool {
        true
    }

    open spec fn partial_cmp_spec(&self, other: &Self) -> Option<Ordering> {
        if level(*self) < level(*other) {
            Some(Ordering::Less)
        } else if level(*self) == level(*other) {
            Some(Ordering::Equal)
        } else {
            Some(Ordering::Greater)
        }
    }
}

/// Priorities are ordered by level, most urgent first, and two priorities
/// with the same level are the same.
pub proof fn lemma_level_orders(p: SemanticPriority, q: SemanticPriority)
    ensures
        level(p) == level(q) <==> p == q,
        level(SemanticPriority::Critical) < level(SemanticPriority::High) < level(SemanticPriority::Normal) < level(
            SemanticPriority::Low,
        ) < level(SemanticPriority::Background),
{
}

} // verus!
