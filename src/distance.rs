//! The vector distance metrics and their string tokens.
use vstd::prelude::*;
use crate::error::IndexError;
use crate::text::same_text;

verus! {

/// A vector distance metric.
#[derive(Clone, Copy, Debug, PartialEq, Eq, Structural)]
pub enum DistanceType {
    L2,
    Cosine,
    Dot,
}

/// The metric a token names, if any (exact, case-sensitive match).
pub open spec fn distance_of(s: Seq<char>) -> Option<DistanceType> {
    if s == "l2"@ {
        Some(DistanceType::L2)
    } else if s == "cosine"@ {
        Some(DistanceType::Cosine)
    } else if s == "dot"@ {
        Some(DistanceType::Dot)
    } else {
        None
    }
}

/// `e` reports `value` as an unknown distance metric.
pub open spec fn is_invalid_distance(e: IndexError, value: Seq<char>) -> bool {
    match e {
        IndexError::InvalidDistanceType { value: v } => v@ == value,
        _ => false,
    }
}

/// The metric named by `s`: one of `l2`, `cosine` and `dot`.
pub fn parse_distance_type(s: &str) -> (r: Result<DistanceType, IndexError>)
    ensures
        distance_of(s@) is Some ==> r == Ok::<DistanceType, IndexError>(distance_of(s@)->0),
        distance_of(s@) is None ==> r is Err && is_invalid_distance(r->Err_0, s@),
{
    if same_text(s, "l2") {
        Ok(DistanceType::L2)
    } else if same_text(s, "cosine") {
        Ok(DistanceType::Cosine)
    } else if same_text(s, "dot") {
        Ok(DistanceType::Dot)
    } else {
        Err(IndexError::InvalidDistanceType { value: s.to_owned() })
    }
}

} // verus!
