use vstd::prelude::*;

verus! {

/// An RFC 3339 date and time at UTC as chrono writes it: at least
/// `YYYY-MM-DDTHH:MM:SS` and the offset `+00:00` at the end.
pub open spec fn is_utc_rfc3339(s: Seq<char>) -> bool {
    &&& s.len() >= 25
    &&& s.subrange(s.len() - 6, s.len() as int) == "+00:00"@
}

/// Relies on chrono::Utc::now and DateTime::to_rfc3339: the current time,
/// written with the zero offset as `+00:00`.
#[verifier::external_body]
pub(crate) fn utc_now_rfc3339() -> (r: String)
    ensures
        is_utc_rfc3339(r@),
{
    chrono::Utc::now().to_rfc3339()
}

} // verus!
