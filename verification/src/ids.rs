//! VM identifiers.
//!
//! A VM is addressed everywhere by an opaque identifier string; the agent
//! only admits identifiers that parse as UUIDs.

use vstd::prelude::*;

verus! {

/// Whether a string is accepted by the UUID parser. Acceptance depends on
/// the characters alone.
pub uninterp spec fn uuid_parse_ok(s: Seq<char>) -> bool;

/// Relies on `uuid::Uuid::parse_str`: parses a UUID from a string of
/// hexadecimal digits with optional hyphens; the outcome is a function of
/// the input string alone.
#[verifier::external_body]
pub(crate) fn vm_id_parses(s: &str) -> (r: bool)
    ensures
        r == uuid_parse_ok(s@),
{
    uuid::Uuid::parse_str(s).is_ok()
}

} // verus!
