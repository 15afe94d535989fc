//! The plain-text checks of the basic token creation form, which keeps the
//! text the user typed.
use vstd::prelude::*;
use crate::number::{parse_u64, parse_u64_spec};
use crate::text::chars_of;

verus! {

/// Accepts, unchanged, text that is not empty and reads as a `u64`.
pub fn non_empty_string_validator_for_u64(s: String) -> (r: Option<String>)
    ensures
        r matches Some(t) ==> t@ == s@,
        r is Some <==> (s@.len() > 0 && parse_u64_spec(s@) is Ok),
{
    if !s.as_str().is_empty() {
        let chars = chars_of(s.as_str());
        if parse_u64(&chars).is_ok() {
            return Some(s);
        }
    }
    None
}

} // verus!
