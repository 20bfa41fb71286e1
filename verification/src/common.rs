//! The error taxonomy shared by the validators and the rule tables.

use crate::text::{append_i32, int_chars};
use vstd::prelude::*;
use vstd::string::StringExecFns;

verus! {

/// A classified validation failure for one character field.
///
/// Every error is local to the field whose edit produced it: it is surfaced
/// as a value, never raised as control flow, and it never blocks the snapshot
/// that follows an edit.
#[derive(Debug, Clone, PartialEq)]
pub enum CharError {
    /// The strength textbox did not hold an integer.
    StrParseError,
    /// The strength-percentile textbox did not hold an integer.
    PercentParseError,
    /// The strength textbox held an integer outside `[1, 25]`.
    InvalidStrength(i32),
    /// A percentile outside `[1, 100]`, either typed into the percentile
    /// textbox or found by a rule-table lookup; `None` marks a lookup that
    /// received no percentile where one was required.
    InvalidPercentile(Option<i32>),
    /// The class selector held a label that names no recognized class.
    CharacterClassParseError(String),
}

/// The text under which an error is displayed.
pub open spec fn spec_message(e: CharError) -> Seq<char> {
    match e {
        CharError::StrParseError => "strength is not an integer"@,
        CharError::PercentParseError => "strength percentile is not an integer"@,
        CharError::InvalidStrength(i) => "invalid strength:"@ + int_chars(i as int),
        CharError::InvalidPercentile(oi) => match oi {
            Some(i) => "invalid strength percentile:"@ + int_chars(i as int),
            None => "invalid strength percentile:none"@,
        },
        CharError::CharacterClassParseError(t) => "invalid class:"@ + t@,
    }
}

impl CharError {
    /// Renders the error for display.
    pub fn message(&self) -> (r: String)
        ensures
            r@ == spec_message(*self),
    {
        let mut out = String::new();
        match self {
            CharError::StrParseError => {
                out.append("strength is not an integer");
            },
            CharError::PercentParseError => {
                out.append("strength percentile is not an integer");
            },
            CharError::InvalidStrength(i) => {
                out.append("invalid strength:");
                append_i32(&mut out, *i);
            },
            CharError::InvalidPercentile(oi) => {
                match oi {
                    Some(i) => {
                        out.append("invalid strength percentile:");
                        append_i32(&mut out, *i);
                    },
                    None => {
                        out.append("invalid strength percentile:none");
                    },
                }
            },
            CharError::CharacterClassParseError(t) => {
                out.append("invalid class:");
                out.append(t.as_str());
            },
        }
        proof {
            assert(out@ =~= spec_message(*self));
        }
        out
    }
}

} // verus!
