//! The error classifier: maps a failure message from the release client or
//! the filesystem layer to a closed set of user-facing categories, each
//! with a fixed remediation hint. Classification is advisory text only; it
//! retries nothing and recovers nothing.

use vstd::prelude::*;
use crate::text;

verus! {

/// The diagnostic category of an update failure.
#[derive(Clone, Copy, PartialEq, Eq, Structural, Debug)]
pub enum ErrorCategory {
    /// The release offers no asset for the resolved platform identifier.
    NoMatchingAsset,
    /// The release index could not be queried, or the transfer failed.
    NetworkOrApi,
    /// The installed executable could not be replaced for lack of rights.
    Permission,
    /// Anything the other categories do not recognize.
    Unknown,
}

/// The category a failure message falls under, decided by substring
/// matching against the signatures the release layer is known to emit.
pub open spec fn spec_classification(m: Seq<char>) -> ErrorCategory {
    if text::has_substring(m, "No asset found for target"@) {
        ErrorCategory::NoMatchingAsset
    } else if text::has_substring(m, "Network"@) || text::has_substring(m, "timeout"@) {
        ErrorCategory::NetworkOrApi
    } else if text::has_substring(m, "Permission"@) {
        ErrorCategory::Permission
    } else {
        ErrorCategory::Unknown
    }
}

/// Classify a failure message.
pub fn classify(msg: &str) -> (r: ErrorCategory)
    ensures
        r == spec_classification(msg@),
{
    if text::str_contains(msg, "No asset found for target") {
        ErrorCategory::NoMatchingAsset
    } else if text::str_contains(msg, "Network") || text::str_contains(msg, "timeout") {
        ErrorCategory::NetworkOrApi
    } else if text::str_contains(msg, "Permission") {
        ErrorCategory::Permission
    } else {
        ErrorCategory::Unknown
    }
}

/// The remediation hint that belongs to a category.
pub open spec fn spec_remediation(cat: ErrorCategory) -> Seq<char> {
    match cat {
        ErrorCategory::NoMatchingAsset => "No compatible binary found for your platform; check the latest release page for the platform identifiers on offer."@,
        ErrorCategory::NetworkOrApi => "Network connectivity issue; check your internet connection and try again."@,
        ErrorCategory::Permission => "Permission denied; try running with elevated permissions."@,
        ErrorCategory::Unknown => "Unrecognized failure; try again or download the latest release manually."@,
    }
}

/// The fixed remediation hint for a category.
pub fn remediation_hint(cat: &ErrorCategory) -> (r: String)
    ensures
        r@ == spec_remediation(*cat),
{
    match cat {
        ErrorCategory::NoMatchingAsset => String::from_str(
            "No compatible binary found for your platform; check the latest release page for the platform identifiers on offer.",
        ),
        ErrorCategory::NetworkOrApi => String::from_str(
            "Network connectivity issue; check your internet connection and try again.",
        ),
        ErrorCategory::Permission => String::from_str(
            "Permission denied; try running with elevated permissions.",
        ),
        ErrorCategory::Unknown => String::from_str(
            "Unrecognized failure; try again or download the latest release manually.",
        ),
    }
}

} // verus!
