//! Asset target resolution: the platform identifier that selects the right
//! release asset. A build-time override wins; otherwise the toolchain's
//! target triple is mapped through a fixed table, and a triple the table
//! does not know passes through unchanged.

use vstd::prelude::*;
use crate::text;

verus! {

/// The fixed triple-to-platform-identifier table, with the identity
/// fallback for triples it does not list.
pub open spec fn spec_mapped_target(t: Seq<char>) -> Seq<char> {
    if t == "x86_64-apple-darwin"@ {
        "macos15-amd64"@
    } else if t == "aarch64-apple-darwin"@ {
        "macos15-arm64"@
    } else if t == "x86_64-unknown-linux-gnu"@ {
        "ubuntu24-amd64"@
    } else if t == "aarch64-unknown-linux-gnu"@ {
        "ubuntu24-arm64"@
    } else if t == "x86_64-pc-windows-msvc"@ {
        "windows-amd64"@
    } else if t == "aarch64-pc-windows-msvc"@ {
        "windows-arm64"@
    } else {
        t
    }
}

/// The platform identifier the process uses: the build-time override when
/// one was baked in, else the mapped triple.
pub open spec fn spec_platform(asset_target: Option<Seq<char>>, triple: Seq<char>) -> Seq<char> {
    match asset_target {
        Some(t) => t,
        None => spec_mapped_target(triple),
    }
}

/// Map a toolchain target triple to its platform identifier.
pub fn map_triple(triple: &str) -> (r: String)
    ensures
        r@ == spec_mapped_target(triple@),
{
    if text::str_eq(triple, "x86_64-apple-darwin") {
        String::from_str("macos15-amd64")
    } else if text::str_eq(triple, "aarch64-apple-darwin") {
        String::from_str("macos15-arm64")
    } else if text::str_eq(triple, "x86_64-unknown-linux-gnu") {
        String::from_str("ubuntu24-amd64")
    } else if text::str_eq(triple, "aarch64-unknown-linux-gnu") {
        String::from_str("ubuntu24-arm64")
    } else if text::str_eq(triple, "x86_64-pc-windows-msvc") {
        String::from_str("windows-amd64")
    } else if text::str_eq(triple, "aarch64-pc-windows-msvc") {
        String::from_str("windows-arm64")
    } else {
        String::from_str(triple)
    }
}

/// Resolve the platform identifier from the build-time override and the
/// runtime triple.
pub fn platform_identifier(asset_target: Option<&str>, triple: &str) -> (r: String)
    ensures
        r@ == spec_platform(crate::version::opt_str_view(asset_target), triple@),
{
    match asset_target {
        Some(t) => String::from_str(t),
        None => map_triple(triple),
    }
}

/// Relies on self_update::get_target: the target triple this binary was
/// compiled for, as the toolchain names it.
#[verifier::external_body]
fn current_target() -> (r: &'static str) {
    self_update::get_target()
}

/// The platform identifier for this very process: the override when one is
/// given, else whatever the running build's triple maps to.
pub fn detect_platform(asset_target: Option<&str>) -> (r: String)
    ensures
        asset_target is Some ==> r@ == asset_target->0@,
{
    match asset_target {
        Some(t) => String::from_str(t),
        None => map_triple(current_target()),
    }
}

/// Every triple the table lists maps to its documented identifier, and any
/// other triple passes through unchanged.
pub proof fn lemma_triple_mapping(t: Seq<char>)
    ensures
        spec_mapped_target("x86_64-apple-darwin"@) == "macos15-amd64"@,
        spec_mapped_target("aarch64-apple-darwin"@) == "macos15-arm64"@,
        spec_mapped_target("x86_64-unknown-linux-gnu"@) == "ubuntu24-amd64"@,
        spec_mapped_target("aarch64-unknown-linux-gnu"@) == "ubuntu24-arm64"@,
        spec_mapped_target("x86_64-pc-windows-msvc"@) == "windows-amd64"@,
        spec_mapped_target("aarch64-pc-windows-msvc"@) == "windows-arm64"@,
        t != "x86_64-apple-darwin"@ && t != "aarch64-apple-darwin"@ && t
            != "x86_64-unknown-linux-gnu"@ && t != "aarch64-unknown-linux-gnu"@ && t
            != "x86_64-pc-windows-msvc"@ && t != "aarch64-pc-windows-msvc"@ ==> spec_mapped_target(
            t,
        ) == t,
{
    reveal_strlit("x86_64-apple-darwin");
    reveal_strlit("aarch64-apple-darwin");
    reveal_strlit("x86_64-unknown-linux-gnu");
    reveal_strlit("aarch64-unknown-linux-gnu");
    reveal_strlit("x86_64-pc-windows-msvc");
    reveal_strlit("aarch64-pc-windows-msvc");
    assert("x86_64-apple-darwin"@.len() == 19);
    assert("aarch64-apple-darwin"@.len() == 20);
    assert("x86_64-unknown-linux-gnu"@.len() == 24);
    assert("aarch64-unknown-linux-gnu"@.len() == 25);
    assert("x86_64-pc-windows-msvc"@.len() == 22);
    assert("aarch64-pc-windows-msvc"@.len() == 23);
}

} // verus!
