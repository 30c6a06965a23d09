//! The build's identity: its resolved version and the optional baked-in
//! asset target. Computed once per process and never mutated.

use vstd::prelude::*;
use crate::version::{opt_str_view, resolve_version, spec_resolved_version};

verus! {

/// The mathematical content of a `BuildIdentity`.
pub struct IdentityView {
    pub version: Seq<char>,
    pub asset_target: Option<Seq<char>>,
}

/// The running build's identity.
pub struct BuildIdentity {
    /// The version string baked into this build.
    pub version: String,
    /// The platform identifier baked in by the build pipeline, absent in
    /// development builds.
    pub asset_target: Option<String>,
}

impl View for BuildIdentity {
    type V = IdentityView;

    open spec fn view(&self) -> IdentityView {
        IdentityView {
            version: self.version@,
            asset_target: match self.asset_target {
                Some(t) => Some(t@),
                None => None,
            },
        }
    }
}

impl BuildIdentity {
    /// Resolve the identity from the build-time inputs: the version through
    /// the precedence chain, the asset target from its override alone.
    pub fn resolve(
        override_v: Option<&str>,
        scm: Option<&str>,
        manifest: Option<&str>,
        asset_override: Option<&str>,
    ) -> (r: BuildIdentity)
        ensures
            r@.version == spec_resolved_version(opt_str_view(override_v), opt_str_view(scm), opt_str_view(manifest)),
            r@.asset_target == opt_str_view(asset_override),
    {
        BuildIdentity {
            version: resolve_version(override_v, scm, manifest),
            asset_target: match asset_override {
                Some(t) => Some(String::from_str(t)),
                None => None,
            },
        }
    }
}

} // verus!
