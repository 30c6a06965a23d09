//! Version resolution: the build's own version string, chosen by a fixed
//! precedence among an explicit override, a source-control descriptor, and
//! the package manifest, with `"unknown"` as the last resort.

use vstd::prelude::*;

verus! {

/// The view of an optional borrowed string.
pub open spec fn opt_str_view(o: Option<&str>) -> Option<Seq<char>> {
    match o {
        Some(s) => Some(s@),
        None => None,
    }
}

/// A source-control descriptor with a leading `v` removed, for a consistent
/// version format.
pub open spec fn spec_strip_v(d: Seq<char>) -> Seq<char> {
    if d.len() > 0 && d[0] == 'v' {
        d.subrange(1, d.len() as int)
    } else {
        d
    }
}

/// The version the build resolves, by precedence: a non-empty explicit
/// override; else the source-control descriptor, its leading `v` stripped;
/// else the manifest's own version; else the literal `"unknown"`.
pub open spec fn spec_resolved_version(
    override_v: Option<Seq<char>>,
    scm: Option<Seq<char>>,
    manifest: Option<Seq<char>>,
) -> Seq<char> {
    if override_v is Some && override_v->0.len() > 0 {
        override_v->0
    } else if scm is Some {
        spec_strip_v(scm->0)
    } else if manifest is Some {
        manifest->0
    } else {
        "unknown"@
    }
}

/// Remove a leading `v` from a version descriptor, if one is there.
pub fn strip_v_prefix(d: &str) -> (r: String)
    ensures
        r@ == spec_strip_v(d@),
{
    let len = d.unicode_len();
    if len > 0 {
        let c = d.get_char(0);
        if c == 'v' {
            let tail = d.substring_char(1, len);
            return String::from_str(tail);
        }
    }
    String::from_str(d)
}

/// Resolve the build's version through the precedence chain. An empty
/// override does not count as one; a failed source-control query or a
/// missing manifest version arrive here as `None`.
pub fn resolve_version(
    override_v: Option<&str>,
    scm: Option<&str>,
    manifest: Option<&str>,
) -> (r: String)
    ensures
        r@ == spec_resolved_version(opt_str_view(override_v), opt_str_view(scm), opt_str_view(
            manifest,
        )),
{
    match override_v {
        Some(v) => {
            if v.unicode_len() > 0 {
                return String::from_str(v);
            }
        },
        None => {},
    }
    match scm {
        Some(d) => {
            return strip_v_prefix(d);
        },
        None => {},
    }
    match manifest {
        Some(m) => {
            return String::from_str(m);
        },
        None => {},
    }
    String::from_str("unknown")
}

/// A non-empty build-time override decides the version, whatever the
/// source-control state or the manifest would have said.
pub proof fn lemma_override_wins(
    override_v: Option<Seq<char>>,
    scm: Option<Seq<char>>,
    manifest: Option<Seq<char>>,
)
    requires
        override_v is Some,
        override_v->0.len() > 0,
    ensures
        spec_resolved_version(override_v, scm, manifest) == override_v->0,
{
}

/// With no usable override and source control unavailable, resolution falls
/// to the manifest version, and, failing that too, to `"unknown"`.
pub proof fn lemma_fallback_chain(override_v: Option<Seq<char>>, manifest: Option<Seq<char>>)
    requires
        override_v is None || override_v->0.len() == 0,
    ensures
        manifest is Some ==> spec_resolved_version(override_v, None, manifest) == manifest->0,
        manifest is None ==> spec_resolved_version(override_v, None, manifest) == "unknown"@,
{
}

} // verus!
