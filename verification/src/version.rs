//! The application's declared version.

use vstd::prelude::*;

verus! {

/// The version string declared for this build.
pub open spec fn spec_version() -> Seq<char> {
    "0.1.0"@
}

/// Reports the build's declared version string. Never fails.
pub fn get_version() -> (v: String)
    ensures
        v@ == spec_version(),
{
    "0.1.0".to_owned()
}

/// Determinism law: any two results of `get_version` are the same string.
pub proof fn lemma_version_deterministic(v1: Seq<char>, v2: Seq<char>)
    requires
        v1 == spec_version(),
        v2 == spec_version(),
    ensures
        v1 == v2,
{
}

} // verus!
