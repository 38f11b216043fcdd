//! The driver's semantic version string.

use vstd::prelude::*;

use crate::name::spec_decimal;

verus! {

/// The major version.
pub const MAJOR_VERSION: usize = 0;

/// The minor version.
pub const MINOR_VERSION: usize = 0;

/// The patch version.
pub const PATCH_VERSION: usize = 0;

/// The semantic version string: `MAJOR.MINOR.PATCH` in decimal.
pub open spec fn spec_version() -> Seq<char> {
    spec_decimal(MAJOR_VERSION as nat) + "."@ + spec_decimal(MINOR_VERSION as nat) + "."@
        + spec_decimal(PATCH_VERSION as nat)
}

/// Renders the semantic version string.
pub fn version() -> (s: String)
    ensures
        s@ == spec_version(),
{
    let mut s = crate::name::decimal_string(MAJOR_VERSION);
    s.append(".");
    let minor = crate::name::decimal_string(MINOR_VERSION);
    s.append(minor.as_str());
    s.append(".");
    let patch = crate::name::decimal_string(PATCH_VERSION);
    s.append(patch.as_str());
    proof {
        assert(s@ =~= spec_version());
    }
    s
}

} // verus!
