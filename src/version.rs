//! The application's version, as declared for the build.
use vstd::prelude::*;
use vstd::string::*;

verus! {

/// The version identifier that the package declares.
pub open spec fn app_version() -> Seq<char> {
    "0.1.0"@
}

/// Returns the application's version.
pub fn get_app_version() -> (r: String)
    ensures
        r@ == app_version(),
        r@.len() > 0,
{
    proof {
        reveal_strlit("0.1.0");
    }
    String::from_str("0.1.0")
}

/// The version is a non-empty constant: any two results of `get_app_version`
/// are the same text.
pub proof fn app_version_is_stable(a: Seq<char>, b: Seq<char>)
    requires
        a == app_version(),
        b == app_version(),
    ensures
        a.len() > 0,
        a == b,
{
    reveal_strlit("0.1.0");
}

} // verus!
