//! The two functions that report how the library was built.
use vstd::prelude::*;

verus! {

/// The text that names this build: `xv` followed by the version.
pub fn path_version(version: &str) -> (r: String)
    ensures
        r@ == "xv"@ + version@,
{
    let r = String::from_str("xv");
    r.concat(version)
}

/// The text that the debug function reports: one line with the version,
/// then one with the source revision, each ended by a newline.
pub open spec fn debug_text(version: Seq<char>, source: Seq<char>) -> Seq<char> {
    "Version: v"@ + version + "\nSource: "@ + source + "\n"@
}

/// Version and source revision, on two lines in that order.
pub fn path_debug(version: &str, source: &str) -> (r: String)
    ensures
        r@ == debug_text(version@, source@),
{
    let mut r = String::from_str("Version: v");
    r.append(version);
    r.append("\nSource: ");
    r.append(source);
    r.append("\n");
    r
}

} // verus!
