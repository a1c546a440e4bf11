//! Resolution of a target-platform triple to normalized operating-system
//! and architecture identifiers, through the `platforms` crate's static
//! table of Rust platforms.

use vstd::prelude::*;

verus! {

/// The entry of the `platforms` crate's table for a target triple: the
/// platform's operating-system and architecture names, or `None` when the
/// triple is not in the table.
pub uninterp spec fn platform_lookup(target: Seq<char>) -> Option<(Seq<char>, Seq<char>)>;

/// Relies on `platforms::Platform::find`: a lookup of the target triple in
/// the crate's static platform table, whose entry carries the platform's
/// operating-system and architecture names; the result depends on the
/// triple alone.
#[verifier::external_body]
pub(crate) fn platform_find(target: &str) -> (r: Option<(String, String)>)
    ensures
        match r {
            Some(os_arch) => platform_lookup(target@) == Some((os_arch.0@, os_arch.1@)),
            None => platform_lookup(target@) is None,
        },
{
    platforms::Platform::find(target).map(|p| {
        (p.target_os.as_str().to_owned(), p.target_arch.as_str().to_owned())
    })
}

} // verus!
