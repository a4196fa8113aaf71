//! The host's folders.
use vstd::prelude::*;

use crate::NoSendSync;

verus! {

/// Struct to access the host's path API.
pub struct PathApi {
    pub _phantom: NoSendSync,
}

/// What `Path::join` makes of a base path and a relative part.
pub uninterp spec fn path_joined(base: Seq<char>, part: Seq<char>) -> Seq<char>;

/// Relies on `std::path::Path::join`: on the target the library is built for, the joined
/// path depends on the two paths alone, and joining UTF-8 paths gives UTF-8.
#[verifier::external_body]
fn join_path(base: &str, part: &str) -> (r: String)
    ensures
        r@ == path_joined(base@, part@),
{
    std::path::Path::new(base).join(part).to_string_lossy().into_owned()
}

impl PathApi {
    /// The plugins folder inside the host's folder `xplane_folder`.
    pub fn plugins_folder(&mut self, xplane_folder: &str) -> (r: String)
        ensures
            r@ == path_joined(path_joined(xplane_folder@, "Resources"@), "plugins"@),
    {
        let resources = join_path(xplane_folder, "Resources");
        proof {
            reveal_strlit("Resources");
            reveal_strlit("plugins");
        }
        join_path(resources.as_str(), "plugins")
    }
}

} // verus!
