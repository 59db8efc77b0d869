//! Where an installed skill's metadata is kept.
use vstd::prelude::*;
use crate::resolve::{join_path, path_join};

verus! {

/// The metadata file's name inside an installed skill's directory.
pub const META_FILENAME: &'static str = ".agentskills.json";

/// The metadata file of the skill installed in `dir`.
pub fn metadata_path(dir: &str) -> (r: String)
    ensures
        r@ == path_join(dir@, ".agentskills.json"@),
{
    proof {
        reveal_strlit(".agentskills.json");
    }
    join_path(dir, META_FILENAME)
}

} // verus!
