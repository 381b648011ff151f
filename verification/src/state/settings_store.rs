//! Where the audio settings are kept: `settings.json` in the data directory,
//! written through a temporary file so that a crash cannot truncate it.

use crate::paths::{below, join, Root};
use vstd::prelude::*;

verus! {

/// The data directory.
pub open spec fn data_dir_of(root: Root) -> Seq<char> {
    below(root.base@, root.separator, "HexaTalk"@)
}

/// The settings file.
pub fn settings_file_path(root: &Root) -> (r: String)
    ensures
        r@ == below(data_dir_of(*root), root.separator, "settings.json"@),
{
    join(&join(&root.base, root.separator, "HexaTalk"), root.separator, "settings.json")
}

/// The file that is written before it takes the settings file's place.
pub fn settings_temp_path(root: &Root) -> (r: String)
    ensures
        r@ == below(data_dir_of(*root), root.separator, "settings.json.tmp"@),
{
    join(&join(&root.base, root.separator, "HexaTalk"), root.separator, "settings.json.tmp")
}

} // verus!
