//! The batch-import policy: which directory entries a directory import
//! parses. Only plain files with the `json` extension are read; everything
//! else is skipped without error.
use vstd::prelude::*;

verus! {

/// Whether a directory entry takes part in the import: it must be a plain
/// file (no subdirectory) and carry exactly the `json` extension.
pub fn wants_import(is_file: bool, extension: Option<&String>) -> (r: bool)
    ensures
        r == (is_file && (extension matches Some(e) && e@ == "json"@)),
{
    if !is_file {
        return false;
    }
    match extension {
        Some(e) => *e == "json".to_owned(),
        None => false,
    }
}

} // verus!
