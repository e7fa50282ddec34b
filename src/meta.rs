use vstd::prelude::*;

verus! {

/// The module's static record: who made it, under which name and version.
#[derive(Debug)]
pub struct LibraryMetadata {
    pub mod_id: String,
    pub mod_author: String,
    pub mod_name: String,
    pub mod_version: String,
}

/// The module's record, the same on every call.
pub fn metadata() -> (r: LibraryMetadata)
    ensures
        r.mod_id@ == "engine_core"@,
        r.mod_author@ == "@ign-styly"@,
        r.mod_name@ == "Engine Core External"@,
        r.mod_version@ == "0.0.1"@,
{
    LibraryMetadata {
        mod_id: "engine_core".to_owned(),
        mod_author: "@ign-styly".to_owned(),
        mod_name: "Engine Core External".to_owned(),
        mod_version: "0.0.1".to_owned(),
    }
}

} // verus!
