//! The decision logic of the cloud-drive listing: which raw entries of the
//! service's file list become object metadata. The transport that fetches
//! the raw entries, and the sign-in flow before it, live outside the
//! library and hand the fields of each entry over as plain values.

use vstd::prelude::*;

verus! {

use crate::ObjectMetadata;

/// Build the metadata for one raw listing entry, or nothing if the entry
/// is to be skipped: an entry is kept exactly when both trash marks are
/// present and false — the service flags deleted files rather than drop
/// them — and id, name, modification time and size are all present.
pub fn drive_entry_metadata(
    trashed: Option<bool>,
    explicitly_trashed: Option<bool>,
    id: Option<String>,
    name: Option<String>,
    modified_time: Option<String>,
    size: Option<i64>,
) -> (r: Option<ObjectMetadata>)
    ensures
        r is Some <==> (trashed == Some(false) && explicitly_trashed == Some(false) && id is Some
            && name is Some && modified_time is Some && size is Some),
        r matches Some(m) ==> m.id@ == id.unwrap()@ && m.name@ == name.unwrap()@
            && m.last_modified@ == modified_time.unwrap()@ && m.size == size.unwrap() as u64,
{
    let keep = match (trashed, explicitly_trashed) {
        (Some(t), Some(e)) => !(t || e),
        _ => false,
    };
    if !keep {
        return None;
    }
    match (id, name, modified_time, size) {
        (Some(id), Some(name), Some(modified_time), Some(size)) => Some(
            ObjectMetadata::new(
                id.as_str(),
                name.as_str(),
                modified_time.as_str(),
                #[verifier::truncate] (size as u64),
            ),
        ),
        _ => None,
    }
}

} // verus!
