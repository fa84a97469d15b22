//! The decision logic of the filesystem listing: which directory entries
//! become object metadata. The directory walk itself, and every other
//! filesystem call, live outside the library and hand each entry's fields
//! over as plain values.

use vstd::prelude::*;

verus! {

use crate::ObjectMetadata;

/// Metadata for one directory entry, or nothing when a part of it was
/// unreadable. On a filesystem the file name doubles as the object's id
/// and display name.
pub fn disk_entry_metadata(
    name: Option<String>,
    modified: Option<String>,
    size: Option<u64>,
) -> (r: Option<ObjectMetadata>)
    ensures
        r is Some <==> (name is Some && modified is Some && size is Some),
        r matches Some(m) ==> m.id@ == name.unwrap()@ && m.name@ == name.unwrap()@
            && m.last_modified@ == modified.unwrap()@ && m.size == size.unwrap(),
{
    match (name, modified, size) {
        (Some(name), Some(modified), Some(size)) => Some(
            ObjectMetadata::new(name.as_str(), name.as_str(), modified.as_str(), size),
        ),
        _ => None,
    }
}

} // verus!
