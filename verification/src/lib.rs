use vstd::prelude::*;

pub mod backends;
pub mod crypto;
pub mod prelude;

verus! {

/// Why a storage or envelope operation failed.
///
/// Every operation of this crate reports the first failure it ran into and
/// which stage produced it: transport faults (`NotFound`, `Backend`) are kept
/// apart from cryptographic faults (`EncryptionFailure`, `DecryptionFailure`),
/// and `ExecutionSetupFailure` is reserved for a blocking entry point that
/// could not allocate its private executor.
#[derive(Debug, Clone, PartialEq, Eq)]
pub enum Error {
    /// The referenced object id does not exist.
    NotFound,
    /// The underlying transport or store failed; the message is
    /// backend-specific context, opaque to this crate.
    Backend(String),
    /// The cipher could not seal the payload.
    EncryptionFailure,
    /// The sealed buffer did not authenticate: wrong passphrase, corrupted
    /// data, or truncated input. No partial plaintext is ever returned.
    DecryptionFailure,
    /// A blocking wrapper could not allocate the executor for its call.
    ExecutionSetupFailure,
}

/// Metadata of a specific file. Returned by a backend listing.
#[derive(Clone, Debug)]
pub struct ObjectMetadata {
    pub id: String,
    pub name: String,
    pub last_modified: String,
    pub size: u64,
}

impl ObjectMetadata {
    pub fn new(id: &str, name: &str, last_modified: &str, size: u64) -> (m: Self)
        ensures
            m.id@ == id@,
            m.name@ == name@,
            m.last_modified@ == last_modified@,
            m.size == size,
    {
        Self {
            id: id.to_owned(),
            name: name.to_owned(),
            last_modified: last_modified.to_owned(),
            size,
        }
    }
}

/// The ids carried by a listing, in listing order.
pub open spec fn listed_ids(v: Seq<ObjectMetadata>) -> Seq<Seq<char>> {
    v.map_values(|m: ObjectMetadata| m.id@)
}

/// A trait for implementing file management.
///
/// A backend is modelled by [`Storage::objects`], the map from object id to
/// full content that it currently stores. The five primitive operations say
/// exactly how they read or change that map; the derived operations
/// compose the primitives with the encryption envelope of [`crate::crypto`]
/// and are defined here once, identically for every backend.
///
/// Operating on an id that does not exist fails with [`Error::NotFound`],
/// never silently; a failed listing is an error, not an empty listing. No
/// ordering is guaranteed across concurrent operations on the same id:
/// callers who need last-writer-wins must serialize their writes.
///
/// Every method here is the synchronous, blocking form of its operation —
/// the form every backend owes its callers. A non-blocking face, with a
/// private single-use executor behind each blocking entry point, is plain
/// plumbing and wraps this trait outside the library.
pub trait Storage {
    /// The objects this backend currently stores: object id to full content.
    spec fn objects(&self) -> Map<Seq<char>, Seq<u8>>;

    /// Backend-specific validity, established by construction and preserved
    /// by every operation.
    spec fn inv(&self) -> bool;

    /// Get a file metadata list: one entry per stored object, in
    /// backend-defined order, each carrying the object's id and size.
    fn list(&self) -> (r: Result<Vec<ObjectMetadata>, Error>)
        requires
            self.inv(),
        ensures
            r matches Ok(v) ==> listed_ids(v@).to_set() == self.objects().dom(),
            r matches Ok(v) ==> listed_ids(v@).no_duplicates(),
            r matches Ok(v) ==> forall|i: int|
                0 <= i < v@.len() ==> (#[trigger] v@[i]).size as nat
                    == self.objects()[v@[i].id@].len(),
            r matches Err(e) ==> e is Backend,
    ;

    /// Create a new, empty file by name and get the id.
    fn create(&mut self, file_name: &str) -> (r: Result<String, Error>)
        requires
            old(self).inv(),
        ensures
            final(self).inv(),
            r matches Ok(id) ==> final(self).objects()
                == old(self).objects().insert(id@, Seq::empty()),
            r matches Err(e) ==> e is Backend,
            r matches Err(_) ==> final(self).objects() == old(self).objects(),
    ;

    /// Get file data by id.
    fn get(&self, file_id: &str) -> (r: Result<Vec<u8>, Error>)
        requires
            self.inv(),
        ensures
            r matches Ok(d) ==> self.objects().contains_key(file_id@)
                && d@ == self.objects()[file_id@],
            !self.objects().contains_key(file_id@) ==> (r matches Err(e) && e is NotFound),
            r matches Err(e) ==> e is NotFound || e is Backend,
            r matches Err(e) ==> (e is NotFound ==> !self.objects().contains_key(file_id@)),
    ;

    /// Update file data by id, replacing the object's content whole.
    fn update(&mut self, file_id: &str, data: &[u8]) -> (r: Result<(), Error>)
        requires
            old(self).inv(),
        ensures
            final(self).inv(),
            r matches Ok(_) ==> old(self).objects().contains_key(file_id@)
                && final(self).objects() == old(self).objects().insert(file_id@, data@),
            !old(self).objects().contains_key(file_id@) ==> (r matches Err(e) && e is NotFound
                && final(self).objects() == old(self).objects()),
            r matches Err(e) ==> e is NotFound || e is Backend,
            r matches Err(e) ==> (e is NotFound ==> !old(self).objects().contains_key(file_id@)
                && final(self).objects() == old(self).objects()),
            r matches Err(_) ==> final(self).objects() == old(self).objects()
                || final(self).objects() == old(self).objects().insert(file_id@, data@),
    ;

    /// Delete a file by id.
    fn delete(&mut self, file_id: &str) -> (r: Result<(), Error>)
        requires
            old(self).inv(),
        ensures
            final(self).inv(),
            r matches Ok(_) ==> old(self).objects().contains_key(file_id@)
                && final(self).objects() == old(self).objects().remove(file_id@),
            !old(self).objects().contains_key(file_id@) ==> (r matches Err(e) && e is NotFound
                && final(self).objects() == old(self).objects()),
            r matches Err(e) ==> e is NotFound || e is Backend,
            r matches Err(e) ==> (e is NotFound ==> !old(self).objects().contains_key(file_id@)
                && final(self).objects() == old(self).objects()),
            r matches Err(_) ==> final(self).objects() == old(self).objects()
                || final(self).objects() == old(self).objects().remove(file_id@),
    ;

    /// Get file data by id and decrypt.
    ///
    /// Fetches the object and opens it under `key`; the error says which
    /// stage failed, so a transport fault is never mistaken for a
    /// cryptographic one.
    fn get_decrypt(&self, file_id: &str, key: &str) -> (r: Result<Vec<u8>, Error>)
        requires
            self.inv(),
        ensures
            r matches Ok(p) ==> self.objects().contains_key(file_id@)
                && crate::crypto::opened(self.objects()[file_id@], key@) == Some(p@),
            !self.objects().contains_key(file_id@) ==> (r matches Err(e) && e is NotFound),
            r matches Err(e) ==> e is NotFound || e is Backend || e is DecryptionFailure,
            r matches Err(e) ==> (e is NotFound ==> !self.objects().contains_key(file_id@)),
            r matches Err(e) ==> (e is DecryptionFailure
                ==> self.objects().contains_key(file_id@)
                    && crate::crypto::opened(self.objects()[file_id@], key@) is None),
    {
        let ciphertext = match self.get(file_id) {
            Ok(data) => data,
            Err(e) => return Err(e),
        };
        crate::crypto::decrypt(ciphertext.as_slice(), key)
    }

    /// Encrypt and update file data by id.
    ///
    /// Seals `data` under `key` and stores the envelope whole; what the
    /// backend keeps is 28 bytes longer than `data` — never the plaintext —
    /// and opens back to exactly `data` under the same `key`.
    fn update_encrypt(&mut self, file_id: &str, data: &[u8], key: &str) -> (r: Result<
        (),
        Error,
    >)
        requires
            old(self).inv(),
        ensures
            final(self).inv(),
            r matches Ok(_) ==> old(self).objects().contains_key(file_id@),
            r matches Ok(_) ==> exists|sealed: Seq<u8>|
                final(self).objects() == old(self).objects().insert(file_id@, sealed)
                    && #[trigger] crate::crypto::opened(sealed, key@) == Some(data@)
                    && crate::crypto::sealed_with(sealed, data@, key@)
                    && sealed.len() == data@.len() + 28,
            !old(self).objects().contains_key(file_id@) ==> (r matches Err(e)
                && (e is NotFound || e is EncryptionFailure)
                && final(self).objects() == old(self).objects()),
            r matches Err(e) ==> e is NotFound || e is Backend || e is EncryptionFailure,
            r matches Err(e) ==> (e is NotFound ==> !old(self).objects().contains_key(file_id@)
                && final(self).objects() == old(self).objects()),
            r matches Err(e) ==> (e is EncryptionFailure
                ==> final(self).objects() == old(self).objects()
                    && data@.len() > 0x10_0000_0000),
            r matches Err(_) ==> final(self).objects() == old(self).objects()
                || exists|sealed: Seq<u8>|
                    final(self).objects() == old(self).objects().insert(file_id@, sealed)
                        && #[trigger] crate::crypto::opened(sealed, key@) == Some(data@)
                        && sealed.len() == data@.len() + 28,
    {
        let sealed = match crate::crypto::encrypt(data, key) {
            Ok(envelope) => envelope,
            Err(e) => return Err(e),
        };
        match self.update(file_id, sealed.as_slice()) {
            Ok(_) => Ok(()),
            Err(e) => Err(e),
        }
    }
}

} // verus!
