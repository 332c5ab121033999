use vstd::prelude::*;

verus! {

/// sled's error type, opaque to the verifier; callers map it to
/// `AuthError::StoreUnavailable`.
#[verifier::external_type_specification]
#[verifier::external_body]
pub struct ExSledError(sled::Error);

/// The durable code store: a sled keyspace that survives restarts. Per
/// issued code it holds the authoritative `code -> identity` entry and
/// the `identity -> code` reverse entry; identity keys are four bytes,
/// code keys thirty-two, so the two families never collide.
#[verifier::external_body]
pub struct CodeStore {
    db: sled::Db,
    tree: sled::Tree,
}

/// The entries the store currently holds, as a map from key bytes to
/// value bytes.
pub uninterp spec fn store_map(s: CodeStore) -> Map<Seq<u8>, Seq<u8>>;

impl CodeStore {
    /// Relies on sled::open and sled::Db::open_tree: opens (or creates)
    /// the database at `path` and its "default" keyspace. The keyspace
    /// starts with whatever earlier runs left on disk, so nothing is
    /// promised of the initial contents.
    #[verifier::external_body]
    pub fn open_at(path: &str) -> (r: Result<CodeStore, sled::Error>) {
        let db = sled::open(path)?;
        let tree = db.open_tree("default")?;
        Ok(CodeStore { db, tree })
    }

    /// Relies on sled::Config with temporary(true): a fresh database in a
    /// temporary location, removed again when dropped. Being fresh, it
    /// starts empty.
    #[verifier::external_body]
    pub fn open_temporary() -> (r: Result<CodeStore, sled::Error>)
        ensures
            (r matches Ok(s) ==> store_map(s) == Map::<Seq<u8>, Seq<u8>>::empty()),
    {
        let db = sled::Config::new().temporary(true).open()?;
        let tree = db.open_tree("default")?;
        Ok(CodeStore { db, tree })
    }

    /// Relies on sled::Tree::get: the value currently stored under `key`,
    /// if any.
    #[verifier::external_body]
    pub(crate) fn fetch(&self, key: &[u8]) -> (r: Result<Option<Vec<u8>>, sled::Error>)
        ensures
            (r matches Ok(v) ==> match v {
                Some(b) => store_map(*self).contains_key(key@) && b@ == store_map(*self)[key@],
                None => !store_map(*self).contains_key(key@),
            }),
    {
        match self.tree.get(key) {
            Ok(Some(value)) => Ok(Some(value.to_vec())),
            Ok(None) => Ok(None),
            Err(e) => Err(e),
        }
    }

    /// Relies on sled::Tree::insert: sets `key` to `value`. On failure the
    /// on-disk state is not known, so nothing is claimed of it.
    #[verifier::external_body]
    pub(crate) fn put(&mut self, key: &[u8], value: &[u8]) -> (r: Result<(), sled::Error>)
        ensures
            (r is Ok ==> store_map(*final(self)) == store_map(*old(self)).insert(key@, value@)),
    {
        match self.tree.insert(key, value) {
            Ok(_) => Ok(()),
            Err(e) => Err(e),
        }
    }

    /// Relies on sled::Tree::remove: deletes `key` and returns the value
    /// it held. The read and the delete are one atomic step, so of two
    /// concurrent removals of the same key at most one sees its value.
    #[verifier::external_body]
    pub(crate) fn take(&mut self, key: &[u8]) -> (r: Result<Option<Vec<u8>>, sled::Error>)
        ensures
            (r matches Ok(v) ==> {
                &&& store_map(*final(self)) == store_map(*old(self)).remove(key@)
                &&& match v {
                    Some(b) => store_map(*old(self)).contains_key(key@) && b@ == store_map(
                        *old(self),
                    )[key@],
                    None => !store_map(*old(self)).contains_key(key@),
                }
            }),
    {
        match self.tree.remove(key) {
            Ok(Some(value)) => Ok(Some(value.to_vec())),
            Ok(None) => Ok(None),
            Err(e) => Err(e),
        }
    }
}

} // verus!
