//! The cell-facing handle on the data store: typed access over tagged bytes.
//!
//! A value is written as its postcard encoding under a tag that the caller
//! assigns to its type (and, for versioned values, its schema version).
//! Reading checks the tag before any byte is decoded, and taking a value out
//! removes it only once it has been decoded.
use vstd::prelude::*;
use crate::errors::{ContextError, ContextErrorView};
use crate::store::{Store, StoredView, lists_store};
use crate::tags::{versioned_check, versioned_tag, versioned_tag_string, validate_versioned_type, lemma_split_versioned_tag};

verus! {

/// What reading `key` as tag `expected` gives in store `m`.
pub open spec fn lookup_checked(m: Map<Seq<char>, StoredView>, key: Seq<char>, expected: Seq<char>) -> Result<Seq<u8>, ContextErrorView> {
    if !m.contains_key(key) {
        Err(ContextErrorView::NotFound(key))
    } else if m[key].1 != expected {
        Err(ContextErrorView::TypeMismatch { key, expected, found: m[key].1 })
    } else {
        Ok(m[key].0)
    }
}

/// What reading `key` as base name `expected` at `version` gives in store `m`.
pub open spec fn lookup_versioned(m: Map<Seq<char>, StoredView>, key: Seq<char>, expected: Seq<char>, version: u32) -> Result<Seq<u8>, ContextErrorView> {
    if !m.contains_key(key) {
        Err(ContextErrorView::NotFound(key))
    } else {
        match versioned_check(key, m[key].1, expected, version) {
            Ok(()) => Ok(m[key].0),
            Err(e) => Err(e),
        }
    }
}

pub open spec fn bytes_result_view(r: Result<Vec<u8>, ContextError>) -> Result<Seq<u8>, ContextErrorView> {
    match r {
        Ok(b) => Ok(b@),
        Err(e) => Err(e@),
    }
}

/// A typed read `r` agrees with the check `c` made before decoding: a failed
/// check is returned as it is; a passed one gives the value, or a decoding error.
pub open spec fn read_agrees<T>(r: Result<T, ContextError>, key: Seq<char>, c: Result<Seq<u8>, ContextErrorView>) -> bool {
    match c {
        Err(e) => match r {
            Ok(_) => false,
            Err(x) => x@ == e,
        },
        Ok(_) => match r {
            Ok(_) => true,
            Err(x) => x@.is_deserialization_of(key),
        },
    }
}

/// Relies on postcard::to_stdvec: the encoding of `value`, or the encoder's message.
#[verifier::external_body]
fn encode<T: serde::Serialize>(value: &T) -> (r: Result<Vec<u8>, String>) {
    match postcard::to_stdvec(value) {
        Ok(bytes) => Ok(bytes),
        Err(e) => Err(e.to_string()),
    }
}

/// Relies on postcard::from_bytes: a value decoded from `bytes`, or the decoder's message.
#[verifier::external_body]
fn decode<T: serde::de::DeserializeOwned>(bytes: &Vec<u8>) -> (r: Result<T, String>) {
    match postcard::from_bytes(bytes.as_slice()) {
        Ok(v) => Ok(v),
        Err(e) => Err(e.to_string()),
    }
}

/// A type whose stored values carry a schema version.
pub trait StoreSchema {
    /// The version of the type's current shape.
    const VERSION: u32;
}

/// Handle through which a cell stores and loads values.
#[derive(Debug)]
pub struct CellContext {
    pub store: Store,
}

impl CellContext {
    pub open spec fn wf(&self) -> bool {
        self.store.wf()
    }

    pub open spec fn view(&self) -> Map<Seq<char>, StoredView> {
        self.store@
    }

    /// A context over an empty store.
    pub fn new() -> (r: CellContext)
        ensures
            r.wf(),
            r@ == Map::<Seq<char>, StoredView>::empty(),
    {
        CellContext { store: Store::new() }
    }

    /// A context over `store`.
    pub fn with_store(store: Store) -> (r: CellContext)
        requires
            store.wf(),
        ensures
            r.wf(),
            r@ == store@,
    {
        CellContext { store }
    }

    /// Records encoded `bytes` under `key`, tagged `tag`.
    pub fn store_bytes(&mut self, key: &str, bytes: Vec<u8>, tag: &str)
        requires
            old(self).wf(),
        ensures
            final(self).wf(),
            final(self)@ == old(self)@.insert(key@, (bytes@, tag@)),
    {
        self.store.put(key, bytes, tag)
    }

    /// Records encoded `bytes` under `key`, tagged `tag` at schema `version`.
    pub fn store_versioned_bytes(&mut self, key: &str, bytes: Vec<u8>, tag: &str, version: u32)
        requires
            old(self).wf(),
        ensures
            final(self).wf(),
            final(self)@ == old(self)@.insert(key@, (bytes@, versioned_tag(tag@, version))),
    {
        let t = versioned_tag_string(tag, version);
        self.store.put(key, bytes, t.as_str())
    }

    /// The bytes under `key`, where they are tagged `expected`.
    pub fn load_bytes(&self, key: &str, expected: &str) -> (r: Result<Vec<u8>, ContextError>)
        requires
            self.wf(),
        ensures
            bytes_result_view(r) == lookup_checked(self@, key@, expected@),
    {
        match self.store.get(key) {
            None => Err(ContextError::NotFound(String::from_str(key))),
            Some((bytes, stored)) => {
                let exp = String::from_str(expected);
                if !(stored == exp) {
                    return Err(
                        ContextError::TypeMismatch { key: String::from_str(key), expected: exp, found: stored },
                    );
                }
                Ok(bytes)
            },
        }
    }

    /// The bytes under `key`, where they are tagged `expected` at `version`.
    pub fn load_versioned_bytes(&self, key: &str, expected: &str, version: u32) -> (r: Result<Vec<u8>, ContextError>)
        requires
            self.wf(),
        ensures
            bytes_result_view(r) == lookup_versioned(self@, key@, expected@, version),
    {
        match self.store.get(key) {
            None => Err(ContextError::NotFound(String::from_str(key))),
            Some((bytes, stored)) => {
                match validate_versioned_type(key, stored.as_str(), expected, version) {
                    Ok(()) => Ok(bytes),
                    Err(e) => Err(e),
                }
            },
        }
    }

    /// Removes `key`; true where it was there.
    pub fn remove(&mut self, key: &str) -> (r: bool)
        requires
            old(self).wf(),
        ensures
            final(self).wf(),
            final(self)@ == old(self)@.remove(key@),
            r == old(self)@.contains_key(key@),
    {
        self.store.take(key).is_some()
    }

    /// Every key with its tag, at this moment.
    pub fn list(&self) -> (r: Vec<(String, String)>)
        requires
            self.wf(),
        ensures
            lists_store(r@, self@),
    {
        self.store.keys_and_tags()
    }

    /// Encodes `value` and records it under `key`, tagged `tag`.
    pub fn store<T: serde::Serialize>(&mut self, key: &str, value: &T, tag: &str) -> (r: Result<(), ContextError>)
        requires
            old(self).wf(),
        ensures
            final(self).wf(),
            r is Ok ==> exists|b: Seq<u8>| final(self)@ == old(self)@.insert(key@, (b, tag@)),
            r matches Err(e) ==> final(self)@ == old(self)@ && e@.is_serialization_of(key@),
    {
        match encode(value) {
            Ok(bytes) => {
                self.store_bytes(key, bytes, tag);
                Ok(())
            },
            Err(message) => Err(ContextError::Serialization { key: String::from_str(key), message }),
        }
    }

    /// As `store`, with the tag carrying schema `version`.
    pub fn store_versioned_with<T: serde::Serialize>(&mut self, key: &str, value: &T, tag: &str, version: u32) -> (r: Result<(), ContextError>)
        requires
            old(self).wf(),
        ensures
            final(self).wf(),
            r is Ok ==> exists|b: Seq<u8>| final(self)@ == old(self)@.insert(key@, (b, versioned_tag(tag@, version))),
            r matches Err(e) ==> final(self)@ == old(self)@ && e@.is_serialization_of(key@),
    {
        match encode(value) {
            Ok(bytes) => {
                self.store_versioned_bytes(key, bytes, tag, version);
                Ok(())
            },
            Err(message) => Err(ContextError::Serialization { key: String::from_str(key), message }),
        }
    }

    /// As `store_versioned_with`, at the version that `T` declares.
    pub fn store_versioned<T: serde::Serialize + StoreSchema>(&mut self, key: &str, value: &T, tag: &str) -> (r: Result<(), ContextError>)
        requires
            old(self).wf(),
        ensures
            final(self).wf(),
            r is Ok ==> exists|b: Seq<u8>| final(self)@ == old(self)@.insert(key@, (b, versioned_tag(tag@, T::VERSION))),
            r matches Err(e) ==> final(self)@ == old(self)@ && e@.is_serialization_of(key@),
    {
        self.store_versioned_with(key, value, tag, T::VERSION)
    }

    /// The value under `key`, decoded as `T`, where it is tagged `tag`.
    pub fn load<T: serde::de::DeserializeOwned>(&self, key: &str, tag: &str) -> (r: Result<T, ContextError>)
        requires
            self.wf(),
        ensures
            read_agrees(r, key@, lookup_checked(self@, key@, tag@)),
    {
        let checked = self.load_bytes(key, tag);
        match checked {
            Ok(bytes) => match decode::<T>(&bytes) {
                Ok(v) => Ok(v),
                Err(message) => Err(ContextError::Deserialization { key: String::from_str(key), message }),
            },
            Err(e) => Err(e),
        }
    }

    /// The value under `key`, decoded as `T`, where it is tagged `tag` at schema `version`.
    pub fn load_versioned_with<T: serde::de::DeserializeOwned>(&self, key: &str, tag: &str, version: u32) -> (r: Result<T, ContextError>)
        requires
            self.wf(),
        ensures
            read_agrees(r, key@, lookup_versioned(self@, key@, tag@, version)),
    {
        let checked = self.load_versioned_bytes(key, tag, version);
        match checked {
            Ok(bytes) => match decode::<T>(&bytes) {
                Ok(v) => Ok(v),
                Err(message) => Err(ContextError::Deserialization { key: String::from_str(key), message }),
            },
            Err(e) => Err(e),
        }
    }

    /// As `load_versioned_with`, at the version that `T` declares.
    pub fn load_versioned<T: serde::de::DeserializeOwned + StoreSchema>(&self, key: &str, tag: &str) -> (r: Result<T, ContextError>)
        requires
            self.wf(),
        ensures
            read_agrees(r, key@, lookup_versioned(self@, key@, tag@, T::VERSION)),
    {
        self.load_versioned_with(key, tag, T::VERSION)
    }

    /// Loads the value under `key` as `T`, tagged `tag`, and removes it; on any failure the
    /// store is left as it was.
    pub fn consume<T: serde::de::DeserializeOwned>(&mut self, key: &str, tag: &str) -> (r: Result<T, ContextError>)
        requires
            old(self).wf(),
        ensures
            final(self).wf(),
            read_agrees(r, key@, lookup_checked(old(self)@, key@, tag@)),
            r is Ok ==> final(self)@ == old(self)@.remove(key@),
            r is Err ==> final(self)@ == old(self)@,
    {
        let checked = self.load_bytes(key, tag);
        match checked {
            Ok(bytes) => match decode::<T>(&bytes) {
                Ok(v) => {
                    self.store.take(key);
                    Ok(v)
                },
                Err(message) => Err(ContextError::Deserialization { key: String::from_str(key), message }),
            },
            Err(e) => Err(e),
        }
    }

    /// As `consume_versioned_with`, at the version that `T` declares.
    pub fn consume_versioned<T: serde::de::DeserializeOwned + StoreSchema>(&mut self, key: &str, tag: &str) -> (r: Result<T, ContextError>)
        requires
            old(self).wf(),
        ensures
            final(self).wf(),
            read_agrees(r, key@, lookup_versioned(old(self)@, key@, tag@, T::VERSION)),
            r is Ok ==> final(self)@ == old(self)@.remove(key@),
            r is Err ==> final(self)@ == old(self)@,
    {
        self.consume_versioned_with(key, tag, T::VERSION)
    }

    /// As `consume`, checking schema `version` too.
    pub fn consume_versioned_with<T: serde::de::DeserializeOwned>(&mut self, key: &str, tag: &str, version: u32) -> (r: Result<T, ContextError>)
        requires
            old(self).wf(),
        ensures
            final(self).wf(),
            read_agrees(r, key@, lookup_versioned(old(self)@, key@, tag@, version)),
            r is Ok ==> final(self)@ == old(self)@.remove(key@),
            r is Err ==> final(self)@ == old(self)@,
    {
        let checked = self.load_versioned_bytes(key, tag, version);
        match checked {
            Ok(bytes) => match decode::<T>(&bytes) {
                Ok(v) => {
                    self.store.take(key);
                    Ok(v)
                },
                Err(message) => Err(ContextError::Deserialization { key: String::from_str(key), message }),
            },
            Err(e) => Err(e),
        }
    }
}

/// Reading a key right after storing bytes under it, with the same tag, gives
/// those bytes back.
pub proof fn lemma_round_trip(m: Map<Seq<char>, StoredView>, key: Seq<char>, bytes: Seq<u8>, tag: Seq<char>)
    ensures
        lookup_checked(m.insert(key, (bytes, tag)), key, tag) == Ok::<Seq<u8>, ContextErrorView>(bytes),
{
}

/// The same for a versioned value read at the version it was stored with.
pub proof fn lemma_versioned_round_trip(m: Map<Seq<char>, StoredView>, key: Seq<char>, bytes: Seq<u8>, tag: Seq<char>, version: u32)
    ensures
        lookup_versioned(m.insert(key, (bytes, versioned_tag(tag, version))), key, tag, version)
            == Ok::<Seq<u8>, ContextErrorView>(bytes),
{
    lemma_split_versioned_tag(tag, version);
}

/// Reading a value under another tag than the one it was stored with is a
/// type mismatch naming both tags; no byte is handed out.
pub proof fn lemma_type_safety(m: Map<Seq<char>, StoredView>, key: Seq<char>, bytes: Seq<u8>, stored: Seq<char>, asked: Seq<char>)
    requires
        stored != asked,
    ensures
        lookup_checked(m.insert(key, (bytes, stored)), key, asked) == Err::<Seq<u8>, ContextErrorView>(
            ContextErrorView::TypeMismatch { key, expected: asked, found: stored },
        ),
{
}

/// The same for versioned values: another base name is a type mismatch,
/// whatever the versions.
pub proof fn lemma_versioned_type_safety(
    m: Map<Seq<char>, StoredView>,
    key: Seq<char>,
    bytes: Seq<u8>,
    stored: Seq<char>,
    stored_version: u32,
    asked: Seq<char>,
    asked_version: u32,
)
    requires
        stored != asked,
    ensures
        lookup_versioned(m.insert(key, (bytes, versioned_tag(stored, stored_version))), key, asked, asked_version)
            == Err::<Seq<u8>, ContextErrorView>(ContextErrorView::TypeMismatch { key, expected: asked, found: stored }),
{
    lemma_split_versioned_tag(stored, stored_version);
}

/// A value stored at version `stored_version` reads at version `asked` exactly
/// when the two are equal; otherwise the error names both versions.
pub proof fn lemma_version_safety(
    m: Map<Seq<char>, StoredView>,
    key: Seq<char>,
    bytes: Seq<u8>,
    tag: Seq<char>,
    stored_version: u32,
    asked: u32,
)
    ensures
        lookup_versioned(m.insert(key, (bytes, versioned_tag(tag, stored_version))), key, tag, asked) == if asked
            == stored_version {
            Ok::<Seq<u8>, ContextErrorView>(bytes)
        } else {
            Err(ContextErrorView::SchemaVersionMismatch { key, expected: asked, found: stored_version })
        },
{
    lemma_split_versioned_tag(tag, stored_version);
}

} // verus!
