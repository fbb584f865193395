//! The store behind the interpreter: text keys and text values in memory.

use vstd::prelude::*;
use vstd::hash_map::StringHashMap;

verus! {

/// A store of values by key.
pub struct Db {
    inner: StringHashMap<String>,
}

impl View for Db {
    type V = Map<Seq<char>, Seq<char>>;

    /// The store as a map from key to value, both as plain text.
    closed spec fn view(&self) -> Map<Seq<char>, Seq<char>> {
        self.inner@.map_values(|value: String| value@)
    }
}

impl Db {
    /// An empty store.
    pub fn new() -> (db: Db)
        ensures
            db@ == Map::<Seq<char>, Seq<char>>::empty(),
    {
        let db = Db { inner: StringHashMap::new() };
        assert(db@ =~= Map::<Seq<char>, Seq<char>>::empty());
        db
    }

    /// The value under the key, if there is one.
    pub fn get(&self, key: &str) -> (value: Option<String>)
        ensures
            match value {
                Some(v) => self@.contains_key(key@) && v@ == self@[key@],
                None => !self@.contains_key(key@),
            },
    {
        match self.inner.get(key) {
            Some(v) => Some(v.clone()),
            None => None,
        }
    }

    /// Stores the value under the key, in place of any value that was there.
    pub fn set(&mut self, key: String, value: String)
        ensures
            final(self)@ == old(self)@.insert(key@, value@),
    {
        self.inner.insert(key, value);
        assert(self@ =~= old(self)@.insert(key@, value@));
    }
}

} // verus!
