//! The cache of asset bytes already read from disk, keyed by asset path.

use vstd::prelude::*;

verus! {

/// The bytes stored last under `key` among `entries`, if any.
pub open spec fn latest(entries: Seq<(Seq<char>, Seq<u8>)>, key: Seq<char>) -> Option<Seq<u8>>
    decreases entries.len(),
{
    if entries.len() == 0 {
        None
    } else if entries.last().0 == key {
        Some(entries.last().1)
    } else {
        latest(entries.drop_last(), key)
    }
}

/// Bytes of assets already read, so that later loads of the same path skip
/// the read.
pub struct AssetCache {
    entries: Vec<(String, Vec<u8>)>,
}

impl AssetCache {
    closed spec fn entry_views(&self) -> Seq<(Seq<char>, Seq<u8>)> {
        self.entries@.map_values(|e: (String, Vec<u8>)| (e.0@, e.1@))
    }

    /// The bytes cached for `asset_path`, if any.
    pub closed spec fn lookup(&self, asset_path: Seq<char>) -> Option<Seq<u8>> {
        latest(self.entry_views(), asset_path)
    }

    /// An empty cache.
    pub fn new() -> (r: AssetCache)
        ensures
            forall|k: Seq<char>| r.lookup(k) is None,
    {
        AssetCache { entries: Vec::new() }
    }

    /// The bytes cached for `asset_path`, if any.
    pub fn get(&self, asset_path: &str) -> (r: Option<&Vec<u8>>)
        ensures
            r is None <==> self.lookup(asset_path@) is None,
            r is Some ==> self.lookup(asset_path@) == Some(r->0@),
    {
        let key = asset_path.to_owned();
        let mut i: usize = self.entries.len();
        assert(self.entry_views().take(i as int) =~= self.entry_views());
        while i > 0
            invariant
                i <= self.entries@.len(),
                self.entry_views().len() == self.entries@.len(),
                key@ == asset_path@,
                latest(self.entry_views(), key@) == latest(self.entry_views().take(i as int), key@),
            decreases i,
        {
            let ghost views = self.entry_views().take(i as int);
            assert(views.drop_last() == self.entry_views().take(i - 1));
            if self.entries[i - 1].0 == key {
                return Some(&self.entries[i - 1].1);
            }
            i = i - 1;
        }
        None
    }

    /// Caches `bytes` for `asset_path`, replacing what was cached for it.
    pub fn insert(&mut self, asset_path: String, bytes: Vec<u8>)
        ensures
            final(self).lookup(asset_path@) == Some(bytes@),
            forall|k: Seq<char>| k != asset_path@ ==> final(self).lookup(k) == old(self).lookup(k),
    {
        let ghost key = asset_path@;
        let ghost value = bytes@;
        self.entries.push((asset_path, bytes));
        assert(self.entry_views().drop_last() == old(self).entry_views());
        assert(self.entry_views().last() == (key, value));
    }
}

} // verus!
