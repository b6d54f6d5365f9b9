//! Tables from identifiers to public keys.
use crate::crypto::VerifyingKey;
use vstd::prelude::*;

verus! {

/// The key last registered under `id`, if any.
pub open spec fn latest_key(entries: Seq<(Seq<char>, Seq<u8>)>, id: Seq<char>) -> Option<Seq<u8>>
    decreases entries.len(),
{
    if entries.len() == 0 {
        None
    } else if entries.last().0 == id {
        Some(entries.last().1)
    } else {
        latest_key(entries.drop_last(), id)
    }
}

/// Public keys by identifier; a later registration under an identifier
/// replaces an earlier one.
pub struct TrustStore {
    entries: Vec<(String, VerifyingKey)>,
}

impl TrustStore {
    /// The registrations, oldest first.
    pub closed spec fn registrations(self) -> Seq<(Seq<char>, Seq<u8>)> {
        self.entries@.map_values(|e: (String, VerifyingKey)| (e.0@, e.1@))
    }

    /// The key held for `id`.
    pub open spec fn key_of(self, id: Seq<char>) -> Option<Seq<u8>> {
        latest_key(self.registrations(), id)
    }

    pub fn new() -> (r: TrustStore)
        ensures
            forall|id: Seq<char>| r.key_of(id) is None,
    {
        let r = TrustStore { entries: Vec::new() };
        assert(r.registrations().len() == 0);
        r
    }

    /// Registers `key` under `id`.
    pub fn insert(&mut self, id: String, key: VerifyingKey)
        ensures
            forall|x: Seq<char>|
                #[trigger] final(self).key_of(x) == if x == id@ {
                    Some(key@)
                } else {
                    old(self).key_of(x)
                },
    {
        let ghost before = self.registrations();
        let ghost idv = id@;
        self.entries.push((id, key));
        assert(self.registrations() =~= before.push((idv, key@)));
        assert(self.registrations().drop_last() =~= before);
    }

    /// The key held for `id`.
    pub fn get(&self, id: &String) -> (r: Option<VerifyingKey>)
        ensures
            match r {
                Some(k) => self.key_of(id@) == Some(k@),
                None => self.key_of(id@) is None,
            },
    {
        let ghost all = self.registrations();
        let mut i: usize = self.entries.len();
        assert(all.subrange(0, i as int) =~= all);
        while i > 0
            invariant
                i <= self.entries.len(),
                all == self.registrations(),
                latest_key(all, id@) == latest_key(all.subrange(0, i as int), id@),
            decreases i,
        {
            let ghost prefix = all.subrange(0, i as int);
            i = i - 1;
            assert(prefix.drop_last() =~= all.subrange(0, i as int));
            if self.entries[i].0 == *id {
                return Some(self.entries[i].1);
            }
        }
        assert(all.subrange(0, 0).len() == 0);
        None
    }
}

} // verus!
