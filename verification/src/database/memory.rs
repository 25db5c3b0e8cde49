//! An in-memory storage backend.
//!
//! The reference implementation of [`Database`]: it keeps every mapping in a
//! vector and never fails spuriously, so a lookup succeeds exactly when the
//! key was stored.  It serves tests and any deployment that needs no
//! durability.

use vstd::prelude::*;

use crate::database::{Database, DatabaseError};

verus! {

/// The map held by a sequence of key-URL pairs, later pairs winning.
pub open spec fn entries_model(s: Seq<(String, String)>) -> Map<Seq<char>, Seq<char>>
    decreases s.len(),
{
    if s.len() == 0 {
        Map::empty()
    } else {
        entries_model(s.drop_last()).insert(s.last().0@, s.last().1@)
    }
}

proof fn lemma_entries_model_take_step(s: Seq<(String, String)>, i: int)
    requires
        0 <= i < s.len(),
    ensures
        entries_model(s.take(i + 1)) == entries_model(s.take(i)).insert(s[i].0@, s[i].1@),
{
    assert(s.take(i + 1).drop_last() =~= s.take(i));
    assert(s.take(i + 1).last() == s[i]);
}

/// Storage that keeps all mappings in memory.
pub struct MemoryStorage {
    entries: Vec<(String, String)>,
}

impl MemoryStorage {
    /// An empty store.
    pub fn new() -> (r: Self)
        ensures
            r.db_model() == Map::<Seq<char>, Seq<char>>::empty(),
    {
        MemoryStorage { entries: Vec::new() }
    }
}

impl Database for MemoryStorage {
    closed spec fn db_model(&self) -> Map<Seq<char>, Seq<char>> {
        entries_model(self.entries@)
    }

    fn get_key_url(&self, key_id: &String) -> (r: Result<String, DatabaseError>) {
        let ghost full = self.entries@;
        let mut i: usize = self.entries.len();
        proof {
            assert(full.take(i as int) =~= full);
        }
        while i > 0
            invariant
                i <= full.len(),
                full == self.entries@,
                entries_model(full).contains_key(key_id@) ==> entries_model(
                    full.take(i as int),
                ).contains_key(key_id@),
                entries_model(full.take(i as int)).contains_key(key_id@) ==> entries_model(
                    full,
                ).contains_key(key_id@) && entries_model(full.take(i as int))[key_id@]
                    == entries_model(full)[key_id@],
            decreases i,
        {
            i = i - 1;
            proof {
                lemma_entries_model_take_step(full, i as int);
            }
            if self.entries[i].0 == *key_id {
                return Ok(self.entries[i].1.clone());
            }
        }
        proof {
            assert(full.take(0) =~= Seq::<(String, String)>::empty());
        }
        Err(DatabaseError::NotExist(key_id.clone()))
    }

    fn insert_key(&mut self, key_id: String, url: String) -> (r: Result<(), DatabaseError>) {
        let ghost before = self.entries@;
        self.entries.push((key_id, url));
        proof {
            assert(self.entries@.drop_last() =~= before);
        }
        Ok(())
    }
}

} // verus!
