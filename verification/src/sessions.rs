//! Login sessions: which session token belongs to which administrator.

use vstd::prelude::*;

use crate::text::str_eq;

verus! {

/// The map from token to user id that a sequence of entries describes,
/// later entries overriding earlier ones.
pub open spec fn map_of(s: Seq<(String, i64)>) -> Map<Seq<char>, i64>
    decreases s.len(),
{
    if s.len() == 0 {
        Map::empty()
    } else {
        map_of(s.drop_last()).insert(s.last().0@, s.last().1)
    }
}

/// No token occurs twice.
pub open spec fn keys_distinct(s: Seq<(String, i64)>) -> bool {
    forall|i: int, j: int| 0 <= i < j < s.len() ==> s[i].0@ != s[j].0@
}

proof fn lemma_map_of(s: Seq<(String, i64)>)
    requires
        keys_distinct(s),
    ensures
        forall|k: Seq<char>|
            #[trigger] map_of(s).dom().contains(k) <==> exists|i: int|
                0 <= i < s.len() && s[i].0@ == k,
        forall|i: int| 0 <= i < s.len() ==> #[trigger] map_of(s)[s[i].0@] == s[i].1,
    decreases s.len(),
{
    if s.len() > 0 {
        let t = s.drop_last();
        lemma_map_of(t);
        assert forall|k: Seq<char>| #[trigger] map_of(s).dom().contains(k) implies exists|i: int|
            0 <= i < s.len() && s[i].0@ == k by {
            if k != s.last().0@ {
                assert(map_of(t).dom().contains(k));
                let i = choose|i: int| 0 <= i < t.len() && t[i].0@ == k;
                assert(s[i] == t[i]);
            } else {
                assert(s[s.len() - 1].0@ == k);
            }
        }
        assert forall|k: Seq<char>| (exists|i: int| 0 <= i < s.len() && s[i].0@ == k) implies #[trigger] map_of(s).dom().contains(k) by {
            let i = choose|i: int| 0 <= i < s.len() && s[i].0@ == k;
            if i < s.len() - 1 {
                assert(t[i] == s[i]);
                assert(map_of(t).dom().contains(k));
            }
        }
        assert forall|i: int| 0 <= i < s.len() implies #[trigger] map_of(s)[s[i].0@] == s[i].1 by {
            if i < s.len() - 1 {
                assert(s[i] == t[i]);
                assert(s[i].0@ != s.last().0@);
                assert(map_of(t)[t[i].0@] == t[i].1);
            }
        }
    }
}

/// The sessions of logged-in administrators.
pub struct SessionStore {
    entries: Vec<(String, i64)>,
}

impl View for SessionStore {
    type V = Map<Seq<char>, i64>;

    closed spec fn view(&self) -> Map<Seq<char>, i64> {
        map_of(self.entries@)
    }
}

impl SessionStore {
    #[verifier::type_invariant]
    spec fn tokens_distinct(self) -> bool {
        keys_distinct(self.entries@)
    }

    /// A store without sessions.
    pub fn new() -> (s: SessionStore)
        ensures
            s@ == Map::<Seq<char>, i64>::empty(),
    {
        SessionStore { entries: Vec::new() }
    }

    fn find(&self, token: &str) -> (r: Option<usize>)
        ensures
            match r {
                Some(i) => i < self.entries@.len() && self.entries@[i as int].0@ == token@,
                None => forall|i: int|
                    0 <= i < self.entries@.len() ==> self.entries@[i].0@ != token@,
            },
    {
        let mut i: usize = 0;
        while i < self.entries.len()
            invariant
                i <= self.entries@.len(),
                forall|j: int| 0 <= j < i ==> self.entries@[j].0@ != token@,
            decreases self.entries@.len() - i,
        {
            if str_eq(self.entries[i].0.as_str(), token) {
                return Some(i);
            }
            i = i + 1;
        }
        None
    }

    /// The user that `token` belongs to, if it belongs to one.
    pub fn get(&self, token: &str) -> (r: Option<i64>)
        ensures
            r == (if self@.dom().contains(token@) {
                Some(self@[token@])
            } else {
                None::<i64>
            }),
    {
        proof {
            use_type_invariant(self);
            lemma_map_of(self.entries@);
        }
        match self.find(token) {
            Some(i) => Some(self.entries[i].1),
            None => None,
        }
    }

    /// Records that `token` belongs to `user_id`.
    pub fn insert(&mut self, token: String, user_id: i64)
        ensures
            final(self)@ == old(self)@.insert(token@, user_id),
    {
        proof {
            use_type_invariant(&*self);
            lemma_map_of(self.entries@);
        }
        let ghost old_entries = self.entries@;
        match self.find(token.as_str()) {
            Some(i) => {
                let ghost k = token@;
                let mut entries: Vec<(String, i64)> = Vec::new();
                std::mem::swap(&mut entries, &mut self.entries);
                entries.set(i, (token, user_id));
                proof {
                    let s = entries@;
                    assert(keys_distinct(s)) by {
                        assert forall|a: int, b: int| 0 <= a < b < s.len() implies s[a].0@
                            != s[b].0@ by {
                            assert(old_entries[a].0@ != old_entries[b].0@);
                        }
                    }
                    lemma_map_of(s);
                    assert(map_of(s) =~= map_of(old_entries).insert(k, user_id)) by {
                        assert forall|q: Seq<char>| #[trigger] map_of(s).dom().contains(q) <==> map_of(
                            old_entries,
                        ).insert(k, user_id).dom().contains(q) by {
                            if map_of(old_entries).dom().contains(q) {
                                let j = choose|j: int|
                                    0 <= j < old_entries.len() && old_entries[j].0@ == q;
                                assert(s[j].0@ == q);
                            }
                            if map_of(s).dom().contains(q) {
                                let j = choose|j: int| 0 <= j < s.len() && s[j].0@ == q;
                                assert(old_entries[j].0@ == q);
                            }
                        }
                        assert forall|q: Seq<char>| #[trigger] map_of(s).dom().contains(q) implies map_of(
                            s,
                        )[q] == map_of(old_entries).insert(k, user_id)[q] by {
                            let j = choose|j: int| 0 <= j < s.len() && s[j].0@ == q;
                            if j != i {
                                assert(old_entries[j] == s[j]);
                            }
                        }
                    }
                }
                self.entries = entries;
            },
            None => {
                let mut entries: Vec<(String, i64)> = Vec::new();
                std::mem::swap(&mut entries, &mut self.entries);
                entries.push((token, user_id));
                proof {
                    assert(entries@.drop_last() =~= old_entries);
                }
                self.entries = entries;
            },
        }
    }

    /// Ends the session of `token`, if there is one.
    pub fn remove(&mut self, token: &str)
        ensures
            final(self)@ == old(self)@.remove(token@),
    {
        proof {
            use_type_invariant(&*self);
            lemma_map_of(self.entries@);
        }
        let ghost old_entries = self.entries@;
        match self.find(token) {
            Some(i) => {
                let mut entries: Vec<(String, i64)> = Vec::new();
                std::mem::swap(&mut entries, &mut self.entries);
                entries.remove(i);
                proof {
                    let s = entries@;
                    assert(keys_distinct(s)) by {
                        assert forall|a: int, b: int| 0 <= a < b < s.len() implies s[a].0@
                            != s[b].0@ by {
                            let a2 = if a < i { a } else { a + 1 };
                            let b2 = if b < i { b } else { b + 1 };
                            assert(s[a] == old_entries[a2]);
                            assert(s[b] == old_entries[b2]);
                        }
                    }
                    lemma_map_of(s);
                    assert(map_of(s) =~= map_of(old_entries).remove(token@)) by {
                        assert forall|q: Seq<char>| #[trigger] map_of(s).dom().contains(q) <==> map_of(
                            old_entries,
                        ).remove(token@).dom().contains(q) by {
                            if map_of(s).dom().contains(q) {
                                let j = choose|j: int| 0 <= j < s.len() && s[j].0@ == q;
                                let j2 = if j < i { j } else { j + 1 };
                                assert(s[j] == old_entries[j2]);
                            }
                            if map_of(old_entries).remove(token@).dom().contains(q) {
                                let j = choose|j: int|
                                    0 <= j < old_entries.len() && old_entries[j].0@ == q;
                                let j1 = if j < i { j } else { j - 1 };
                                assert(s[j1] == old_entries[j]);
                            }
                        }
                        assert forall|q: Seq<char>| #[trigger] map_of(s).dom().contains(q) implies map_of(
                            s,
                        )[q] == map_of(old_entries).remove(token@)[q] by {
                            let j = choose|j: int| 0 <= j < s.len() && s[j].0@ == q;
                            let j2 = if j < i { j } else { j + 1 };
                            assert(s[j] == old_entries[j2]);
                        }
                    }
                }
                self.entries = entries;
            },
            None => {
                proof {
                    assert(map_of(old_entries) =~= map_of(old_entries).remove(token@));
                }
            },
        }
    }
}

} // verus!
