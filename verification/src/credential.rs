//! Saved login credentials, one per provider id.
use vstd::prelude::*;
use crate::text::str_eq;

verus! {

/// Provider ids mapped to the credential strings that a login produced.
pub struct CredentialStore {
    entries: Vec<(String, String)>,
}

/// No provider id occurs twice among the pairs.
pub open spec fn unique_keys(s: Seq<(String, String)>) -> bool {
    forall|i: int, j: int| 0 <= i < j < s.len() ==> #[trigger] s[i].0@ != #[trigger] s[j].0@
}

/// Some pair has key `k`.
pub open spec fn has_key(s: Seq<(String, String)>, k: Seq<char>) -> bool {
    exists|i: int| 0 <= i < s.len() && #[trigger] s[i].0@ == k
}

/// The position of the pair with key `k`.
pub open spec fn key_index(s: Seq<(String, String)>, k: Seq<char>) -> int {
    choose|i: int| 0 <= i < s.len() && #[trigger] s[i].0@ == k
}

/// `m` after inserting each pair in turn, so that a later pair wins.
pub open spec fn insert_all(m: Map<Seq<char>, Seq<char>>, s: Seq<(String, String)>) -> Map<Seq<char>, Seq<char>>
    decreases s.len(),
{
    if s.len() == 0 {
        m
    } else {
        insert_all(m, s.drop_last()).insert(s.last().0@, s.last().1@)
    }
}

/// The map that a list of pairs with distinct keys stands for.
pub open spec fn pairs_map(s: Seq<(String, String)>) -> Map<Seq<char>, Seq<char>> {
    Map::new(|k: Seq<char>| has_key(s, k), |k: Seq<char>| s[key_index(s, k)].1@)
}

impl View for CredentialStore {
    type V = Map<Seq<char>, Seq<char>>;

    closed spec fn view(&self) -> Map<Seq<char>, Seq<char>> {
        pairs_map(self.entries@)
    }
}

/// With distinct keys, the pair at `i` gives the map's value for its key.
proof fn lemma_pairs_map_at(s: Seq<(String, String)>, i: int)
    requires
        unique_keys(s),
        0 <= i < s.len(),
    ensures
        pairs_map(s).contains_key(s[i].0@),
        pairs_map(s)[s[i].0@] == s[i].1@,
{
    let k = s[i].0@;
    assert(has_key(s, k));
    let j = key_index(s, k);
    if j != i {
        if j < i {
            assert(s[j].0@ != s[i].0@);
        } else {
            assert(s[i].0@ != s[j].0@);
        }
    }
}

impl CredentialStore {
    #[verifier::type_invariant]
    spec fn inv(self) -> bool {
        unique_keys(self.entries@)
    }

    /// An empty store.
    pub fn new() -> (res: Self)
        ensures
            res@ == Map::<Seq<char>, Seq<char>>::empty(),
    {
        let res = CredentialStore { entries: Vec::new() };
        assert(res@ =~= Map::<Seq<char>, Seq<char>>::empty());
        res
    }

    /// Position of the entry for `provider_id`.
    fn find(&self, provider_id: &str) -> (res: Option<usize>)
        ensures
            match res {
                Some(i) => i < self.entries@.len() && self.entries@[i as int].0@ == provider_id@,
                None => !has_key(self.entries@, provider_id@),
            },
    {
        let mut i: usize = 0;
        while i < self.entries.len()
            invariant
                i <= self.entries@.len(),
                forall|j: int| 0 <= j < i ==> self.entries@[j].0@ != provider_id@,
            decreases self.entries.len() - i,
        {
            if str_eq(self.entries[i].0.as_str(), provider_id) {
                return Some(i);
            }
            i += 1;
        }
        None
    }

    /// A store holding the given pairs; a later pair replaces an earlier one
    /// with the same id.
    pub fn from_entries(pairs: Vec<(String, String)>) -> (res: Self)
        ensures
            res@ == insert_all(Map::empty(), pairs@),
    {
        let mut store = CredentialStore::new();
        let mut i: usize = 0;
        while i < pairs.len()
            invariant
                i <= pairs@.len(),
                store@ == insert_all(Map::empty(), pairs@.take(i as int)),
            decreases pairs.len() - i,
        {
            let k = pairs[i].0.clone();
            let v = pairs[i].1.clone();
            store.set_credential(k, v);
            assert(pairs@.take(i + 1).drop_last() == pairs@.take(i as int));
            i += 1;
        }
        assert(pairs@.take(pairs.len() as int) == pairs@);
        store
    }

    /// The stored pairs, each id once, for writing the store to disk.
    pub fn entries(&self) -> (res: &Vec<(String, String)>)
        ensures
            unique_keys(res@),
            pairs_map(res@) == self@,
    {
        proof {
            use_type_invariant(self);
        }
        &self.entries
    }

    /// The credential saved for `provider_id`, if any.
    pub fn get_credential(&self, provider_id: &str) -> (res: Option<&str>)
        ensures
            match res {
                Some(c) => self@.contains_key(provider_id@) && c@ == self@[provider_id@],
                None => !self@.contains_key(provider_id@),
            },
    {
        proof {
            use_type_invariant(self);
        }
        match self.find(provider_id) {
            Some(i) => {
                proof {
                    lemma_pairs_map_at(self.entries@, i as int);
                }
                Some(self.entries[i].1.as_str())
            },
            None => None,
        }
    }

    /// Saves (or replaces) the credential for `provider_id`.
    pub fn set_credential(&mut self, provider_id: String, credential: String)
        ensures
            final(self)@ == old(self)@.insert(provider_id@, credential@),
    {
        proof {
            use_type_invariant(&*self);
        }
        let found = self.find(provider_id.as_str());
        let mut e: Vec<(String, String)> = Vec::new();
        std::mem::swap(&mut e, &mut self.entries);
        let ghost s = e@;
        let ghost k = provider_id@;
        let ghost v = credential@;
        match found {
            Some(i) => {
                e.set(i, (provider_id, credential));
                proof {
                    let t = e@;
                    assert(t == s.update(i as int, t[i as int]));
                    assert forall|a: int, b: int| 0 <= a < b < t.len() implies #[trigger] t[a].0@ != #[trigger] t[b].0@ by {
                        if a != i && b != i {
                            assert(s[a].0@ != s[b].0@);
                        } else if a == i {
                            assert(s[a].0@ != s[b].0@);
                        } else {
                            assert(s[a].0@ != s[b].0@);
                        }
                    }
                    assert(pairs_map(t) =~= pairs_map(s).insert(k, v)) by {
                        assert forall|k2: Seq<char>| has_key(t, k2) <==> (has_key(s, k2) || k2 == k) by {
                            if has_key(t, k2) {
                                let j = choose|j: int| 0 <= j < t.len() && #[trigger] t[j].0@ == k2;
                                if j != i {
                                    assert(s[j].0@ == k2);
                                }
                            }
                            if has_key(s, k2) {
                                let j = choose|j: int| 0 <= j < s.len() && #[trigger] s[j].0@ == k2;
                                if j != i {
                                    assert(t[j].0@ == k2);
                                } else {
                                    assert(t[i as int].0@ == k);
                                }
                            }
                            if k2 == k {
                                assert(t[i as int].0@ == k);
                            }
                        }
                        assert forall|k2: Seq<char>| #[trigger] pairs_map(t).contains_key(k2) implies pairs_map(t)[k2]
                            == pairs_map(s).insert(k, v)[k2] by {
                            let j = key_index(t, k2);
                            lemma_pairs_map_at(t, j);
                            if j != i {
                                assert(s[j] == t[j]);
                                lemma_pairs_map_at(s, j);
                            }
                        }
                    }
                }
            },
            None => {
                e.push((provider_id, credential));
                proof {
                    let t = e@;
                    assert(t == s.push(t.last()));
                    assert forall|a: int, b: int| 0 <= a < b < t.len() implies #[trigger] t[a].0@ != #[trigger] t[b].0@ by {
                        if b == t.len() - 1 {
                            assert(s[a].0@ != k);
                        } else {
                            assert(s[a].0@ != s[b].0@);
                        }
                    }
                    assert(pairs_map(t) =~= pairs_map(s).insert(k, v)) by {
                        assert forall|k2: Seq<char>| has_key(t, k2) <==> (has_key(s, k2) || k2 == k) by {
                            if has_key(t, k2) {
                                let j = choose|j: int| 0 <= j < t.len() && #[trigger] t[j].0@ == k2;
                                if j < s.len() {
                                    assert(s[j].0@ == k2);
                                }
                            }
                            if has_key(s, k2) {
                                let j = choose|j: int| 0 <= j < s.len() && #[trigger] s[j].0@ == k2;
                                assert(t[j].0@ == k2);
                            }
                            if k2 == k {
                                assert(t[s.len() as int].0@ == k);
                            }
                        }
                        assert forall|k2: Seq<char>| #[trigger] pairs_map(t).contains_key(k2) implies pairs_map(t)[k2]
                            == pairs_map(s).insert(k, v)[k2] by {
                            let j = key_index(t, k2);
                            lemma_pairs_map_at(t, j);
                            if j < s.len() {
                                assert(s[j] == t[j]);
                                lemma_pairs_map_at(s, j);
                            }
                        }
                    }
                }
            },
        }
        self.entries = e;
    }

    /// Forgets the credential for `provider_id`.
    pub fn remove_credential(&mut self, provider_id: &str)
        ensures
            final(self)@ == old(self)@.remove(provider_id@),
    {
        proof {
            use_type_invariant(&*self);
        }
        let found = self.find(provider_id);
        let mut e: Vec<(String, String)> = Vec::new();
        std::mem::swap(&mut e, &mut self.entries);
        let ghost s = e@;
        let ghost k = provider_id@;
        match found {
            Some(i) => {
                e.remove(i);
                proof {
                    let t = e@;
                    assert(t =~= s.remove(i as int));
                    assert forall|a: int, b: int| 0 <= a < b < t.len() implies #[trigger] t[a].0@ != #[trigger] t[b].0@ by {
                        let a2 = if a < i { a } else { a + 1 };
                        let b2 = if b < i { b } else { b + 1 };
                        assert(s[a2].0@ != s[b2].0@);
                    }
                    assert(pairs_map(t) =~= pairs_map(s).remove(k)) by {
                        assert forall|k2: Seq<char>| has_key(t, k2) <==> (has_key(s, k2) && k2 != k) by {
                            if has_key(t, k2) {
                                let j = choose|j: int| 0 <= j < t.len() && #[trigger] t[j].0@ == k2;
                                let j2 = if j < i { j } else { j + 1 };
                                assert(s[j2].0@ == k2);
                                assert(s[i as int].0@ == k);
                                if j2 < i {
                                    assert(s[j2].0@ != s[i as int].0@);
                                } else {
                                    assert(s[i as int].0@ != s[j2].0@);
                                }
                            }
                            if has_key(s, k2) && k2 != k {
                                let j = choose|j: int| 0 <= j < s.len() && #[trigger] s[j].0@ == k2;
                                if j < i {
                                    assert(t[j].0@ == k2);
                                } else {
                                    assert(j != i);
                                    assert(t[j - 1].0@ == k2);
                                }
                            }
                        }
                        assert forall|k2: Seq<char>| #[trigger] pairs_map(t).contains_key(k2) implies pairs_map(t)[k2]
                            == pairs_map(s).remove(k)[k2] by {
                            let j = key_index(t, k2);
                            lemma_pairs_map_at(t, j);
                            let j2 = if j < i { j } else { j + 1 };
                            assert(s[j2] == t[j]);
                            lemma_pairs_map_at(s, j2);
                        }
                    }
                }
            },
            None => {
                assert(pairs_map(s) =~= pairs_map(s).remove(k));
            },
        }
        self.entries = e;
    }

    /// Whether a credential is saved for `provider_id`.
    pub fn has_credential(&self, provider_id: &str) -> (res: bool)
        ensures
            res == self@.contains_key(provider_id@),
    {
        proof {
            use_type_invariant(self);
        }
        match self.find(provider_id) {
            Some(i) => {
                proof {
                    lemma_pairs_map_at(self.entries@, i as int);
                }
                true
            },
            None => false,
        }
    }
}

/// Reading back a credential gives what was last saved for that provider,
/// and saving for one provider leaves every other provider as it was.
pub proof fn law_get_after_set(m: Map<Seq<char>, Seq<char>>, id: Seq<char>, cred: Seq<char>, other: Seq<char>)
    requires
        other != id,
    ensures
        m.insert(id, cred).contains_key(id),
        m.insert(id, cred)[id] == cred,
        m.insert(id, cred).contains_key(other) == m.contains_key(other),
        m.contains_key(other) ==> m.insert(id, cred)[other] == m[other],
{
}

/// After removing a provider's credential none is saved for it, and other
/// providers keep theirs.
pub proof fn law_remove(m: Map<Seq<char>, Seq<char>>, id: Seq<char>, other: Seq<char>)
    requires
        other != id,
    ensures
        !m.remove(id).contains_key(id),
        m.remove(id).contains_key(other) == m.contains_key(other),
        m.contains_key(other) ==> m.remove(id)[other] == m[other],
{
}

/// Saving then removing a credential for an id that had none restores the store.
pub proof fn law_remove_undoes_set(m: Map<Seq<char>, Seq<char>>, id: Seq<char>, cred: Seq<char>)
    requires
        !m.contains_key(id),
    ensures
        m.insert(id, cred).remove(id) == m,
{
    assert(m.insert(id, cred).remove(id) =~= m);
}

} // verus!
