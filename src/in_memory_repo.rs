use crate::errors::DomainError;
use crate::model::User;
use crate::ports::{distinct_ids, lookup, UserRepository};
use vstd::prelude::*;

verus! {

/// The mapping from id to user that the entries of `s` make up.
pub open spec fn map_of(s: Seq<User>) -> Map<Seq<char>, User> {
    Map::new(
        |k: Seq<char>| exists|i: int| 0 <= i < s.len() && (#[trigger] s[i]).id@ == k,
        |k: Seq<char>| s[choose|i: int| 0 <= i < s.len() && (#[trigger] s[i]).id@ == k],
    )
}

/// With unique ids, each entry is what the mapping holds under its id.
proof fn lemma_map_of_at(s: Seq<User>, i: int)
    requires
        distinct_ids(s),
        0 <= i < s.len(),
    ensures
        map_of(s).contains_key(s[i].id@),
        map_of(s)[s[i].id@] == s[i],
{
    let k = s[i].id@;
    assert(map_of(s).dom().contains(k));
    let j = choose|j: int| 0 <= j < s.len() && (#[trigger] s[j]).id@ == k;
    assert(s[j].id@ == k);
    if j != i {
        assert(s[i].id@ != s[j].id@);
    }
}

/// Overwriting the entry whose id is that of `u` replaces the record there.
proof fn lemma_map_of_update(s: Seq<User>, i: int, u: User)
    requires
        distinct_ids(s),
        0 <= i < s.len(),
        s[i].id@ == u.id@,
    ensures
        distinct_ids(s.update(i, u)),
        map_of(s.update(i, u)) == map_of(s).insert(u.id@, u),
{
    let t = s.update(i, u);
    assert forall|a: int, b: int|
        0 <= a < t.len() && 0 <= b < t.len() && a != b implies (#[trigger] t[a]).id@
            != (#[trigger] t[b]).id@ by {
        assert(s[a].id@ != s[b].id@);
    }
    lemma_map_of_at(t, i);
    assert forall|k: Seq<char>| #[trigger] map_of(t).contains_key(k) <==> map_of(s).insert(
        u.id@,
        u,
    ).contains_key(k) by {
        if map_of(t).contains_key(k) {
            let j = choose|j: int| 0 <= j < t.len() && (#[trigger] t[j]).id@ == k;
            if j != i {
                assert(s[j].id@ == k);
            }
        }
        if map_of(s).contains_key(k) {
            let j = choose|j: int| 0 <= j < s.len() && (#[trigger] s[j]).id@ == k;
            if j != i {
                assert(t[j].id@ == k);
            }
        }
    }
    assert forall|k: Seq<char>| #[trigger] map_of(t).contains_key(k) && k != u.id@ implies map_of(
        t,
    )[k] == map_of(s)[k] by {
        let j = choose|j: int| 0 <= j < t.len() && (#[trigger] t[j]).id@ == k;
        assert(j != i);
        assert(s[j].id@ == k);
        lemma_map_of_at(t, j);
        lemma_map_of_at(s, j);
    }
    assert(map_of(t) =~= map_of(s).insert(u.id@, u));
}

/// Appending a user with a new id adds one record.
proof fn lemma_map_of_push(s: Seq<User>, u: User)
    requires
        distinct_ids(s),
        forall|i: int| 0 <= i < s.len() ==> (#[trigger] s[i]).id@ != u.id@,
    ensures
        distinct_ids(s.push(u)),
        map_of(s.push(u)) == map_of(s).insert(u.id@, u),
{
    let t = s.push(u);
    assert forall|a: int, b: int|
        0 <= a < t.len() && 0 <= b < t.len() && a != b implies (#[trigger] t[a]).id@
            != (#[trigger] t[b]).id@ by {
        if a < s.len() && b < s.len() {
            assert(s[a].id@ != s[b].id@);
        }
    }
    lemma_map_of_at(t, s.len() as int);
    assert forall|k: Seq<char>| #[trigger] map_of(t).contains_key(k) <==> map_of(s).insert(
        u.id@,
        u,
    ).contains_key(k) by {
        if map_of(t).contains_key(k) {
            let j = choose|j: int| 0 <= j < t.len() && (#[trigger] t[j]).id@ == k;
            if j < s.len() {
                assert(s[j].id@ == k);
            }
        }
        if map_of(s).contains_key(k) {
            let j = choose|j: int| 0 <= j < s.len() && (#[trigger] s[j]).id@ == k;
            assert(t[j].id@ == k);
        }
    }
    assert forall|k: Seq<char>| #[trigger] map_of(t).contains_key(k) && k != u.id@ implies map_of(
        t,
    )[k] == map_of(s)[k] by {
        let j = choose|j: int| 0 <= j < t.len() && (#[trigger] t[j]).id@ == k;
        assert(j < s.len());
        assert(s[j].id@ == k);
        lemma_map_of_at(t, j);
        lemma_map_of_at(s, j);
    }
    assert(map_of(t) =~= map_of(s).insert(u.id@, u));
}

/// A backend that keeps every record in memory, one entry per id.
pub struct InMemoryUserRepository {
    entries: Vec<User>,
}

impl InMemoryUserRepository {
    /// The id-to-user mapping held.
    pub closed spec fn view(&self) -> Map<Seq<char>, User> {
        map_of(self.entries@)
    }

    /// An empty repository.
    pub fn new() -> (r: Self)
        ensures
            r.wf(),
            r.records() == Map::<Seq<char>, User>::empty(),
    {
        let r = InMemoryUserRepository { entries: Vec::new() };
        assert(map_of(r.entries@) =~= Map::<Seq<char>, User>::empty());
        r
    }

    /// The index of the entry with id `id`, if any.
    fn position(&self, id: &String) -> (r: Option<usize>)
        requires
            self.wf(),
        ensures
            r matches Some(i) ==> i < self.entries@.len() && self.entries@[i as int].id@ == id@,
            r is None ==> forall|i: int|
                0 <= i < self.entries@.len() ==> (#[trigger] self.entries@[i]).id@ != id@,
    {
        let mut i: usize = 0;
        while i < self.entries.len()
            invariant
                i <= self.entries@.len(),
                forall|j: int| 0 <= j < i ==> (#[trigger] self.entries@[j]).id@ != id@,
            decreases self.entries@.len() - i,
        {
            if self.entries[i].id == *id {
                return Some(i);
            }
            i = i + 1;
        }
        None
    }
}

impl UserRepository for InMemoryUserRepository {
    closed spec fn wf(&self) -> bool {
        distinct_ids(self.entries@)
    }

    open spec fn infallible(&self) -> bool {
        true
    }

    open spec fn records(&self) -> Map<Seq<char>, User> {
        self.view()
    }

    fn save(&mut self, user: User) -> (r: Result<(), DomainError>)
        ensures
            r is Ok,
    {
        match self.position(&user.id) {
            Some(i) => {
                proof {
                    lemma_map_of_update(self.entries@, i as int, user);
                }
                self.entries.set(i, user);
            },
            None => {
                proof {
                    lemma_map_of_push(self.entries@, user);
                }
                self.entries.push(user);
            },
        }
        Ok(())
    }

    fn get(&self, id: &String) -> (r: Result<User, DomainError>)
        ensures
            r == lookup(self.records(), id@),
    {
        match self.position(id) {
            Some(i) => {
                proof {
                    lemma_map_of_at(self.entries@, i as int);
                }
                Ok(self.entries[i].duplicate())
            },
            None => Err(DomainError::NotFound),
        }
    }
}

} // verus!
