use crate::errors::DomainError;
use crate::model::User;
use crate::ports::{distinct_ids, lookup, saves};
use vstd::prelude::*;

verus! {

/// Reading an id that no save has written, starting from empty storage,
/// fails with `NotFound`, whatever else was saved.
pub proof fn get_before_save(users: Seq<User>, id: Seq<char>)
    requires
        forall|i: int| 0 <= i < users.len() ==> (#[trigger] users[i]).id@ != id,
    ensures
        lookup(saves(Map::empty(), users), id) == Err::<User, DomainError>(DomainError::NotFound),
    decreases users.len(),
{
    if users.len() > 0 {
        let init = users.drop_last();
        assert forall|i: int| 0 <= i < init.len() implies (#[trigger] init[i]).id@ != id by {
            assert(init[i] == users[i]);
        }
        get_before_save(init, id);
        assert(users.last() == users[users.len() - 1]);
    }
}

/// Of two saves under one id, the later one is what a read gives; saving
/// the same user twice leaves what saving it once does.
pub proof fn last_write_wins(records: Map<Seq<char>, User>, first: User, second: User)
    requires
        first.id@ == second.id@,
    ensures
        lookup(saves(records, seq![first, second]), second.id@) == Ok::<User, DomainError>(second),
        saves(records, seq![second, second]) == saves(records, seq![second]),
{
    let s = seq![first, second];
    assert(s.drop_last() =~= seq![first]);
    assert(seq![first].drop_last() =~= Seq::<User>::empty());
    assert(seq![second, second].drop_last() =~= seq![second]);
    assert(seq![second].drop_last() =~= Seq::<User>::empty());
    assert(saves(records, seq![second, second]) =~= saves(records, seq![second]));
}

/// Saves under distinct ids do not disturb one another: afterwards each id
/// reads back the user that was saved under it.
pub proof fn distinct_saves_kept(records: Map<Seq<char>, User>, users: Seq<User>)
    requires
        distinct_ids(users),
    ensures
        forall|i: int|
            0 <= i < users.len() ==> lookup(saves(records, users), (#[trigger] users[i]).id@)
                == Ok::<User, DomainError>(users[i]),
    decreases users.len(),
{
    if users.len() > 0 {
        let init = users.drop_last();
        let n = users.len() - 1;
        assert forall|a: int, b: int|
            0 <= a < init.len() && 0 <= b < init.len() && a != b implies (#[trigger] init[a]).id@
                != (#[trigger] init[b]).id@ by {
            assert(users[a].id@ != users[b].id@);
        }
        distinct_saves_kept(records, init);
        assert forall|i: int| 0 <= i < users.len() implies lookup(
            saves(records, users),
            (#[trigger] users[i]).id@,
        ) == Ok::<User, DomainError>(users[i]) by {
            if i < n {
                assert(init[i] == users[i]);
                assert(users[i].id@ != users[n].id@);
            }
        }
    }
}

} // verus!
