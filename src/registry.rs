use crate::error::LedgerError;
use crate::friend::Friend;
use crate::money::{fits_i128, Money};
use vstd::prelude::*;

verus! {

pub open spec fn has_id(s: Seq<Friend>, id: u128) -> bool {
    exists|i: int| 0 <= i < s.len() && s[i].id == id
}

pub open spec fn ids_unique(s: Seq<Friend>) -> bool {
    forall|i: int, j: int|
        0 <= i < s.len() && 0 <= j < s.len() && s[i].id == s[j].id ==> i == j
}

/// Where the friend with this id stands, if there is one.
pub open spec fn index_of(s: Seq<Friend>, id: u128) -> int {
    choose|i: int| 0 <= i < s.len() && s[i].id == id
}

pub proof fn lemma_index_of(s: Seq<Friend>, id: u128, i: int)
    requires
        ids_unique(s),
        0 <= i < s.len(),
        s[i].id == id,
    ensures
        index_of(s, id) == i,
{
    assert(has_id(s, id));
}

/// The friends after adding `f`: appended when its id is new, else unchanged.
pub open spec fn added(s: Seq<Friend>, f: Friend) -> Seq<Friend> {
    if has_id(s, f.id) {
        s
    } else {
        s.push(f)
    }
}

/// The friends, in the order they were added, with no id twice.
pub struct FriendRegistry {
    friends: Vec<Friend>,
}

impl View for FriendRegistry {
    type V = Seq<Friend>;

    closed spec fn view(&self) -> Seq<Friend> {
        self.friends@
    }
}

impl FriendRegistry {
    pub open spec fn wf(&self) -> bool {
        ids_unique(self@)
    }

    pub fn new() -> (r: FriendRegistry)
        ensures
            r@ == Seq::<Friend>::empty(),
            r.wf(),
    {
        FriendRegistry { friends: Vec::new() }
    }

    pub fn len(&self) -> (r: usize)
        ensures
            r == self@.len(),
    {
        self.friends.len()
    }

    /// Where the friend with this id stands.
    pub fn position(&self, id: u128) -> (r: Option<usize>)
        requires
            self.wf(),
        ensures
            r is None <==> !has_id(self@, id),
            r matches Some(i) ==> i < self@.len() && self@[i as int].id == id,
    {
        let mut i: usize = 0;
        while i < self.friends.len()
            invariant
                i <= self.friends@.len(),
                forall|j: int| 0 <= j < i ==> self.friends@[j].id != id,
            decreases self.friends@.len() - i,
        {
            if self.friends[i].id == id {
                return Some(i);
            }
            i = i + 1;
        }
        None
    }

    pub fn find(&self, id: u128) -> (r: Option<&Friend>)
        requires
            self.wf(),
        ensures
            r is None <==> !has_id(self@, id),
            r matches Some(f) ==> f.id == id && self@.contains(*f),
    {
        match self.position(id) {
            Some(i) => Some(&self.friends[i]),
            None => None,
        }
    }

    /// All friends, in the order they were added.
    pub fn list(&self) -> (r: &Vec<Friend>)
        ensures
            r@ == self@,
    {
        &self.friends
    }

    /// Appends a friend whose id is not yet registered.
    pub fn add(&mut self, friend: Friend) -> (r: Result<(), LedgerError>)
        requires
            old(self).wf(),
        ensures
            final(self).wf(),
            r is Ok <==> !has_id(old(self)@, friend.id),
            r matches Err(e) ==> e == LedgerError::DuplicateId,
            final(self)@ == added(old(self)@, friend),
    {
        if self.position(friend.id).is_some() {
            return Err(LedgerError::DuplicateId);
        }
        self.friends.push(friend);
        Ok(())
    }

    /// Removes the friend with this id, if there is one.
    pub fn remove(&mut self, id: u128)
        requires
            old(self).wf(),
        ensures
            final(self).wf(),
            !has_id(final(self)@, id),
            !has_id(old(self)@, id) ==> final(self)@ == old(self)@,
            has_id(old(self)@, id) ==> exists|i: int|
                0 <= i < old(self)@.len() && old(self)@[i].id == id && final(self)@ == old(
                    self,
                )@.remove(i),
    {
        match self.position(id) {
            Some(i) => {
                self.friends.remove(i);
                assert(final(self)@ == old(self)@.remove(i as int));
            },
            None => {},
        }
    }

    /// Adds `delta` to the balance of the friend with this id.
    pub fn apply_delta(&mut self, id: u128, delta: Money) -> (r: Result<(), LedgerError>)
        requires
            old(self).wf(),
        ensures
            final(self).wf(),
            r == delta_result(old(self)@, id, delta@),
            r is Err ==> final(self)@ == old(self)@,
            r is Ok ==> balance_added(old(self)@, final(self)@, index_of(old(self)@, id), delta@),
    {
        match self.position(id) {
            None => Err(LedgerError::NotFound),
            Some(i) => {
                match self.friends[i].balance.checked_add(&delta) {
                    None => {
                        proof {
                            lemma_index_of(old(self)@, id, i as int);
                        }
                        Err(LedgerError::BalanceOverflow)
                    },
                    Some(b) => {
                        let mut f = self.friends.remove(i);
                        f.balance = b;
                        self.friends.insert(i, f);
                        proof {
                            lemma_index_of(old(self)@, id, i as int);
                            assert(balance_added(old(self)@, self@, i as int, delta@));
                        }
                        Ok(())
                    },
                }
            },
        }
    }
}

/// The friends after adding each of `fs` in turn.
pub open spec fn added_all(s: Seq<Friend>, fs: Seq<Friend>) -> Seq<Friend>
    decreases fs.len(),
{
    if fs.len() == 0 {
        s
    } else {
        added(added_all(s, fs.drop_last()), fs.last())
    }
}

/// Adding friends with pairwise distinct ids and zero balances, one after the
/// other, to an empty registry leaves exactly those friends, in that order: as
/// many as were added, each with a zero balance, and no id twice.
pub proof fn lemma_add_distinct_friends(fs: Seq<Friend>)
    requires
        ids_unique(fs),
        forall|i: int| 0 <= i < fs.len() ==> fs[i].balance@ == 0,
    ensures
        added_all(Seq::<Friend>::empty(), fs) == fs,
        added_all(Seq::<Friend>::empty(), fs).len() == fs.len(),
        ids_unique(added_all(Seq::<Friend>::empty(), fs)),
        forall|i: int|
            0 <= i < fs.len() ==> (#[trigger] added_all(Seq::<Friend>::empty(), fs)[i]).balance@
                == 0,
    decreases fs.len(),
{
    if fs.len() > 0 {
        let init = fs.drop_last();
        assert(ids_unique(init));
        lemma_add_distinct_friends(init);
        if has_id(init, fs.last().id) {
            let j = choose|j: int| 0 <= j < init.len() && init[j].id == fs.last().id;
            assert(fs[j].id == fs[fs.len() - 1].id);
        }
        assert(init.push(fs.last()) == fs);
    }
}

/// What adding `delta` to the balance of the friend with this id gives.
pub open spec fn delta_result(s: Seq<Friend>, id: u128, delta: int) -> Result<(), LedgerError> {
    if !has_id(s, id) {
        Err(LedgerError::NotFound)
    } else if !fits_i128(s[index_of(s, id)].balance@ + delta) {
        Err(LedgerError::BalanceOverflow)
    } else {
        Ok(())
    }
}

/// `t` is `s` with `delta` added to the balance of the friend at `i`.
pub open spec fn balance_added(s: Seq<Friend>, t: Seq<Friend>, i: int, delta: int) -> bool {
    &&& t.len() == s.len()
    &&& forall|j: int| 0 <= j < s.len() && j != i ==> t[j] == s[j]
    &&& t[i].id == s[i].id
    &&& t[i].name == s[i].name
    &&& t[i].image == s[i].image
    &&& t[i].balance@ == s[i].balance@ + delta
}

} // verus!
