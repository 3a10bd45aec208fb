use vstd::prelude::*;

use crate::errors::VaultError;
use crate::state::Reputation;
use crate::state::ReputationVaultState;

verus! {

/// The reputation record stored for `user`, if any: the first record in
/// the sequence whose holder matches.
pub open spec fn find_reputation(s: Seq<Reputation>, user: u64) -> Option<Reputation>
    decreases s.len(),
{
    if s.len() == 0 {
        None
    } else if s[0].user == user {
        Some(s[0])
    } else {
        find_reputation(s.skip(1), user)
    }
}

/// Scanning past a match-free prefix does not change what is found.
pub proof fn lemma_find_reputation_skip(s: Seq<Reputation>, user: u64, i: int)
    requires
        0 <= i <= s.len(),
        forall|j: int| 0 <= j < i ==> s[j].user != user,
    ensures
        find_reputation(s, user) == find_reputation(s.skip(i), user),
    decreases i,
{
    if i == 0 {
        assert(s.skip(0) =~= s);
    } else {
        assert forall|j: int| 0 <= j < i - 1 implies s.skip(1)[j].user != user by {
            assert(s.skip(1)[j] == s[j + 1]);
        }
        lemma_find_reputation_skip(s.skip(1), user, i - 1);
        assert(s.skip(1).skip(i - 1) =~= s.skip(i));
    }
}

/// What a find result means index by index: a hit is a stored record with
/// the looked-up holder, and a miss means no stored record has it.
pub proof fn lemma_find_reputation_characterizes(s: Seq<Reputation>, user: u64)
    ensures
        match find_reputation(s, user) {
            Some(v) => v.user == user && exists|i: int| 0 <= i < s.len() && s[i] == v,
            None => forall|i: int| 0 <= i < s.len() ==> s[i].user != user,
        },
    decreases s.len(),
{
    if s.len() > 0 && s[0].user != user {
        lemma_find_reputation_characterizes(s.skip(1), user);
        match find_reputation(s, user) {
            Some(v) => {
                let i = choose|i: int| 0 <= i < s.skip(1).len() && s.skip(1)[i] == v;
                assert(s[i + 1] == v);
            },
            None => {
                assert forall|i: int| 0 <= i < s.len() implies s[i].user != user by {
                    if i > 0 {
                        assert(s.skip(1)[i - 1] == s[i]);
                    }
                }
            },
        }
    }
}

/// Replacing a record leaves every other holder's find result unchanged.
pub proof fn lemma_find_reputation_update_other(s: Seq<Reputation>, i: int, e: Reputation, u: u64)
    requires
        0 <= i < s.len(),
        s[i].user != u,
        e.user != u,
    ensures
        find_reputation(s.update(i, e), u) == find_reputation(s, u),
    decreases s.len(),
{
    let t = s.update(i, e);
    if i == 0 {
        assert(t.skip(1) =~= s.skip(1));
    } else {
        assert(t[0] == s[0]);
        if s[0].user != u {
            assert(t.skip(1) =~= s.skip(1).update(i - 1, e));
            lemma_find_reputation_update_other(s.skip(1), i - 1, e, u);
        }
    }
}

/// The ledger of reputation records: one per user, created by the user with
/// a zero score, raised only on a vault administrator's authority.
pub struct ReputationLedger {
    records: Vec<Reputation>,
}

impl View for ReputationLedger {
    type V = Seq<Reputation>;

    closed spec fn view(&self) -> Seq<Reputation> {
        self.records@
    }
}

impl ReputationLedger {
    /// No two stored records share a holder.
    pub open spec fn wf(self) -> bool {
        forall|i: int, j: int| 0 <= i < j < self@.len() ==> self@[i].user != self@[j].user
    }

    /// An empty ledger.
    pub fn new() -> (r: ReputationLedger)
        ensures
            r@ == Seq::<Reputation>::empty(),
            r.wf(),
    {
        ReputationLedger { records: Vec::new() }
    }

    /// Index of the record for `user`, if one is stored.
    fn position_of(&self, user: u64) -> (r: Option<usize>)
        ensures
            match r {
                Some(i) => {
                    &&& (i as int) < self@.len()
                    &&& self@[i as int].user == user
                    &&& find_reputation(self@, user) == Some(self@[i as int])
                    &&& forall|j: int| 0 <= j < i ==> self@[j].user != user
                },
                None => find_reputation(self@, user) is None,
            },
    {
        let mut i: usize = 0;
        while i < self.records.len()
            invariant
                i <= self.records.len(),
                forall|j: int| 0 <= j < i ==> self@[j].user != user,
            decreases self.records.len() - i,
        {
            if self.records[i].user == user {
                proof {
                    lemma_find_reputation_skip(self@, user, i as int);
                    assert(self@.skip(i as int)[0] == self@[i as int]);
                }
                return Some(i);
            }
            i += 1;
        }
        proof {
            lemma_find_reputation_skip(self@, user, self@.len() as int);
        }
        None
    }

    /// Create the reputation record for `user` with a zero score;
    /// `AlreadyExists` if the user already has one, with the ledger left
    /// unchanged.
    pub fn create_reputation(&mut self, user: u64, bump: u8) -> (r: Result<Reputation, VaultError>)
        requires
            old(self).wf(),
        ensures
            final(self).wf(),
            find_reputation(old(self)@, user) is Some ==> {
                &&& r == Err::<Reputation, VaultError>(VaultError::AlreadyExists)
                &&& final(self)@ == old(self)@
            },
            find_reputation(old(self)@, user) is None ==> {
                let rec = (Reputation { user, score: 0, bump });
                &&& r == Ok::<Reputation, VaultError>(rec)
                &&& final(self)@ == seq![rec] + old(self)@
                &&& find_reputation(final(self)@, user) == Some(rec)
                &&& forall|u: u64|
                    u != user ==> find_reputation(final(self)@, u) == find_reputation(old(self)@, u)
            },
    {
        match self.position_of(user) {
            Some(_) => Err(VaultError::AlreadyExists),
            None => {
                let rec = Reputation { user, score: 0, bump };
                proof {
                    lemma_find_reputation_characterizes(self@, user);
                }
                self.records.insert(0, rec);
                proof {
                    assert(self@ =~= seq![rec] + old(self)@);
                    assert(self@.skip(1) =~= old(self)@);
                    assert forall|u: u64| u != user implies find_reputation(self@, u)
                        == find_reputation(old(self)@, u) by {
                        assert(find_reputation(self@, u) == find_reputation(self@.skip(1), u));
                    }
                }
                Ok(rec)
            },
        }
    }

    /// Look up the reputation record stored for `user`; `NotFound` if none
    /// was ever created.
    pub fn lookup_reputation(&self, user: u64) -> (r: Result<Reputation, VaultError>)
        ensures
            match find_reputation(self@, user) {
                Some(v) => r == Ok::<Reputation, VaultError>(v),
                None => r == Err::<Reputation, VaultError>(VaultError::NotFound),
            },
    {
        match self.position_of(user) {
            Some(i) => Ok(self.records[i]),
            None => Err(VaultError::NotFound),
        }
    }

    /// Raise `user`'s stored score by `points` on `caller`'s authority.
    /// Only the administrator of the presented vault may do so; the score
    /// is exactly additive and the rest of the ledger is untouched. On any
    /// failure the ledger is left unchanged.
    pub fn increase_reputation(
        &mut self,
        caller: u64,
        vault_state: &ReputationVaultState,
        user: u64,
        points: u64,
    ) -> (r: Result<Reputation, VaultError>)
        requires
            old(self).wf(),
        ensures
            final(self).wf(),
            caller != vault_state.owner ==> {
                &&& r == Err::<Reputation, VaultError>(VaultError::Unauthorized)
                &&& final(self)@ == old(self)@
            },
            caller == vault_state.owner && find_reputation(old(self)@, user) is None ==> {
                &&& r == Err::<Reputation, VaultError>(VaultError::NotFound)
                &&& final(self)@ == old(self)@
            },
            caller == vault_state.owner && find_reputation(old(self)@, user) is Some ==> {
                let before = find_reputation(old(self)@, user).unwrap();
                &&& before.score + points > u64::MAX ==> {
                    &&& r == Err::<Reputation, VaultError>(VaultError::Overflow)
                    &&& final(self)@ == old(self)@
                }
                &&& before.score + points <= u64::MAX ==> {
                    let after = (Reputation {
                        user: before.user,
                        score: (before.score + points) as u64,
                        bump: before.bump,
                    });
                    &&& r == Ok::<Reputation, VaultError>(after)
                    &&& find_reputation(final(self)@, user) == Some(after)
                    &&& final(self)@.len() == old(self)@.len()
                    &&& forall|u: u64|
                        u != user ==> find_reputation(final(self)@, u) == find_reputation(
                            old(self)@,
                            u,
                        )
                }
            },
    {
        if caller != vault_state.owner {
            return Err(VaultError::Unauthorized);
        }
        match self.position_of(user) {
            None => Err(VaultError::NotFound),
            Some(i) => {
                let mut rec = self.records[i];
                match crate::increase_reputation(caller, vault_state, &mut rec, points) {
                    Err(e) => Err(e),
                    Ok(()) => {
                        self.records[i] = rec;
                        proof {
                            let t = self@;
                            let s = old(self)@;
                            assert(t == s.update(i as int, rec));
                            lemma_find_reputation_skip(t, user, i as int);
                            assert(t.skip(i as int)[0] == t[i as int]);
                            assert forall|u: u64| u != user implies find_reputation(t, u)
                                == find_reputation(s, u) by {
                                lemma_find_reputation_update_other(s, i as int, rec, u);
                            }
                        }
                        Ok(rec)
                    },
                }
            },
        }
    }
}

} // verus!
