use vstd::prelude::*;

use crate::custody::CustodySubAccount;
use crate::errors::VaultError;
use crate::state::ReputationVaultState;

verus! {

/// The vault record stored for `administrator`, if any: the first record in
/// the sequence whose owner matches.
pub open spec fn find_vault(s: Seq<ReputationVaultState>, administrator: u64) -> Option<
    ReputationVaultState,
>
    decreases s.len(),
{
    if s.len() == 0 {
        None
    } else if s[0].owner == administrator {
        Some(s[0])
    } else {
        find_vault(s.skip(1), administrator)
    }
}

/// Scanning past a match-free prefix does not change what is found.
pub proof fn lemma_find_vault_skip(s: Seq<ReputationVaultState>, administrator: u64, i: int)
    requires
        0 <= i <= s.len(),
        forall|j: int| 0 <= j < i ==> s[j].owner != administrator,
    ensures
        find_vault(s, administrator) == find_vault(s.skip(i), administrator),
    decreases i,
{
    if i == 0 {
        assert(s.skip(0) =~= s);
    } else {
        assert forall|j: int| 0 <= j < i - 1 implies s.skip(1)[j].owner != administrator by {
            assert(s.skip(1)[j] == s[j + 1]);
        }
        lemma_find_vault_skip(s.skip(1), administrator, i - 1);
        assert(s.skip(1).skip(i - 1) =~= s.skip(i));
    }
}

/// What a find result means index by index: a hit is a stored record with
/// the looked-up owner, and a miss means no stored record has it.
pub proof fn lemma_find_vault_characterizes(s: Seq<ReputationVaultState>, administrator: u64)
    ensures
        match find_vault(s, administrator) {
            Some(v) => v.owner == administrator && exists|i: int| 0 <= i < s.len() && s[i] == v,
            None => forall|i: int| 0 <= i < s.len() ==> s[i].owner != administrator,
        },
    decreases s.len(),
{
    if s.len() > 0 && s[0].owner != administrator {
        lemma_find_vault_characterizes(s.skip(1), administrator);
        match find_vault(s, administrator) {
            Some(v) => {
                let i = choose|i: int| 0 <= i < s.skip(1).len() && s.skip(1)[i] == v;
                assert(s[i + 1] == v);
            },
            None => {
                assert forall|i: int| 0 <= i < s.len() implies s[i].owner != administrator by {
                    if i > 0 {
                        assert(s.skip(1)[i - 1] == s[i]);
                    }
                }
            },
        }
    }
}

/// The registry of vaults: one record per administrator, created once and
/// never changed or deleted afterwards.
pub struct VaultRegistry {
    vaults: Vec<ReputationVaultState>,
}

impl View for VaultRegistry {
    type V = Seq<ReputationVaultState>;

    closed spec fn view(&self) -> Seq<ReputationVaultState> {
        self.vaults@
    }
}

impl VaultRegistry {
    /// No two stored records share an administrator.
    pub open spec fn wf(self) -> bool {
        forall|i: int, j: int| 0 <= i < j < self@.len() ==> self@[i].owner != self@[j].owner
    }

    /// An empty registry.
    pub fn new() -> (r: VaultRegistry)
        ensures
            r@ == Seq::<ReputationVaultState>::empty(),
            r.wf(),
    {
        VaultRegistry { vaults: Vec::new() }
    }

    /// Index of the record for `administrator`, if one is stored.
    fn position_of(&self, administrator: u64) -> (r: Option<usize>)
        ensures
            match r {
                Some(i) => {
                    &&& (i as int) < self@.len()
                    &&& self@[i as int].owner == administrator
                    &&& find_vault(self@, administrator) == Some(self@[i as int])
                    &&& forall|j: int| 0 <= j < i ==> self@[j].owner != administrator
                },
                None => find_vault(self@, administrator) is None,
            },
    {
        let mut i: usize = 0;
        while i < self.vaults.len()
            invariant
                i <= self.vaults.len(),
                forall|j: int| 0 <= j < i ==> self@[j].owner != administrator,
            decreases self.vaults.len() - i,
        {
            if self.vaults[i].owner == administrator {
                proof {
                    lemma_find_vault_skip(self@, administrator, i as int);
                    assert(self@.skip(i as int)[0] == self@[i as int]);
                }
                return Some(i);
            }
            i += 1;
        }
        proof {
            lemma_find_vault_skip(self@, administrator, self@.len() as int);
        }
        None
    }

    /// Look up the vault record stored for `administrator`; `NotFound` if
    /// none was ever created.
    pub fn lookup_vault(&self, administrator: u64) -> (r: Result<ReputationVaultState, VaultError>)
        ensures
            match find_vault(self@, administrator) {
                Some(v) => r == Ok::<ReputationVaultState, VaultError>(v),
                None => r == Err::<ReputationVaultState, VaultError>(VaultError::NotFound),
            },
    {
        match self.position_of(administrator) {
            Some(i) => Ok(self.vaults[i]),
            None => Err(VaultError::NotFound),
        }
    }

    /// Create the vault record for `administrator` together with its empty
    /// custody sub-account; `AlreadyExists` if the administrator already
    /// has one, with the registry left unchanged.
    pub fn create_vault(
        &mut self,
        administrator: u64,
        required_score: u64,
        state_bump: u8,
        vault_bump: u8,
    ) -> (r: Result<(ReputationVaultState, CustodySubAccount), VaultError>)
        requires
            old(self).wf(),
        ensures
            final(self).wf(),
            find_vault(old(self)@, administrator) is Some ==> {
                &&& r == Err::<(ReputationVaultState, CustodySubAccount), VaultError>(
                    VaultError::AlreadyExists,
                )
                &&& final(self)@ == old(self)@
            },
            find_vault(old(self)@, administrator) is None ==> {
                let v = (ReputationVaultState {
                    owner: administrator,
                    required_score,
                    state_bump,
                    vault_bump,
                });
                let c = (CustodySubAccount { administrator, bump: vault_bump, balance: 0 });
                &&& r == Ok::<(ReputationVaultState, CustodySubAccount), VaultError>((v, c))
                &&& final(self)@ == seq![v] + old(self)@
                &&& find_vault(final(self)@, administrator) == Some(v)
                &&& forall|a: u64|
                    a != administrator ==> find_vault(final(self)@, a) == find_vault(old(self)@, a)
            },
    {
        match self.position_of(administrator) {
            Some(_) => Err(VaultError::AlreadyExists),
            None => {
                let v = ReputationVaultState {
                    owner: administrator,
                    required_score,
                    state_bump,
                    vault_bump,
                };
                let c = CustodySubAccount { administrator, bump: vault_bump, balance: 0 };
                proof {
                    lemma_find_vault_characterizes(self@, administrator);
                }
                self.vaults.insert(0, v);
                proof {
                    assert(self@ =~= seq![v] + old(self)@);
                    assert(self@.skip(1) =~= old(self)@);
                    assert forall|a: u64| a != administrator implies find_vault(self@, a)
                        == find_vault(old(self)@, a) by {
                        assert(find_vault(self@, a) == find_vault(self@.skip(1), a));
                    }
                }
                Ok((v, c))
            },
        }
    }
}

} // verus!
