use vstd::prelude::*;

use crate::errors::VaultError;
use crate::state::CustodyAuthority;

verus! {

/// What the external transfer capability does on a pair of balances: moves
/// `amount` from the first to the second, or refuses without effect when
/// the payer's balance is short or the receiver's would overflow.
pub open spec fn transfer_spec(from: u64, to: u64, amount: u64) -> Option<(u64, u64)> {
    if amount <= from && to + amount <= u64::MAX {
        Some(((from - amount) as u64, (to + amount) as u64))
    } else {
        None
    }
}

/// Move `amount` from one balance to another, all or nothing.
pub fn transfer(from: &mut u64, to: &mut u64, amount: u64) -> (r: Result<(), VaultError>)
    ensures
        match transfer_spec(*old(from), *old(to), amount) {
            Some(p) => r is Ok && *final(from) == p.0 && *final(to) == p.1,
            None => {
                &&& r == Err::<(), VaultError>(VaultError::TransferFailed)
                &&& *final(from) == *old(from)
                &&& *final(to) == *old(to)
            },
        },
        *final(from) + *final(to) == *old(from) + *old(to),
{
    if amount > *from {
        return Err(VaultError::TransferFailed);
    }
    if amount > u64::MAX - *to {
        return Err(VaultError::TransferFailed);
    }
    *from = *from - amount;
    *to = *to + amount;
    Ok(())
}

/// A vault's value-holding sub-account. Its address is derived from the
/// administrator's identity plus a disambiguation byte, and it has no
/// signing key: the only way to debit it is to present that same
/// derivation again as proof of authority.
#[derive(Clone, Copy, Debug, PartialEq, Eq, Structural)]
pub struct CustodySubAccount {
    /// The administrator identity the address was derived from.
    pub administrator: u64,
    /// The disambiguation byte recorded when the account was created.
    pub bump: u8,
    /// The pooled balance.
    pub balance: u64,
}

impl CustodySubAccount {
    /// Whether a presented derivation proof is the one this account was
    /// created under.
    pub open spec fn accepts_authority(self, authority: CustodyAuthority) -> bool {
        authority.administrator == self.administrator && authority.bump == self.bump
    }

    /// What a deposit does: credits the custody balance and debits the
    /// depositor's, or refuses without effect.
    pub open spec fn deposit_spec(self, wallet: u64, amount: u64) -> Option<(
        CustodySubAccount,
        u64,
    )> {
        match transfer_spec(wallet, self.balance, amount) {
            Some(p) => Some(
                (
                    CustodySubAccount {
                        administrator: self.administrator,
                        bump: self.bump,
                        balance: p.1,
                    },
                    p.0,
                ),
            ),
            None => None,
        }
    }

    /// Credit `amount` from the depositor's wallet into the custody pool.
    /// Depositing needs no reputation and no authorization beyond the
    /// depositor paying; it never tracks who contributed what.
    pub fn deposit(&mut self, depositor_wallet: &mut u64, amount: u64) -> (r: Result<
        (),
        VaultError,
    >)
        ensures
            match old(self).deposit_spec(*old(depositor_wallet), amount) {
                Some(p) => r is Ok && *final(self) == p.0 && *final(depositor_wallet) == p.1,
                None => {
                    &&& r == Err::<(), VaultError>(VaultError::TransferFailed)
                    &&& *final(self) == *old(self)
                    &&& *final(depositor_wallet) == *old(depositor_wallet)
                },
            },
            final(self).administrator == old(self).administrator,
            final(self).bump == old(self).bump,
            final(self).balance + *final(depositor_wallet) == old(self).balance + *old(
                depositor_wallet,
            ),
    {
        let mut pool = self.balance;
        let r = transfer(depositor_wallet, &mut pool, amount);
        self.balance = pool;
        r
    }

    /// Debit `amount` from the custody pool into the recipient's wallet.
    /// The store rejects the debit unless the presented derivation proof
    /// is the one the account was created under; on any refusal nothing
    /// moves.
    pub fn pay_out(
        &mut self,
        authority: CustodyAuthority,
        recipient_wallet: &mut u64,
        amount: u64,
    ) -> (r: Result<(), VaultError>)
        ensures
            !old(self).accepts_authority(authority) ==> {
                &&& r == Err::<(), VaultError>(VaultError::TransferFailed)
                &&& *final(self) == *old(self)
                &&& *final(recipient_wallet) == *old(recipient_wallet)
            },
            old(self).accepts_authority(authority) ==> match transfer_spec(
                old(self).balance,
                *old(recipient_wallet),
                amount,
            ) {
                Some(p) => {
                    &&& r is Ok
                    &&& final(self).balance == p.0
                    &&& *final(recipient_wallet) == p.1
                },
                None => {
                    &&& r == Err::<(), VaultError>(VaultError::TransferFailed)
                    &&& *final(self) == *old(self)
                    &&& *final(recipient_wallet) == *old(recipient_wallet)
                },
            },
            final(self).administrator == old(self).administrator,
            final(self).bump == old(self).bump,
            final(self).balance + *final(recipient_wallet) == old(self).balance + *old(
                recipient_wallet,
            ),
    {
        if !(authority.administrator == self.administrator && authority.bump == self.bump) {
            return Err(VaultError::TransferFailed);
        }
        let mut pool = self.balance;
        let r = transfer(&mut pool, recipient_wallet, amount);
        self.balance = pool;
        r
    }
}

} // verus!
