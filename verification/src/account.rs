//! One client's balances, and what each kind of transaction does to them.

use crate::amount::{Amount, MANTISSA_LIMIT, MAX_SCALE};
use crate::decimal::{decimal_rescale, rescaled_decimal, rounded};
use vstd::prelude::*;

verus! {

/// One client's account. `total` is `available + held`; a locked account
/// takes no deposit and no withdrawal.
#[derive(Clone, Copy, Debug)]
pub struct Account {
    pub client: u16,
    pub available: Amount,
    pub held: Amount,
    pub total: Amount,
    pub locked: bool,
}

/// An account as numbers: each balance in units of `10^-28`.
pub struct Balances {
    pub client: u16,
    pub available: int,
    pub held: int,
    pub total: int,
    pub locked: bool,
}

/// What an accepted transaction does to the account it reaches.
#[derive(Clone, Copy, Debug)]
pub enum Effect {
    /// A deposit: the amount is added to `available` and to `total`.
    Credit(Amount),
    /// A withdrawal: the amount is taken from `available` and from `total`.
    Debit(Amount),
    /// A dispute of a deposit: its amount moves from `available` to `held`.
    Hold(Amount),
    /// A resolve of a disputed deposit: its amount moves back from `held` to
    /// `available`.
    Release(Amount),
    /// A chargeback of a disputed deposit: its amount is taken from `held`
    /// and from `total`, and the account is locked.
    Forfeit(Amount),
    /// A dispute or a chargeback of a withdrawal: the account is locked.
    Lock,
    /// A resolve of a disputed withdrawal: the account is unlocked.
    Unlock,
}

impl View for Account {
    type V = Balances;

    open spec fn view(&self) -> Balances {
        Balances {
            client: self.client,
            available: self.available@,
            held: self.held@,
            total: self.total@,
            locked: self.locked,
        }
    }
}

impl Effect {
    /// The amount that the effect moves, if any, is well formed.
    pub open spec fn wf(self) -> bool {
        match self {
            Effect::Credit(a) => a.wf(),
            Effect::Debit(a) => a.wf(),
            Effect::Hold(a) => a.wf(),
            Effect::Release(a) => a.wf(),
            Effect::Forfeit(a) => a.wf(),
            Effect::Lock => true,
            Effect::Unlock => true,
        }
    }
}

impl Balances {
    /// The balances after `effect`.
    pub open spec fn after(self, effect: Effect) -> Balances {
        match effect {
            Effect::Credit(a) => Balances {
                available: self.available + a@,
                total: self.total + a@,
                ..self
            },
            Effect::Debit(a) => Balances {
                available: self.available - a@,
                total: self.total - a@,
                ..self
            },
            Effect::Hold(a) => Balances {
                available: self.available - a@,
                held: self.held + a@,
                ..self
            },
            Effect::Release(a) => Balances {
                available: self.available + a@,
                held: self.held - a@,
                ..self
            },
            Effect::Forfeit(a) => Balances {
                held: self.held - a@,
                total: self.total - a@,
                locked: true,
                ..self
            },
            Effect::Lock => Balances { locked: true, ..self },
            Effect::Unlock => Balances { locked: false, ..self },
        }
    }
}

/// `r` is what rescaling leaves of `a`: the same number with up to `scale`
/// fractional digits where `a` has no more than that, and `a` rounded to
/// `scale` digits, a tie going away from zero, where it has more.
pub open spec fn rescales_to(a: Amount, scale: u32, r: Amount) -> bool {
    &&& (r.mantissa as int, r.scale as int) == rescaled_decimal(
        a.mantissa as int,
        a.scale as int,
        scale as int,
    )
    &&& r.wf()
    &&& a.scale <= scale ==> a.scale <= r.scale <= scale && r@ == a@
    &&& a.scale <= scale && -MANTISSA_LIMIT < a.aligned(scale) < MANTISSA_LIMIT ==> r.scale
        == scale
    &&& a.scale > scale ==> r.scale == scale && r.mantissa == rounded(
        a.mantissa as int,
        (a.scale - scale) as nat,
    )
}

impl Account {
    /// The three balances are well formed, and `total` is `available + held`.
    pub open spec fn wf(self) -> bool {
        &&& self.available.wf()
        &&& self.held.wf()
        &&& self.total.wf()
        &&& self.total@ == self.available@ + self.held@
    }

    /// The account of a client that has not been seen yet.
    pub open spec fn fresh(client: u16) -> Account {
        Account {
            client,
            available: Amount { mantissa: 0, scale: 1 },
            held: Amount { mantissa: 0, scale: 1 },
            total: Amount { mantissa: 0, scale: 1 },
            locked: false,
        }
    }

    /// The account after `effect`, or `None` where a balance that the effect
    /// changes cannot be given exactly.
    pub open spec fn after(self, effect: Effect) -> Option<Account> {
        match effect {
            Effect::Credit(a) => match (self.available.plus(a), self.total.plus(a)) {
                (Some(available), Some(total)) => Some(Account { available, total, ..self }),
                _ => None,
            },
            Effect::Debit(a) => match (self.available.minus(a), self.total.minus(a)) {
                (Some(available), Some(total)) => Some(Account { available, total, ..self }),
                _ => None,
            },
            Effect::Hold(a) => match (self.available.minus(a), self.held.plus(a)) {
                (Some(available), Some(held)) => Some(Account { available, held, ..self }),
                _ => None,
            },
            Effect::Release(a) => match (self.available.plus(a), self.held.minus(a)) {
                (Some(available), Some(held)) => Some(Account { available, held, ..self }),
                _ => None,
            },
            Effect::Forfeit(a) => match (self.held.minus(a), self.total.minus(a)) {
                (Some(held), Some(total)) => Some(Account { held, total, locked: true, ..self }),
                _ => None,
            },
            Effect::Lock => Some(Account { locked: true, ..self }),
            Effect::Unlock => Some(Account { locked: false, ..self }),
        }
    }

    /// An unlocked account for `id` with nothing in it.
    pub fn new(id: u16) -> (r: Account)
        ensures
            r == Account::fresh(id),
            r.wf(),
            r@ == (Balances { client: id, available: 0, held: 0, total: 0, locked: false }),
    {
        Account {
            client: id,
            available: Amount::zero(),
            held: Amount::zero(),
            total: Amount::zero(),
            locked: false,
        }
    }

    /// The account after `effect`, or `None` where a balance that the effect
    /// changes cannot be given exactly.
    pub fn applied(&self, effect: Effect) -> (r: Option<Account>)
        requires
            self.wf(),
            effect.wf(),
        ensures
            r == self.after(effect),
            r matches Some(next) ==> next.wf() && next@ == self@.after(effect),
    {
        match effect {
            Effect::Credit(a) => match (self.available.checked_add(a), self.total.checked_add(a)) {
                (Some(available), Some(total)) => Some(
                    Account {
                        client: self.client,
                        available,
                        held: self.held,
                        total,
                        locked: self.locked,
                    },
                ),
                _ => None,
            },
            Effect::Debit(a) => match (self.available.checked_sub(a), self.total.checked_sub(a)) {
                (Some(available), Some(total)) => Some(
                    Account {
                        client: self.client,
                        available,
                        held: self.held,
                        total,
                        locked: self.locked,
                    },
                ),
                _ => None,
            },
            Effect::Hold(a) => match (self.available.checked_sub(a), self.held.checked_add(a)) {
                (Some(available), Some(held)) => Some(
                    Account {
                        client: self.client,
                        available,
                        held,
                        total: self.total,
                        locked: self.locked,
                    },
                ),
                _ => None,
            },
            Effect::Release(a) => match (self.available.checked_add(a), self.held.checked_sub(a)) {
                (Some(available), Some(held)) => Some(
                    Account {
                        client: self.client,
                        available,
                        held,
                        total: self.total,
                        locked: self.locked,
                    },
                ),
                _ => None,
            },
            Effect::Forfeit(a) => match (self.held.checked_sub(a), self.total.checked_sub(a)) {
                (Some(held), Some(total)) => Some(
                    Account {
                        client: self.client,
                        available: self.available,
                        held,
                        total,
                        locked: true,
                    },
                ),
                _ => None,
            },
            Effect::Lock => Some(
                Account {
                    client: self.client,
                    available: self.available,
                    held: self.held,
                    total: self.total,
                    locked: true,
                },
            ),
            Effect::Unlock => Some(
                Account {
                    client: self.client,
                    available: self.available,
                    held: self.held,
                    total: self.total,
                    locked: false,
                },
            ),
        }
    }

    /// Writes the three balances with `scale` fractional digits, for a
    /// uniform report. A balance with more digits is rounded, so `total` need
    /// no longer be the sum of the other two.
    pub fn rescale(&mut self, scale: u32)
        requires
            old(self).available.wf(),
            old(self).held.wf(),
            old(self).total.wf(),
            scale <= MAX_SCALE,
        ensures
            final(self).client == old(self).client,
            final(self).locked == old(self).locked,
            rescales_to(old(self).available, scale, final(self).available),
            rescales_to(old(self).held, scale, final(self).held),
            rescales_to(old(self).total, scale, final(self).total),
    {
        self.available = decimal_rescale(self.available, scale);
        self.held = decimal_rescale(self.held, scale);
        self.total = decimal_rescale(self.total, scale);
    }
}

} // verus!
