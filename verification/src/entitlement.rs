//! The entitlement record and the rules that decide whether it may be used.

use vstd::prelude::*;

verus! {

/// A grant of quota to a buyer for a service, as the ledger records it.
#[derive(Debug, Clone)]
pub struct Entitlement {
    pub id: String,
    pub service_id: String,
    pub buyer: String,
    pub tier_id: u64,
    pub quota_requests: u64,
    pub quota_used: u64,
    pub purchased_at: u64,
    pub expires_at: u64,
    pub active: bool,
}

/// The mathematical value of an [`Entitlement`].
pub struct EntitlementView {
    pub id: Seq<char>,
    pub service_id: Seq<char>,
    pub buyer: Seq<char>,
    pub tier_id: u64,
    pub quota_requests: u64,
    pub quota_used: u64,
    pub purchased_at: u64,
    pub expires_at: u64,
    pub active: bool,
}

impl View for Entitlement {
    type V = EntitlementView;

    open spec fn view(&self) -> EntitlementView {
        EntitlementView {
            id: self.id@,
            service_id: self.service_id@,
            buyer: self.buyer@,
            tier_id: self.tier_id,
            quota_requests: self.quota_requests,
            quota_used: self.quota_used,
            purchased_at: self.purchased_at,
            expires_at: self.expires_at,
            active: self.active,
        }
    }
}

impl EntitlementView {
    /// The record keeps the ledger's invariants: no more is used than was
    /// granted, and the grant ends after it began.
    pub open spec fn well_formed(self) -> bool {
        &&& self.quota_used <= self.quota_requests
        &&& self.expires_at > self.purchased_at
    }

    /// Usable at `now`: flagged active, and not yet expired.
    pub open spec fn usable_at(self, now: int) -> bool {
        self.active && now < self.expires_at
    }

    /// `amount` more units fit in the quota.
    pub open spec fn fits(self, amount: int) -> bool {
        self.quota_used + amount <= self.quota_requests
    }

    /// What is left of the quota once `amount` more units are used.
    pub open spec fn remaining_after(self, amount: int) -> int {
        self.quota_requests - self.quota_used - amount
    }

    /// The record after `amount` units were consumed: the use is counted and
    /// an exhausted quota switches the record off.
    pub open spec fn consumed(self, amount: int) -> EntitlementView
        recommends
            self.fits(amount),
            amount >= 0,
    {
        EntitlementView {
            quota_used: (self.quota_used + amount) as u64,
            active: self.active && self.quota_used + amount < self.quota_requests,
            ..self
        }
    }
}

impl Entitlement {
    /// A copy of the record.
    pub fn duplicate(&self) -> (copy: Entitlement)
        ensures
            copy@ == self@,
    {
        Entitlement {
            id: self.id.clone(),
            service_id: self.service_id.clone(),
            buyer: self.buyer.clone(),
            tier_id: self.tier_id,
            quota_requests: self.quota_requests,
            quota_used: self.quota_used,
            purchased_at: self.purchased_at,
            expires_at: self.expires_at,
            active: self.active,
        }
    }

    /// Whether the record may be used at `now` (unix seconds).
    pub fn is_usable(&self, now: u64) -> (usable: bool)
        ensures
            usable == self@.usable_at(now as int),
    {
        self.active && now < self.expires_at
    }

    /// The quota check of a consumption: what would be left after `amount`
    /// more units, or `None` where they do not fit.
    pub fn remaining_after(&self, amount: u64) -> (left: Option<u64>)
        ensures
            left == if self@.fits(amount as int) {
                Some(self@.remaining_after(amount as int) as u64)
            } else {
                None::<u64>
            },
    {
        match self.quota_used.checked_add(amount) {
            Some(used) => if used > self.quota_requests {
                None
            } else {
                Some(self.quota_requests - used)
            },
            None => None,
        }
    }

    /// Counts `amount` units as used, and switches the record off where that
    /// exhausts the quota.
    pub fn consume(&mut self, amount: u64)
        requires
            old(self)@.fits(amount as int),
        ensures
            final(self)@ == old(self)@.consumed(amount as int),
    {
        self.quota_used = self.quota_used + amount;
        if self.quota_used >= self.quota_requests {
            self.active = false;
        }
    }
}

/// A consumed record has used exactly `amount` more, never more than was
/// granted, and is usable afterwards only while quota is left.
pub proof fn lemma_consumed_keeps_quota(e: EntitlementView, amount: int, now: int)
    requires
        e.fits(amount),
        amount >= 0,
    ensures
        e.consumed(amount).quota_used == e.quota_used + amount,
        e.consumed(amount).quota_used <= e.quota_requests,
        e.well_formed() ==> e.consumed(amount).well_formed(),
        e.consumed(amount).usable_at(now) ==> e.usable_at(now) && e.remaining_after(amount) > 0,
{
}

} // verus!
