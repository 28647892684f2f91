//! A registry of audits per contract that reports only unexpired audits.
use vstd::prelude::*;
use crate::host::{Addr, Env, env_after};
use crate::table::Table;
use super::AuditRecord;

verus! {

/// The audit recorded per contract id.
pub struct SecureAuditRegistry {
    audits: Table<u64, AuditRecord>,
}

impl SecureAuditRegistry {
    pub closed spec fn audits(&self) -> Map<u64, AuditRecord> {
        self.audits@
    }

    /// The audit of `contract_id` that is in force at ledger `now`, if any.
    pub open spec fn active_at(&self, contract_id: u64, now: u32) -> Option<AuditRecord> {
        if self.audits().contains_key(contract_id) && now <= self.audits()[contract_id].expiry_ledger {
            Some(self.audits()[contract_id])
        } else {
            None
        }
    }

    /// A registry with no audits.
    pub fn new() -> (c: Self)
        ensures
            c.audits() == Map::<u64, AuditRecord>::empty(),
    {
        SecureAuditRegistry { audits: Table::new() }
    }

    /// Records an audit of `contract_id` by `auditor`, who must authorize,
    /// lapsing after `expiry_ledger`.
    pub fn submit_audit(&mut self, env: &mut Env, auditor: Addr, contract_id: u64, expiry_ledger: u32)
        ensures
            env_after(*old(env), *final(env), seq![auditor], seq![]),
            final(self).audits() == old(self).audits().insert(contract_id, AuditRecord { auditor, expiry_ledger }),
    {
        env.require_auth(auditor);
        self.audits.set(contract_id, AuditRecord { auditor, expiry_ledger });
    }

    /// The audit recorded for `contract_id`, unless it lapsed before the
    /// current ledger.
    pub fn get_active_audit(&self, env: &Env, contract_id: u64) -> (r: Option<AuditRecord>)
        ensures
            r == self.active_at(contract_id, env.sequence),
    {
        let record = match self.audits.get(&contract_id) {
            Some(a) => *a,
            None => {
                return None;
            },
        };
        if env.sequence > record.expiry_ledger {
            return None;
        }
        Some(record)
    }

    /// Whether an audit of `contract_id` is in force at the current ledger.
    pub fn is_active(&self, env: &Env, contract_id: u64) -> (r: bool)
        ensures
            r == self.active_at(contract_id, env.sequence) is Some,
    {
        self.get_active_audit(env, contract_id).is_some()
    }
}

} // verus!
