//! A registry of audits per contract, read without regard to expiry.
use vstd::prelude::*;
use crate::host::{Addr, Env, env_after};
use crate::table::Table;

pub mod secure;

verus! {

/// Who audited a contract and the ledger after which the audit lapses.
#[derive(Clone, Copy, Debug, PartialEq, Eq, Structural)]
pub struct AuditRecord {
    pub auditor: Addr,
    pub expiry_ledger: u32,
}

/// The audit recorded per contract id.
pub struct VulnerableAuditRegistry {
    audits: Table<u64, AuditRecord>,
}

impl VulnerableAuditRegistry {
    pub closed spec fn audits(&self) -> Map<u64, AuditRecord> {
        self.audits@
    }

    /// A registry with no audits.
    pub fn new() -> (c: Self)
        ensures
            c.audits() == Map::<u64, AuditRecord>::empty(),
    {
        VulnerableAuditRegistry { audits: Table::new() }
    }

    /// Records an audit of `contract_id` by `auditor`, who must authorize,
    /// lapsing after `expiry_ledger`.
    pub fn submit_audit(&mut self, env: &mut Env, auditor: Addr, contract_id: u64, expiry_ledger: u32)
        ensures
            env_after(*old(env), *final(env), seq![auditor], seq![]),
            final(self).audits() == old(self).audits().insert(contract_id, AuditRecord { auditor, expiry_ledger }),
    {
        env.require_auth(auditor);
        self.audits.set(contract_id, AuditRecord { auditor, expiry_ledger });
    }

    /// The audit recorded for `contract_id`, lapsed or not.
    pub fn get_active_audit(&self, contract_id: u64) -> (r: Option<AuditRecord>)
        ensures
            r == (if self.audits().contains_key(contract_id) {
                Some(self.audits()[contract_id])
            } else {
                None::<AuditRecord>
            }),
    {
        match self.audits.get(&contract_id) {
            Some(a) => Some(*a),
            None => None,
        }
    }

    /// Whether an audit is recorded for `contract_id`.
    pub fn is_active(&self, contract_id: u64) -> (r: bool)
        ensures
            r == self.audits().contains_key(contract_id),
    {
        self.get_active_audit(contract_id).is_some()
    }
}

} // verus!
