//! Tenant context: the identity tuple threaded through every operation.

use vstd::prelude::*;

verus! {

/// Identity scope attached to every envelope and secret key: environment and
/// tenant identifiers, with optional team and user identifiers. Each present
/// identifier is a non-empty string; the context is immutable once built.
#[derive(Debug, PartialEq, Eq)]
pub struct TenantCtx {
    pub env: String,
    pub tenant: String,
    pub team: Option<String>,
    pub user: Option<String>,
}

impl TenantCtx {
    /// Every identifier present is non-empty.
    pub open spec fn wf(&self) -> bool {
        &&& self.env@.len() > 0
        &&& self.tenant@.len() > 0
        &&& (self.team matches Some(t) ==> t@.len() > 0)
        &&& (self.user matches Some(u) ==> u@.len() > 0)
    }

    /// Builds a context from environment and tenant identifiers; rejects an
    /// empty identifier.
    pub fn new(env: String, tenant: String) -> (r: Option<TenantCtx>)
        ensures
            match r {
                Some(c) => ({
                    &&& env@.len() > 0
                    &&& tenant@.len() > 0
                    &&& c == (TenantCtx { env, tenant, team: None, user: None })
                    &&& c.wf()
                }),
                None => env@.len() == 0 || tenant@.len() == 0,
            },
    {
        if env.as_str().unicode_len() == 0 || tenant.as_str().unicode_len() == 0 {
            None
        } else {
            Some(TenantCtx { env, tenant, team: None, user: None })
        }
    }

    /// Replaces the team identifier.
    pub fn with_team(self, team: Option<String>) -> (r: TenantCtx)
        requires
            team matches Some(t) ==> t@.len() > 0,
        ensures
            r == (TenantCtx { team, ..self }),
            self.wf() ==> r.wf(),
    {
        TenantCtx { team, ..self }
    }

    /// Replaces the user identifier.
    pub fn with_user(self, user: Option<String>) -> (r: TenantCtx)
        requires
            user matches Some(u) ==> u@.len() > 0,
        ensures
            r == (TenantCtx { user, ..self }),
            self.wf() ==> r.wf(),
    {
        TenantCtx { user, ..self }
    }

    /// A copy of this context, equal to it.
    pub fn clone_ctx(&self) -> (r: TenantCtx)
        ensures
            r == *self,
    {
        TenantCtx {
            env: self.env.clone(),
            tenant: self.tenant.clone(),
            team: match &self.team {
                Some(t) => Some(t.clone()),
                None => None,
            },
            user: match &self.user {
                Some(u) => Some(u.clone()),
                None => None,
            },
        }
    }
}

} // verus!
