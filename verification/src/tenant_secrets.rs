//! Canonical secret-key naming under the tenant scope.

use vstd::prelude::*;
use vstd::string::StringExecFns;
use crate::tenant::TenantCtx;

verus! {

/// The canonical tenant string `<environment>/<tenant>/<team-or-underscore>`.
pub open spec fn tenant_key_view(t: TenantCtx) -> Seq<char> {
    t.env@ + "/"@ + t.tenant@ + "/"@ + (match t.team {
        Some(team) => team@,
        None => "_"@,
    })
}

/// Renders the canonical tenant string `<environment>/<tenant>/<team>`, with
/// an underscore standing for an absent team.
pub fn tenant_key(tenant: &TenantCtx) -> (r: String)
    ensures
        r@ == tenant_key_view(*tenant),
{
    let head = tenant.env.clone().concat("/").concat(tenant.tenant.as_str()).concat("/");
    match &tenant.team {
        Some(team) => head.concat(team.as_str()),
        None => head.concat("_"),
    }
}

/// The default secret key of a provider under the secrets convention:
/// `events/<provider>/<tenant-key>/credentials`.
pub open spec fn events_provider_secret_key_view(t: TenantCtx, provider_name: Seq<char>) -> Seq<
    char,
> {
    "events/"@ + provider_name + "/"@ + tenant_key_view(t) + "/credentials"@
}

/// Renders the default secret key of a provider for a tenant.
pub fn events_provider_secret_key(tenant: &TenantCtx, provider_name: &str) -> (r: String)
    ensures
        r@ == events_provider_secret_key_view(*tenant, provider_name@),
{
    String::from_str("events/").concat(provider_name).concat("/").concat(
        tenant_key(tenant).as_str(),
    ).concat("/credentials")
}

} // verus!
