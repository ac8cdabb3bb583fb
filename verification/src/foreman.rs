//! The Foreman `/api/hosts` response shape, and the pieces of the host
//! query that do not talk to the network.
//!
//! The Foreman API documentation gives no formal structure for hosts; the
//! structures below follow real responses and may need revision.
use vstd::prelude::*;

use crate::text::concat3;

verus! {

pub struct ForemanApiProxy {
    pub id: i64,
    pub name: Option<String>,
    pub url: Option<String>,
}

pub struct ForemanApiSortBy {
    pub by: Option<String>,
    pub order: Option<String>,
}

pub struct ForemanApiHost {
    pub architecture_id: Option<i64>,
    pub architecture_name: Option<String>,
    pub build: bool,
    pub capabilities: Vec<String>,
    pub certname: Option<String>,
    pub comment: Option<String>,
    pub compute_profile_id: Option<i64>,
    pub compute_profile_name: Option<String>,
    pub compute_resource_id: Option<i64>,
    pub compute_resource_name: Option<String>,
    pub created_at: Option<String>,
    pub disk: Option<String>,
    pub domain_id: Option<i64>,
    pub domain_name: Option<String>,
    pub enabled: bool,
    pub environment_id: Option<i64>,
    pub environment_name: Option<String>,
    pub global_status: i64,
    pub global_status_label: Option<String>,
    pub hostgroup_id: Option<i64>,
    pub hostgroup_name: Option<String>,
    pub hostgroup_title: Option<String>,
    pub id: i64,
    pub image_file: String,
    pub image_id: Option<i64>,
    pub image_name: Option<String>,
    pub installed_at: Option<String>,
    pub ip6: Option<String>,
    pub ip: Option<String>,
    pub last_compile: Option<String>,
    pub last_report: Option<String>,
    pub location_id: Option<i64>,
    pub location_name: Option<String>,
    pub mac: Option<String>,
    pub managed: bool,
    pub medium_id: Option<i64>,
    pub medium_name: Option<String>,
    pub model_id: Option<i64>,
    pub model_name: Option<String>,
    pub name: String,
    pub operatingsystem_id: Option<i64>,
    pub operatingsystem_name: Option<String>,
    pub organization_id: Option<i64>,
    pub organization_name: Option<String>,
    pub owner_id: i64,
    pub owner_name: String,
    pub owner_type: String,
    pub provision_method: Option<String>,
    pub ptable_id: Option<i64>,
    pub ptable_name: Option<String>,
    pub puppet_ca_proxy: Option<ForemanApiProxy>,
    pub puppet_ca_proxy_id: Option<i64>,
    pub puppet_ca_proxy_name: Option<String>,
    pub puppet_proxy: Option<ForemanApiProxy>,
    pub puppet_proxy_id: Option<i64>,
    pub puppet_proxy_name: Option<String>,
    pub puppet_status: i64,
    pub pxe_loader: Option<String>,
    pub realm_id: Option<i64>,
    pub realm_name: Option<String>,
    pub registration_token: Option<String>,
    pub sp_ip: Option<String>,
    pub sp_mac: Option<String>,
    pub sp_name: Option<String>,
    pub sp_subnet_id: Option<i64>,
    pub subnet6_id: Option<i64>,
    pub subnet6_name: Option<String>,
    pub subnet_id: Option<i64>,
    pub subnet_name: Option<String>,
    pub updated_at: Option<String>,
    pub uptime_seconds: Option<String>,
    pub use_image: Option<String>,
    pub uuid: Option<String>,
}

pub struct ForemanApiPage<R> {
    pub page: i64,
    pub per_page: i64,
    pub search: Option<String>,
    pub results: Vec<R>,
    pub sort: ForemanApiSortBy,
    pub subtotal: i64,
    pub total: i64,
}

/// The address of the host search: `{base}/api/hosts?search={search}`.
pub open spec fn hosts_url_spec(base: Seq<char>, search: Seq<char>) -> Seq<char> {
    base + "/api/hosts?search="@ + search
}

/// The URL that the host list is fetched from; the search expression is
/// put in as given.
pub fn hosts_url(foreman_url: &str, search: &str) -> (url: String)
    ensures
        url@ == hosts_url_spec(foreman_url@, search@),
        url@ == foreman_url@ + "/api/hosts?search="@ + search@,
{
    concat3(foreman_url, "/api/hosts?search=", search)
}

/// The host-search URL starts with the base URL and ends with the search
/// expression, whole and unchanged, with `/api/hosts?search=` between them.
pub proof fn lemma_hosts_url_keeps_base_and_search(base: Seq<char>, search: Seq<char>)
    ensures
        hosts_url_spec(base, search).len() == base.len() + 18 + search.len(),
        hosts_url_spec(base, search).take(base.len() as int) == base,
        hosts_url_spec(base, search).skip(base.len() + 18int) == search,
        hosts_url_spec(base, search).subrange(base.len() as int, base.len() + 18int)
            == "/api/hosts?search="@,
{
    reveal_strlit("/api/hosts?search=");
    let u = hosts_url_spec(base, search);
    assert(u.take(base.len() as int) =~= base);
    assert(u.skip(base.len() + 18int) =~= search);
    assert(u.subrange(base.len() as int, base.len() + 18int) =~= "/api/hosts?search="@);
}

/// The names of the hosts on a result page, in the order of the page.
pub fn host_names(page: &ForemanApiPage<ForemanApiHost>) -> (names: Vec<String>)
    ensures
        names@.len() == page.results@.len(),
        forall|i: int| 0 <= i < names@.len() ==> #[trigger] names@[i] == page.results@[i].name,
{
    let mut names: Vec<String> = Vec::new();
    let n = page.results.len();
    let mut i: usize = 0;
    while i < n
        invariant
            n == page.results@.len(),
            i <= n,
            names@.len() == i,
            forall|j: int| 0 <= j < i ==> #[trigger] names@[j] == page.results@[j].name,
        decreases n - i,
    {
        names.push(page.results[i].name.clone());
        i = i + 1;
    }
    names
}

} // verus!
