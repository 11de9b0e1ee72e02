//! The migration orchestrator's decision logic.
//!
//! Five ordered phases map a source hierarchy onto a destination hierarchy
//! by name, create what is missing, and build the source-to-destination id
//! mapping every later phase consumes.  The surrounding application fetches
//! the lists and performs the creation calls; each phase's matching,
//! payload assembly and mapping updates are the verified functions here.
//! A failed creation yields a zero or missing id and leaves the mapping
//! untouched, so dependent entities of later phases are skipped rather
//! than misdirected.

use crate::idmap::{IdMap, IdNameMap, NameMap, NamePairMap};
use crate::models::access_group::AccessGroup;
use crate::models::customer::{spec_site_parent, Customer, Site};
use crate::api::soap_client::UserAddInfo;
use crate::models::properties::OrgProperty;
use crate::models::user::User;
use crate::models::user_role::{PermissionLookup, UserRole};
use crate::trusted::{lower_of, lowercase};
use vstd::prelude::*;

verus! {

/// Which phases a migration run covers.
#[derive(Debug, Clone)]
pub struct MigrationOptions {
    /// Phase one: customers and sites.
    pub customers: bool,
    /// Phase two: user roles.
    pub user_roles: bool,
    /// Phase three: access groups.
    pub access_groups: bool,
    /// Phase four: users.
    pub users: bool,
    /// Phase five: org unit custom properties.
    pub org_properties: bool,
}

/// The orchestrator's working state: six source-to-destination tables plus
/// the unifying org unit table, created empty at migration start and
/// populated phase by phase.
#[derive(Debug, Clone)]
pub struct IdMapping {
    /// Source customer id to destination customer id.
    pub customers: IdMap,
    /// Source site id to destination site id.
    pub sites: IdMap,
    /// Source role id to destination role id.
    pub roles: IdMap,
    /// Source access group id to destination access group id.
    pub access_groups: IdMap,
    /// Lowercased role name to destination role id; users are mapped to
    /// roles by name, since numeric role ids are not stable across
    /// systems.
    pub role_names: NameMap,
    /// Lowercased login name to destination user id.
    pub user_logins: NameMap,
    /// Source org unit id to destination org unit id, covering service
    /// orgs, customers and sites alike.
    pub org_units: IdMap,
}

impl IdMapping {
    /// Every table is well formed.
    pub open spec fn wf(self) -> bool {
        &&& self.customers.wf()
        &&& self.sites.wf()
        &&& self.roles.wf()
        &&& self.access_groups.wf()
        &&& self.role_names.wf()
        &&& self.user_logins.wf()
        &&& self.org_units.wf()
    }

    /// An empty mapping.
    pub fn new() -> (r: Self)
        ensures
            r.wf(),
            r.customers.as_map() == Map::<i64, i64>::empty(),
            r.sites.as_map() == Map::<i64, i64>::empty(),
            r.roles.as_map() == Map::<i64, i64>::empty(),
            r.access_groups.as_map() == Map::<i64, i64>::empty(),
            r.role_names.as_map() == Map::<Seq<char>, i64>::empty(),
            r.user_logins.as_map() == Map::<Seq<char>, i64>::empty(),
            r.org_units.as_map() == Map::<i64, i64>::empty(),
    {
        IdMapping {
            customers: IdMap::new(),
            sites: IdMap::new(),
            roles: IdMap::new(),
            access_groups: IdMap::new(),
            role_names: NameMap::new(),
            user_logins: NameMap::new(),
            org_units: IdMap::new(),
        }
    }
}

// ---------------------------------------------------------------------------
// Phase one: customers and sites
// ---------------------------------------------------------------------------

/// The destination customer index: lowercased name to customer id, later
/// entries overwriting earlier ones.
pub open spec fn spec_customer_index(cs: Seq<Customer>) -> Map<Seq<char>, i64>
    decreases cs.len(),
{
    if cs.len() == 0 {
        Map::empty()
    } else {
        spec_customer_index(cs.drop_last()).insert(
            lower_of(cs.last().customer_name@),
            cs.last().customer_id,
        )
    }
}

/// Builds the destination customer index by lowercased name.
pub fn build_customer_name_index(dest: &Vec<Customer>) -> (r: NameMap)
    ensures
        r.wf(),
        r.as_map() == spec_customer_index(dest@),
{
    let mut r = NameMap::new();
    let mut i: usize = 0;
    while i < dest.len()
        invariant
            i <= dest@.len(),
            r.wf(),
            r.as_map() == spec_customer_index(dest@.take(i as int)),
        decreases dest@.len() - i,
    {
        let low = lowercase(dest[i].customer_name.as_str());
        r.insert(low, dest[i].customer_id);
        proof {
            assert(dest@.take(i + 1).drop_last() =~= dest@.take(i as int));
            assert(dest@.take(i + 1).last() == dest@[i as int]);
        }
        i += 1;
    }
    assert(dest@.take(dest@.len() as int) =~= dest@);
    r
}

/// Every customer of the list is found in its own index.
pub proof fn lemma_customer_index_covers(cs: Seq<Customer>)
    ensures
        forall|i: int|
            0 <= i < cs.len() ==> spec_customer_index(cs).contains_key(
                lower_of((#[trigger] cs[i]).customer_name@),
            ),
    decreases cs.len(),
{
    if cs.len() > 0 {
        lemma_customer_index_covers(cs.drop_last());
        assert forall|i: int| 0 <= i < cs.len() implies spec_customer_index(cs).contains_key(
            lower_of((#[trigger] cs[i]).customer_name@),
        ) by {
            if i < cs.len() - 1 {
                assert(cs.drop_last()[i] == cs[i]);
            }
        }
    }
}

/// Whether a source customer matches a destination customer by lowercased
/// name.
pub open spec fn spec_customer_known(index: Map<Seq<char>, i64>, c: Customer) -> bool {
    index.contains_key(lower_of(c.customer_name@))
}

/// The creation payload for a customer.
#[derive(Debug, Clone)]
pub struct CustomerPayload {
    /// Display name.
    pub customer_name: String,
    /// Destination parent org unit.
    pub parent_id: i64,
    /// External reference.
    pub external_id: Option<String>,
    /// Contact first name.
    pub contact_first_name: Option<String>,
    /// Contact last name.
    pub contact_last_name: Option<String>,
    /// Contact email.
    pub contact_email: Option<String>,
}

/// What phase one does with one source customer.
#[derive(Debug, Clone)]
pub enum CustomerAction {
    /// A destination customer of the same name exists: map to it.
    Existing(i64),
    /// No destination customer matches: create one from this payload.
    Create(CustomerPayload),
}

/// Plans one source customer: map it when the destination already has its
/// name (case-insensitively), otherwise create it under the destination
/// service org, carrying the contact fields over.
pub fn plan_customer(c: &Customer, index: &NameMap, dest_so_id: i64) -> (r: CustomerAction)
    requires
        index.wf(),
    ensures
        spec_customer_known(index.as_map(), *c) ==> r == CustomerAction::Existing(
            index.as_map()[lower_of(c.customer_name@)],
        ),
        !spec_customer_known(index.as_map(), *c) ==> (r matches CustomerAction::Create(p) && p
            == (CustomerPayload {
            customer_name: c.customer_name,
            parent_id: dest_so_id,
            external_id: c.external_id,
            contact_first_name: c.contact_first_name,
            contact_last_name: c.contact_last_name,
            contact_email: c.contact_email,
        })),
{
    let low = lowercase(c.customer_name.as_str());
    match index.get(&low) {
        Some(id) => CustomerAction::Existing(id),
        None => CustomerAction::Create(
            CustomerPayload {
                customer_name: c.customer_name.clone(),
                parent_id: dest_so_id,
                external_id: c.external_id.clone(),
                contact_first_name: c.contact_first_name.clone(),
                contact_last_name: c.contact_last_name.clone(),
                contact_email: c.contact_email.clone(),
            },
        ),
    }
}

/// Records one customer result: a nonzero destination id enters the
/// customer and org unit tables; a zero id (a failed creation) changes
/// nothing, so later phases skip the customer's dependents.
pub fn record_customer_result(mapping: &mut IdMapping, source_id: i64, dest_id: i64)
    requires
        old(mapping).wf(),
    ensures
        final(mapping).wf(),
        dest_id != 0 ==> final(mapping).customers.as_map() == old(mapping).customers.as_map().insert(
            source_id,
            dest_id,
        ) && final(mapping).org_units.as_map() == old(mapping).org_units.as_map().insert(
            source_id,
            dest_id,
        ),
        dest_id == 0 ==> final(mapping).customers == old(mapping).customers
            && final(mapping).org_units == old(mapping).org_units,
        final(mapping).sites == old(mapping).sites,
        final(mapping).roles == old(mapping).roles,
        final(mapping).access_groups == old(mapping).access_groups,
        final(mapping).role_names == old(mapping).role_names,
        final(mapping).user_logins == old(mapping).user_logins,
{
    if dest_id != 0 {
        mapping.customers.insert(source_id, dest_id);
        mapping.org_units.insert(source_id, dest_id);
    }
}

/// Records the service org pair itself in the org unit table, so that
/// root-owned entities of later phases resolve to the destination service
/// org.
pub fn record_service_org(mapping: &mut IdMapping, source_so_id: i64, dest_so_id: i64)
    requires
        old(mapping).wf(),
    ensures
        final(mapping).wf(),
        final(mapping).org_units.as_map() == old(mapping).org_units.as_map().insert(
            source_so_id,
            dest_so_id,
        ),
        final(mapping).customers == old(mapping).customers,
        final(mapping).sites == old(mapping).sites,
        final(mapping).roles == old(mapping).roles,
        final(mapping).access_groups == old(mapping).access_groups,
        final(mapping).role_names == old(mapping).role_names,
        final(mapping).user_logins == old(mapping).user_logins,
{
    mapping.org_units.insert(source_so_id, dest_so_id);
}

/// Running the customer phase twice against the same destination creates
/// nothing the second time: once the destination list carries, for every
/// source customer, a customer of the same lowercased name — as it does
/// after a first run whose creations all landed — every plan is a match,
/// none a creation.
pub proof fn lemma_customer_phase_idempotent(source: Seq<Customer>, dest: Seq<Customer>)
    requires
        forall|i: int|
            0 <= i < source.len() ==> exists|j: int|
                0 <= j < dest.len() && lower_of((#[trigger] dest[j]).customer_name@) == lower_of(
                    (#[trigger] source[i]).customer_name@,
                ),
    ensures
        forall|i: int|
            0 <= i < source.len() ==> spec_customer_known(
                spec_customer_index(dest),
                #[trigger] source[i],
            ),
{
    lemma_customer_index_covers(dest);
    assert forall|i: int| 0 <= i < source.len() implies spec_customer_known(
        spec_customer_index(dest),
        #[trigger] source[i],
    ) by {
        let j = choose|j: int|
            0 <= j < dest.len() && lower_of((#[trigger] dest[j]).customer_name@) == lower_of(
                source[i].customer_name@,
            );
        assert(spec_customer_index(dest).contains_key(lower_of(dest[j].customer_name@)));
    }
}

// ---------------------------------------------------------------------------
// Sites
// ---------------------------------------------------------------------------

/// The first customer of the list with the given id, if any.
pub open spec fn spec_customer_by_id(cs: Seq<Customer>, id: i64) -> Option<Customer>
    decreases cs.len(),
{
    if cs.len() == 0 {
        None
    } else if cs[0].customer_id == id {
        Some(cs[0])
    } else {
        spec_customer_by_id(cs.skip(1), id)
    }
}

fn customer_by_id<'a>(cs: &'a Vec<Customer>, id: i64) -> (r: Option<&'a Customer>)
    ensures
        match r {
            Some(c) => spec_customer_by_id(cs@, id) == Some(*c),
            None => spec_customer_by_id(cs@, id) is None,
        },
{
    let ghost whole = cs@;
    assert(cs@.skip(0) =~= cs@);
    let mut i: usize = 0;
    while i < cs.len()
        invariant
            i <= cs@.len(),
            whole == cs@,
            spec_customer_by_id(whole, id) == spec_customer_by_id(cs@.skip(i as int), id),
        decreases cs@.len() - i,
    {
        assert(cs@.skip(i as int)[0] == cs@[i as int]);
        if cs[i].customer_id == id {
            return Some(&cs[i]);
        }
        assert(cs@.skip(i as int).skip(1) =~= cs@.skip(i + 1));
        i += 1;
    }
    assert(cs@.skip(i as int) =~= Seq::<Customer>::empty());
    None
}

/// The destination site lookup: each destination site whose parent link
/// resolves to a listed destination customer is keyed by the lowercased
/// (customer name, site name) pair.
pub open spec fn spec_site_lookup(sites: Seq<Site>, dest_customers: Seq<Customer>) -> Map<
    (Seq<char>, Seq<char>),
    i64,
>
    decreases sites.len(),
{
    if sites.len() == 0 {
        Map::empty()
    } else {
        let rest = spec_site_lookup(sites.drop_last(), dest_customers);
        let site = sites.last();
        match spec_site_parent(site) {
            None => rest,
            Some(pid) => match spec_customer_by_id(dest_customers, pid) {
                None => rest,
                Some(c) => rest.insert(
                    (lower_of(c.customer_name@), lower_of(site.site_name@)),
                    site.site_id,
                ),
            },
        }
    }
}

/// Builds the destination site lookup keyed by (customer name, site name).
/// Two genuinely distinct sites sharing a name under one customer collapse
/// to one entry; that is the documented matching behaviour.
pub fn build_site_lookup(dest_sites: &Vec<Site>, dest_customers: &Vec<Customer>) -> (r: NamePairMap)
    ensures
        r.wf(),
        r.as_map() == spec_site_lookup(dest_sites@, dest_customers@),
{
    let mut r = NamePairMap::new();
    let mut i: usize = 0;
    while i < dest_sites.len()
        invariant
            i <= dest_sites@.len(),
            r.wf(),
            r.as_map() == spec_site_lookup(dest_sites@.take(i as int), dest_customers@),
        decreases dest_sites@.len() - i,
    {
        let site = &dest_sites[i];
        match site.parent_link() {
            Some(pid) => {
                match customer_by_id(dest_customers, pid) {
                    Some(c) => {
                        let ck = lowercase(c.customer_name.as_str());
                        let sk = lowercase(site.site_name.as_str());
                        r.insert(ck, sk, site.site_id);
                    },
                    None => {},
                }
            },
            None => {},
        }
        proof {
            assert(dest_sites@.take(i + 1).drop_last() =~= dest_sites@.take(i as int));
            assert(dest_sites@.take(i + 1).last() == dest_sites@[i as int]);
        }
        i += 1;
    }
    assert(dest_sites@.take(dest_sites@.len() as int) =~= dest_sites@);
    r
}

/// The source customer names by id, for composing the site key.
pub open spec fn spec_customer_names(cs: Seq<Customer>) -> Map<i64, Seq<char>>
    decreases cs.len(),
{
    if cs.len() == 0 {
        Map::empty()
    } else {
        spec_customer_names(cs.drop_last()).insert(
            cs.last().customer_id,
            cs.last().customer_name@,
        )
    }
}

/// Builds the id-to-name table of the source customers.
pub fn build_customer_names(cs: &Vec<Customer>) -> (r: IdNameMap)
    ensures
        r.wf(),
        r.as_map() == spec_customer_names(cs@),
{
    let mut r = IdNameMap::new();
    let mut i: usize = 0;
    while i < cs.len()
        invariant
            i <= cs@.len(),
            r.wf(),
            r.as_map() == spec_customer_names(cs@.take(i as int)),
        decreases cs@.len() - i,
    {
        r.insert(cs[i].customer_id, cs[i].customer_name.clone());
        proof {
            assert(cs@.take(i + 1).drop_last() =~= cs@.take(i as int));
            assert(cs@.take(i + 1).last() == cs@[i as int]);
        }
        i += 1;
    }
    assert(cs@.take(cs@.len() as int) =~= cs@);
    r
}

/// The creation payload for a site.
#[derive(Debug, Clone)]
pub struct SitePayload {
    /// Display name.
    pub site_name: String,
    /// External reference.
    pub external_id: Option<String>,
    /// Contact first name.
    pub contact_first_name: Option<String>,
    /// Contact last name.
    pub contact_last_name: Option<String>,
    /// Contact email.
    pub contact_email: Option<String>,
    /// Contact phone.
    pub contact_phone: Option<String>,
    /// Street line one.
    pub street1: Option<String>,
    /// Street line two.
    pub street2: Option<String>,
    /// City.
    pub city: Option<String>,
    /// State or province.
    pub state_prov: Option<String>,
    /// Country.
    pub country: Option<String>,
    /// Postal code.
    pub postal_code: Option<String>,
}

/// What phase one does with one source site.
#[derive(Debug, Clone)]
pub enum SiteAction {
    /// A destination site under the same-named customer with the same name
    /// exists: map to it.
    Matched(i64),
    /// Create the site under this destination customer.
    Create {
        /// The mapped destination customer id.
        dest_customer_id: i64,
        /// The creation payload.
        payload: SitePayload,
    },
    /// The site carries no recognizable parent link.
    SkipNoParent,
    /// The parent id is not a known source customer.
    SkipUnknownParent,
    /// The parent customer was never mapped to the destination.
    SkipParentNotMapped,
}

/// The decision of [`plan_site`], over the mathematical tables.
pub open spec fn spec_site_decision(
    site: Site,
    cust_names: Map<i64, Seq<char>>,
    lookup: Map<(Seq<char>, Seq<char>), i64>,
    customers: Map<i64, i64>,
) -> SiteAction {
    match spec_site_parent(site) {
        None => SiteAction::SkipNoParent,
        Some(pid) => {
            if !cust_names.contains_key(pid) {
                SiteAction::SkipUnknownParent
            } else {
                let key = (lower_of(cust_names[pid]), lower_of(site.site_name@));
                if lookup.contains_key(key) {
                    SiteAction::Matched(lookup[key])
                } else if customers.contains_key(pid) {
                    SiteAction::Create {
                        dest_customer_id: customers[pid],
                        payload: SitePayload {
                            site_name: site.site_name,
                            external_id: site.external_id,
                            contact_first_name: site.contact_first_name,
                            contact_last_name: site.contact_last_name,
                            contact_email: site.contact_email,
                            contact_phone: site.contact_phone,
                            street1: site.street1,
                            street2: site.street2,
                            city: site.city,
                            state_prov: site.state_prov,
                            country: site.country,
                            postal_code: site.postal_code,
                        },
                    }
                } else {
                    SiteAction::SkipParentNotMapped
                }
            }
        },
    }
}

/// Plans one source site: resolve its parent through the known aliases,
/// match by the (customer name, site name) pair, else create it under the
/// mapped destination customer, else skip it with the reason.
pub fn plan_site(
    site: &Site,
    cust_names: &IdNameMap,
    lookup: &NamePairMap,
    mapping: &IdMapping,
) -> (r: SiteAction)
    requires
        cust_names.wf(),
        lookup.wf(),
        mapping.wf(),
    ensures
        r == spec_site_decision(
            *site,
            cust_names.as_map(),
            lookup.as_map(),
            mapping.customers.as_map(),
        ),
{
    match site.parent_link() {
        None => SiteAction::SkipNoParent,
        Some(pid) => {
            match cust_names.get(pid) {
                None => SiteAction::SkipUnknownParent,
                Some(name) => {
                    let ck = lowercase(name.as_str());
                    let sk = lowercase(site.site_name.as_str());
                    match lookup.get(&ck, &sk) {
                        Some(dest_site_id) => SiteAction::Matched(dest_site_id),
                        None => {
                            match mapping.customers.get(pid) {
                                Some(dest_cust_id) => SiteAction::Create {
                                    dest_customer_id: dest_cust_id,
                                    payload: SitePayload {
                                        site_name: site.site_name.clone(),
                                        external_id: site.external_id.clone(),
                                        contact_first_name: site.contact_first_name.clone(),
                                        contact_last_name: site.contact_last_name.clone(),
                                        contact_email: site.contact_email.clone(),
                                        contact_phone: site.contact_phone.clone(),
                                        street1: site.street1.clone(),
                                        street2: site.street2.clone(),
                                        city: site.city.clone(),
                                        state_prov: site.state_prov.clone(),
                                        country: site.country.clone(),
                                        postal_code: site.postal_code.clone(),
                                    },
                                },
                                None => SiteAction::SkipParentNotMapped,
                            }
                        },
                    }
                },
            }
        },
    }
}

/// Records a matched site in the site and org unit tables.
pub fn record_matched_site(mapping: &mut IdMapping, source_site_id: i64, dest_site_id: i64)
    requires
        old(mapping).wf(),
    ensures
        final(mapping).wf(),
        final(mapping).sites.as_map() == old(mapping).sites.as_map().insert(
            source_site_id,
            dest_site_id,
        ),
        final(mapping).org_units.as_map() == old(mapping).org_units.as_map().insert(
            source_site_id,
            dest_site_id,
        ),
        final(mapping).customers == old(mapping).customers,
        final(mapping).roles == old(mapping).roles,
        final(mapping).access_groups == old(mapping).access_groups,
        final(mapping).role_names == old(mapping).role_names,
        final(mapping).user_logins == old(mapping).user_logins,
{
    mapping.sites.insert(source_site_id, dest_site_id);
    mapping.org_units.insert(source_site_id, dest_site_id);
}

/// Records a site creation result: a nonzero id enters the tables, a zero
/// id (the server returned none) changes nothing.
pub fn record_created_site(mapping: &mut IdMapping, source_site_id: i64, dest_site_id: i64)
    requires
        old(mapping).wf(),
    ensures
        final(mapping).wf(),
        dest_site_id != 0 ==> final(mapping).sites.as_map() == old(mapping).sites.as_map().insert(
            source_site_id,
            dest_site_id,
        ) && final(mapping).org_units.as_map() == old(mapping).org_units.as_map().insert(
            source_site_id,
            dest_site_id,
        ),
        dest_site_id == 0 ==> final(mapping).sites == old(mapping).sites
            && final(mapping).org_units == old(mapping).org_units,
        final(mapping).customers == old(mapping).customers,
        final(mapping).roles == old(mapping).roles,
        final(mapping).access_groups == old(mapping).access_groups,
        final(mapping).role_names == old(mapping).role_names,
        final(mapping).user_logins == old(mapping).user_logins,
{
    if dest_site_id != 0 {
        mapping.sites.insert(source_site_id, dest_site_id);
        mapping.org_units.insert(source_site_id, dest_site_id);
    }
}

// ---------------------------------------------------------------------------
// Phase two: user roles
// ---------------------------------------------------------------------------

/// The destination role index: lowercased role name to role id; unnamed
/// roles are not indexed.
pub open spec fn spec_role_index(roles: Seq<UserRole>) -> Map<Seq<char>, i64>
    decreases roles.len(),
{
    if roles.len() == 0 {
        Map::empty()
    } else {
        let rest = spec_role_index(roles.drop_last());
        match roles.last().role_name {
            Some(name) => rest.insert(lower_of(name@), roles.last().role_id),
            None => rest,
        }
    }
}

/// Builds the destination role index by lowercased name.
pub fn build_role_name_index(dest_roles: &Vec<UserRole>) -> (r: NameMap)
    ensures
        r.wf(),
        r.as_map() == spec_role_index(dest_roles@),
{
    let mut r = NameMap::new();
    let mut i: usize = 0;
    while i < dest_roles.len()
        invariant
            i <= dest_roles@.len(),
            r.wf(),
            r.as_map() == spec_role_index(dest_roles@.take(i as int)),
        decreases dest_roles@.len() - i,
    {
        match &dest_roles[i].role_name {
            Some(name) => {
                let low = lowercase(name.as_str());
                r.insert(low, dest_roles[i].role_id);
            },
            None => {},
        }
        proof {
            assert(dest_roles@.take(i + 1).drop_last() =~= dest_roles@.take(i as int));
            assert(dest_roles@.take(i + 1).last() == dest_roles@[i as int]);
        }
        i += 1;
    }
    assert(dest_roles@.take(dest_roles@.len() as int) =~= dest_roles@);
    r
}

/// The name a role is handled under: its display name, or a fixed stand-in
/// when the server sent none.
pub open spec fn spec_role_name(r: UserRole) -> Seq<char> {
    match r.role_name {
        Some(n) => n@,
        None => "Unknown Role"@,
    }
}

/// The description a created role carries: the source description, or a
/// fixed stand-in.
pub open spec fn spec_role_desc(r: UserRole) -> Seq<char> {
    match r.role_description {
        Some(d) => d@,
        None => "Migrated role"@,
    }
}

/// The permission ids a created role gets: the translated source
/// permission names, or the single minimal view permission when the table
/// is empty or the source names are absent.
pub open spec fn spec_role_permission_ids(r: UserRole, perm: Map<Seq<char>, i64>) -> Seq<i64> {
    let perms = match r.extra {
        Some(e) => crate::models::user_role::str_views(e.permissions@),
        None => Seq::<Seq<char>>::empty(),
    };
    if perm != Map::<Seq<char>, i64>::empty() && perms.len() > 0 {
        crate::models::user_role::spec_names_to_ids(perm, perms)
    } else {
        seq![1701i64]
    }
}

/// The key a role is matched and recorded under.
pub fn role_key(role: &UserRole) -> (r: String)
    ensures
        r@ == lower_of(spec_role_name(*role)),
{
    match &role.role_name {
        Some(n) => lowercase(n.as_str()),
        None => lowercase("Unknown Role"),
    }
}

/// The creation payload for a role.
#[derive(Debug, Clone)]
pub struct RolePayload {
    /// Display name.
    pub role_name: String,
    /// Free-text description.
    pub description: String,
    /// Destination permission ids.
    pub permission_ids: Vec<i64>,
    /// Member user ids; a fresh role starts with none.
    pub user_ids: Vec<i64>,
}

/// What phase two does with one source role.
#[derive(Debug, Clone)]
pub enum RoleAction {
    /// A destination role of the same name exists: map to it.
    Existing(i64),
    /// Create the role from this payload.
    Create(RolePayload),
}

/// Plans one source role: map it when the destination has its name,
/// otherwise create it with the translated permission ids.
pub fn plan_role(role: &UserRole, index: &NameMap, perm_lookup: &PermissionLookup) -> (r:
    RoleAction)
    requires
        index.wf(),
        perm_lookup.wf(),
    ensures
        index.as_map().contains_key(lower_of(spec_role_name(*role))) ==> r == RoleAction::Existing(
            index.as_map()[lower_of(spec_role_name(*role))],
        ),
        !index.as_map().contains_key(lower_of(spec_role_name(*role))) ==> (r
            matches RoleAction::Create(p) && p.role_name@ == spec_role_name(*role)
            && p.description@ == spec_role_desc(*role) && p.permission_ids@
            == spec_role_permission_ids(*role, perm_lookup.as_map()) && p.user_ids@.len() == 0),
{
    let name: String = match &role.role_name {
        Some(n) => n.clone(),
        None => "Unknown Role".to_owned(),
    };
    let low = role_key(role);
    match index.get(&low) {
        Some(id) => RoleAction::Existing(id),
        None => {
            let perms = role.get_permissions();
            let permission_ids: Vec<i64> = if !perm_lookup.is_empty() && perms.len() > 0 {
                perm_lookup.names_to_ids(perms.as_slice())
            } else {
                let mut one: Vec<i64> = Vec::new();
                one.push(1701);
                assert(one@ =~= seq![1701i64]);
                one
            };
            let description: String = match &role.role_description {
                Some(d) => d.clone(),
                None => "Migrated role".to_owned(),
            };
            RoleAction::Create(
                RolePayload { role_name: name, description, permission_ids, user_ids: Vec::new() },
            )
        },
    }
}

/// Records a matched role under both the id table and the name bridge.
pub fn record_matched_role(mapping: &mut IdMapping, source_role_id: i64, key: String, dest_id: i64)
    requires
        old(mapping).wf(),
    ensures
        final(mapping).wf(),
        final(mapping).roles.as_map() == old(mapping).roles.as_map().insert(
            source_role_id,
            dest_id,
        ),
        final(mapping).role_names.as_map() == old(mapping).role_names.as_map().insert(
            key@,
            dest_id,
        ),
        final(mapping).customers == old(mapping).customers,
        final(mapping).sites == old(mapping).sites,
        final(mapping).access_groups == old(mapping).access_groups,
        final(mapping).user_logins == old(mapping).user_logins,
        final(mapping).org_units == old(mapping).org_units,
{
    mapping.roles.insert(source_role_id, dest_id);
    mapping.role_names.insert(key, dest_id);
}

/// Records a role creation result: a nonzero id enters both tables, a zero
/// id changes nothing.
pub fn record_created_role(mapping: &mut IdMapping, source_role_id: i64, key: String, dest_id: i64)
    requires
        old(mapping).wf(),
    ensures
        final(mapping).wf(),
        dest_id != 0 ==> final(mapping).roles.as_map() == old(mapping).roles.as_map().insert(
            source_role_id,
            dest_id,
        ) && final(mapping).role_names.as_map() == old(mapping).role_names.as_map().insert(
            key@,
            dest_id,
        ),
        dest_id == 0 ==> final(mapping).roles == old(mapping).roles
            && final(mapping).role_names == old(mapping).role_names,
        final(mapping).customers == old(mapping).customers,
        final(mapping).sites == old(mapping).sites,
        final(mapping).access_groups == old(mapping).access_groups,
        final(mapping).user_logins == old(mapping).user_logins,
        final(mapping).org_units == old(mapping).org_units,
{
    if dest_id != 0 {
        mapping.roles.insert(source_role_id, dest_id);
        mapping.role_names.insert(key, dest_id);
    }
}

// ---------------------------------------------------------------------------
// Phase three: access groups
// ---------------------------------------------------------------------------

/// The destination group index: lowercased group name to group id.
pub open spec fn spec_group_index(gs: Seq<AccessGroup>) -> Map<Seq<char>, i64>
    decreases gs.len(),
{
    if gs.len() == 0 {
        Map::empty()
    } else {
        let rest = spec_group_index(gs.drop_last());
        match gs.last().group_name {
            Some(name) => rest.insert(lower_of(name@), gs.last().group_id),
            None => rest,
        }
    }
}

/// Builds the destination group index by lowercased name.
pub fn build_group_name_index(dest_groups: &Vec<AccessGroup>) -> (r: NameMap)
    ensures
        r.wf(),
        r.as_map() == spec_group_index(dest_groups@),
{
    let mut r = NameMap::new();
    let mut i: usize = 0;
    while i < dest_groups.len()
        invariant
            i <= dest_groups@.len(),
            r.wf(),
            r.as_map() == spec_group_index(dest_groups@.take(i as int)),
        decreases dest_groups@.len() - i,
    {
        match &dest_groups[i].group_name {
            Some(name) => {
                let low = lowercase(name.as_str());
                r.insert(low, dest_groups[i].group_id);
            },
            None => {},
        }
        proof {
            assert(dest_groups@.take(i + 1).drop_last() =~= dest_groups@.take(i as int));
            assert(dest_groups@.take(i + 1).last() == dest_groups@[i as int]);
        }
        i += 1;
    }
    assert(dest_groups@.take(dest_groups@.len() as int) =~= dest_groups@);
    r
}

/// The name a group is handled under.
pub open spec fn spec_group_name(g: AccessGroup) -> Seq<char> {
    match g.group_name {
        Some(n) => n@,
        None => "Unknown Group"@,
    }
}

/// The kind label of a group; unlabelled groups count as org unit groups.
pub open spec fn spec_group_type(g: AccessGroup) -> Seq<char> {
    match g.group_type {
        Some(t) => t@,
        None => "ORG_UNIT"@,
    }
}

/// The decimal id texts of the destination customers, as an access group's
/// org unit membership list.
pub fn customer_id_strings(cs: &Vec<Customer>) -> (r: Vec<String>)
    ensures
        r@.len() == cs@.len(),
        forall|i: int|
            0 <= i < cs@.len() ==> (#[trigger] r@[i])@ == crate::text::spec_int_dec(
                cs@[i].customer_id as int,
            ),
{
    let mut r: Vec<String> = Vec::new();
    let mut i: usize = 0;
    while i < cs.len()
        invariant
            i <= cs@.len(),
            r@.len() == i,
            forall|j: int|
                0 <= j < i ==> (#[trigger] r@[j])@ == crate::text::spec_int_dec(
                    cs@[j].customer_id as int,
                ),
        decreases cs@.len() - i,
    {
        r.push(crate::text::i64_to_string(cs[i].customer_id));
        i += 1;
    }
    r
}

/// The decimal id texts of the destination users, as an access group's
/// user membership list.
pub fn user_id_strings(us: &Vec<User>) -> (r: Vec<String>)
    ensures
        r@.len() == us@.len(),
        forall|i: int|
            0 <= i < us@.len() ==> (#[trigger] r@[i])@ == crate::text::spec_int_dec(
                us@[i].user_id as int,
            ),
{
    let mut r: Vec<String> = Vec::new();
    let mut i: usize = 0;
    while i < us.len()
        invariant
            i <= us@.len(),
            r@.len() == i,
            forall|j: int|
                0 <= j < i ==> (#[trigger] r@[j])@ == crate::text::spec_int_dec(
                    us@[j].user_id as int,
                ),
        decreases us@.len() - i,
    {
        r.push(crate::text::i64_to_string(us[i].user_id));
        i += 1;
    }
    r
}

/// The creation payload for an access group.  The target's access-group
/// model takes the full membership lists, not incremental adds.
#[derive(Debug, Clone)]
pub struct GroupPayload {
    /// Display name.
    pub group_name: String,
    /// Free-text description.
    pub group_description: String,
    /// The full destination customer id list, as text.
    pub org_unit_ids: Vec<String>,
    /// The full destination user id list, as text.
    pub user_ids: Vec<String>,
    /// Whether new org units join the group automatically.
    pub auto_include_new_org_units: bool,
}

/// What phase three does with one source group.
#[derive(Debug, Clone)]
pub enum GroupAction {
    /// A destination group of the same name exists: map to it.
    Existing(i64),
    /// No destination customers exist yet, so no group can be created.
    SkipNoCustomers,
    /// Create the group from this payload, on the device or the org unit
    /// endpoint.
    Create {
        /// Whether the group targets devices rather than org units.
        device_type: bool,
        /// The creation payload.
        payload: GroupPayload,
    },
}

/// Plans one source group: map it when the destination has its name; a
/// creation needs at least one destination customer and dispatches by the
/// group's kind.
pub fn plan_access_group(
    group: &AccessGroup,
    index: &NameMap,
    dest_customer_ids: &Vec<String>,
    dest_user_ids: &Vec<String>,
) -> (r: GroupAction)
    requires
        index.wf(),
    ensures
        index.as_map().contains_key(lower_of(spec_group_name(*group))) ==> r
            == GroupAction::Existing(index.as_map()[lower_of(spec_group_name(*group))]),
        !index.as_map().contains_key(lower_of(spec_group_name(*group)))
            && dest_customer_ids@.len() == 0 ==> r == GroupAction::SkipNoCustomers,
        !index.as_map().contains_key(lower_of(spec_group_name(*group)))
            && dest_customer_ids@.len() > 0 ==> (r matches GroupAction::Create {
            device_type,
            payload,
        } && device_type == (spec_group_type(*group) == "DEVICE"@) && payload.group_name@
            == spec_group_name(*group) && payload.group_description@ == (
        match group.group_description {
            Some(d) => d@,
            None => Seq::<char>::empty(),
        }) && payload.org_unit_ids@ == dest_customer_ids@ && payload.user_ids@ == dest_user_ids@
            && payload.auto_include_new_org_units),
{
    let low: String = match &group.group_name {
        Some(n) => lowercase(n.as_str()),
        None => lowercase("Unknown Group"),
    };
    match index.get(&low) {
        Some(id) => GroupAction::Existing(id),
        None => {
            if dest_customer_ids.len() == 0 {
                GroupAction::SkipNoCustomers
            } else {
                let device_label: String = "DEVICE".to_owned();
                let device_type: bool = match &group.group_type {
                    Some(t) => *t == device_label,
                    None => {
                        proof {
                            reveal_strlit("ORG_UNIT");
                            reveal_strlit("DEVICE");
                            assert("ORG_UNIT"@.len() != "DEVICE"@.len());
                        }
                        false
                    },
                };
                let name: String = match &group.group_name {
                    Some(n) => n.clone(),
                    None => "Unknown Group".to_owned(),
                };
                let description: String = match &group.group_description {
                    Some(d) => d.clone(),
                    None => String::new(),
                };
                GroupAction::Create {
                    device_type,
                    payload: GroupPayload {
                        group_name: name,
                        group_description: description,
                        org_unit_ids: crate::text::clone_strings(dest_customer_ids),
                        user_ids: crate::text::clone_strings(dest_user_ids),
                        auto_include_new_org_units: true,
                    },
                }
            }
        },
    }
}

/// Records a matched group.
pub fn record_matched_group(mapping: &mut IdMapping, source_group_id: i64, dest_id: i64)
    requires
        old(mapping).wf(),
    ensures
        final(mapping).wf(),
        final(mapping).access_groups.as_map() == old(mapping).access_groups.as_map().insert(
            source_group_id,
            dest_id,
        ),
        final(mapping).customers == old(mapping).customers,
        final(mapping).sites == old(mapping).sites,
        final(mapping).roles == old(mapping).roles,
        final(mapping).role_names == old(mapping).role_names,
        final(mapping).user_logins == old(mapping).user_logins,
        final(mapping).org_units == old(mapping).org_units,
{
    mapping.access_groups.insert(source_group_id, dest_id);
}

/// Records a group creation result: a nonzero id enters the table, a zero
/// id changes nothing.
pub fn record_created_group(mapping: &mut IdMapping, source_group_id: i64, dest_id: i64)
    requires
        old(mapping).wf(),
    ensures
        final(mapping).wf(),
        dest_id != 0 ==> final(mapping).access_groups.as_map() == old(
            mapping,
        ).access_groups.as_map().insert(source_group_id, dest_id),
        dest_id == 0 ==> final(mapping).access_groups == old(mapping).access_groups,
        final(mapping).customers == old(mapping).customers,
        final(mapping).sites == old(mapping).sites,
        final(mapping).roles == old(mapping).roles,
        final(mapping).role_names == old(mapping).role_names,
        final(mapping).user_logins == old(mapping).user_logins,
        final(mapping).org_units == old(mapping).org_units,
{
    if dest_id != 0 {
        mapping.access_groups.insert(source_group_id, dest_id);
    }
}

// ---------------------------------------------------------------------------
// Phase four: users
// ---------------------------------------------------------------------------

/// The source role names by id, lowercased; unnamed roles are absent.
pub open spec fn spec_role_id_names(roles: Seq<UserRole>) -> Map<i64, Seq<char>>
    decreases roles.len(),
{
    if roles.len() == 0 {
        Map::empty()
    } else {
        let rest = spec_role_id_names(roles.drop_last());
        match roles.last().role_name {
            Some(name) => rest.insert(roles.last().role_id, lower_of(name@)),
            None => rest,
        }
    }
}

/// Builds the source role id-to-name table, lowercased.
pub fn build_role_id_names(source_roles: &Vec<UserRole>) -> (r: IdNameMap)
    ensures
        r.wf(),
        r.as_map() == spec_role_id_names(source_roles@),
{
    let mut r = IdNameMap::new();
    let mut i: usize = 0;
    while i < source_roles.len()
        invariant
            i <= source_roles@.len(),
            r.wf(),
            r.as_map() == spec_role_id_names(source_roles@.take(i as int)),
        decreases source_roles@.len() - i,
    {
        match &source_roles[i].role_name {
            Some(name) => {
                let low = lowercase(name.as_str());
                r.insert(source_roles[i].role_id, low);
            },
            None => {},
        }
        proof {
            assert(source_roles@.take(i + 1).drop_last() =~= source_roles@.take(i as int));
            assert(source_roles@.take(i + 1).last() == source_roles@[i as int]);
        }
        i += 1;
    }
    assert(source_roles@.take(source_roles@.len() as int) =~= source_roles@);
    r
}

/// When phase two was skipped, fills the role name bridge lazily from the
/// current destination roles; a bridge that already holds anything is left
/// alone.
pub fn ensure_role_names(mapping: &mut IdMapping, dest_roles: &Vec<UserRole>)
    requires
        old(mapping).wf(),
    ensures
        final(mapping).wf(),
        old(mapping).role_names.as_map() == Map::<Seq<char>, i64>::empty()
            ==> final(mapping).role_names.as_map() == spec_role_index(dest_roles@),
        old(mapping).role_names.as_map() != Map::<Seq<char>, i64>::empty()
            ==> final(mapping).role_names == old(mapping).role_names,
        final(mapping).customers == old(mapping).customers,
        final(mapping).sites == old(mapping).sites,
        final(mapping).roles == old(mapping).roles,
        final(mapping).access_groups == old(mapping).access_groups,
        final(mapping).user_logins == old(mapping).user_logins,
        final(mapping).org_units == old(mapping).org_units,
{
    if mapping.role_names.is_empty() {
        let fresh = build_role_name_index(dest_roles);
        mapping.role_names = fresh;
    }
}

/// The destination login index: lowercased login name to user id.
pub open spec fn spec_login_index(users: Seq<User>) -> Map<Seq<char>, i64>
    decreases users.len(),
{
    if users.len() == 0 {
        Map::empty()
    } else {
        spec_login_index(users.drop_last()).insert(
            lower_of(users.last().login_name@),
            users.last().user_id,
        )
    }
}

/// Builds the destination login index by lowercased login name.
pub fn build_login_index(dest_users: &Vec<User>) -> (r: NameMap)
    ensures
        r.wf(),
        r.as_map() == spec_login_index(dest_users@),
{
    let mut r = NameMap::new();
    let mut i: usize = 0;
    while i < dest_users.len()
        invariant
            i <= dest_users@.len(),
            r.wf(),
            r.as_map() == spec_login_index(dest_users@.take(i as int)),
        decreases dest_users@.len() - i,
    {
        let low = lowercase(dest_users[i].login_name.as_str());
        r.insert(low, dest_users[i].user_id);
        proof {
            assert(dest_users@.take(i + 1).drop_last() =~= dest_users@.take(i as int));
            assert(dest_users@.take(i + 1).last() == dest_users@[i as int]);
        }
        i += 1;
    }
    assert(dest_users@.take(dest_users@.len() as int) =~= dest_users@);
    r
}

/// The destination role ids for a source role id list: each id goes
/// through its source name to the destination role of that name; ids that
/// fail either step are dropped (and the user is created without them).
pub open spec fn spec_map_roles(
    ids: Seq<i64>,
    names: Map<i64, Seq<char>>,
    bridge: Map<Seq<char>, i64>,
) -> Seq<i64>
    decreases ids.len(),
{
    if ids.len() == 0 {
        Seq::empty()
    } else {
        let rest = spec_map_roles(ids.drop_last(), names, bridge);
        let id = ids.last();
        if names.contains_key(id) && bridge.contains_key(names[id]) {
            rest.push(bridge[names[id]])
        } else {
            rest
        }
    }
}

/// Translates source role ids to destination role ids through the name
/// bridge.
pub fn map_user_roles(ids: &Vec<i64>, names: &IdNameMap, bridge: &NameMap) -> (r: Vec<i64>)
    requires
        names.wf(),
        bridge.wf(),
    ensures
        r@ == spec_map_roles(ids@, names.as_map(), bridge.as_map()),
{
    let mut r: Vec<i64> = Vec::new();
    let mut i: usize = 0;
    while i < ids.len()
        invariant
            i <= ids@.len(),
            names.wf(),
            bridge.wf(),
            r@ == spec_map_roles(ids@.take(i as int), names.as_map(), bridge.as_map()),
        decreases ids@.len() - i,
    {
        match names.get(ids[i]) {
            Some(name) => {
                match bridge.get(name) {
                    Some(dest_id) => {
                        r.push(dest_id);
                    },
                    None => {},
                }
            },
            None => {},
        }
        proof {
            assert(ids@.take(i + 1).drop_last() =~= ids@.take(i as int));
            assert(ids@.take(i + 1).last() == ids@[i as int]);
        }
        i += 1;
    }
    assert(ids@.take(ids@.len() as int) =~= ids@);
    r
}

/// The destination customer a user is created under: the mapped org unit
/// of the user's source service org, else the destination service org
/// itself.
pub open spec fn spec_user_dest_customer(u: User, org_units: Map<i64, i64>, dest_so_id: i64) -> i64 {
    match u.service_org_id {
        Some(so) => if org_units.contains_key(so) {
            org_units[so]
        } else {
            dest_so_id
        },
        None => dest_so_id,
    }
}

/// What phase four does with one source user.
#[derive(Debug, Clone)]
pub enum UserAction {
    /// A destination user with this login already exists: leave it alone.
    SkipExists,
    /// Create the user through the SOAP client (the REST API offers no
    /// user creation).
    Create {
        /// The login name the account is created under.
        login_name: String,
        /// The creation data.
        info: UserAddInfo,
    },
}

/// The key a user is matched and recorded under.
pub fn login_key(user: &User) -> (r: String)
    ensures
        r@ == lower_of(user.login_name@),
{
    lowercase(user.login_name.as_str())
}

/// Plans one source user: skip it when its login already exists on the
/// destination; otherwise assemble the creation data, translating the
/// roles through the name bridge and resolving the parent customer through
/// the org unit table.
pub fn plan_user(
    user: &User,
    dest_logins: &NameMap,
    source_role_names: &IdNameMap,
    mapping: &IdMapping,
    dest_so_id: i64,
) -> (r: UserAction)
    requires
        dest_logins.wf(),
        source_role_names.wf(),
        mapping.wf(),
    ensures
        dest_logins.as_map().contains_key(lower_of(user.login_name@)) <==> r is SkipExists,
        r matches UserAction::Create { login_name, info } ==> (login_name == user.login_name
            && info.email == (match user.email {
            Some(e) => e,
            None => user.login_name,
        }) && info.first_name@ == (match user.first_name {
            Some(f) => f@,
            None => Seq::<char>::empty(),
        }) && info.last_name@ == (match user.last_name {
            Some(l) => l@,
            None => Seq::<char>::empty(),
        }) && info.phone is None && info.department is None && info.location is None
            && info.is_enabled && info.customer_id == spec_user_dest_customer(
            *user,
            mapping.org_units.as_map(),
            dest_so_id,
        ) && info.role_ids@ == spec_map_roles(
            user.role_ids@,
            source_role_names.as_map(),
            mapping.role_names.as_map(),
        ) && info.access_group_ids@.len() == 0),
{
    let low = login_key(user);
    if dest_logins.contains_key(&low) {
        UserAction::SkipExists
    } else {
        let mapped_roles = map_user_roles(&user.role_ids, source_role_names, &mapping.role_names);
        let dest_customer_id: i64 = match user.service_org_id {
            Some(so) => match mapping.org_units.get(so) {
                Some(mapped) => mapped,
                None => dest_so_id,
            },
            None => dest_so_id,
        };
        let email: String = match &user.email {
            Some(e) => e.clone(),
            None => user.login_name.clone(),
        };
        let first_name: String = match &user.first_name {
            Some(f) => f.clone(),
            None => String::new(),
        };
        let last_name: String = match &user.last_name {
            Some(l) => l.clone(),
            None => String::new(),
        };
        UserAction::Create {
            login_name: user.login_name.clone(),
            info: UserAddInfo {
                email,
                first_name,
                last_name,
                phone: None,
                department: None,
                location: None,
                is_enabled: true,
                customer_id: dest_customer_id,
                role_ids: mapped_roles,
                access_group_ids: Vec::new(),
            },
        }
    }
}

/// Records a user creation result: a positive id enters the login table
/// under the lowercased login; anything else leaves the user unmigrated
/// and the mapping untouched, so the failure stays attributable to this
/// login.
pub fn record_user_result(mapping: &mut IdMapping, login: String, dest_user_id: i64)
    requires
        old(mapping).wf(),
    ensures
        final(mapping).wf(),
        dest_user_id > 0 ==> final(mapping).user_logins.as_map()
            == old(mapping).user_logins.as_map().insert(login@, dest_user_id),
        dest_user_id <= 0 ==> final(mapping).user_logins == old(mapping).user_logins,
        final(mapping).customers == old(mapping).customers,
        final(mapping).sites == old(mapping).sites,
        final(mapping).roles == old(mapping).roles,
        final(mapping).access_groups == old(mapping).access_groups,
        final(mapping).role_names == old(mapping).role_names,
        final(mapping).org_units == old(mapping).org_units,
{
    if dest_user_id > 0 {
        mapping.user_logins.insert(login, dest_user_id);
    }
}

// ---------------------------------------------------------------------------
// Phase five: org unit custom properties
// ---------------------------------------------------------------------------

/// What phase five does with one source property.
#[derive(Debug, Clone)]
pub enum PropAction {
    /// Push the value to the mapped destination org unit.
    Push {
        /// The property id.
        property_id: i64,
        /// The mapped destination org unit.
        dest_org_unit_id: i64,
        /// The value to set.
        value: Option<String>,
    },
    /// The property belongs to the source service org root: skipped and
    /// counted, not an error.
    SkipRoot,
    /// The owning org unit was never mapped: skipped and counted.
    SkipUnmapped,
    /// The property names no org unit at all: skipped and counted.
    SkipNoOrgUnit,
}

/// The decision of [`plan_property`], over the mathematical table.
pub open spec fn spec_property_decision(
    p: OrgProperty,
    org_units: Map<i64, i64>,
    source_so_id: i64,
) -> PropAction {
    match p.org_unit_id {
        None => PropAction::SkipNoOrgUnit,
        Some(ou) => {
            if ou == source_so_id {
                PropAction::SkipRoot
            } else if org_units.contains_key(ou) {
                PropAction::Push {
                    property_id: p.property_id,
                    dest_org_unit_id: org_units[ou],
                    value: p.value,
                }
            } else {
                PropAction::SkipUnmapped
            }
        },
    }
}

/// Plans one source property: its org unit must resolve through the org
/// unit table; root-owned and unmapped properties are skipped and counted,
/// never treated as errors.
pub fn plan_property(p: &OrgProperty, mapping: &IdMapping, source_so_id: i64) -> (r: PropAction)
    requires
        mapping.wf(),
    ensures
        r == spec_property_decision(*p, mapping.org_units.as_map(), source_so_id),
{
    match p.org_unit_id {
        None => PropAction::SkipNoOrgUnit,
        Some(ou) => {
            if ou == source_so_id {
                PropAction::SkipRoot
            } else {
                match mapping.org_units.get(ou) {
                    Some(dest_ou) => PropAction::Push {
                        property_id: p.property_id,
                        dest_org_unit_id: dest_ou,
                        value: p.value.clone(),
                    },
                    None => PropAction::SkipUnmapped,
                }
            }
        },
    }
}

/// The outcome of handling one property.
#[derive(Debug, Clone, PartialEq, Eq, Structural)]
pub enum PropOutcome {
    /// The value reached the destination.
    Synced,
    /// The property was skipped with a counted reason.
    Skipped,
    /// Both the REST call and the SOAP fallback failed.
    Failed,
}

/// How many of the outcomes are the given variant.
pub open spec fn spec_count_outcomes(v: Seq<PropOutcome>, which: PropOutcome) -> nat
    decreases v.len(),
{
    if v.len() == 0 {
        0
    } else {
        spec_count_outcomes(v.drop_last(), which) + if v.last() == which {
            1nat
        } else {
            0nat
        }
    }
}

/// Tallies the phase summary: how many properties were synced, skipped and
/// failed.
pub fn count_property_outcomes(v: &Vec<PropOutcome>) -> (r: (u32, u32, u32))
    requires
        v@.len() <= u32::MAX,
    ensures
        r.0 == spec_count_outcomes(v@, PropOutcome::Synced),
        r.1 == spec_count_outcomes(v@, PropOutcome::Skipped),
        r.2 == spec_count_outcomes(v@, PropOutcome::Failed),
{
    let mut synced: u32 = 0;
    let mut skipped: u32 = 0;
    let mut failed: u32 = 0;
    let mut i: usize = 0;
    while i < v.len()
        invariant
            i <= v@.len(),
            v@.len() <= u32::MAX,
            synced == spec_count_outcomes(v@.take(i as int), PropOutcome::Synced),
            skipped == spec_count_outcomes(v@.take(i as int), PropOutcome::Skipped),
            failed == spec_count_outcomes(v@.take(i as int), PropOutcome::Failed),
            synced <= i && skipped <= i && failed <= i,
        decreases v@.len() - i,
    {
        proof {
            assert(v@.take(i + 1).drop_last() =~= v@.take(i as int));
            assert(v@.take(i + 1).last() == v@[i as int]);
        }
        match v[i] {
            PropOutcome::Synced => {
                synced += 1;
            },
            PropOutcome::Skipped => {
                skipped += 1;
            },
            PropOutcome::Failed => {
                failed += 1;
            },
        }
        i += 1;
    }
    assert(v@.take(v@.len() as int) =~= v@);
    (synced, skipped, failed)
}

} // verus!
