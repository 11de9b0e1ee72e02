//! The mapping tables: insert-overwrite semantics and the documented
//! collapse of duplicate site keys.

use nc_data_export::migrate::{build_site_lookup, plan_site, IdMapping, SiteAction};
use nc_data_export::models::customer::{Customer, Site};

fn customer(id: i64, name: &str) -> Customer {
    Customer {
        customer_id: id,
        customer_name: name.to_string(),
        org_unit_type: None,
        parent_id: None,
        external_id: None,
        external_id2: None,
        contact_first_name: None,
        contact_last_name: None,
        contact_email: None,
        contact_phone: None,
        contact_phone_ext: None,
        phone: None,
        contact_title: None,
        contact_department: None,
        county: None,
        street1: None,
        street2: None,
        city: None,
        state_prov: None,
        country: None,
        postal_code: None,
        is_system: None,
        is_service_org: None,
    }
}

fn site(id: i64, name: &str, parent: Option<i64>) -> Site {
    Site {
        site_id: id,
        site_name: name.to_string(),
        org_unit_type: None,
        parent_id: parent,
        external_id: None,
        external_id2: None,
        contact_first_name: None,
        contact_last_name: None,
        contact_email: None,
        contact_phone: None,
        contact_phone_ext: None,
        phone: None,
        contact_title: None,
        contact_department: None,
        county: None,
        street1: None,
        street2: None,
        city: None,
        state_prov: None,
        country: None,
        postal_code: None,
        is_system: None,
        is_service_org: None,
        customer_id: None,
        customerid: None,
        org_unit_id: None,
        service_org_id: None,
        service_orgid: None,
    }
}

#[test]
fn inserting_an_existing_key_overwrites_its_value() {
    let mut mapping = IdMapping::new();
    mapping.customers.insert(1, 100);
    mapping.customers.insert(2, 200);
    mapping.customers.insert(1, 111);
    assert_eq!(mapping.customers.get(1), Some(111));
    assert_eq!(mapping.customers.get(2), Some(200));
    assert_eq!(mapping.customers.len(), 2);
    assert!(mapping.customers.contains_key(1));
    assert!(!mapping.customers.contains_key(3));

    mapping.role_names.insert("admin".to_string(), 7);
    mapping.role_names.insert("admin".to_string(), 8);
    assert_eq!(mapping.role_names.get(&"admin".to_string()), Some(8));
    assert_eq!(mapping.role_names.len(), 1);
    assert!(!mapping.role_names.is_empty());
}

#[test]
fn duplicate_site_names_under_one_customer_collapse() {
    // Two destination sites share a name under the same customer; the
    // lookup keeps one entry (the later one), which is the documented
    // matching behaviour for this composite key.
    let dest_customers = vec![customer(100, "Acme")];
    let dest_sites = vec![site(900, "Depot", Some(100)), site(901, "Depot", Some(100))];
    let lookup = build_site_lookup(&dest_sites, &dest_customers);

    let source_customers = vec![customer(1, "Acme")];
    let names = nc_data_export::migrate::build_customer_names(&source_customers);
    let mut mapping = IdMapping::new();
    nc_data_export::migrate::record_customer_result(&mut mapping, 1, 100);
    match plan_site(&site(10, "Depot", Some(1)), &names, &lookup, &mapping) {
        SiteAction::Matched(id) => assert_eq!(id, 901),
        other => panic!("expected a match, got {:?}", other),
    }
}

#[test]
fn sites_whose_parent_is_not_a_listed_customer_are_not_indexed() {
    let dest_customers = vec![customer(100, "Acme")];
    let dest_sites = vec![site(900, "HQ", Some(42))];
    let lookup = build_site_lookup(&dest_sites, &dest_customers);
    let source_customers = vec![customer(1, "Acme")];
    let names = nc_data_export::migrate::build_customer_names(&source_customers);
    let mut mapping = IdMapping::new();
    nc_data_export::migrate::record_customer_result(&mut mapping, 1, 100);
    // The destination site is invisible, so the source site is created.
    assert!(matches!(
        plan_site(&site(10, "HQ", Some(1)), &names, &lookup, &mapping),
        SiteAction::Create { .. }
    ));
}
