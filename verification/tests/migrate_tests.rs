//! The migration orchestrator's five phases, driven over concrete data.

use nc_data_export::migrate::{
    build_customer_name_index, build_customer_names, build_group_name_index, build_login_index,
    build_role_id_names, build_role_name_index, build_site_lookup, count_property_outcomes,
    customer_id_strings, ensure_role_names, plan_access_group, plan_customer, plan_property,
    plan_role, plan_site, plan_user, record_created_group, record_created_role,
    record_created_site, record_customer_result, record_matched_role, record_service_org,
    record_user_result, role_key, user_id_strings, CustomerAction, GroupAction, IdMapping,
    PropAction, PropOutcome, RoleAction, SiteAction, UserAction,
};
use nc_data_export::models::access_group::AccessGroup;
use nc_data_export::models::customer::{Customer, Site};
use nc_data_export::models::properties::OrgProperty;
use nc_data_export::models::user::User;
use nc_data_export::models::user_role::{PermissionLookup, UserRole, UserRoleExtra};

fn customer(id: i64, name: &str) -> Customer {
    Customer {
        customer_id: id,
        customer_name: name.to_string(),
        org_unit_type: None,
        parent_id: None,
        external_id: None,
        external_id2: None,
        contact_first_name: None,
        contact_last_name: None,
        contact_email: None,
        contact_phone: None,
        contact_phone_ext: None,
        phone: None,
        contact_title: None,
        contact_department: None,
        county: None,
        street1: None,
        street2: None,
        city: None,
        state_prov: None,
        country: None,
        postal_code: None,
        is_system: None,
        is_service_org: None,
    }
}

fn site(id: i64, name: &str, parent: Option<i64>) -> Site {
    Site {
        site_id: id,
        site_name: name.to_string(),
        org_unit_type: None,
        parent_id: parent,
        external_id: None,
        external_id2: None,
        contact_first_name: None,
        contact_last_name: None,
        contact_email: None,
        contact_phone: None,
        contact_phone_ext: None,
        phone: None,
        contact_title: None,
        contact_department: None,
        county: None,
        street1: None,
        street2: None,
        city: None,
        state_prov: None,
        country: None,
        postal_code: None,
        is_system: None,
        is_service_org: None,
        customer_id: None,
        customerid: None,
        org_unit_id: None,
        service_org_id: None,
        service_orgid: None,
    }
}

fn role(id: i64, name: Option<&str>, permissions: Vec<&str>) -> UserRole {
    UserRole {
        role_id: id,
        role_name: name.map(|n| n.to_string()),
        role_description: None,
        extra: if permissions.is_empty() {
            None
        } else {
            Some(UserRoleExtra {
                readonly: None,
                permissions: permissions.into_iter().map(|p| p.to_string()).collect(),
                usernames: vec![],
                cloneable: None,
            })
        },
    }
}

fn user(id: i64, login: &str, roles: Vec<i64>, service_org: Option<i64>) -> User {
    User {
        user_id: id,
        login_name: login.to_string(),
        first_name: Some("First".to_string()),
        last_name: Some("Last".to_string()),
        full_name: None,
        email: None,
        description: None,
        is_enabled: true,
        is_ldap: false,
        is_locked: None,
        api_only_user: false,
        logged_in_user: false,
        read_only: false,
        support_user: false,
        two_factor_enabled: false,
        current_sso_provider: None,
        access_group_ids: vec![],
        role_ids: roles,
        customer_tree: vec![],
        created_on: None,
        org_unit_id: None,
        service_org_id: service_org,
    }
}

#[test]
fn customer_and_site_phase_builds_the_mapping() {
    // Source: customer "Acme" (id 1) with site "HQ" (id 10, parent 1);
    // destination: empty, service orgs 99 -> 500.
    let source_customers = vec![customer(1, "Acme")];
    let dest_customers: Vec<Customer> = vec![];
    let mut mapping = IdMapping::new();
    record_service_org(&mut mapping, 99, 500);

    let index = build_customer_name_index(&dest_customers);
    let action = plan_customer(&source_customers[0], &index, 500);
    match action {
        CustomerAction::Create(p) => {
            assert_eq!(p.customer_name, "Acme");
            assert_eq!(p.parent_id, 500);
        }
        other => panic!("expected a creation, got {:?}", other),
    }
    record_customer_result(&mut mapping, 1, 100);

    let source_sites = vec![site(10, "HQ", Some(1))];
    let dest_sites: Vec<Site> = vec![];
    let lookup = build_site_lookup(&dest_sites, &dest_customers);
    let names = build_customer_names(&source_customers);
    match plan_site(&source_sites[0], &names, &lookup, &mapping) {
        SiteAction::Create {
            dest_customer_id,
            payload,
        } => {
            assert_eq!(dest_customer_id, 100);
            assert_eq!(payload.site_name, "HQ");
        }
        other => panic!("expected a creation, got {:?}", other),
    }
    record_created_site(&mut mapping, 10, 200);

    assert_eq!(mapping.customers.get(1), Some(100));
    assert_eq!(mapping.sites.get(10), Some(200));
    assert_eq!(mapping.org_units.get(1), Some(100));
    assert_eq!(mapping.org_units.get(10), Some(200));
    assert_eq!(mapping.org_units.get(99), Some(500));
    assert_eq!(mapping.org_units.len(), 3);
}

#[test]
fn customer_phase_is_idempotent_against_its_own_result() {
    let source = vec![customer(1, "Acme"), customer(2, "Beta LLC")];
    // First run: empty destination, everything is created.
    let empty_index = build_customer_name_index(&vec![]);
    let mut created = 0;
    for c in &source {
        if matches!(plan_customer(c, &empty_index, 500), CustomerAction::Create(_)) {
            created += 1;
        }
    }
    assert_eq!(created, 2);
    // Second run: the destination now holds the created customers (matching
    // is case-insensitive).
    let dest_after = vec![customer(100, "ACME"), customer(101, "beta llc")];
    let index = build_customer_name_index(&dest_after);
    let mut second_created = 0;
    for c in &source {
        match plan_customer(c, &index, 500) {
            CustomerAction::Existing(id) => assert!(id == 100 || id == 101),
            CustomerAction::Create(_) => second_created += 1,
        }
    }
    assert_eq!(second_created, 0);
}

#[test]
fn site_matching_uses_the_composite_key_and_aliases() {
    let source_customers = vec![customer(1, "Acme")];
    let dest_customers = vec![customer(100, "Acme")];
    let dest_sites = vec![site(900, "HQ", Some(100))];
    let lookup = build_site_lookup(&dest_sites, &dest_customers);
    let names = build_customer_names(&source_customers);
    let mut mapping = IdMapping::new();
    record_customer_result(&mut mapping, 1, 100);

    // Parent link via the lowercase `customerid` alias.
    let mut s = site(10, "hq", None);
    s.customerid = Some(1);
    assert!(matches!(
        plan_site(&s, &names, &lookup, &mapping),
        SiteAction::Matched(900)
    ));

    // No parent link at all.
    let orphan = site(11, "Remote", None);
    assert!(matches!(
        plan_site(&orphan, &names, &lookup, &mapping),
        SiteAction::SkipNoParent
    ));

    // Parent that is not a known source customer.
    let stray = site(12, "Side", Some(77));
    assert!(matches!(
        plan_site(&stray, &names, &lookup, &mapping),
        SiteAction::SkipUnknownParent
    ));

    // Known parent that was never mapped to the destination.
    let source_two = vec![customer(1, "Acme"), customer(2, "Beta")];
    let names_two = build_customer_names(&source_two);
    let unmapped = site(13, "Annex", Some(2));
    assert!(matches!(
        plan_site(&unmapped, &names_two, &lookup, &mapping),
        SiteAction::SkipParentNotMapped
    ));
}

#[test]
fn role_phase_matches_translates_and_falls_back() {
    let perm_csv = "groupid,permissionid,permissionname\n\"1\",\"2001\",\"DEVICE_VIEW\"\n\"1\",\"2002\",\"DEVICE_EDIT\"\n";
    let lookup = PermissionLookup::from_csv(perm_csv);
    let dest_roles = vec![role(800, Some("Admin"), vec![])];
    let index = build_role_name_index(&dest_roles);

    // Same name on the destination: matched, case-insensitively.
    match plan_role(&role(1, Some("ADMIN"), vec![]), &index, &lookup) {
        RoleAction::Existing(id) => assert_eq!(id, 800),
        other => panic!("expected a match, got {:?}", other),
    }

    // New role with translatable permissions.
    let tech = role(2, Some("Tech"), vec!["DEVICE_VIEW", "UNKNOWN_PERM", "DEVICE_EDIT"]);
    match plan_role(&tech, &index, &lookup) {
        RoleAction::Create(p) => {
            assert_eq!(p.role_name, "Tech");
            assert_eq!(p.description, "Migrated role");
            assert_eq!(p.permission_ids, vec![2001, 2002]);
            assert!(p.user_ids.is_empty());
        }
        other => panic!("expected a creation, got {:?}", other),
    }

    // New role without permissions falls back to the minimal view
    // permission.
    match plan_role(&role(3, Some("Empty"), vec![]), &index, &lookup) {
        RoleAction::Create(p) => assert_eq!(p.permission_ids, vec![1701]),
        other => panic!("expected a creation, got {:?}", other),
    }

    // Recording maintains both the id table and the name bridge.
    let mut mapping = IdMapping::new();
    record_matched_role(&mut mapping, 1, role_key(&role(1, Some("ADMIN"), vec![])), 800);
    record_created_role(&mut mapping, 2, role_key(&tech), 801);
    record_created_role(&mut mapping, 3, role_key(&role(3, Some("Empty"), vec![])), 0);
    assert_eq!(mapping.roles.get(1), Some(800));
    assert_eq!(mapping.roles.get(2), Some(801));
    assert_eq!(mapping.roles.get(3), None);
    assert_eq!(mapping.role_names.get(&"admin".to_string()), Some(800));
    assert_eq!(mapping.role_names.get(&"tech".to_string()), Some(801));
}

#[test]
fn group_phase_dispatches_by_kind_and_needs_customers() {
    let dest_groups = vec![AccessGroup {
        group_id: 700,
        org_unit_id: None,
        group_name: Some("Everyone".to_string()),
        group_type: None,
        group_description: None,
    }];
    let index = build_group_name_index(&dest_groups);
    let dest_customer_ids = customer_id_strings(&vec![customer(100, "Acme")]);
    assert_eq!(dest_customer_ids, vec!["100".to_string()]);
    let dest_user_ids = user_id_strings(&vec![user(55, "jdoe", vec![], None)]);
    assert_eq!(dest_user_ids, vec!["55".to_string()]);

    let matched = AccessGroup {
        group_id: 1,
        org_unit_id: None,
        group_name: Some("EVERYONE".to_string()),
        group_type: None,
        group_description: None,
    };
    assert!(matches!(
        plan_access_group(&matched, &index, &dest_customer_ids, &dest_user_ids),
        GroupAction::Existing(700)
    ));

    let device_group = AccessGroup {
        group_id: 2,
        org_unit_id: None,
        group_name: Some("Laptops".to_string()),
        group_type: Some("DEVICE".to_string()),
        group_description: Some("All laptops".to_string()),
    };
    match plan_access_group(&device_group, &index, &dest_customer_ids, &dest_user_ids) {
        GroupAction::Create {
            device_type,
            payload,
        } => {
            assert!(device_type);
            assert_eq!(payload.group_name, "Laptops");
            assert_eq!(payload.group_description, "All laptops");
            assert_eq!(payload.org_unit_ids, vec!["100".to_string()]);
            assert_eq!(payload.user_ids, vec!["55".to_string()]);
            assert!(payload.auto_include_new_org_units);
        }
        other => panic!("expected a creation, got {:?}", other),
    }

    let org_group = AccessGroup {
        group_id: 3,
        org_unit_id: None,
        group_name: Some("Operators".to_string()),
        group_type: None,
        group_description: None,
    };
    match plan_access_group(&org_group, &index, &dest_customer_ids, &dest_user_ids) {
        GroupAction::Create { device_type, .. } => assert!(!device_type),
        other => panic!("expected a creation, got {:?}", other),
    }

    // Without destination customers no group can be created.
    let none: Vec<String> = vec![];
    assert!(matches!(
        plan_access_group(&org_group, &index, &none, &dest_user_ids),
        GroupAction::SkipNoCustomers
    ));

    let mut mapping = IdMapping::new();
    record_created_group(&mut mapping, 2, 710);
    record_created_group(&mut mapping, 3, 0);
    assert_eq!(mapping.access_groups.get(2), Some(710));
    assert_eq!(mapping.access_groups.get(3), None);
}

#[test]
fn user_phase_skips_existing_and_bridges_roles_by_name() {
    let source_roles = vec![role(5, Some("Tech"), vec![]), role(6, None, vec![])];
    let id_names = build_role_id_names(&source_roles);
    let dest_users = vec![user(900, "PRESENT", vec![], None)];
    let dest_logins = build_login_index(&dest_users);

    let mut mapping = IdMapping::new();
    record_service_org(&mut mapping, 99, 500);
    // The destination knows role "tech" under id 801.
    ensure_role_names(
        &mut mapping,
        &vec![role(801, Some("Tech"), vec![])],
    );
    assert_eq!(mapping.role_names.get(&"tech".to_string()), Some(801));

    // An existing login is left alone.
    assert!(matches!(
        plan_user(&user(1, "present", vec![], None), &dest_logins, &id_names, &mapping, 500),
        UserAction::SkipExists
    ));

    // A new login is created through SOAP with bridged roles.
    let newcomer = user(2, "newcomer", vec![5, 6, 42], Some(99));
    match plan_user(&newcomer, &dest_logins, &id_names, &mapping, 500) {
        UserAction::Create { login_name, info } => {
            assert_eq!(login_name, "newcomer");
            // The email falls back to the login name.
            assert_eq!(info.email, "newcomer");
            assert_eq!(info.first_name, "First");
            assert_eq!(info.last_name, "Last");
            assert!(info.is_enabled);
            // Role 5 bridges by name; 6 has no name, 42 is unknown.
            assert_eq!(info.role_ids, vec![801]);
            assert!(info.access_group_ids.is_empty());
            // The source service org 99 maps to destination 500.
            assert_eq!(info.customer_id, 500);
        }
        other => panic!("expected a creation, got {:?}", other),
    }

    // Success is recorded under the lowercased login; failures leave no
    // trace in the mapping.
    record_user_result(&mut mapping, "newcomer".to_string(), 77);
    record_user_result(&mut mapping, "broken".to_string(), -1);
    assert_eq!(mapping.user_logins.get(&"newcomer".to_string()), Some(77));
    assert_eq!(mapping.user_logins.get(&"broken".to_string()), None);
}

#[test]
fn lazily_filled_role_bridge_is_left_alone_when_nonempty() {
    let mut mapping = IdMapping::new();
    ensure_role_names(&mut mapping, &vec![role(801, Some("Tech"), vec![])]);
    assert_eq!(mapping.role_names.get(&"tech".to_string()), Some(801));
    // A second fill with different data changes nothing.
    ensure_role_names(&mut mapping, &vec![role(901, Some("Other"), vec![])]);
    assert_eq!(mapping.role_names.get(&"other".to_string()), None);
    assert_eq!(mapping.role_names.get(&"tech".to_string()), Some(801));
}

fn property(id: i64, org_unit: Option<i64>, value: &str) -> OrgProperty {
    OrgProperty {
        property_id: id,
        label: None,
        value: Some(value.to_string()),
        default_value: None,
        property_type: None,
        org_unit_id: org_unit,
    }
}

#[test]
fn property_phase_resolves_skips_and_tallies() {
    let mut mapping = IdMapping::new();
    record_service_org(&mut mapping, 99, 500);
    record_customer_result(&mut mapping, 1, 100);

    match plan_property(&property(30, Some(1), "blue"), &mapping, 99) {
        PropAction::Push {
            property_id,
            dest_org_unit_id,
            value,
        } => {
            assert_eq!(property_id, 30);
            assert_eq!(dest_org_unit_id, 100);
            assert_eq!(value, Some("blue".to_string()));
        }
        other => panic!("expected a push, got {:?}", other),
    }
    assert!(matches!(
        plan_property(&property(31, Some(99), "x"), &mapping, 99),
        PropAction::SkipRoot
    ));
    assert!(matches!(
        plan_property(&property(32, Some(7), "x"), &mapping, 99),
        PropAction::SkipUnmapped
    ));
    assert!(matches!(
        plan_property(&property(33, None, "x"), &mapping, 99),
        PropAction::SkipNoOrgUnit
    ));

    let outcomes = vec![
        PropOutcome::Synced,
        PropOutcome::Skipped,
        PropOutcome::Skipped,
        PropOutcome::Failed,
        PropOutcome::Synced,
    ];
    assert_eq!(count_property_outcomes(&outcomes), (2, 2, 1));
}
