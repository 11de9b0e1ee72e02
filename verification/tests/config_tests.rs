//! Profiles, settings, command-line selection, endpoints, credentials and
//! asset flattening.

use nc_data_export::api::endpoints;
use nc_data_export::cli::{Cli, Commands, ExportArgs, ProfileArgs, ProfileCommands, TestArgs};
use nc_data_export::commands::connection::ConnectionResult;
use nc_data_export::commands::export::{DeviceAssetFlat, ExportResult};
use nc_data_export::config::settings::{Profile, ProfileType, Settings, WindowState};
use nc_data_export::credentials::{
    deobfuscate_bytes, get_obfuscation_key, obfuscate_bytes, obfuscation_round_trip,
};
use nc_data_export::models::device::{
    BiosInfo, ComputerSystem, DeviceAsset, DiskDriveInfo, MemoryInfo, ProcessorInfo,
};
use nc_data_export::models::user_role::PermissionLookup;
use nc_data_export::errors::ApiError;

#[test]
fn endpoint_paths_interpolate_ids() {
    assert_eq!(endpoints::service_org_by_id(7), "/api/service-orgs/7");
    assert_eq!(
        endpoints::service_org_customers(7),
        "/api/service-orgs/7/customers"
    );
    assert_eq!(endpoints::service_org_sites(7), "/api/sites");
    assert_eq!(
        endpoints::org_unit_access_groups(12),
        "/api/org-units/12/access-groups"
    );
    assert_eq!(
        endpoints::org_unit_access_groups_create(12),
        "/api/org-units/12/org-unit-access-groups"
    );
    assert_eq!(
        endpoints::device_access_groups_create(12),
        "/api/org-units/12/device-access-groups"
    );
    assert_eq!(endpoints::org_unit_user_roles(12), "/api/org-units/12/user-roles");
    assert_eq!(
        endpoints::org_unit_custom_properties(12),
        "/api/org-units/12/custom-properties"
    );
    assert_eq!(endpoints::org_unit_users(12), "/api/org-units/12/users");
    assert_eq!(endpoints::org_unit_devices(12), "/api/org-units/12/devices");
    assert_eq!(endpoints::device_by_id(-3), "/api/devices/-3");
    assert_eq!(
        endpoints::device_custom_properties(3),
        "/api/devices/3/custom-properties"
    );
    assert_eq!(endpoints::device_assets(3), "/api/devices/3/assets");
    let params = endpoints::PaginationParams::new().page(2).page_size(100);
    assert_eq!(params.page, Some(2));
    assert_eq!(params.page_size, Some(100));
}

#[test]
fn profiles_are_added_replaced_deleted_and_activated() {
    let mut settings = Settings::default();
    settings.add_profile(Profile::new_export("prod", "nc.example.com"));
    settings.add_profile(Profile::new_migration("move", "old.example.com", "new.example.com"));
    assert_eq!(settings.profiles.len(), 2);
    assert_eq!(settings.profiles[0].base_url(), "https://nc.example.com");
    assert_eq!(settings.profiles[1].profile_type, ProfileType::Migration);
    assert_eq!(
        settings.profiles[1].destination.as_ref().unwrap().fqdn,
        "new.example.com"
    );

    // Re-adding under the same name replaces.
    settings.add_profile(Profile::new_export("prod", "nc2.example.com"));
    assert_eq!(settings.profiles.len(), 2);
    assert_eq!(settings.profiles[1].source.fqdn, "nc2.example.com");

    assert!(settings.set_active_profile("prod").is_ok());
    assert!(settings.set_active_profile("missing").is_err());
    assert_eq!(settings.get_active_profile().unwrap().name, "prod");
    let idx = settings.active_profile_index().unwrap();
    assert_eq!(settings.profiles[idx].name, "prod");

    // Deleting the active profile activates the first remaining one.
    settings.delete_profile("prod");
    assert_eq!(settings.profiles.len(), 1);
    assert_eq!(settings.active_profile.as_deref(), Some("move"));
    settings.delete_profile("move");
    assert!(settings.profiles.is_empty());
    assert!(settings.active_profile.is_none());

    let w = WindowState::default();
    assert_eq!((w.width, w.height, w.maximized), (950, 800, false));
}

fn export_args(all: bool) -> ExportArgs {
    ExportArgs {
        jwt: None,
        service_org: 1,
        output: "./out".to_string(),
        format: vec!["csv".to_string()],
        all,
        service_orgs: false,
        customers: false,
        sites: false,
        devices: false,
        access_groups: false,
        user_roles: false,
        org_properties: false,
        device_properties: false,
    }
}

#[test]
fn export_selection_defaults_and_explicit_choices() {
    // No explicit selection: everything but device properties.
    let default_args = export_args(false);
    assert!(!default_args.has_explicit_selection());
    assert!(default_args.should_export("customers"));
    assert!(default_args.should_export("devices"));
    assert!(!default_args.should_export("device_properties"));

    // --all behaves the same.
    let all_args = export_args(true);
    assert!(all_args.should_export("sites"));
    assert!(!all_args.should_export("device_properties"));

    // Explicit selection restricts exactly to the chosen kinds.
    let mut chosen = export_args(false);
    chosen.customers = true;
    chosen.user_roles = true;
    assert!(chosen.has_explicit_selection());
    assert!(chosen.should_export("customers"));
    assert!(chosen.should_export("user_roles"));
    assert!(!chosen.should_export("sites"));
    assert!(!chosen.should_export("unknown"));

    let cli = Cli::default();
    assert!(cli.command.is_none() && !cli.verbose);
    let _cmd = Commands::Profile(ProfileArgs {
        command: ProfileCommands::Use {
            name: "prod".to_string(),
        },
    });
    let _test = Commands::Test(TestArgs { jwt: None });
}

#[test]
fn obfuscation_round_trips_credentials() {
    let secret = b"jwt-header.payload-0123456789.signature";
    let stored = obfuscate_bytes(secret);
    // The stored text never holds the secret in the clear, and is base64.
    assert!(!stored.contains("payload"));
    assert!(stored
        .chars()
        .all(|c| c.is_ascii_alphanumeric() || c == '+' || c == '/' || c == '='));
    let back = deobfuscate_bytes(&stored).unwrap();
    assert_eq!(back, secret);
    let direct = obfuscation_round_trip(secret).unwrap();
    assert_eq!(direct, secret);
    assert!(deobfuscate_bytes("!!! not base64 !!!").is_none());
    assert_eq!(get_obfuscation_key(), "nc-data-export-jwt-store-key");
}

#[test]
fn asset_flattening_takes_first_entries() {
    let asset = DeviceAsset {
        device_id: 9,
        computer_system: Some(ComputerSystem {
            manufacturer: Some("Acme Corp".to_string()),
            model: Some("Z1".to_string()),
            domain: None,
            domain_role: None,
        }),
        bios: Some(BiosInfo {
            manufacturer: None,
            name: Some("CoreBIOS".to_string()),
            serial_number: Some("SN-1".to_string()),
            version: None,
        }),
        processor: Some(vec![
            ProcessorInfo {
                name: Some("CPU-A".to_string()),
                manufacturer: None,
                max_clock_speed: Some(3400),
                number_of_cores: Some(8),
                number_of_logical_processors: Some(16),
            },
            ProcessorInfo {
                name: Some("CPU-B".to_string()),
                manufacturer: None,
                max_clock_speed: None,
                number_of_cores: None,
                number_of_logical_processors: None,
            },
        ]),
        memory: Some(MemoryInfo {
            total_physical_memory: Some(32_000_000_000),
            available_physical_memory: None,
        }),
        disk_drive: Some(vec![DiskDriveInfo {
            name: Some("sda".to_string()),
            size: Some(512_000_000_000),
            free_space: Some(100_000_000_000),
        }]),
    };
    let flat = DeviceAssetFlat::from_asset(&asset);
    assert_eq!(flat.device_id, 9);
    assert_eq!(flat.system_manufacturer.as_deref(), Some("Acme Corp"));
    assert_eq!(flat.bios_name.as_deref(), Some("CoreBIOS"));
    assert_eq!(flat.processor_name.as_deref(), Some("CPU-A"));
    assert_eq!(flat.processor_cores, Some(8));
    assert_eq!(flat.total_physical_memory, Some(32_000_000_000));
    assert_eq!(flat.disk_name.as_deref(), Some("sda"));

    let empty = DeviceAsset {
        device_id: 10,
        computer_system: None,
        bios: None,
        processor: Some(vec![]),
        memory: None,
        disk_drive: None,
    };
    let flat_empty = DeviceAssetFlat::from_asset(&empty);
    assert!(flat_empty.processor_name.is_none());
    assert!(flat_empty.system_manufacturer.is_none());
    assert!(flat_empty.disk_size.is_none());

    let _summary = ExportResult {
        success: true,
        message: "done".to_string(),
        files_created: vec![],
        total_records: 0,
        warnings: vec![],
        errors: vec![],
    };
    let _conn = ConnectionResult {
        success: true,
        message: "ok".to_string(),
        server_url: None,
        server_version: None,
        service_org_id: None,
        service_org_name: None,
    };
}

#[test]
fn permission_csv_loads_quoted_fields() {
    let csv = "groupid,permissionid,permissionname\n\"1\",\"1701\",\"ACTIVE_ISSUES_VIEW\"\n\"1\", \"2002\" , \"DEVICE_EDIT\"\nbad line\n\"1\",\"oops\",\"IGNORED\"\n";
    let lookup = PermissionLookup::from_csv(csv);
    assert!(!lookup.is_empty());
    assert_eq!(lookup.get_id(&"ACTIVE_ISSUES_VIEW".to_string()), Some(1701));
    assert_eq!(lookup.get_id(&"DEVICE_EDIT".to_string()), Some(2002));
    assert_eq!(lookup.get_id(&"IGNORED".to_string()), None);
    let ids = lookup.names_to_ids(&[
        "DEVICE_EDIT".to_string(),
        "MISSING".to_string(),
        "ACTIVE_ISSUES_VIEW".to_string(),
    ]);
    assert_eq!(ids, vec![2002, 1701]);
    assert!(PermissionLookup::from_csv("header only\n").is_empty());
}

#[test]
fn api_errors_describe_themselves() {
    assert_eq!(
        ApiError::Authentication("denied".to_string()).describe(),
        "Authentication failed: denied"
    );
    assert_eq!(ApiError::TokenExpired.describe(), "Token expired");
    assert_eq!(
        ApiError::RateLimited {
            retry_after_secs: 60
        }
        .describe(),
        "Rate limited - retry after 60 seconds"
    );
    assert_eq!(
        ApiError::NotFound("/api/x".to_string()).describe(),
        "Resource not found: /api/x"
    );
}
