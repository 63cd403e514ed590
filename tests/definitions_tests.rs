use std::collections::HashSet;

use debloat::{get_bloatware_definitions, DebloatItem};

#[test]
fn definitions_are_complete_and_unmarked() {
    let apps = get_bloatware_definitions();
    assert_eq!(apps.len(), 135);
    assert!(apps.iter().all(|a| !a.is_installed));
    assert!(apps.iter().all(|a| !a.package_pattern.is_empty()));
}

#[test]
fn definition_ids_are_unique() {
    let apps = get_bloatware_definitions();
    let ids: HashSet<&str> = apps.iter().map(|a| a.id.as_str()).collect();
    assert_eq!(ids.len(), apps.len());
}

#[test]
fn definitions_start_with_clipchamp_and_end_with_myhp() {
    let apps = get_bloatware_definitions();
    assert_eq!(apps[0].id, "clipchamp");
    assert_eq!(apps[0].package_pattern, "Clipchamp.Clipchamp");
    assert_eq!(apps[134].id, "myhp");
    assert_eq!(apps[134].package_pattern, "AD2F1837.myHP");
}

#[test]
fn tweak_item_becomes_a_catalog_entry() {
    let item = DebloatItem {
        id: "telemetry".to_string(),
        name: "Telemetry".to_string(),
        description: "Turns telemetry off".to_string(),
        category: "privacy".to_string(),
        safe: false,
        command: "Set-Telemetry 0".to_string(),
        rollback_command: Some("Set-Telemetry 1".to_string()),
    };
    let entry = item.to_catalog_entry();
    assert_eq!(entry.id, "telemetry");
    assert_eq!(entry.category, "privacy");
    assert!(!entry.safe);
    assert_eq!(entry.primary_action, "Set-Telemetry 0");
    assert_eq!(entry.rollback_action, Some("Set-Telemetry 1".to_string()));
    assert_eq!(entry.match_pattern, "");
}

#[test]
fn unsafe_definitions_are_the_xbox_and_system_apps() {
    let apps = get_bloatware_definitions();
    let unsafe_ids: HashSet<&str> =
        apps.iter().filter(|a| !a.safe).map(|a| a.id.as_str()).collect();
    let expected: HashSet<&str> = [
        "xbox-tcui",
        "xbox-game-overlay",
        "xbox-gaming-overlay",
        "xbox-identity",
        "xbox-speech",
        "xbox-gaming-app",
        "camera",
        "microsoft-store",
        "microsoft-edge",
        "onedrive",
    ]
    .into_iter()
    .collect();
    assert_eq!(unsafe_ids, expected);
}

#[test]
fn definitions_row_forty_is_the_xbox_app() {
    let apps = get_bloatware_definitions();
    assert_eq!(apps[39].id, "xbox-app");
    assert_eq!(apps[39].package_pattern, "Microsoft.XboxApp");
    assert!(apps.iter().all(|a| !a.package_pattern.contains('*') && !a.id.is_empty()));
}

#[test]
fn two_calls_give_the_same_table() {
    assert_eq!(get_bloatware_definitions(), get_bloatware_definitions());
}
