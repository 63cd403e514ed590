use debloat::{
    bloatware_with_status, reconcile, BloatwareApp, CatalogEntry, CatalogError,
    InstalledPackageRecord,
};

fn entry(id: &str, pattern: &str) -> CatalogEntry {
    CatalogEntry {
        id: id.to_string(),
        name: id.to_string(),
        description: String::new(),
        category: String::new(),
        safe: true,
        primary_action: format!("remove {}", id),
        rollback_action: None,
        match_pattern: pattern.to_string(),
    }
}

fn record(identifier: &str) -> InstalledPackageRecord {
    InstalledPackageRecord {
        identifier: identifier.to_string(),
        display_name: String::new(),
        version: String::new(),
        publisher: String::new(),
    }
}

fn installed_flags(catalog: &Vec<CatalogEntry>, installed: &Vec<InstalledPackageRecord>) -> Vec<bool> {
    reconcile(catalog, installed).unwrap().iter().map(|r| r.is_installed).collect()
}

#[test]
fn pattern_contained_in_identifier() {
    let catalog = vec![entry("xbox", "Xbox")];
    let installed = vec![record("Microsoft.XboxApp_1.0")];
    assert_eq!(installed_flags(&catalog, &installed), vec![true]);
}

#[test]
fn identifier_contained_in_pattern() {
    let catalog = vec![entry("xbox", "Microsoft.XboxApp")];
    let installed = vec![record("xboxapp")];
    assert_eq!(installed_flags(&catalog, &installed), vec![true]);
}

#[test]
fn neither_contains_the_other() {
    let catalog = vec![entry("xbox", "Microsoft.XboxApp")];
    let installed = vec![record("Microsoft.Xbox.TCUI")];
    assert_eq!(installed_flags(&catalog, &installed), vec![false]);
}

#[test]
fn empty_pattern_is_never_installed() {
    let catalog = vec![entry("blank", ""), entry("stars", "**")];
    let installed = vec![record("Microsoft.XboxApp"), record("anything")];
    assert_eq!(installed_flags(&catalog, &installed), vec![false, false]);
}

#[test]
fn empty_identifier_matches_nothing() {
    let catalog = vec![entry("xbox", "Xbox")];
    let installed = vec![record("")];
    assert_eq!(installed_flags(&catalog, &installed), vec![false]);
}

#[test]
fn empty_installed_list_gives_nothing_installed() {
    let catalog = vec![entry("a", "Foo"), entry("b", "Bar")];
    assert_eq!(installed_flags(&catalog, &Vec::new()), vec![false, false]);
}

#[test]
fn wildcards_are_stripped() {
    let catalog = vec![entry("xbox", "*XBOX*")];
    let installed = vec![record("Microsoft.XboxApp")];
    assert_eq!(installed_flags(&catalog, &installed), vec![true]);
}

#[test]
fn any_matching_record_is_enough() {
    let catalog = vec![entry("a", "Foo"), entry("b", "Bar"), entry("c", "Baz")];
    let installed = vec![record("zzz"), record("bar.app"), record("foo"), record("foo.bar")];
    assert_eq!(installed_flags(&catalog, &installed), vec![true, true, false]);
}

#[test]
fn reconcile_keeps_entries_and_order() {
    let catalog = vec![entry("b", "Bar"), entry("a", "Foo")];
    let installed = vec![record("FOO")];
    let result = reconcile(&catalog, &installed).unwrap();
    assert_eq!(result.len(), 2);
    assert_eq!(result[0].entry, catalog[0]);
    assert_eq!(result[1].entry, catalog[1]);
    assert!(!result[0].is_installed);
    assert!(result[1].is_installed);
}

#[test]
fn reconcile_twice_gives_the_same_result() {
    let catalog = vec![entry("a", "Foo"), entry("b", "Xbox"), entry("c", "")];
    let installed = vec![record("foo.bar"), record("Microsoft.XboxApp")];
    let first = reconcile(&catalog, &installed).unwrap();
    let second = reconcile(&catalog, &installed).unwrap();
    assert_eq!(first, second);
}

#[test]
fn reconcile_rejects_duplicate_ids() {
    let catalog = vec![entry("a", "Foo"), entry("b", "Bar"), entry("a", "Baz")];
    let result = reconcile(&catalog, &vec![record("foo")]);
    assert_eq!(result, Err(CatalogError::DuplicateId("a".to_string())));
}

fn app(id: &str, pattern: &str) -> BloatwareApp {
    BloatwareApp {
        id: id.to_string(),
        name: id.to_string(),
        description: String::new(),
        safe: true,
        package_pattern: pattern.to_string(),
        is_installed: false,
    }
}

#[test]
fn application_status_follows_installed_packages() {
    let apps = vec![app("xbox", "Microsoft.XboxApp"), app("teams", "MSTeams")];
    let installed = vec![record("microsoft.xboxapp")];
    let result = bloatware_with_status(&apps, &installed).unwrap();
    assert_eq!(result.len(), 2);
    assert!(result[0].is_installed);
    assert!(!result[1].is_installed);
    assert_eq!(result[0].id, "xbox");
    assert_eq!(result[1].package_pattern, "MSTeams");
}

#[test]
fn application_list_with_duplicate_ids_is_rejected() {
    let apps = vec![app("x", "A"), app("x", "B")];
    assert_eq!(
        bloatware_with_status(&apps, &Vec::new()),
        Err(CatalogError::DuplicateId("x".to_string()))
    );
}

#[test]
fn application_with_blank_pattern_is_never_installed() {
    let apps = vec![app("blank", ""), app("stars", "**"), app("xbox", "Microsoft.XboxApp")];
    let installed = vec![record("microsoft.xboxapp")];
    let result = bloatware_with_status(&apps, &installed).unwrap();
    let flags: Vec<bool> = result.iter().map(|a| a.is_installed).collect();
    assert_eq!(flags, vec![false, false, true]);
}

#[test]
fn built_in_definitions_reconcile() {
    let apps = debloat::get_bloatware_definitions();
    let installed = vec![record("Microsoft.XboxApp_48.0.0.0_x64")];
    let result = bloatware_with_status(&apps, &installed).unwrap();
    assert_eq!(result.len(), apps.len());
    let installed_ids: Vec<&str> =
        result.iter().filter(|a| a.is_installed).map(|a| a.id.as_str()).collect();
    assert_eq!(installed_ids, vec!["xbox-app"]);
}
