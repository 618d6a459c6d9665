use tman_core::graph::{Graph, GraphNode};
use tman_core::installation::validate_installation;
use tman_core::pkg_info::{PackageIdentity, PackageInfo, PkgType};
use tman_core::registry::{find_package, PackageInfoRegistry, RegistryFault};

fn package(app: &str, pkg_type: PkgType, name: &str, version: &str, is_installed: bool) -> PackageInfo {
    PackageInfo {
        identity: PackageIdentity::new(pkg_type, name.to_string()).unwrap(),
        app_uri: app.to_string(),
        is_installed,
        version: version.to_string(),
        dependencies: Vec::new(),
    }
}

#[test]
fn a_new_registry_has_no_app() {
    let registry = PackageInfoRegistry::new();
    assert!(!registry.has_app("app1"));
    assert!(!registry.has_app(""));
    assert_eq!(registry.packages_of("app1"), None);
    assert!(registry.lookup("app1", PkgType::Extension, &"foo".to_string()).is_none());
}

#[test]
fn insert_records_the_packages_of_an_app() {
    let mut registry = PackageInfoRegistry::new();
    let pkgs = vec![
        package("app1", PkgType::Extension, "foo", "1.0.0", true),
        package("app1", PkgType::Protocol, "msgpack", "2.0.0", true),
    ];
    assert_eq!(registry.insert("app1".to_string(), pkgs.clone()), Ok(()));
    assert!(registry.has_app("app1"));
    assert!(!registry.has_app("app2"));
    assert_eq!(registry.packages_of("app1"), Some(&pkgs));
    assert_eq!(registry.packages_of("app2"), None);
}

#[test]
fn an_app_without_packages_is_still_known() {
    let mut registry = PackageInfoRegistry::new();
    assert_eq!(registry.insert("app1".to_string(), Vec::new()), Ok(()));
    assert!(registry.has_app("app1"));
    assert_eq!(registry.packages_of("app1"), Some(&Vec::new()));
}

#[test]
fn insert_replaces_what_was_recorded_for_the_app() {
    let mut registry = PackageInfoRegistry::new();
    let old = vec![package("app1", PkgType::Extension, "foo", "1.0.0", true)];
    let new = vec![package("app1", PkgType::Extension, "bar", "1.0.0", true)];
    assert_eq!(registry.insert("app1".to_string(), old), Ok(()));
    assert_eq!(registry.insert("app1".to_string(), new.clone()), Ok(()));
    assert_eq!(registry.packages_of("app1"), Some(&new));
    assert!(registry.lookup("app1", PkgType::Extension, &"foo".to_string()).is_none());
    assert!(registry.lookup("app1", PkgType::Extension, &"bar".to_string()).is_some());
}

#[test]
fn a_package_that_is_not_installed_is_a_fault() {
    let mut registry = PackageInfoRegistry::new();
    let pkgs = vec![
        package("app1", PkgType::Extension, "foo", "1.0.0", true),
        package("app1", PkgType::Extension, "bar", "1.0.0", false),
        package("app1", PkgType::Extension, "baz", "1.0.0", false),
    ];
    assert_eq!(
        registry.insert("app1".to_string(), pkgs),
        Err(RegistryFault { app_uri: "app1".to_string(), index: 1 })
    );
    assert!(!registry.has_app("app1"));
    assert_eq!(registry.packages_of("app1"), None);
}

#[test]
fn a_fault_leaves_the_registry_as_it_was() {
    let mut registry = PackageInfoRegistry::new();
    let good = vec![package("app1", PkgType::Extension, "foo", "1.0.0", true)];
    assert_eq!(registry.insert("app1".to_string(), good.clone()), Ok(()));
    let bad = vec![package("app1", PkgType::Extension, "bar", "1.0.0", false)];
    assert_eq!(
        registry.insert("app1".to_string(), bad),
        Err(RegistryFault { app_uri: "app1".to_string(), index: 0 })
    );
    assert_eq!(registry.packages_of("app1"), Some(&good));
}

#[test]
fn a_fault_is_no_finding_of_a_validation() {
    let mut registry = PackageInfoRegistry::new();
    let bad = vec![package("app1", PkgType::Extension, "foo", "1.0.0", false)];
    let fault = registry.insert("app1".to_string(), bad).unwrap_err();
    assert_eq!(fault, RegistryFault { app_uri: "app1".to_string(), index: 0 });
    let graph = Graph {
        nodes: vec![GraphNode {
            app_uri: Some("app1".to_string()),
            identity: PackageIdentity::new(PkgType::Extension, "foo".to_string()).unwrap(),
            addon: "foo".to_string(),
            property: None,
        }],
        connections: Vec::new(),
    };
    assert!(validate_installation(&graph, &registry, true).is_empty());
    assert_eq!(validate_installation(&graph, &registry, false).len(), 1);
}

#[test]
fn lookup_finds_the_first_package_of_that_kind_and_name() {
    let mut registry = PackageInfoRegistry::new();
    let pkgs = vec![
        package("app1", PkgType::Protocol, "foo", "0.1.0", true),
        package("app1", PkgType::Extension, "foo", "1.0.0", true),
        package("app1", PkgType::Extension, "foo", "2.0.0", true),
    ];
    assert_eq!(registry.insert("app1".to_string(), pkgs.clone()), Ok(()));
    assert_eq!(registry.lookup("app1", PkgType::Extension, &"foo".to_string()), Some(&pkgs[1]));
    assert_eq!(registry.lookup("app1", PkgType::Protocol, &"foo".to_string()), Some(&pkgs[0]));
    assert_eq!(registry.lookup("app1", PkgType::System, &"foo".to_string()), None);
    assert_eq!(registry.lookup("app1", PkgType::Extension, &"fo".to_string()), None);
    assert_eq!(registry.lookup("app2", PkgType::Extension, &"foo".to_string()), None);
}

#[test]
fn find_package_gives_the_first_place() {
    let pkgs = vec![
        package("app1", PkgType::Protocol, "foo", "0.1.0", true),
        package("app1", PkgType::Extension, "foo", "1.0.0", true),
        package("app1", PkgType::Extension, "foo", "2.0.0", true),
    ];
    assert_eq!(find_package(&pkgs, PkgType::Protocol, &"foo".to_string()), Some(0));
    assert_eq!(find_package(&pkgs, PkgType::Extension, &"foo".to_string()), Some(1));
    assert_eq!(find_package(&pkgs, PkgType::AddonLoader, &"foo".to_string()), None);
    assert_eq!(find_package(&pkgs, PkgType::Extension, &"bar".to_string()), None);
    assert_eq!(find_package(&Vec::new(), PkgType::Extension, &"foo".to_string()), None);
}
