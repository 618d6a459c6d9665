use tman_core::engine::{run_passes, ValidationPass};
use tman_core::graph::{Graph, GraphNode};
use tman_core::installation::{validate_installation, InstallationPresencePass};
use tman_core::pkg_info::{PackageIdentity, PackageInfo, PkgType};
use tman_core::registry::PackageInfoRegistry;
use tman_core::report::{Finding, ValidationReport, ValidationViolation};

fn node(app: &str, addon: &str) -> GraphNode {
    GraphNode {
        app_uri: Some(app.to_string()),
        identity: PackageIdentity::new(PkgType::Extension, addon.to_string()).unwrap(),
        addon: addon.to_string(),
        property: None,
    }
}

fn sample() -> (Graph, PackageInfoRegistry) {
    let graph = Graph {
        nodes: vec![node("app1", "foo"), node("app2", "foo"), node("app1", "bar")],
        connections: Vec::new(),
    };
    let mut registry = PackageInfoRegistry::new();
    let pkgs = vec![PackageInfo {
        identity: PackageIdentity::new(PkgType::Extension, "foo".to_string()).unwrap(),
        app_uri: "app1".to_string(),
        is_installed: true,
        version: "1.0.0".to_string(),
        dependencies: Vec::new(),
    }];
    assert_eq!(registry.insert("app1".to_string(), pkgs), Ok(()));
    (graph, registry)
}

fn missing(app: &str, addon: &str) -> ValidationViolation {
    ValidationViolation::NotInstalled {
        app_uri: Some(app.to_string()),
        pkg_type: PkgType::Extension,
        addon: addon.to_string(),
    }
}

#[test]
fn no_passes_find_nothing() {
    let (graph, registry) = sample();
    let passes: Vec<InstallationPresencePass> = Vec::new();
    assert!(run_passes(&passes, &graph, &registry).is_empty());
}

#[test]
fn one_pass_gives_the_report_of_that_pass() {
    let (graph, registry) = sample();
    let passes = vec![InstallationPresencePass { skip_if_app_not_exist: false }];
    assert_eq!(
        run_passes(&passes, &graph, &registry),
        validate_installation(&graph, &registry, false)
    );
}

#[test]
fn findings_are_marked_with_their_pass_and_kept_in_order() {
    let (graph, registry) = sample();
    let passes = vec![
        InstallationPresencePass { skip_if_app_not_exist: true },
        InstallationPresencePass { skip_if_app_not_exist: false },
    ];
    let report = run_passes(&passes, &graph, &registry);
    assert_eq!(
        report,
        ValidationReport {
            findings: vec![
                Finding { pass: 0, violation: missing("app1", "bar") },
                Finding { pass: 1, violation: missing("app2", "foo") },
                Finding { pass: 1, violation: missing("app1", "bar") },
            ],
        }
    );
}

#[test]
fn the_order_of_the_passes_changes_only_the_order_of_the_report() {
    let (graph, registry) = sample();
    let lenient = InstallationPresencePass { skip_if_app_not_exist: true };
    let strict = InstallationPresencePass { skip_if_app_not_exist: false };
    let one_way = run_passes(&vec![lenient, strict], &graph, &registry);
    let other_way = run_passes(&vec![strict, lenient], &graph, &registry);
    let of_pass = |report: &ValidationReport, pass: usize| -> Vec<ValidationViolation> {
        report
            .findings
            .iter()
            .filter(|finding| finding.pass == pass)
            .map(|finding| finding.violation.clone())
            .collect()
    };
    assert_eq!(of_pass(&one_way, 0), lenient.run(&graph, &registry));
    assert_eq!(of_pass(&one_way, 1), strict.run(&graph, &registry));
    assert_eq!(of_pass(&other_way, 0), strict.run(&graph, &registry));
    assert_eq!(of_pass(&other_way, 1), lenient.run(&graph, &registry));
    assert_eq!(one_way.len(), other_way.len());
    assert_eq!(one_way.len(), 3);
}

#[test]
fn record_marks_and_appends() {
    let mut report = ValidationReport::new();
    assert!(report.is_empty());
    report.record(4, vec![missing("a", "x"), missing("b", "y")]);
    report.record(7, Vec::new());
    report.record(2, vec![missing("c", "z")]);
    assert_eq!(report.len(), 3);
    assert_eq!(
        report.findings,
        vec![
            Finding { pass: 4, violation: missing("a", "x") },
            Finding { pass: 4, violation: missing("b", "y") },
            Finding { pass: 2, violation: missing("c", "z") },
        ]
    );
}
