//! The installation-presence pass: every addon that a node of the graph
//! instantiates has to be installed in the node's application.

use crate::engine::ValidationPass;
use crate::graph::{Graph, GraphNode, GraphNodeView, GraphView};
use crate::pkg_info::PackageInfoView;
use crate::registry::{all_installed, find_package, provides, PackageInfoRegistry, RegistryView};
use crate::report::{found_by, ValidationReport, ValidationViolation, ViolationView};
use vstd::prelude::*;

verus! {

/// The installed packages of the application that `node` belongs to, where
/// `registry` has that application. A node that names no application
/// belongs to none that the registry has.
pub open spec fn packages_of_app(node: GraphNodeView, registry: RegistryView) -> Option<
    Seq<PackageInfoView>,
> {
    match node.app_uri {
        Some(uri) => if registry.contains_key(uri) {
            Some(registry[uri])
        } else {
            None
        },
        None => None,
    }
}

/// Whether the addon of `node` counts as missing. Where the registry has
/// the node's application, it is missing when no package of the node's
/// kind and the addon's name is installed there. Where it has not, the
/// whole application is missing, unless `skip_if_app_not_exist` says to
/// pass over such nodes.
pub open spec fn is_missing(
    node: GraphNodeView,
    registry: RegistryView,
    skip_if_app_not_exist: bool,
) -> bool {
    match packages_of_app(node, registry) {
        Some(pkgs) => !provides(pkgs, node.identity.pkg_type, node.addon),
        None => !skip_if_app_not_exist,
    }
}

/// The violation that reports the addon of `node` as not installed.
pub open spec fn not_installed(node: GraphNodeView) -> ViolationView {
    ViolationView::NotInstalled {
        app_uri: node.app_uri,
        pkg_type: node.identity.pkg_type,
        addon: node.addon,
    }
}

/// What the pass finds at one node: its violation where its addon is
/// missing, nothing otherwise.
pub open spec fn node_finding(
    node: GraphNodeView,
    registry: RegistryView,
    skip_if_app_not_exist: bool,
) -> Option<ViolationView> {
    if is_missing(node, registry, skip_if_app_not_exist) {
        Some(not_installed(node))
    } else {
        None
    }
}

/// What the pass finds in `nodes`: the violation of each node whose addon
/// is missing, in the order of the nodes.
pub open spec fn installation_findings(
    nodes: Seq<GraphNodeView>,
    registry: RegistryView,
    skip_if_app_not_exist: bool,
) -> Seq<ViolationView> {
    nodes.filter_map(|node: GraphNodeView| node_finding(node, registry, skip_if_app_not_exist))
}

/// The pass that looks for addons that are not installed.
#[derive(Clone, Copy, Debug, PartialEq, Eq)]
pub struct InstallationPresencePass {
    /// Whether to pass over the nodes of applications that the registry
    /// does not have, instead of reporting them.
    pub skip_if_app_not_exist: bool,
}

impl InstallationPresencePass {
    /// Checks one node: gives its violation where its addon is missing.
    pub fn check_node(&self, node: &GraphNode, registry: &PackageInfoRegistry) -> (finding: Option<
        ValidationViolation,
    >)
        ensures
            finding.deep_view() == node_finding(node@, registry@, self.skip_if_app_not_exist),
    {
        let missing = match &node.app_uri {
            None => !self.skip_if_app_not_exist,
            Some(uri) => match registry.packages_of(uri.as_str()) {
                None => !self.skip_if_app_not_exist,
                Some(pkgs) => {
                    // A registry holds installed packages only: the search
                    // meets no other.
                    assert(all_installed(pkgs.deep_view()));
                    find_package(pkgs, node.identity.pkg_type(), &node.addon).is_none()
                },
            },
        };
        if missing {
            let app_uri = match &node.app_uri {
                None => None,
                Some(uri) => Some(uri.clone()),
            };
            Some(
                ValidationViolation::NotInstalled {
                    app_uri,
                    pkg_type: node.identity.pkg_type(),
                    addon: node.addon.clone(),
                },
            )
        } else {
            None
        }
    }
}

impl ValidationPass for InstallationPresencePass {
    open spec fn findings(&self, graph: GraphView, registry: RegistryView) -> Seq<ViolationView> {
        installation_findings(graph.nodes, registry, self.skip_if_app_not_exist)
    }

    fn run(&self, graph: &Graph, registry: &PackageInfoRegistry) -> (found: Vec<
        ValidationViolation,
    >) {
        let ghost nodes = graph@.nodes;
        let ghost check = |node: GraphNodeView|
            node_finding(node, registry@, self.skip_if_app_not_exist);
        let mut found: Vec<ValidationViolation> = Vec::new();
        let mut i: usize = 0;
        while i < graph.nodes.len()
            invariant
                i <= graph.nodes.len(),
                nodes == graph@.nodes,
                check == |node: GraphNodeView|
                    node_finding(node, registry@, self.skip_if_app_not_exist),
                found.deep_view() == nodes.take(i as int).filter_map(check),
            decreases graph.nodes.len() - i,
        {
            let finding = self.check_node(&graph.nodes[i], registry);
            proof {
                nodes.lemma_filter_map_take_succ(check, i as int);
            }
            match finding {
                Some(violation) => {
                    let ghost before = found.deep_view();
                    found.push(violation);
                    assert(found.deep_view() == before.push(violation@));
                },
                None => {},
            }
            i += 1;
        }
        assert(nodes.take(i as int) == nodes);
        found
    }
}

/// Checks that every addon that a node of `graph` instantiates is
/// installed, and reports each node whose addon is missing, in the order of
/// the nodes.
pub fn validate_installation(
    graph: &Graph,
    registry: &PackageInfoRegistry,
    skip_if_app_not_exist: bool,
) -> (report: ValidationReport)
    ensures
        report@ == found_by(
            0,
            installation_findings(graph@.nodes, registry@, skip_if_app_not_exist),
        ),
{
    let pass = InstallationPresencePass { skip_if_app_not_exist };
    let mut report = ValidationReport::new();
    report.record(0, pass.run(graph, registry));
    report
}

impl Graph {
    /// Checks that the addon of every node is installed: `Ok` where none is
    /// missing, otherwise the report of every node whose addon is.
    pub fn check_if_nodes_have_installed(
        &self,
        registry: &PackageInfoRegistry,
        skip_if_app_not_exist: bool,
    ) -> (outcome: Result<(), ValidationReport>)
        ensures
            outcome is Ok <==> installation_findings(
                self@.nodes,
                registry@,
                skip_if_app_not_exist,
            ).len() == 0,
            outcome matches Err(report) ==> report@ == found_by(
                0,
                installation_findings(self@.nodes, registry@, skip_if_app_not_exist),
            ),
    {
        let report = validate_installation(self, registry, skip_if_app_not_exist);
        if report.is_empty() {
            Ok(())
        } else {
            Err(report)
        }
    }
}

} // verus!
