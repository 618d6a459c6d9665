//! What holds of the installation-presence pass, for every graph and every
//! registry.

use crate::graph::{Graph, GraphNodeView};
use crate::installation::{
    installation_findings, is_missing, node_finding, not_installed, packages_of_app,
};
use crate::registry::{provides, PackageInfoRegistry, RegistryView};
use crate::report::{found_by, ValidationReport, ViolationView};
use vstd::prelude::*;

verus! {

/// What one node adds to the findings: its violation where its addon is
/// missing, nothing otherwise.
pub open spec fn node_findings(
    node: GraphNodeView,
    registry: RegistryView,
    skip_if_app_not_exist: bool,
) -> Seq<ViolationView> {
    match node_finding(node, registry, skip_if_app_not_exist) {
        Some(violation) => seq![violation],
        None => Seq::empty(),
    }
}

/// The number of findings that the first `count` nodes give rise to. Where
/// the node at place `count` has a finding, this is its place among the
/// findings.
pub open spec fn findings_before(
    nodes: Seq<GraphNodeView>,
    registry: RegistryView,
    skip_if_app_not_exist: bool,
    count: int,
) -> int {
    installation_findings(nodes.take(count), registry, skip_if_app_not_exist).len() as int
}

/// The nodes of `nodes` whose application `registry` has, in their order.
pub open spec fn nodes_of_known_apps(nodes: Seq<GraphNodeView>, registry: RegistryView) -> Seq<
    GraphNodeView,
> {
    nodes.filter(|node: GraphNodeView| packages_of_app(node, registry) is Some)
}

/// The findings grow node by node: the findings of the first `i + 1` nodes
/// are those of the first `i` nodes, followed by what node `i` adds.
pub proof fn lemma_findings_step(
    nodes: Seq<GraphNodeView>,
    registry: RegistryView,
    skip_if_app_not_exist: bool,
    i: int,
)
    requires
        0 <= i < nodes.len(),
    ensures
        installation_findings(nodes.take(i + 1), registry, skip_if_app_not_exist)
            == installation_findings(nodes.take(i), registry, skip_if_app_not_exist)
            + node_findings(nodes[i], registry, skip_if_app_not_exist),
        findings_before(nodes, registry, skip_if_app_not_exist, i + 1) == findings_before(
            nodes,
            registry,
            skip_if_app_not_exist,
            i,
        ) + (if is_missing(nodes[i], registry, skip_if_app_not_exist) {
            1int
        } else {
            0int
        }),
{
    nodes.lemma_filter_map_take_succ(
        |node: GraphNodeView| node_finding(node, registry, skip_if_app_not_exist),
        i,
    );
}

/// The findings of the first `count` nodes open the findings of all nodes.
pub proof fn lemma_findings_prefix(
    nodes: Seq<GraphNodeView>,
    registry: RegistryView,
    skip_if_app_not_exist: bool,
    count: int,
)
    requires
        0 <= count <= nodes.len(),
    ensures
        installation_findings(nodes.take(count), registry, skip_if_app_not_exist).is_prefix_of(
            installation_findings(nodes, registry, skip_if_app_not_exist),
        ),
    decreases nodes.len() - count,
{
    if count == nodes.len() {
        assert(nodes.take(count) == nodes);
    } else {
        lemma_findings_step(nodes, registry, skip_if_app_not_exist, count);
        lemma_findings_prefix(nodes, registry, skip_if_app_not_exist, count + 1);
    }
}

/// Every node whose addon is missing has a finding of its own: it stands at
/// the place `findings_before` of the node and is the node's violation.
pub proof fn lemma_missing_node_is_reported(
    nodes: Seq<GraphNodeView>,
    registry: RegistryView,
    skip_if_app_not_exist: bool,
    i: int,
)
    requires
        0 <= i < nodes.len(),
        is_missing(nodes[i], registry, skip_if_app_not_exist),
    ensures
        0 <= findings_before(nodes, registry, skip_if_app_not_exist, i) < installation_findings(
            nodes,
            registry,
            skip_if_app_not_exist,
        ).len(),
        installation_findings(nodes, registry, skip_if_app_not_exist)[findings_before(
            nodes,
            registry,
            skip_if_app_not_exist,
            i,
        )] == not_installed(nodes[i]),
{
    lemma_findings_step(nodes, registry, skip_if_app_not_exist, i);
    lemma_findings_prefix(nodes, registry, skip_if_app_not_exist, i + 1);
    let place = findings_before(nodes, registry, skip_if_app_not_exist, i);
    let opening = installation_findings(nodes.take(i + 1), registry, skip_if_app_not_exist);
    assert(opening[place] == not_installed(nodes[i]));
    assert(opening[place] == installation_findings(nodes, registry, skip_if_app_not_exist)[place]);
}

/// The places of the findings follow the order of the nodes: no node's
/// finding stands before the place of an earlier node, and a node whose
/// addon is missing pushes every later place up by one.
pub proof fn lemma_places_follow_nodes(
    nodes: Seq<GraphNodeView>,
    registry: RegistryView,
    skip_if_app_not_exist: bool,
    i: int,
    j: int,
)
    requires
        0 <= i <= j <= nodes.len(),
    ensures
        findings_before(nodes, registry, skip_if_app_not_exist, i) <= findings_before(
            nodes,
            registry,
            skip_if_app_not_exist,
            j,
        ),
        i < j && is_missing(nodes[i], registry, skip_if_app_not_exist) ==> findings_before(
            nodes,
            registry,
            skip_if_app_not_exist,
            i,
        ) < findings_before(nodes, registry, skip_if_app_not_exist, j),
    decreases j - i,
{
    if i < j {
        lemma_findings_step(nodes, registry, skip_if_app_not_exist, j - 1);
        lemma_places_follow_nodes(nodes, registry, skip_if_app_not_exist, i, j - 1);
    }
}

/// Every finding is the violation of a node whose addon is missing, and
/// stands at that node's place.
pub proof fn lemma_finding_has_node(
    nodes: Seq<GraphNodeView>,
    registry: RegistryView,
    skip_if_app_not_exist: bool,
    place: int,
) -> (i: int)
    requires
        0 <= place < installation_findings(nodes, registry, skip_if_app_not_exist).len(),
    ensures
        0 <= i < nodes.len(),
        is_missing(nodes[i], registry, skip_if_app_not_exist),
        findings_before(nodes, registry, skip_if_app_not_exist, i) == place,
        installation_findings(nodes, registry, skip_if_app_not_exist)[place] == not_installed(
            nodes[i],
        ),
    decreases nodes.len(),
{
    assert(nodes.len() > 0);
    let last = nodes.len() - 1;
    assert(nodes.take(last + 1) == nodes);
    lemma_findings_step(nodes, registry, skip_if_app_not_exist, last);
    let before = installation_findings(nodes.take(last), registry, skip_if_app_not_exist);
    if place < before.len() {
        let i = lemma_finding_has_node(nodes.take(last), registry, skip_if_app_not_exist, place);
        assert(nodes.take(last).take(i) == nodes.take(i));
        i
    } else {
        last
    }
}

/// Completeness: the findings are exactly the violations of the nodes whose
/// addon is missing. Each such node is reported, nothing else is, and there
/// are as many findings as such nodes.
pub proof fn lemma_findings_are_exact(
    nodes: Seq<GraphNodeView>,
    registry: RegistryView,
    skip_if_app_not_exist: bool,
)
    ensures
        forall|i: int|
            0 <= i < nodes.len() && is_missing(#[trigger] nodes[i], registry, skip_if_app_not_exist)
                ==> installation_findings(nodes, registry, skip_if_app_not_exist).contains(
                not_installed(nodes[i]),
            ),
        forall|violation: ViolationView|
            installation_findings(nodes, registry, skip_if_app_not_exist).contains(violation)
                ==> exists|i: int|
                0 <= i < nodes.len() && is_missing(
                    #[trigger] nodes[i],
                    registry,
                    skip_if_app_not_exist,
                ) && violation == not_installed(nodes[i]),
        installation_findings(nodes, registry, skip_if_app_not_exist).len() == nodes.filter(
            |node: GraphNodeView| is_missing(node, registry, skip_if_app_not_exist),
        ).len(),
{
    let findings = installation_findings(nodes, registry, skip_if_app_not_exist);
    assert forall|i: int|
        0 <= i < nodes.len() && is_missing(
            #[trigger] nodes[i],
            registry,
            skip_if_app_not_exist,
        ) implies findings.contains(not_installed(nodes[i])) by {
        lemma_missing_node_is_reported(nodes, registry, skip_if_app_not_exist, i);
    }
    assert forall|violation: ViolationView| findings.contains(violation) implies exists|i: int|
        0 <= i < nodes.len() && is_missing(#[trigger] nodes[i], registry, skip_if_app_not_exist)
            && violation == not_installed(nodes[i]) by {
        let place = choose|place: int| 0 <= place < findings.len() && findings[place] == violation;
        let i = lemma_finding_has_node(nodes, registry, skip_if_app_not_exist, place);
        assert(is_missing(nodes[i], registry, skip_if_app_not_exist));
    }
    lemma_count_of_findings(nodes, registry, skip_if_app_not_exist);
}

proof fn lemma_count_of_findings(
    nodes: Seq<GraphNodeView>,
    registry: RegistryView,
    skip_if_app_not_exist: bool,
)
    ensures
        installation_findings(nodes, registry, skip_if_app_not_exist).len() == nodes.filter(
            |node: GraphNodeView| is_missing(node, registry, skip_if_app_not_exist),
        ).len(),
    decreases nodes.len(),
{
    reveal(Seq::filter);
    if nodes.len() > 0 {
        lemma_count_of_findings(nodes.drop_last(), registry, skip_if_app_not_exist);
    }
}

/// Determinism: what validation reports is fixed by what the graph and the
/// registry stand for and by the flag. Two reports of graphs with the same
/// nodes against registries with the same contents hold the same findings
/// in the same order.
pub proof fn lemma_validation_is_deterministic(
    first_graph: Graph,
    second_graph: Graph,
    first_registry: PackageInfoRegistry,
    second_registry: PackageInfoRegistry,
    skip_if_app_not_exist: bool,
    first_report: ValidationReport,
    second_report: ValidationReport,
)
    requires
        first_graph@.nodes == second_graph@.nodes,
        first_registry@ == second_registry@,
        first_report@ == found_by(
            0,
            installation_findings(first_graph@.nodes, first_registry@, skip_if_app_not_exist),
        ),
        second_report@ == found_by(
            0,
            installation_findings(second_graph@.nodes, second_registry@, skip_if_app_not_exist),
        ),
    ensures
        first_report@ == second_report@,
        first_report.findings@.len() == second_report.findings@.len(),
        forall|place: int|
            0 <= place < first_report.findings@.len() ==> (
            #[trigger] first_report.findings@[place])@ == second_report.findings@[place]@,
{
    assert(first_report@.len() == first_report.findings@.len());
    assert(second_report@.len() == second_report.findings@.len());
    assert forall|place: int| 0 <= place < first_report.findings@.len() implies (
    #[trigger] first_report.findings@[place])@ == second_report.findings@[place]@ by {
        assert(first_report@[place] == second_report@[place]);
    }
}

/// The flag decides about the nodes of applications that the registry does
/// not have, and about no others. Such a node has no finding where the flag
/// is set, and exactly its own violation where it is not. A node of an
/// application that the registry has is judged by what is installed there,
/// whatever the flag.
pub proof fn lemma_flag_decides_unknown_apps(node: GraphNodeView, registry: RegistryView)
    ensures
        packages_of_app(node, registry) is None ==> {
            &&& node_findings(node, registry, true) == Seq::<ViolationView>::empty()
            &&& node_findings(node, registry, false) == seq![not_installed(node)]
        },
        packages_of_app(node, registry) matches Some(pkgs) ==> {
            &&& node_findings(node, registry, true) == node_findings(node, registry, false)
            &&& is_missing(node, registry, true) == !provides(
                pkgs,
                node.identity.pkg_type,
                node.addon,
            )
        },
{
}

/// With the flag set, the nodes of applications that the registry does not
/// have are passed over: the findings are those of the graph without these
/// nodes, with or without the flag.
pub proof fn lemma_flag_passes_over_unknown_apps(
    nodes: Seq<GraphNodeView>,
    registry: RegistryView,
    skip_if_app_not_exist: bool,
)
    ensures
        installation_findings(nodes, registry, true) == installation_findings(
            nodes_of_known_apps(nodes, registry),
            registry,
            skip_if_app_not_exist,
        ),
    decreases nodes.len(),
{
    reveal(Seq::filter);
    let known = |node: GraphNodeView| packages_of_app(node, registry) is Some;
    if nodes.len() > 0 {
        let last = nodes.last();
        lemma_flag_passes_over_unknown_apps(nodes.drop_last(), registry, skip_if_app_not_exist);
        if known(last) {
            let kept = nodes.drop_last().filter(known);
            assert(kept.push(last).drop_last() == kept);
        }
    }
}

/// Without the flag, each node of an application that the registry does
/// not have adds exactly one finding: there are as many findings as with
/// the flag, and one more for every such node.
pub proof fn lemma_unknown_apps_are_reported(nodes: Seq<GraphNodeView>, registry: RegistryView)
    ensures
        installation_findings(nodes, registry, false).len() == installation_findings(
            nodes,
            registry,
            true,
        ).len() + nodes.len() - nodes_of_known_apps(nodes, registry).len(),
    decreases nodes.len(),
{
    reveal(Seq::filter);
    if nodes.len() > 0 {
        lemma_unknown_apps_are_reported(nodes.drop_last(), registry);
    }
}

/// Nodes are reported one by one: two nodes whose addons are missing have
/// two findings at two places, in the order of the nodes, also where both
/// name the same application, kind and addon.
pub proof fn lemma_findings_are_per_node(
    nodes: Seq<GraphNodeView>,
    registry: RegistryView,
    skip_if_app_not_exist: bool,
    i: int,
    j: int,
)
    requires
        0 <= i < j < nodes.len(),
        is_missing(nodes[i], registry, skip_if_app_not_exist),
        is_missing(nodes[j], registry, skip_if_app_not_exist),
    ensures
        ({
            let findings = installation_findings(nodes, registry, skip_if_app_not_exist);
            let first = findings_before(nodes, registry, skip_if_app_not_exist, i);
            let second = findings_before(nodes, registry, skip_if_app_not_exist, j);
            &&& 0 <= first < second < findings.len()
            &&& findings[first] == not_installed(nodes[i])
            &&& findings[second] == not_installed(nodes[j])
        }),
{
    lemma_missing_node_is_reported(nodes, registry, skip_if_app_not_exist, i);
    lemma_missing_node_is_reported(nodes, registry, skip_if_app_not_exist, j);
    lemma_places_follow_nodes(nodes, registry, skip_if_app_not_exist, i, j);
}

} // verus!
