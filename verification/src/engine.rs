//! Validation passes and the engine that runs them one after the other.

use crate::graph::{Graph, GraphView};
use crate::registry::{PackageInfoRegistry, RegistryView};
use crate::report::{found_by, FindingView, ValidationReport, ValidationViolation, ViolationView};
use vstd::prelude::*;

verus! {

/// A single check of a graph against what is installed. A pass reads the
/// graph and the registry and changes neither; what it finds depends on
/// them and on the pass alone, so passes may run in any order.
pub trait ValidationPass {
    /// What the pass finds in `graph` when `registry` lists what is
    /// installed: every violation, in the order of discovery.
    spec fn findings(&self, graph: GraphView, registry: RegistryView) -> Seq<ViolationView>;

    /// Runs the pass and gives all that it finds, not the first finding
    /// alone.
    fn run(&self, graph: &Graph, registry: &PackageInfoRegistry) -> (found: Vec<
        ValidationViolation,
    >)
        ensures
            found.deep_view() == self.findings(graph@, registry@),
    ;
}

/// For each pass of `passes`, in their order, what it finds, marked with
/// the place of the pass.
pub open spec fn findings_by_pass<P: ValidationPass>(
    passes: Seq<P>,
    graph: GraphView,
    registry: RegistryView,
) -> Seq<Seq<FindingView>> {
    Seq::new(
        passes.len(),
        |place: int| found_by(place as nat, passes[place].findings(graph, registry)),
    )
}

/// The report of running `passes` in their order: the findings of the first
/// pass, then those of the second, and so on.
pub open spec fn merged_findings<P: ValidationPass>(
    passes: Seq<P>,
    graph: GraphView,
    registry: RegistryView,
) -> Seq<FindingView> {
    findings_by_pass(passes, graph, registry).flatten()
}

/// Runs `passes` in their order on `graph` and `registry` and collects what
/// they find in one report.
pub fn run_passes<P: ValidationPass>(
    passes: &[P],
    graph: &Graph,
    registry: &PackageInfoRegistry,
) -> (report: ValidationReport)
    ensures
        report@ == merged_findings(passes@, graph@, registry@),
{
    let mut report = ValidationReport::new();
    let mut place: usize = 0;
    while place < passes.len()
        invariant
            place <= passes.len(),
            report@ == merged_findings(passes@.take(place as int), graph@, registry@),
        decreases passes.len() - place,
    {
        let found = passes[place].run(graph, registry);
        proof {
            let done = findings_by_pass(passes@.take(place as int), graph@, registry@);
            let next = found_by(place as nat, passes@[place as int].findings(graph@, registry@));
            assert(findings_by_pass(passes@.take(place + 1), graph@, registry@) == done.push(next));
            done.lemma_flatten_push(next);
        }
        report.record(place, found);
        place += 1;
    }
    assert(passes@.take(place as int) == passes@);
    report
}

} // verus!
