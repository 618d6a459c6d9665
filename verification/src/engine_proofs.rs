//! What holds of a run of passes, whatever the passes are.

use crate::engine::{findings_by_pass, merged_findings, ValidationPass};
use crate::graph::GraphView;
use crate::registry::RegistryView;
use crate::report::{found_by, FindingView, ViolationView};
use vstd::multiset::Multiset;
use vstd::prelude::*;
use vstd::seq_lib::{lemma_multiset_commutative, to_multiset_build, to_multiset_contains, to_multiset_len, to_multiset_remove};

verus! {

/// The findings of `report` that are marked with the pass at `place`, in
/// their order.
pub open spec fn findings_of_pass(report: Seq<FindingView>, place: nat) -> Seq<FindingView> {
    report.filter(|finding: FindingView| finding.pass == place)
}

/// The report of the passes before the last is the opening of the report of
/// all of them; what the last pass finds closes it.
pub proof fn lemma_last_pass_closes_report<P: ValidationPass>(
    passes: Seq<P>,
    graph: GraphView,
    registry: RegistryView,
)
    requires
        passes.len() > 0,
    ensures
        merged_findings(passes, graph, registry) == merged_findings(
            passes.drop_last(),
            graph,
            registry,
        ) + found_by((passes.len() - 1) as nat, passes.last().findings(graph, registry)),
{
    let earlier = findings_by_pass(passes.drop_last(), graph, registry);
    let closing = found_by((passes.len() - 1) as nat, passes.last().findings(graph, registry));
    assert(findings_by_pass(passes, graph, registry) == earlier.push(closing));
    earlier.lemma_flatten_push(closing);
}

/// A pass that runs alone gives the whole report: its findings, in their
/// order, under the mark 0.
pub proof fn lemma_report_of_one_pass<P: ValidationPass>(
    pass: P,
    graph: GraphView,
    registry: RegistryView,
)
    ensures
        merged_findings(seq![pass], graph, registry) == found_by(
            0,
            pass.findings(graph, registry),
        ),
{
    let alone = seq![pass];
    lemma_last_pass_closes_report(alone, graph, registry);
    assert(findings_by_pass(alone.drop_last(), graph, registry) == Seq::<
        Seq<FindingView>,
    >::empty());
}

/// Every finding of a report names a pass that was run.
pub proof fn lemma_findings_name_their_pass<P: ValidationPass>(
    passes: Seq<P>,
    graph: GraphView,
    registry: RegistryView,
)
    ensures
        forall|i: int|
            0 <= i < merged_findings(passes, graph, registry).len() ==> (#[trigger] merged_findings(
                passes,
                graph,
                registry,
            )[i]).pass < passes.len(),
    decreases passes.len(),
{
    if passes.len() > 0 {
        lemma_last_pass_closes_report(passes, graph, registry);
        lemma_findings_name_their_pass(passes.drop_last(), graph, registry);
    } else {
        assert(findings_by_pass(passes, graph, registry) == Seq::<Seq<FindingView>>::empty());
    }
}

/// A report is in the order of its passes: no finding stands before a
/// finding of an earlier pass.
pub proof fn lemma_report_follows_passes<P: ValidationPass>(
    passes: Seq<P>,
    graph: GraphView,
    registry: RegistryView,
)
    ensures
        forall|i: int, j: int|
            0 <= i <= j < merged_findings(passes, graph, registry).len() ==> (
            #[trigger] merged_findings(passes, graph, registry)[i]).pass <= (
            #[trigger] merged_findings(passes, graph, registry)[j]).pass,
    decreases passes.len(),
{
    if passes.len() > 0 {
        lemma_last_pass_closes_report(passes, graph, registry);
        lemma_report_follows_passes(passes.drop_last(), graph, registry);
        lemma_findings_name_their_pass(passes.drop_last(), graph, registry);
    } else {
        assert(findings_by_pass(passes, graph, registry) == Seq::<Seq<FindingView>>::empty());
    }
}

/// Passes do not touch each other's findings: what the report holds under
/// the mark of a pass is what that pass finds on its own, in the same
/// order, whichever passes run before or after it.
pub proof fn lemma_report_keeps_each_pass<P: ValidationPass>(
    passes: Seq<P>,
    graph: GraphView,
    registry: RegistryView,
    place: int,
)
    requires
        0 <= place < passes.len(),
    ensures
        findings_of_pass(merged_findings(passes, graph, registry), place as nat) == found_by(
            place as nat,
            passes[place].findings(graph, registry),
        ),
    decreases passes.len(),
{
    let marked = |finding: FindingView| finding.pass == place as nat;
    let last = (passes.len() - 1) as nat;
    let earlier = merged_findings(passes.drop_last(), graph, registry);
    let closing = found_by(last, passes.last().findings(graph, registry));
    lemma_last_pass_closes_report(passes, graph, registry);
    Seq::filter_distributes_over_add(earlier, closing, marked);
    if place == last {
        lemma_findings_name_their_pass(passes.drop_last(), graph, registry);
        earlier.lemma_all_neg_filter_empty(marked);
        lemma_filter_keeps_all(closing, marked);
    } else {
        lemma_report_keeps_each_pass(passes.drop_last(), graph, registry, place);
        closing.lemma_all_neg_filter_empty(marked);
    }
}

/// The violations of `report`, in their order, without the marks of the
/// passes.
pub open spec fn violations_of(report: Seq<FindingView>) -> Seq<ViolationView> {
    report.map_values(|finding: FindingView| finding.violation)
}

/// All that the passes of `passes` find, each violation as often as it is
/// found, in no order.
pub open spec fn all_found<P: ValidationPass>(
    passes: Seq<P>,
    graph: GraphView,
    registry: RegistryView,
) -> Multiset<ViolationView>
    decreases passes.len(),
{
    if passes.len() == 0 {
        Multiset::empty()
    } else {
        all_found(passes.drop_last(), graph, registry).add(
            passes.last().findings(graph, registry).to_multiset(),
        )
    }
}

/// A report holds what its passes find, no more and no less, each violation
/// as often as it is found.
pub proof fn lemma_report_holds_all_found<P: ValidationPass>(
    passes: Seq<P>,
    graph: GraphView,
    registry: RegistryView,
)
    ensures
        violations_of(merged_findings(passes, graph, registry)).to_multiset() == all_found(
            passes,
            graph,
            registry,
        ),
    decreases passes.len(),
{
    if passes.len() > 0 {
        let found = passes.last().findings(graph, registry);
        let earlier = merged_findings(passes.drop_last(), graph, registry);
        let closing = found_by((passes.len() - 1) as nat, found);
        lemma_last_pass_closes_report(passes, graph, registry);
        lemma_report_holds_all_found(passes.drop_last(), graph, registry);
        assert(violations_of(closing) == found);
        assert(violations_of(earlier + closing) == violations_of(earlier) + found);
        lemma_multiset_commutative(violations_of(earlier), found);
    } else {
        assert(findings_by_pass(passes, graph, registry) == Seq::<Seq<FindingView>>::empty());
        assert(violations_of(Seq::<FindingView>::empty()) == Seq::<ViolationView>::empty());
        to_multiset_len(Seq::<ViolationView>::empty());
        assert(Seq::<ViolationView>::empty().to_multiset() == Multiset::<ViolationView>::empty());
    }
}

proof fn lemma_all_found_without<P: ValidationPass>(
    passes: Seq<P>,
    graph: GraphView,
    registry: RegistryView,
    place: int,
)
    requires
        0 <= place < passes.len(),
    ensures
        all_found(passes, graph, registry) == all_found(passes.remove(place), graph, registry).add(
            passes[place].findings(graph, registry).to_multiset(),
        ),
    decreases passes.len(),
{
    if place == passes.len() - 1 {
        assert(passes.remove(place) == passes.drop_last());
    } else {
        lemma_all_found_without(passes.drop_last(), graph, registry, place);
        assert(passes.remove(place).drop_last() == passes.drop_last().remove(place));
        assert(passes.remove(place).last() == passes.last());
        assert(passes.drop_last()[place] == passes[place]);
    }
}

proof fn lemma_all_found_of_rearranged<P: ValidationPass>(
    first: Seq<P>,
    second: Seq<P>,
    graph: GraphView,
    registry: RegistryView,
)
    requires
        first.to_multiset() == second.to_multiset(),
    ensures
        all_found(first, graph, registry) == all_found(second, graph, registry),
    decreases first.len(),
{
    to_multiset_len(first);
    to_multiset_len(second);
    if first.len() > 0 {
        let pass = first.last();
        assert(first.drop_last().push(pass) == first);
        to_multiset_build(first.drop_last(), pass);
        to_multiset_contains(second, pass);
        let place = choose|place: int| 0 <= place < second.len() && second[place] == pass;
        to_multiset_remove(second, place);
        assert(first.drop_last().to_multiset() == second.remove(place).to_multiset());
        lemma_all_found_of_rearranged(first.drop_last(), second.remove(place), graph, registry);
        lemma_all_found_without(second, graph, registry, place);
    }
}

/// The order of the passes changes the order of the report and nothing
/// else: run in any other order, the same passes report the same
/// violations, each as often.
pub proof fn lemma_order_of_passes_is_immaterial<P: ValidationPass>(
    first: Seq<P>,
    second: Seq<P>,
    graph: GraphView,
    registry: RegistryView,
)
    requires
        first.to_multiset() == second.to_multiset(),
    ensures
        violations_of(merged_findings(first, graph, registry)).to_multiset() == violations_of(
            merged_findings(second, graph, registry),
        ).to_multiset(),
        merged_findings(first, graph, registry).len() == merged_findings(
            second,
            graph,
            registry,
        ).len(),
{
    lemma_report_holds_all_found(first, graph, registry);
    lemma_report_holds_all_found(second, graph, registry);
    lemma_all_found_of_rearranged(first, second, graph, registry);
    to_multiset_len(violations_of(merged_findings(first, graph, registry)));
    to_multiset_len(violations_of(merged_findings(second, graph, registry)));
}

proof fn lemma_filter_keeps_all<A>(s: Seq<A>, pred: spec_fn(A) -> bool)
    requires
        forall|i: int| 0 <= i < s.len() ==> pred(#[trigger] s[i]),
    ensures
        s.filter(pred) == s,
    decreases s.len(),
{
    reveal(Seq::filter);
    if s.len() > 0 {
        lemma_filter_keeps_all(s.drop_last(), pred);
        assert(s.drop_last().push(s.last()) == s);
    }
}

} // verus!
