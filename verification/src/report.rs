//! What a validation finds: violations, and the report that collects them.

use crate::pkg_info::PkgType;
use vstd::prelude::*;

verus! {

/// What a violation stands for.
pub enum ViolationView {
    NotInstalled { app_uri: Option<Seq<char>>, pkg_type: PkgType, addon: Seq<char> },
}

/// One way in which a graph is at odds with what is installed.
#[derive(Clone, Debug, PartialEq, Eq)]
pub enum ValidationViolation {
    /// A node instantiates the addon `addon` of kind `pkg_type`, and no
    /// such package is known to be installed in the application `app_uri`.
    NotInstalled { app_uri: Option<String>, pkg_type: PkgType, addon: String },
}

impl View for ValidationViolation {
    type V = ViolationView;

    open spec fn view(&self) -> ViolationView {
        match *self {
            ValidationViolation::NotInstalled { app_uri, pkg_type, addon } => {
                ViolationView::NotInstalled { app_uri: app_uri.deep_view(), pkg_type, addon: addon@ }
            },
        }
    }
}

impl DeepView for ValidationViolation {
    type V = ViolationView;

    open spec fn deep_view(&self) -> ViolationView {
        self@
    }
}

/// What a finding stands for.
pub struct FindingView {
    pub pass: nat,
    pub violation: ViolationView,
}

/// A violation together with the pass that found it: `pass` is the place
/// of that pass in the sequence of passes that was run.
#[derive(Clone, Debug, PartialEq, Eq)]
pub struct Finding {
    pub pass: usize,
    pub violation: ValidationViolation,
}

impl View for Finding {
    type V = FindingView;

    open spec fn view(&self) -> FindingView {
        FindingView { pass: self.pass as nat, violation: self.violation@ }
    }
}

impl DeepView for Finding {
    type V = FindingView;

    open spec fn deep_view(&self) -> FindingView {
        self@
    }
}

/// The violations `found`, in their order, each marked as found by the pass
/// at place `pass`.
pub open spec fn found_by(pass: nat, found: Seq<ViolationView>) -> Seq<FindingView> {
    found.map_values(|violation: ViolationView| FindingView { pass, violation })
}

/// The outcome of a validation: every finding, in the order of discovery.
/// A graph passes when the report is empty.
#[derive(Clone, Debug, PartialEq, Eq)]
pub struct ValidationReport {
    pub findings: Vec<Finding>,
}

impl View for ValidationReport {
    type V = Seq<FindingView>;

    open spec fn view(&self) -> Seq<FindingView> {
        self.findings.deep_view()
    }
}

impl ValidationReport {
    /// The report of a validation that has found nothing.
    pub fn new() -> (report: ValidationReport)
        ensures
            report@ == Seq::<FindingView>::empty(),
    {
        ValidationReport { findings: Vec::new() }
    }

    /// Whether nothing was found.
    pub fn is_empty(&self) -> (passed: bool)
        ensures
            passed == (self@.len() == 0),
    {
        self.findings.len() == 0
    }

    /// The number of findings.
    pub fn len(&self) -> (count: usize)
        ensures
            count == self@.len(),
    {
        self.findings.len()
    }

    /// Adds what the pass at place `pass` found to the end of the report.
    pub fn record(&mut self, pass: usize, found: Vec<ValidationViolation>)
        ensures
            final(self)@ == old(self)@ + found_by(pass as nat, found.deep_view()),
    {
        let ghost before = self@;
        let ghost all = found.deep_view();
        for violation in it: found
            invariant
                it.seq() == found@,
                all == found.deep_view(),
                self@ == before + found_by(pass as nat, all.take(it.index() as int)),
        {
            let ghost so_far = self@;
            let ghost next = FindingView { pass: pass as nat, violation: violation@ };
            assert(all.take(it.index() + 1) == all.take(it.index() as int).push(violation@));
            assert(found_by(pass as nat, all.take(it.index() + 1)) == found_by(
                pass as nat,
                all.take(it.index() as int),
            ).push(next));
            self.findings.push(Finding { pass, violation });
            assert(self@ == so_far.push(next));
        }
        assert(all.take(all.len() as int) == all);
    }
}

} // verus!
