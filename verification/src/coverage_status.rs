//! The state of code coverage and the coverage report itself.
use vstd::prelude::*;

verus! {

/// A node of a coverage report (grcov's `covdir` format): a file or a
/// directory, with its children in report order.
#[derive(Debug, PartialEq)]
pub struct CovdirJson {
    pub children: Option<Vec<(String, CovdirJson)>>,
    /// The percentage of lines covered, as text in the form that `f64`'s
    /// `Display` gives the report's number (for example `88` for `88.0`, or
    /// `66.67`); numbers are held as text here, so whoever builds a node
    /// formats the number that way.
    pub coverage_percent: String,
    pub lines_covered: u64,
    pub lines_missed: u64,
    pub lines_total: u64,
    pub name: String,
}

/// Where code coverage stands.
#[derive(Debug, PartialEq)]
pub enum CoverageStatus {
    Disabled,
    Preparing,
    Running,
    Done(Box<CovdirJson>),
    Error(String),
}

/// Whether a report node is shown as a single line: it has no children.
pub open spec fn is_leaf(node: CovdirJson) -> bool {
    match node.children {
        None => true,
        Some(children) => children@.len() == 0,
    }
}

impl CovdirJson {
    /// Whether the node is shown as a single line rather than as a header
    /// that opens onto its children.
    pub fn is_leaf(&self) -> (r: bool)
        ensures
            r == is_leaf(*self),
    {
        match &self.children {
            None => true,
            Some(children) => children.len() == 0,
        }
    }

    /// The coverage shown beside the name: the percentage followed by `%`.
    pub fn percent_label(&self) -> (r: String)
        ensures
            r@ == self.coverage_percent@ + "%"@,
    {
        let mut label = self.coverage_percent.clone();
        label.append("%");
        label
    }
}

} // verus!
