//! The coverage view: where coverage stands, and the report once it is done.
use vstd::prelude::*;

use crate::configuration::{ChangeModel, ConfigurationChange};
use crate::coverage_status::CoverageStatus;
use crate::dock_view::{Color, DockId, DockView};

verus! {

/// The coverage view.
pub struct CoverageView;

/// The heading the coverage view shows for a status: a text and a color,
/// or no heading while the finished report is shown.
pub open spec fn coverage_heading(status: CoverageStatus) -> Option<(Seq<char>, Option<Color>)> {
    match status {
        CoverageStatus::Disabled => Some(("Code coverage is disabled"@, None)),
        CoverageStatus::Error(message) => Some((message@, Some(Color::Red))),
        CoverageStatus::Preparing => Some(("Preparing..."@, None)),
        CoverageStatus::Running => Some(("Running..."@, None)),
        CoverageStatus::Done(_) => None,
    }
}

impl CoverageView {
    /// The heading shown for `status` (with its color where it has one), or
    /// `None` when the report is shown instead.
    pub fn heading(status: &CoverageStatus) -> (r: Option<(String, Option<Color>)>)
        ensures
            match coverage_heading(*status) {
                Some((text, color)) => r matches Some(h) && h.0@ == text && h.1 == color,
                None => r is None,
            },
    {
        match status {
            CoverageStatus::Disabled => Some((String::from_str("Code coverage is disabled"), None)),
            CoverageStatus::Error(message) => Some((message.clone(), Some(Color::Red))),
            CoverageStatus::Preparing => Some((String::from_str("Preparing..."), None)),
            CoverageStatus::Running => Some((String::from_str("Running..."), None)),
            CoverageStatus::Done(_) => None,
        }
    }

    /// Whether the `Enable` button is shown: only while coverage is disabled.
    pub fn shows_enable_button(status: &CoverageStatus) -> (r: bool)
        ensures
            r == (*status is Disabled),
    {
        match status {
            CoverageStatus::Disabled => true,
            _ => false,
        }
    }

    /// The change the view asks for: enabling coverage when the `Enable`
    /// button, shown while coverage is disabled, was clicked.
    pub fn ui_change(status: &CoverageStatus, enable_clicked: bool) -> (r: Option<ConfigurationChange>)
        ensures
            match r {
                Some(change) => *status is Disabled && enable_clicked && change@
                    == ChangeModel::CoverageEnabled(true),
                None => !(*status is Disabled && enable_clicked),
            },
    {
        if Self::shows_enable_button(status) && enable_clicked {
            Some(ConfigurationChange::CoverageEnabled(true))
        } else {
            None
        }
    }
}

impl DockView for CoverageView {
    open spec fn dock_id(&self) -> Seq<char> {
        "coverage_view"@
    }

    open spec fn dock_title(&self) -> Seq<char> {
        "Coverage"@
    }

    fn id(&self) -> (r: DockId) {
        DockId::new("coverage_view")
    }

    fn title(&self) -> (r: String) {
        String::from_str("Coverage")
    }
}

} // verus!
