//! The details view: the selected hypothesis, its output and its snapshots.
use vstd::prelude::*;

use crate::dock_view::{Color, DockId, DockView};
use crate::hyp::HypState;

verus! {

/// The details view.
pub struct DetailsView;

/// One part of the snapshot area of the details view, in drawing order.
#[derive(Debug, Clone, Copy, PartialEq, Eq)]
pub enum SnapshotPart {
    /// The heading `Current`.
    CurrentHeading,
    /// The current (approved) snapshot, or its error.
    Current,
    /// The heading `New`.
    NewHeading,
    /// The new snapshot, or its error.
    New,
}

/// The color a hypothesis in `state` is shown in.
pub open spec fn state_color(state: HypState) -> Color {
    match state {
        HypState::Passed => Color::Green,
        HypState::Failed => Color::Red,
        HypState::Unknown => Color::Gray,
        HypState::Running => Color::LightBlue,
    }
}

/// The parts of the snapshot area: a current snapshot identical to the new
/// one is shown alone, without headings; otherwise the current snapshot (with
/// the heading `Current` when a new one follows) and then the new one under
/// its heading, each where there is one.
pub open spec fn snapshot_parts(has_current: bool, has_new: bool, are_identical: bool) -> Seq<SnapshotPart> {
    if has_current && are_identical {
        seq![SnapshotPart::Current]
    } else {
        let current = if has_current {
            if has_new {
                seq![SnapshotPart::CurrentHeading, SnapshotPart::Current]
            } else {
                seq![SnapshotPart::Current]
            }
        } else {
            Seq::empty()
        };
        let new = if has_new {
            seq![SnapshotPart::NewHeading, SnapshotPart::New]
        } else {
            Seq::empty()
        };
        current + new
    }
}

impl DetailsView {
    /// The color a hypothesis in `state` is shown in.
    pub fn state_color(state: HypState) -> (r: Color)
        ensures
            r == state_color(state),
    {
        match state {
            HypState::Passed => Color::Green,
            HypState::Failed => Color::Red,
            HypState::Unknown => Color::Gray,
            HypState::Running => Color::LightBlue,
        }
    }

    /// The heading shown when no hypothesis is selected.
    pub fn no_selection_heading() -> (r: String)
        ensures
            r@ == "No test selected"@,
    {
        String::from_str("No test selected")
    }

    /// The parts of the snapshot area, in drawing order.
    pub fn snapshot_parts(has_current: bool, has_new: bool, are_identical: bool) -> (r: Vec<SnapshotPart>)
        ensures
            r@ == snapshot_parts(has_current, has_new, are_identical),
    {
        let mut parts: Vec<SnapshotPart> = Vec::new();
        if has_current {
            if are_identical {
                parts.push(SnapshotPart::Current);
                assert(parts@ =~= snapshot_parts(has_current, has_new, are_identical));
                return parts;
            }
            if has_new {
                parts.push(SnapshotPart::CurrentHeading);
            }
            parts.push(SnapshotPart::Current);
        }
        if has_new {
            parts.push(SnapshotPart::NewHeading);
            parts.push(SnapshotPart::New);
        }
        assert(parts@ =~= snapshot_parts(has_current, has_new, are_identical));
        parts
    }
}

impl DockView for DetailsView {
    open spec fn dock_id(&self) -> Seq<char> {
        "details_view"@
    }

    open spec fn dock_title(&self) -> Seq<char> {
        "Details"@
    }

    fn id(&self) -> (r: DockId) {
        DockId::new("details_view")
    }

    fn title(&self) -> (r: String) {
        String::from_str("Details")
    }
}

} // verus!
