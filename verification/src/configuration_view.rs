//! The configuration view: the coverage switch, the snapshot directories and
//! a field to add one.
use vstd::prelude::*;

use crate::configuration::{apply_change, ChangeModel, ConfigurationChange, ConfigurationModel, PassivateConfiguration};
use crate::dock_view::{DockId, DockView};

verus! {

/// The configuration view, with the text typed so far into the field for a
/// new snapshot directory.
pub struct ConfigurationView {
    snapshots_path_field: String,
}

/// The changes asked for in one frame: turning coverage over when its
/// switch was clicked, then adding the typed directory when the field lost
/// focus.
pub open spec fn configuration_view_changes(
    coverage_enabled: bool,
    toggle_clicked: bool,
    field: Seq<char>,
    field_lost_focus: bool,
) -> Seq<ChangeModel> {
    let toggle = if toggle_clicked {
        seq![ChangeModel::CoverageEnabled(!coverage_enabled)]
    } else {
        Seq::empty()
    };
    let add = if field_lost_focus {
        seq![ChangeModel::AddSnapshotDirectory(field)]
    } else {
        Seq::empty()
    };
    toggle + add
}

/// Clicking the coverage switch turns coverage over: the first change asked
/// for, applied to any settings whose coverage is the one shown, gives the
/// opposite coverage; with coverage on, it turns coverage off.
pub proof fn law_switch_turns_coverage_over(
    settings: ConfigurationModel,
    field: Seq<char>,
    field_lost_focus: bool,
)
    ensures
        configuration_view_changes(settings.coverage_enabled, true, field, field_lost_focus).len() >= 1,
        apply_change(
            settings,
            configuration_view_changes(settings.coverage_enabled, true, field, field_lost_focus)[0],
        ).coverage_enabled == !settings.coverage_enabled,
{
}

/// Without a click on the coverage switch, no change asked for touches
/// coverage.
pub proof fn law_no_click_leaves_coverage(
    settings: ConfigurationModel,
    field: Seq<char>,
    field_lost_focus: bool,
    i: int,
)
    requires
        0 <= i < configuration_view_changes(settings.coverage_enabled, false, field, field_lost_focus).len(),
    ensures
        apply_change(
            settings,
            configuration_view_changes(settings.coverage_enabled, false, field, field_lost_focus)[i],
        ).coverage_enabled == settings.coverage_enabled,
{
}

/// The views of a list of changes.
pub open spec fn change_views(v: Seq<ConfigurationChange>) -> Seq<ChangeModel> {
    Seq::new(v.len(), |i: int| v[i]@)
}

impl ConfigurationView {
    /// The text in the field for a new snapshot directory.
    pub closed spec fn field_view(&self) -> Seq<char> {
        self.snapshots_path_field@
    }

    /// A view with an empty field.
    pub fn new() -> (r: Self)
        ensures
            r.field_view() == Seq::<char>::empty(),
    {
        ConfigurationView { snapshots_path_field: String::new() }
    }

    /// The field's text, for the text box to edit.
    pub fn field_mut(&mut self) -> (r: &mut String)
        ensures
            (*r)@ == old(self).field_view(),
            final(self).field_view() == final(r)@,
    {
        &mut self.snapshots_path_field
    }

    /// The changes asked for in one frame, given the settings shown, whether
    /// the coverage switch was clicked and whether the field lost focus; the
    /// field is emptied once its directory is asked for.
    pub fn ui_changes(
        &mut self,
        configuration: &PassivateConfiguration,
        toggle_clicked: bool,
        field_lost_focus: bool,
    ) -> (r: Vec<ConfigurationChange>)
        ensures
            change_views(r@) == configuration_view_changes(
                configuration.coverage_enabled,
                toggle_clicked,
                old(self).field_view(),
                field_lost_focus,
            ),
            toggle_clicked ==> r@.len() >= 1 && r@[0]@ == ChangeModel::CoverageEnabled(
                !configuration.coverage_enabled,
            ),
            r@.len() == (if toggle_clicked {
                1int
            } else {
                0int
            }) + (if field_lost_focus {
                1int
            } else {
                0int
            }),
            final(self).field_view() == (if field_lost_focus {
                Seq::<char>::empty()
            } else {
                old(self).field_view()
            }),
    {
        let mut actions: Vec<ConfigurationChange> = Vec::new();
        if toggle_clicked {
            actions.push(ConfigurationChange::CoverageEnabled(!configuration.coverage_enabled));
        }
        if field_lost_focus {
            let mut path = String::new();
            std::mem::swap(&mut path, &mut self.snapshots_path_field);
            actions.push(ConfigurationChange::AddSnapshotDirectory(path));
        }
        proof {
            assert(change_views(actions@) =~= configuration_view_changes(
                configuration.coverage_enabled,
                toggle_clicked,
                old(self).field_view(),
                field_lost_focus,
            ));
        }
        actions
    }
}

impl Default for ConfigurationView {
    fn default() -> (r: Self)
        ensures
            r.field_view() == Seq::<char>::empty(),
    {
        Self::new()
    }
}

impl DockView for ConfigurationView {
    open spec fn dock_id(&self) -> Seq<char> {
        "configuration_view"@
    }

    open spec fn dock_title(&self) -> Seq<char> {
        "Configuration"@
    }

    fn id(&self) -> (r: DockId) {
        DockId::new("configuration_view")
    }

    fn title(&self) -> (r: String) {
        String::from_str("Configuration")
    }
}

} // verus!
