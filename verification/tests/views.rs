use passivate::configuration::{ConfigurationChange, PassivateConfiguration};
use passivate::configuration_view::ConfigurationView;
use passivate::coverage_status::{CovdirJson, CoverageStatus};
use passivate::coverage_view::CoverageView;
use passivate::details_view::{DetailsView, SnapshotPart};
use passivate::dock_view::{Color, DockView};
use passivate::hyp::{Hyp, HypState};
use passivate::hyp_id::HypId;
use passivate::log_view::LogView;
use passivate::passivate_views::PassivateViews;
use passivate::session_view::{HypDisplay, HypUiAction, SessionView};

fn example_hyp(name: &str, state: HypState) -> Hyp {
    Hyp::new(HypId::new("example_package", "example_crate", name), state)
}

fn session_label(state: HypState) -> (String, Color) {
    SessionView::session_state_label(state)
}

// The session view shows the state of the run and, below it, one line per
// hypothesis (nothing when no hypothesis was found).
fn check_no_tests_were_found() {
    let hyps: Vec<&Hyp> = Vec::new();
    assert_eq!(("Idle".to_string(), Color::Green), session_label(HypState::Unknown));
    assert!(SessionView::selection(&hyps, &[]).is_none());
}

fn check_build_failed() {
    assert_eq!(("Failed".to_string(), Color::Red), session_label(HypState::Failed));
}

fn check_unknown_status_greyed_out() {
    assert_eq!(HypDisplay::Label(Color::Gray), SessionView::hyp_display(HypState::Unknown));
    assert_eq!(None, SessionView::hyp_action(HypState::Unknown, true));
}

fn check_build_status_while_compiling() {
    assert_eq!(("Running".to_string(), Color::Green), session_label(HypState::Running));
    assert_eq!(HypDisplay::Button(Color::LightBlue), SessionView::hyp_display(HypState::Running));
}

#[test]
pub fn lib_show_when_no_tests_were_found() {
    check_no_tests_were_found();
}

#[test]
pub fn lib_show_when_build_failed() {
    check_build_failed();
}

#[test]
pub fn lib_show_tests_with_unknown_status_greyed_out() {
    check_unknown_status_greyed_out();
}

#[test]
pub fn lib_show_build_status_above_tests_while_compiling() {
    check_build_status_while_compiling();
}

#[test]
pub fn session_view_show_when_no_tests_were_found() {
    check_no_tests_were_found();
}

#[test]
pub fn session_view_show_when_build_failed() {
    check_build_failed();
}

#[test]
pub fn session_view_show_tests_with_unknown_status_greyed_out() {
    check_unknown_status_greyed_out();
}

#[test]
pub fn session_view_show_build_status_above_tests_while_compiling() {
    check_build_status_while_compiling();
}

#[test]
pub fn passed_and_failed_hyps_are_buttons_in_their_color() {
    assert_eq!(HypDisplay::Button(Color::Green), SessionView::hyp_display(HypState::Passed));
    assert_eq!(HypDisplay::Button(Color::Red), SessionView::hyp_display(HypState::Failed));
    assert_eq!(Some(HypUiAction::Selected), SessionView::hyp_action(HypState::Failed, true));
    assert_eq!(None, SessionView::hyp_action(HypState::Failed, false));
    assert_eq!(("Passed".to_string(), Color::Green), session_label(HypState::Passed));
}

#[test]
pub fn the_last_selected_hyp_of_a_frame_wins() {
    let a = example_hyp("a", HypState::Passed);
    let b = example_hyp("b", HypState::Failed);
    let c = example_hyp("c", HypState::Passed);
    let hyps = vec![&a, &b, &c];

    let selected = SessionView::selection(&hyps, &[true, true, false]).unwrap();
    assert_eq!("b", selected.id().name(&passivate::hyp_name_strategy::HypNameStrategy::NameOnly));
    assert!(SessionView::selection(&hyps, &[false, false, false]).is_none());
}

#[test]
pub fn details_color_follows_the_state() {
    assert_eq!(Color::Green, DetailsView::state_color(HypState::Passed));
    assert_eq!(Color::Red, DetailsView::state_color(HypState::Failed));
    assert_eq!(Color::Gray, DetailsView::state_color(HypState::Unknown));
    assert_eq!(Color::LightBlue, DetailsView::state_color(HypState::Running));
    assert_eq!("No test selected", DetailsView::no_selection_heading());
}

#[test]
pub fn identical_snapshots_are_shown_once_without_headings() {
    assert_eq!(vec![SnapshotPart::Current], DetailsView::snapshot_parts(true, true, true));
}

#[test]
pub fn current_and_new_snapshots_are_shown_under_headings() {
    assert_eq!(
        vec![SnapshotPart::CurrentHeading, SnapshotPart::Current, SnapshotPart::NewHeading, SnapshotPart::New],
        DetailsView::snapshot_parts(true, true, false)
    );
}

#[test]
pub fn only_a_new_snapshot_is_shown_under_its_heading() {
    assert_eq!(vec![SnapshotPart::NewHeading, SnapshotPart::New], DetailsView::snapshot_parts(false, true, false));
    assert_eq!(vec![SnapshotPart::Current], DetailsView::snapshot_parts(true, false, false));
    assert!(DetailsView::snapshot_parts(false, false, true).is_empty());
}

#[test]
pub fn coverage_headings_follow_the_status() {
    assert_eq!(
        Some(("Code coverage is disabled".to_string(), None)),
        CoverageView::heading(&CoverageStatus::Disabled)
    );
    assert_eq!(Some(("Preparing...".to_string(), None)), CoverageView::heading(&CoverageStatus::Preparing));
    assert_eq!(Some(("Running...".to_string(), None)), CoverageView::heading(&CoverageStatus::Running));
    assert_eq!(
        Some(("Something went wrong with the coverage!".to_string(), Some(Color::Red))),
        CoverageView::heading(&CoverageStatus::Error("Something went wrong with the coverage!".to_string()))
    );
}

fn example_report(children: Option<Vec<(String, CovdirJson)>>) -> CovdirJson {
    CovdirJson {
        children,
        coverage_percent: "88".to_string(),
        lines_covered: 64,
        lines_missed: 16,
        lines_total: 80,
        name: "example.rs".to_string(),
    }
}

#[test]
pub fn a_finished_report_has_no_heading() {
    let status = CoverageStatus::Done(Box::new(example_report(Some(Vec::new()))));

    assert_eq!(None, CoverageView::heading(&status));
    assert!(!CoverageView::shows_enable_button(&status));
}

#[test]
pub fn report_nodes_without_children_are_single_lines() {
    assert!(example_report(None).is_leaf());
    assert!(example_report(Some(Vec::new())).is_leaf());
    let parent = example_report(Some(vec![("child1.rs".to_string(), example_report(None))]));
    assert!(!parent.is_leaf());
    assert_eq!("88%", parent.percent_label());
}

#[test]
pub fn enabling_coverage_in_the_coverage_view_asks_for_coverage() {
    let change = CoverageView::ui_change(&CoverageStatus::Disabled, true);
    assert!(matches!(change, Some(ConfigurationChange::CoverageEnabled(true))));
    assert!(CoverageView::ui_change(&CoverageStatus::Disabled, false).is_none());
    assert!(CoverageView::ui_change(&CoverageStatus::Running, true).is_none());
}

#[test]
pub fn toggling_coverage_asks_for_the_opposite_setting() {
    let mut view = ConfigurationView::new();
    let configuration = PassivateConfiguration::default();

    let changes = view.ui_changes(&configuration, true, false);

    assert_eq!(1, changes.len());
    assert!(matches!(changes[0], ConfigurationChange::CoverageEnabled(true)));
}

#[test]
pub fn a_typed_directory_is_asked_for_when_the_field_loses_focus() {
    let mut view = ConfigurationView::new();
    let configuration = PassivateConfiguration::default();

    view.field_mut().push_str("Some/Path/");
    assert!(view.ui_changes(&configuration, false, false).is_empty());
    view.field_mut().push_str("To/Snapshots");
    let changes = view.ui_changes(&configuration, false, true);

    assert_eq!(1, changes.len());
    match &changes[0] {
        ConfigurationChange::AddSnapshotDirectory(path) => assert_eq!("Some/Path/To/Snapshots", path),
        other => panic!("unexpected change {:?}", other),
    }
    assert_eq!("", view.field_mut().as_str());
}

#[test]
pub fn views_have_stable_ids_and_titles() {
    let views = PassivateViews::stub();
    let ids: Vec<String> = views.ids().iter().map(|id| id.as_str().to_string()).collect();

    assert_eq!(vec!["session_view", "details_view", "coverage_view", "configuration_view", "log_view"], ids);
    assert_eq!("Tests", views.session_view().title());
    assert_eq!("Details", views.details_view().title());
    assert_eq!("Coverage", views.coverage_view().title());
    assert_eq!("Configuration", views.configuration_view().title());
    assert_eq!("Log", LogView.title());
    assert_eq!(4, views.except_log_view().len());
    let titles: Vec<String> = views.except_details_view().iter().map(|v| v.title()).collect();
    assert_eq!(vec!["Tests", "Coverage", "Configuration", "Log"], titles);
    assert_eq!(5, views.into().len());
}

#[test]
pub fn the_session_state_follows_its_hypotheses() {
    assert_eq!(HypState::Unknown, SessionView::session_state(&[]));
    assert_eq!(HypState::Passed, SessionView::session_state(&[HypState::Passed, HypState::Unknown]));
    assert_eq!(HypState::Failed, SessionView::session_state(&[HypState::Passed, HypState::Failed]));
    assert_eq!(HypState::Running, SessionView::session_state(&[HypState::Failed, HypState::Running]));
}
