use passivate::configuration::{ConfigurationChange, PassivateConfiguration};
use passivate::hyp::{Hyp, HypState};
use passivate::hyp_id::HypId;
use passivate::log_message::{LogMessage, Timestamp};
use passivate::passivate_state::PassivateState;
use passivate::passivate_state_change::PassivateStateChange;
use passivate::passivate_view_state::{PassivateViewState, SnapshotAction};
use passivate::tx_rx::{RxError, TryRecvFailure};

fn hyp(name: &str) -> Hyp {
    Hyp::new(HypId::new("example_package", "example_crate", name), HypState::Failed)
}

fn with_snapshots() -> PassivateConfiguration {
    let mut configuration = PassivateConfiguration::default();
    configuration.change(ConfigurationChange::AddSnapshotDirectory("tests/snapshots".to_string()));
    configuration
}

fn loads(action: &SnapshotAction, expected: &Hyp) -> bool {
    matches!(action, SnapshotAction::Load(id) if *id == expected.id)
}

#[test]
pub fn selecting_a_test_loads_its_snapshots_when_directories_are_configured() {
    let state: PassivateViewState<()> = PassivateViewState::new();
    let selected = hyp("tests::example_snapshot_changed");

    let action = state.snapshot_action_for(&PassivateStateChange::HypSelected(&selected), &with_snapshots());
    assert!(loads(&action, &selected));

    let action = state.snapshot_action_for(
        &PassivateStateChange::HypSelected(&selected),
        &PassivateConfiguration::default(),
    );
    assert!(matches!(action, SnapshotAction::Clear));
}

#[test]
pub fn when_a_test_is_selected_and_then_changes_status_the_details_view_also_updates() {
    let mut state: PassivateViewState<()> = PassivateViewState::new();
    let selected = hyp("example_test");
    let other = hyp("other_test");
    state.show_snapshots(selected.id.clone(), ());

    let changed = state.snapshot_action_for(&PassivateStateChange::HypDetailsChanged(&selected), &with_snapshots());
    assert!(loads(&changed, &selected));

    let unrelated = state.snapshot_action_for(&PassivateStateChange::HypDetailsChanged(&other), &with_snapshots());
    assert!(matches!(unrelated, SnapshotAction::Keep));

    let configuration_change = state.snapshot_action_for(
        &PassivateStateChange::ConfigurationChanged(ConfigurationChange::CoverageEnabled(true)),
        &with_snapshots(),
    );
    assert!(matches!(configuration_change, SnapshotAction::Keep));

    state.clear_snapshots();
    assert!(state.snapshot_handles().is_none());
    let after_clear = state.snapshot_action_for(&PassivateStateChange::HypDetailsChanged(&selected), &with_snapshots());
    assert!(matches!(after_clear, SnapshotAction::Keep));
}

#[test]
pub fn selecting_a_test_shows_it_in_details_view() {
    let selected = hyp("example_test");
    let mut state = PassivateState::new();

    state.update_state(Some(&PassivateStateChange::HypSelected(&selected)));
    assert_eq!(Some(selected.id.clone()), state.selected_hyp);

    state.update_state(None);
    assert_eq!(Some(selected.id.clone()), state.selected_hyp);
}

#[test]
pub fn received_logs_are_kept_in_order() {
    let mut state: PassivateViewState<()> = PassivateViewState::new();

    state.receive_log(Ok(LogMessage::new_with_timestamp("first".to_string(), Timestamp { seconds: 0, subsec_nanos: 0 })));
    state.receive_log(Err(RxError::TryRecv(TryRecvFailure::Empty)));
    state.receive_log(Ok(LogMessage::new_with_timestamp("second".to_string(), Timestamp { seconds: 61, subsec_nanos: 0 })));

    let entries: Vec<(String, String)> =
        state.logs().iter().map(|e| (e.timestamp.clone(), e.message.clone())).collect();
    assert_eq!(
        vec![("00:00:00".to_string(), "first".to_string()), ("00:01:01".to_string(), "second".to_string())],
        entries
    );
}

#[test]
pub fn a_change_other_than_selection_only_changes_coverage_requirements() {
    let change = PassivateStateChange::ConfigurationChanged(ConfigurationChange::CoverageEnabled(true));
    let selected = hyp("x");

    assert!(change.requires_rerun());
    assert!(!PassivateStateChange::HypSelected(&selected).requires_rerun());
    assert!(!PassivateStateChange::HypDetailsChanged(&selected).requires_rerun());
}

#[test]
pub fn the_snapshots_shown_are_those_last_stored() {
    let mut state: PassivateViewState<u32> = PassivateViewState::new();
    let first = hyp("first");
    let second = hyp("second");

    state.show_snapshots(first.id.clone(), 1);
    state.show_snapshots(second.id.clone(), 2);

    assert_eq!(Some(&(second.id.clone(), 2)), state.snapshot_handles());

    state.clear_snapshots();
    assert!(state.snapshot_handles().is_none());
}
