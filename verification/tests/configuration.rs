use std::cell::RefCell;

use passivate::app_update::{apply_ui_change, map_session_change, update_frame, HypSessionChange, RerunTracker};
use passivate::configuration::{ConfigurationChange, PassivateConfiguration};
use passivate::configuration_errors::{ConfigurationLoadError, ConfigurationPersistError};
use passivate::configuration_manager::ConfigurationManager;
use passivate::configuration_source::ConfigurationSource;
use passivate::configuration_view::ConfigurationView;
use passivate::coverage_status::CoverageStatus;
use passivate::coverage_view::CoverageView;
use passivate::default_paths::{self, DefaultPaths};
use passivate::hyp::{Hyp, HypState};
use passivate::hyp_id::HypId;
use passivate::layout_management::LayoutManagement;
use passivate::snapshot_handles::{first_snapshot_directory, snapshot_file_names};
use passivate::passivate_state::PassivateState;
use passivate::passivate_state_change::PassivateStateChange;

/// A source that keeps what it saved in memory, and can be told to fail.
struct MemorySource<T: Clone> {
    saved: RefCell<Option<T>>,
    fail_persist: bool,
}

impl<T: Clone> MemorySource<T> {
    fn new(saved: Option<T>) -> Self {
        Self { saved: RefCell::new(saved), fail_persist: false }
    }
}

impl<T: Clone> ConfigurationSource<T> for MemorySource<T> {
    fn load(&self) -> Result<Option<T>, ConfigurationLoadError> {
        Ok(self.saved.borrow().clone())
    }

    fn persist(&self, configuration: &T) -> Result<(), ConfigurationPersistError> {
        if self.fail_persist {
            return Err(ConfigurationPersistError::Io("interrupted".to_string()));
        }
        *self.saved.borrow_mut() = Some(configuration.clone());
        Ok(())
    }
}

struct FailingSource;

impl ConfigurationSource<PassivateConfiguration> for FailingSource {
    fn load(&self) -> Result<Option<PassivateConfiguration>, ConfigurationLoadError> {
        Err(ConfigurationLoadError::Toml("bad".to_string()))
    }

    fn persist(&self, _configuration: &PassivateConfiguration) -> Result<(), ConfigurationPersistError> {
        Ok(())
    }
}

#[test]
pub fn configuration_update_changes_configuration() {
    let configuration = PassivateConfiguration::default();
    let mut manager: ConfigurationManager<FailingSource> = ConfigurationManager::new(configuration);

    manager.change(ConfigurationChange::AddSnapshotDirectory("Example/path".to_string())).unwrap();

    let snapshots_path = manager.get(|c| c.snapshot_directories.clone());

    assert_eq!(vec!["Example/path".to_string()], snapshots_path);
}

#[test]
pub fn changes_are_persisted_to_the_source_and_loaded_again() {
    let source = MemorySource::new(None);
    let mut manager = ConfigurationManager::from_source(source).unwrap();

    assert!(!manager.get(|c| c.coverage_enabled));
    manager.change(ConfigurationChange::CoverageEnabled(true)).unwrap();

    let saved = manager.acquire().clone();
    let reloaded = ConfigurationManager::from_source(MemorySource::new(Some(saved))).unwrap();
    assert!(reloaded.get(|c| c.coverage_enabled));
}

#[test]
pub fn a_failed_persist_is_returned_and_the_change_stays() {
    let mut source = MemorySource::new(None);
    source.fail_persist = true;
    let mut manager = ConfigurationManager::from_source(source).unwrap();

    let error = manager.change(ConfigurationChange::CoverageEnabled(true)).unwrap_err();

    assert_eq!(ConfigurationPersistError::Io("interrupted".to_string()), error);
    assert!(manager.get(|c| c.coverage_enabled));
}

#[test]
pub fn a_load_error_is_returned() {
    let result = ConfigurationManager::from_source(FailingSource);

    assert_eq!(Some(ConfigurationLoadError::Toml("bad".to_string())), result.err());
}

#[test]
pub fn each_change_sets_its_setting() {
    let mut configuration = PassivateConfiguration::default();

    configuration.change(ConfigurationChange::TargetDir(Some("target".to_string())));
    configuration.change(ConfigurationChange::SnapshotDirectories(vec!["a".to_string()]));
    configuration.change(ConfigurationChange::AddSnapshotDirectory("b".to_string()));
    configuration.change(ConfigurationChange::CoverageEnabled(true));

    assert_eq!(
        PassivateConfiguration {
            target_dir: Some("target".to_string()),
            coverage_enabled: true,
            snapshot_directories: vec!["a".to_string(), "b".to_string()],
        },
        configuration
    );

    configuration.change(ConfigurationChange::TargetDir(None));
    configuration.change(ConfigurationChange::SnapshotDirectories(Vec::new()));
    assert_eq!(None, configuration.target_dir);
    assert!(configuration.snapshot_directories.is_empty());
}

#[test]
pub fn independent_changes_commute() {
    let mut a = PassivateConfiguration::default();
    a.change(ConfigurationChange::TargetDir(Some("t".to_string())));
    a.change(ConfigurationChange::CoverageEnabled(true));

    let mut b = PassivateConfiguration::default();
    b.change(ConfigurationChange::CoverageEnabled(true));
    b.change(ConfigurationChange::TargetDir(Some("t".to_string())));

    assert_eq!(a, b);
}

#[test]
pub fn default_paths_are_under_the_root() {
    let paths = DefaultPaths::new("some/root".to_string());

    assert_eq!("some/root", paths.root);
    assert_eq!("some/root/.passivate", paths.passivate);
    assert_eq!("some/root/.passivate/target", paths.target);

    let stub = default_paths::stub();
    assert_eq!("testing_stub/.passivate", stub.passivate);
}

#[test]
pub fn an_absolute_root_stays_absolute() {
    let paths = DefaultPaths::new("/work/project".to_string());

    assert_eq!("/work/project/.passivate/target", paths.clone().target);
}

#[test]
pub fn layout_is_loaded_or_made_and_saved_back() {
    let mut layout = LayoutManagement::from_source_or_default(MemorySource::new(None), || 7u32).unwrap();
    assert_eq!(7, *layout.get_current());

    *layout.get_current() = 9;
    layout.persist().unwrap();

    let saved = MemorySource::new(Some(9u32));
    let mut reloaded = LayoutManagement::from_source_or_default(saved, || 7u32).unwrap();
    assert_eq!(9, *reloaded.get_current());
}

fn example_hyp() -> Hyp {
    Hyp::new(HypId::new("example_package", "example_crate", "example_test"), HypState::Passed)
}

#[test]
pub fn hyps_are_run_upon_first_update() {
    let mut tracker = RerunTracker::new(true);

    assert!(tracker.rerun_required(false, &[]));
    assert!(!tracker.rerun_required(false, &[]));
}

#[test]
pub fn hyps_are_run_upon_source_change_event() {
    let mut tracker = RerunTracker::new(false);
    let mut state = PassivateState::new();
    let mut configuration: ConfigurationManager<FailingSource> =
        ConfigurationManager::new(PassivateConfiguration::default());

    // The source change arrives in the first frame; the next has none.
    let (first, _) = update_frame(&mut tracker, &mut state, &mut configuration, true, Vec::new());
    let (second, _) = update_frame(&mut tracker, &mut state, &mut configuration, false, Vec::new());

    assert!(first);
    assert!(!second);
}

/// Runs one frame after the first with the given settings changes; says
/// whether the hypotheses are run.
fn frame_with(
    configuration: &mut ConfigurationManager<FailingSource>,
    changes: Vec<ConfigurationChange>,
) -> bool {
    let mut tracker = RerunTracker::new(false);
    let mut state = PassivateState::new();
    let changes = changes.into_iter().map(PassivateStateChange::ConfigurationChanged).collect();
    let (rerun, results) = update_frame(&mut tracker, &mut state, configuration, false, changes);
    assert!(results.iter().all(|r| r.is_ok()));
    rerun
}

#[test]
pub fn when_configuration_view_enables_coverage_hyps_run_with_coverage_enabled() {
    let mut configuration: ConfigurationManager<FailingSource> =
        ConfigurationManager::new(PassivateConfiguration::default());
    let mut view = ConfigurationView::new();

    let changes = view.ui_changes(&configuration.acquire().clone(), true, false);
    let rerun = frame_with(&mut configuration, changes);

    assert!(rerun);
    assert_eq!(
        PassivateConfiguration { coverage_enabled: true, ..Default::default() },
        *configuration.acquire()
    );
}

#[test]
pub fn enabling_coverage_in_coverage_view_modifies_configuration() {
    let mut configuration: ConfigurationManager<FailingSource> =
        ConfigurationManager::new(PassivateConfiguration::default());

    let changes = CoverageView::ui_change(&CoverageStatus::Disabled, true).into_iter().collect();
    frame_with(&mut configuration, changes);

    assert!(configuration.get(|c| c.coverage_enabled));
}

#[test]
pub fn configuring_snapshots_path_starts_a_hyp_run() {
    let mut configuration: ConfigurationManager<FailingSource> =
        ConfigurationManager::new(PassivateConfiguration::default());
    let mut view = ConfigurationView::new();

    view.field_mut().push_str("Some/Path/");
    let changes = view.ui_changes(&configuration.acquire().clone(), false, false);
    let first = frame_with(&mut configuration, changes);

    // Typing goes on over another frame and ends with Enter.
    view.field_mut().push_str("To/Snapshots");
    let changes = view.ui_changes(&configuration.acquire().clone(), false, true);
    let second = frame_with(&mut configuration, changes);

    assert!(!first);
    assert!(second);
    assert_eq!(vec!["Some/Path/To/Snapshots".to_string()], configuration.get(|c| c.snapshot_directories.clone()));
}

#[test]
pub fn selecting_a_hyp_does_not_run_hyps_but_changing_configuration_does() {
    let hyp = example_hyp();
    let mut tracker = RerunTracker::new(false);

    assert!(!tracker.rerun_required(false, &[PassivateStateChange::HypSelected(&hyp)]));
    assert!(tracker.rerun_required(
        false,
        &[
            PassivateStateChange::HypSelected(&hyp),
            PassivateStateChange::ConfigurationChanged(ConfigurationChange::CoverageEnabled(true))
        ]
    ));
}

#[test]
pub fn ui_changes_go_to_the_configuration_or_the_state() {
    let hyp = example_hyp();
    let mut state = PassivateState::new();
    let mut configuration: ConfigurationManager<FailingSource> =
        ConfigurationManager::new(PassivateConfiguration::default());

    apply_ui_change(
        &mut state,
        &mut configuration,
        PassivateStateChange::ConfigurationChanged(ConfigurationChange::AddSnapshotDirectory(
            "Some/Path/To/Snapshots".to_string(),
        )),
    )
    .unwrap();
    apply_ui_change(&mut state, &mut configuration, PassivateStateChange::HypSelected(&hyp)).unwrap();

    assert_eq!(vec!["Some/Path/To/Snapshots".to_string()], configuration.acquire().snapshot_directories);
    assert_eq!(Some(hyp.id.clone()), state.selected_hyp);
}

#[test]
pub fn the_last_of_two_changes_to_a_setting_wins() {
    let mut configuration = PassivateConfiguration::default();
    configuration.change(ConfigurationChange::CoverageEnabled(true));
    configuration.change(ConfigurationChange::CoverageEnabled(false));
    configuration.change(ConfigurationChange::SnapshotDirectories(vec!["x".to_string()]));
    configuration.change(ConfigurationChange::SnapshotDirectories(vec!["y".to_string()]));

    assert_eq!(
        PassivateConfiguration {
            target_dir: None,
            coverage_enabled: false,
            snapshot_directories: vec!["y".to_string()],
        },
        configuration
    );
}

#[test]
pub fn a_default_manager_has_default_settings() {
    let manager: ConfigurationManager<FailingSource> = ConfigurationManager::default();

    assert_eq!(PassivateConfiguration::default(), *manager.acquire());
}

#[test]
pub fn an_updated_hyp_changes_its_details_but_a_new_one_changes_nothing() {
    let hyp = example_hyp();

    assert!(matches!(
        map_session_change(HypSessionChange::HypUpdated(&hyp)),
        Some(PassivateStateChange::HypDetailsChanged(_))
    ));
    assert!(map_session_change(HypSessionChange::NewHyp(&hyp)).is_none());
}

/// The library returns the error of a failed save and keeps the change; the
/// application logs that error (the library itself does not log).
#[test]
pub fn an_error_is_logged_when_configuration_persistence_fails() {
    let mut source = MemorySource::new(None);
    source.fail_persist = true;
    let mut manager = ConfigurationManager::from_source(source).unwrap();

    let result = manager.change(ConfigurationChange::CoverageEnabled(true));

    assert_eq!(Err(ConfigurationPersistError::Io("interrupted".to_string())), result);
    assert!(manager.get(|c| c.coverage_enabled));
}

#[test]
pub fn a_frame_applies_its_changes_in_order_and_answers_each() {
    let hyp = example_hyp();
    let mut source = MemorySource::new(None);
    source.fail_persist = true;
    let mut configuration = ConfigurationManager::from_source(source).unwrap();
    let mut state = PassivateState::new();
    let mut tracker = RerunTracker::new(false);

    let (rerun, results) = update_frame(
        &mut tracker,
        &mut state,
        &mut configuration,
        false,
        vec![
            PassivateStateChange::HypSelected(&hyp),
            PassivateStateChange::ConfigurationChanged(ConfigurationChange::CoverageEnabled(true)),
            PassivateStateChange::ConfigurationChanged(ConfigurationChange::CoverageEnabled(false)),
        ],
    );

    assert!(rerun);
    assert_eq!(
        vec![
            Ok(()),
            Err(ConfigurationPersistError::Io("interrupted".to_string())),
            Err(ConfigurationPersistError::Io("interrupted".to_string())),
        ],
        results
    );
    assert!(!configuration.get(|c| c.coverage_enabled));
    assert_eq!(Some(hyp.id.clone()), state.selected_hyp);
}

#[test]
pub fn a_frame_with_only_a_selection_runs_nothing_after_the_first() {
    let hyp = example_hyp();
    let mut configuration = ConfigurationManager::from_source(MemorySource::new(None)).unwrap();
    let mut state = PassivateState::new();
    let mut tracker = RerunTracker::new(true);

    let (first, _) = update_frame(&mut tracker, &mut state, &mut configuration, false, Vec::new());
    let (second, results) =
        update_frame(&mut tracker, &mut state, &mut configuration, false, vec![PassivateStateChange::HypSelected(&hyp)]);
    let (third, _) = update_frame(&mut tracker, &mut state, &mut configuration, true, Vec::new());

    assert!(first);
    assert!(!second);
    assert!(third);
    assert_eq!(vec![Ok(())], results);
}

#[test]
pub fn a_failed_layout_save_is_returned() {
    let mut source = MemorySource::new(Some(3u32));
    source.fail_persist = true;
    let layout = LayoutManagement::from_source_or_default(source, || 7u32).unwrap();

    assert_eq!(Err(ConfigurationPersistError::Io("interrupted".to_string())), layout.persist());
}

#[test]
pub fn snapshot_files_are_named_after_the_hypothesis() {
    assert_eq!(("my_test.png".to_string(), "my_test.new.png".to_string()), snapshot_file_names("my_test"));
}

#[test]
pub fn snapshots_come_from_the_first_directory_holding_either() {
    assert_eq!(Some(1), first_snapshot_directory(&[(false, false), (false, true), (true, true)]));
    assert_eq!(Some(0), first_snapshot_directory(&[(true, false), (false, true)]));
    assert_eq!(None, first_snapshot_directory(&[(false, false)]));
    assert_eq!(None, first_snapshot_directory(&[]));
}
