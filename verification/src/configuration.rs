//! Passivate's settings and the changes that can be made to them.
use vstd::prelude::*;

use crate::text::string_views;

verus! {

/// Passivate's settings. Paths are held as their UTF-8 text.
#[derive(Debug, PartialEq)]
pub struct PassivateConfiguration {
    pub target_dir: Option<String>,
    pub coverage_enabled: bool,
    pub snapshot_directories: Vec<String>,
}

/// The settings as values.
pub struct ConfigurationModel {
    pub target_dir: Option<Seq<char>>,
    pub coverage_enabled: bool,
    pub snapshot_directories: Seq<Seq<char>>,
}

/// One change to the settings.
#[derive(Debug)]
pub enum ConfigurationChange {
    TargetDir(Option<String>),
    CoverageEnabled(bool),
    SnapshotDirectories(Vec<String>),
    AddSnapshotDirectory(String),
}

/// A change to the settings, as values.
pub enum ChangeModel {
    TargetDir(Option<Seq<char>>),
    CoverageEnabled(bool),
    SnapshotDirectories(Seq<Seq<char>>),
    AddSnapshotDirectory(Seq<char>),
}

/// The view of an optional path.
pub open spec fn option_view(o: Option<String>) -> Option<Seq<char>> {
    match o {
        Some(s) => Some(s@),
        None => None,
    }
}

impl View for PassivateConfiguration {
    type V = ConfigurationModel;

    open spec fn view(&self) -> ConfigurationModel {
        ConfigurationModel {
            target_dir: option_view(self.target_dir),
            coverage_enabled: self.coverage_enabled,
            snapshot_directories: string_views(self.snapshot_directories@),
        }
    }
}

impl View for ConfigurationChange {
    type V = ChangeModel;

    open spec fn view(&self) -> ChangeModel {
        match self {
            ConfigurationChange::TargetDir(t) => ChangeModel::TargetDir(option_view(*t)),
            ConfigurationChange::CoverageEnabled(b) => ChangeModel::CoverageEnabled(*b),
            ConfigurationChange::SnapshotDirectories(v) => ChangeModel::SnapshotDirectories(
                string_views(v@),
            ),
            ConfigurationChange::AddSnapshotDirectory(p) => ChangeModel::AddSnapshotDirectory(p@),
        }
    }
}

/// The default settings: no target directory, coverage off, no snapshot directories.
pub open spec fn default_configuration() -> ConfigurationModel {
    ConfigurationModel {
        target_dir: None,
        coverage_enabled: false,
        snapshot_directories: Seq::empty(),
    }
}

/// The settings `c` after `change`: the named setting is replaced, or for
/// `AddSnapshotDirectory` the path is added after the others.
pub open spec fn apply_change(c: ConfigurationModel, change: ChangeModel) -> ConfigurationModel {
    match change {
        ChangeModel::TargetDir(t) => ConfigurationModel { target_dir: t, ..c },
        ChangeModel::CoverageEnabled(b) => ConfigurationModel { coverage_enabled: b, ..c },
        ChangeModel::SnapshotDirectories(v) => ConfigurationModel { snapshot_directories: v, ..c },
        ChangeModel::AddSnapshotDirectory(p) => ConfigurationModel {
            snapshot_directories: c.snapshot_directories.push(p),
            ..c
        },
    }
}

/// A copy of a list of strings.
pub fn clone_strings(v: &Vec<String>) -> (r: Vec<String>)
    ensures
        string_views(r@) == string_views(v@),
{
    let r = v.clone();
    proof {
        assert forall|i: int| 0 <= i < r@.len() implies r@[i] == v@[i] by {
            assert(vstd::pervasive::cloned(v@[i], r@[i]));
        }
        assert(string_views(r@) =~= string_views(v@));
    }
    r
}

/// A copy of an optional path.
pub fn clone_optional_path(o: &Option<String>) -> (r: Option<String>)
    ensures
        option_view(r) == option_view(*o),
{
    match o {
        Some(s) => Some(s.clone()),
        None => None,
    }
}

impl PassivateConfiguration {
    /// Adds a snapshot directory after the others.
    pub fn add_snapshot_directory(&mut self, snapshot_directory: String)
        ensures
            final(self)@ == apply_change(old(self)@, ChangeModel::AddSnapshotDirectory(snapshot_directory@)),
    {
        let ghost before = self.snapshot_directories@;
        self.snapshot_directories.push(snapshot_directory);
        proof {
            assert(string_views(self.snapshot_directories@) =~= string_views(before).push(
                snapshot_directory@,
            ));
        }
    }

    /// Applies `change`.
    pub fn change(&mut self, change: ConfigurationChange)
        ensures
            final(self)@ == apply_change(old(self)@, change@),
    {
        match change {
            ConfigurationChange::TargetDir(target_dir) => self.target_dir = target_dir,
            ConfigurationChange::CoverageEnabled(coverage_enabled) => self.coverage_enabled =
            coverage_enabled,
            ConfigurationChange::SnapshotDirectories(snapshot_directories) =>
                self.snapshot_directories = snapshot_directories,
            ConfigurationChange::AddSnapshotDirectory(snapshot_directory) =>
                self.add_snapshot_directory(snapshot_directory),
        }
    }
}

impl Clone for PassivateConfiguration {
    fn clone(&self) -> (r: Self)
        ensures
            r@ == self@,
    {
        PassivateConfiguration {
            target_dir: clone_optional_path(&self.target_dir),
            coverage_enabled: self.coverage_enabled,
            snapshot_directories: clone_strings(&self.snapshot_directories),
        }
    }
}

impl Default for PassivateConfiguration {
    fn default() -> (r: Self)
        ensures
            r@ == default_configuration(),
    {
        let r = PassivateConfiguration {
            target_dir: None,
            coverage_enabled: false,
            snapshot_directories: Vec::new(),
        };
        assert(r@.snapshot_directories =~= Seq::<Seq<char>>::empty());
        r
    }
}

/// Changing one setting and then another, different one gives the same
/// settings in either order.
pub proof fn lemma_independent_changes_commute(c: ConfigurationModel, a: ChangeModel, b: ChangeModel)
    requires
        !changes_same_setting(a, b),
    ensures
        apply_change(apply_change(c, a), b) == apply_change(apply_change(c, b), a),
{
}

/// Whether two changes touch the same setting (both snapshot-directory
/// changes count as touching the same setting).
pub open spec fn changes_same_setting(a: ChangeModel, b: ChangeModel) -> bool {
    setting_of(a) == setting_of(b)
}

/// Which setting a change touches: 0 the target directory, 1 coverage, 2 the
/// snapshot directories.
pub open spec fn setting_of(a: ChangeModel) -> int {
    match a {
        ChangeModel::TargetDir(_) => 0,
        ChangeModel::CoverageEnabled(_) => 1,
        ChangeModel::SnapshotDirectories(_) => 2,
        ChangeModel::AddSnapshotDirectory(_) => 2,
    }
}

/// Setting a value twice keeps the second: for every change except
/// `AddSnapshotDirectory`, only the last of two changes to the same setting counts.
pub proof fn lemma_last_setting_wins(c: ConfigurationModel, a: ChangeModel, b: ChangeModel)
    requires
        changes_same_setting(a, b),
        !(b is AddSnapshotDirectory),
    ensures
        apply_change(apply_change(c, a), b) == apply_change(c, b),
{
}

/// A change sets what it names and leaves the other settings as they were:
/// reading the setting back gives the value written.
pub proof fn lemma_change_reads_back(c: ConfigurationModel, change: ChangeModel)
    ensures
        ({
            let after = apply_change(c, change);
            match change {
                ChangeModel::TargetDir(t) => after.target_dir == t && after.coverage_enabled
                    == c.coverage_enabled && after.snapshot_directories == c.snapshot_directories,
                ChangeModel::CoverageEnabled(b) => after.coverage_enabled == b && after.target_dir
                    == c.target_dir && after.snapshot_directories == c.snapshot_directories,
                ChangeModel::SnapshotDirectories(v) => after.snapshot_directories == v
                    && after.target_dir == c.target_dir && after.coverage_enabled
                    == c.coverage_enabled,
                ChangeModel::AddSnapshotDirectory(p) => after.snapshot_directories.len()
                    == c.snapshot_directories.len() + 1 && after.snapshot_directories.last() == p
                    && after.snapshot_directories.drop_last() == c.snapshot_directories
                    && after.target_dir == c.target_dir && after.coverage_enabled
                    == c.coverage_enabled,
            }
        }),
{
    if let ChangeModel::AddSnapshotDirectory(p) = change {
        assert(apply_change(c, change).snapshot_directories.drop_last() =~= c.snapshot_directories);
    }
}

} // verus!
