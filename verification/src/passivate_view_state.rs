//! What the views keep between frames: the log so far and the snapshots of
//! the hypothesis shown.
use vstd::prelude::*;

use crate::configuration::PassivateConfiguration;
use crate::hyp_id::HypId;
use crate::id_chain::IdChain;
use crate::log_entry::{time_of_day, LogEntry};
use crate::log_message::LogMessage;
use crate::passivate_state_change::PassivateStateChange;
use crate::tree::chains_equal;
use crate::tx_rx::{Rx, RxError};

verus! {

/// What to do with the snapshots shown after a change.
#[derive(Debug)]
pub enum SnapshotAction {
    /// Load the snapshots of this hypothesis from the snapshot directories.
    Load(HypId),
    /// Show no snapshots.
    Clear,
    /// Keep what is shown.
    Keep,
}

/// The action as values.
pub enum SnapshotActionModel {
    Load(Seq<Seq<char>>),
    Clear,
    Keep,
}

impl View for SnapshotAction {
    type V = SnapshotActionModel;

    open spec fn view(&self) -> SnapshotActionModel {
        match self {
            SnapshotAction::Load(id) => SnapshotActionModel::Load(id@),
            SnapshotAction::Clear => SnapshotActionModel::Clear,
            SnapshotAction::Keep => SnapshotActionModel::Keep,
        }
    }
}

/// What to do with the snapshots shown, given the hypothesis whose
/// snapshots are shown (if any), a change and whether any snapshot
/// directory is configured: a selected hypothesis has its snapshots loaded
/// (or none shown, without directories); a change to the details of the
/// hypothesis shown reloads them the same way; anything else keeps them.
pub open spec fn snapshot_action(
    shown: Option<Seq<Seq<char>>>,
    change: PassivateStateChange,
    has_directories: bool,
) -> SnapshotActionModel {
    match change {
        PassivateStateChange::HypSelected(hyp) => if has_directories {
            SnapshotActionModel::Load(hyp.id@)
        } else {
            SnapshotActionModel::Clear
        },
        PassivateStateChange::HypDetailsChanged(hyp) => if shown == Some(hyp.id@) {
            if has_directories {
                SnapshotActionModel::Load(hyp.id@)
            } else {
                SnapshotActionModel::Clear
            }
        } else {
            SnapshotActionModel::Keep
        },
        PassivateStateChange::ConfigurationChanged(_) => SnapshotActionModel::Keep,
    }
}

/// The log entries, as (time of day, message) pairs.
pub open spec fn entry_views(logs: Seq<LogEntry>) -> Seq<(Seq<char>, Seq<char>)> {
    Seq::new(logs.len(), |i: int| (logs[i].timestamp@, logs[i].message@))
}

/// The log after receiving `received`: one more entry if a message came.
pub open spec fn logs_after(logs: Seq<(Seq<char>, Seq<char>)>, received: Result<LogMessage, RxError>) -> Seq<
    (Seq<char>, Seq<char>),
> {
    match received {
        Ok(m) => logs.push((time_of_day(m.timestamp), m.content@)),
        Err(_) => logs,
    }
}

/// What the views keep between frames; `THandles` are the loaded snapshot
/// images, kept together with the id of the hypothesis they belong to.
pub struct PassivateViewState<THandles> {
    snapshot_handles: Option<(HypId, THandles)>,
    logs: Vec<LogEntry>,
}

impl<THandles> PassivateViewState<THandles> {
    /// The log entries so far.
    pub closed spec fn logs_view(&self) -> Seq<(Seq<char>, Seq<char>)> {
        entry_views(self.logs@)
    }

    /// The snapshots stored to be shown, with the hypothesis they belong
    /// to, if any.
    pub closed spec fn held_view(&self) -> Option<(HypId, THandles)> {
        self.snapshot_handles
    }

    /// The hypothesis whose snapshots are shown, if any.
    pub open spec fn shown_view(&self) -> Option<Seq<Seq<char>>> {
        match self.held_view() {
            Some((id, _)) => Some(id@),
            None => None,
        }
    }

    /// No log and no snapshots.
    pub fn new() -> (r: Self)
        ensures
            r.logs_view() == Seq::<(Seq<char>, Seq<char>)>::empty(),
            r.held_view() is None,
    {
        let r = PassivateViewState { snapshot_handles: None, logs: Vec::new() };
        assert(r.logs_view() =~= Seq::<(Seq<char>, Seq<char>)>::empty());
        r
    }

    /// Adds the received message, if one came, to the log.
    pub fn receive_log(&mut self, received: Result<LogMessage, RxError>)
        ensures
            final(self).logs_view() == logs_after(old(self).logs_view(), received),
            final(self).held_view() == old(self).held_view(),
    {
        match received {
            Ok(log) => {
                let ghost before = self.logs@;
                let entry = LogEntry::from(log);
                self.logs.push(entry);
                proof {
                    assert(entry_views(self.logs@) =~= entry_views(before).push(
                        (entry.timestamp@, entry.message@),
                    ));
                }
            },
            Err(_) => {},
        }
    }

    /// Takes one waiting log message, if any, from `logs_rx` into the log,
    /// and says what to do with the snapshots after `change`, if there is a
    /// change.
    pub fn update_view_state(
        &mut self,
        change: Option<&PassivateStateChange>,
        configuration: &PassivateConfiguration,
        logs_rx: &impl Rx<LogMessage>,
    ) -> (r: Option<SnapshotAction>)
        ensures
            final(self).held_view() == old(self).held_view(),
            exists|received: Result<LogMessage, RxError>| #[trigger]
                logs_rx.polled(received) && final(self).logs_view() == logs_after(
                    old(self).logs_view(),
                    received,
                ),
            match change {
                Some(c) => r matches Some(a) && a@ == snapshot_action(
                    old(self).shown_view(),
                    *c,
                    configuration.snapshot_directories@.len() > 0,
                ),
                None => r is None,
            },
    {
        let received = logs_rx.try_recv();
        let ghost polled = received;
        self.receive_log(received);
        assert(logs_rx.polled(polled) && self.logs_view() == logs_after(
            old(self).logs_view(),
            polled,
        ));
        match change {
            Some(change) => Some(self.snapshot_action_for(change, configuration)),
            None => None,
        }
    }

    /// What to do with the snapshots after `change`.
    pub fn snapshot_action_for(&self, change: &PassivateStateChange, configuration: &PassivateConfiguration) -> (r: SnapshotAction)
        ensures
            r@ == snapshot_action(
                self.shown_view(),
                *change,
                configuration.snapshot_directories@.len() > 0,
            ),
    {
        let has_directories = configuration.snapshot_directories.len() > 0;
        match change {
            PassivateStateChange::HypSelected(hyp) => if has_directories {
                SnapshotAction::Load(hyp.id().clone())
            } else {
                SnapshotAction::Clear
            },
            PassivateStateChange::HypDetailsChanged(hyp) => {
                let shown = match &self.snapshot_handles {
                    Some((id, _)) => chains_equal(id.chain(), hyp.id().chain()),
                    None => false,
                };
                if shown {
                    if has_directories {
                        SnapshotAction::Load(hyp.id().clone())
                    } else {
                        SnapshotAction::Clear
                    }
                } else {
                    SnapshotAction::Keep
                }
            },
            PassivateStateChange::ConfigurationChanged(_) => SnapshotAction::Keep,
        }
    }

    /// Shows `handles`, the snapshots loaded for hypothesis `id`.
    pub fn show_snapshots(&mut self, id: HypId, handles: THandles)
        ensures
            final(self).held_view() == Some((id, handles)),
            final(self).logs_view() == old(self).logs_view(),
    {
        self.snapshot_handles = Some((id, handles));
    }

    /// Shows no snapshots.
    pub fn clear_snapshots(&mut self)
        ensures
            final(self).held_view() is None,
            final(self).logs_view() == old(self).logs_view(),
    {
        self.snapshot_handles = None;
    }

    /// The snapshots shown and the hypothesis they belong to, if any.
    pub fn snapshot_handles(&self) -> (r: Option<&(HypId, THandles)>)
        ensures
            match r {
                Some(h) => self.held_view() == Some(*h),
                None => self.held_view() is None,
            },
    {
        self.snapshot_handles.as_ref()
    }

    /// The log entries so far.
    pub fn logs(&self) -> (r: &Vec<LogEntry>)
        ensures
            entry_views(r@) == self.logs_view(),
    {
        &self.logs
    }
}

} // verus!
