//! The decisions of one update of the application: whether the hypotheses
//! must be run again, and where each change made in the views goes.
use vstd::prelude::*;

use crate::configuration::{apply_change, ConfigurationModel, PassivateConfiguration};
use crate::configuration_errors::ConfigurationPersistError;
use crate::configuration_manager::ConfigurationManager;
use crate::configuration_source::ConfigurationSource;
use crate::hyp::Hyp;
use crate::passivate_state::{selected_view, PassivateState};
use crate::passivate_state_change::{change_requires_rerun, PassivateStateChange};

verus! {

/// Whether a run is due: on the first update, after a source change, or
/// after a change that asks for one.
pub open spec fn rerun_due(first_update: bool, source_changed: bool, changes: Seq<PassivateStateChange>) -> bool {
    first_update || source_changed || exists|i: int|
        0 <= i < changes.len() && change_requires_rerun(#[trigger] changes[i])
}

/// A run is always due on the first update and after a source change,
/// whatever changes the views made.
pub proof fn law_rerun_on_first_update_or_source_change(
    first_update: bool,
    source_changed: bool,
    changes: Seq<PassivateStateChange>,
)
    requires
        first_update || source_changed,
    ensures
        rerun_due(first_update, source_changed, changes),
{
}

/// A run is due as soon as any change of the frame, wherever it stands
/// among the changes, asks for one.
pub proof fn law_rerun_on_any_asking_change(
    first_update: bool,
    source_changed: bool,
    changes: Seq<PassivateStateChange>,
    i: int,
)
    requires
        0 <= i < changes.len(),
        changes[i] is ConfigurationChanged,
    ensures
        rerun_due(first_update, source_changed, changes),
{
    assert(change_requires_rerun(changes[i]));
}

/// Without a first update or a source change, and with no change that is a
/// change of settings, no run is due.
pub proof fn law_no_rerun_without_cause(
    source_changed: bool,
    changes: Seq<PassivateStateChange>,
)
    requires
        !source_changed,
        forall|i: int| 0 <= i < changes.len() ==> !(#[trigger] changes[i] is ConfigurationChanged),
    ensures
        !rerun_due(false, source_changed, changes),
{
}

/// More changes in a frame never take away a run that was due: a run due
/// for some changes is still due when further changes come after them.
pub proof fn law_rerun_is_kept_by_more_changes(
    first_update: bool,
    source_changed: bool,
    changes: Seq<PassivateStateChange>,
    more: Seq<PassivateStateChange>,
)
    requires
        rerun_due(first_update, source_changed, changes),
    ensures
        rerun_due(first_update, source_changed, changes + more),
{
    if !(first_update || source_changed) {
        let k = choose|k: int| 0 <= k < changes.len() && change_requires_rerun(#[trigger] changes[k]);
        assert((changes + more)[k] == changes[k]);
    }
}

/// Tracks whether the application has had its first update.
pub struct RerunTracker {
    first_update: bool,
}

impl RerunTracker {
    /// Whether the next update is the first.
    pub closed spec fn first_update_view(&self) -> bool {
        self.first_update
    }

    /// A tracker; `first_update` says whether the next update counts as the first.
    pub fn new(first_update: bool) -> (r: Self)
        ensures
            r.first_update_view() == first_update,
    {
        RerunTracker { first_update }
    }

    /// Whether this update must run the hypotheses again, given whether a
    /// source file changed and the changes made in the views; after it, no
    /// update is the first.
    pub fn rerun_required(&mut self, source_changed: bool, changes: &[PassivateStateChange]) -> (r: bool)
        ensures
            r == rerun_due(old(self).first_update_view(), source_changed, changes@),
            old(self).first_update_view() || source_changed ==> r,
            forall|i: int| 0 <= i < changes@.len() && #[trigger] changes@[i] is ConfigurationChanged ==> r,
            !final(self).first_update_view(),
    {
        let mut rerun = self.first_update || source_changed;
        self.first_update = false;
        let mut i: usize = 0;
        while i < changes.len()
            invariant
                i <= changes@.len(),
                rerun == rerun_due(old(self).first_update, source_changed, changes@.take(i as int)),
            decreases changes@.len() - i,
        {
            let asks = changes[i].requires_rerun();
            proof {
                let taken = changes@.take(i + 1);
                assert(taken[i as int] == changes@[i as int]);
                if rerun_due(old(self).first_update, source_changed, changes@.take(i as int)) && !(
                old(self).first_update || source_changed) {
                    let k = choose|k: int|
                        0 <= k < i && change_requires_rerun(#[trigger] changes@.take(i as int)[k]);
                    assert(taken[k] == changes@.take(i as int)[k]);
                }
                if rerun_due(old(self).first_update, source_changed, taken) && !(
                old(self).first_update || source_changed) && !asks {
                    let k = choose|k: int| 0 <= k < i + 1 && change_requires_rerun(#[trigger] taken[k]);
                    assert(changes@.take(i as int)[k] == taken[k]);
                }
            }
            rerun = rerun || asks;
            i = i + 1;
        }
        proof {
            assert(changes@.take(i as int) =~= changes@);
        }
        rerun
    }
}

/// Applies one change made in the views: a change of settings goes to the
/// settings (saving them; a failure to save is returned), a selection goes
/// to the state.
pub fn apply_ui_change<TSource: ConfigurationSource<PassivateConfiguration>>(
    state: &mut PassivateState,
    configuration: &mut ConfigurationManager<TSource>,
    change: PassivateStateChange,
) -> (r: Result<(), ConfigurationPersistError>)
    requires
        !(change is HypDetailsChanged),
    ensures
        final(configuration).source_view() == old(configuration).source_view(),
        match change {
            PassivateStateChange::ConfigurationChanged(c) => final(configuration).configuration_view()
                == apply_change(old(configuration).configuration_view(), c@) && selected_view(
                final(state).selected_hyp,
            ) == selected_view(old(state).selected_hyp) && final(configuration).source_view()
                == old(configuration).source_view() && (old(configuration).source_view() is None
                ==> r is Ok) && (old(configuration).source_view() matches Some(s) ==> s.persisted(
                final(configuration).configuration_ref_view(),
                r,
            )),
            PassivateStateChange::HypSelected(hyp) => selected_view(final(state).selected_hyp)
                == Some(hyp.id@) && final(configuration).configuration_view() == old(
                configuration,
            ).configuration_view() && r is Ok,
            _ => false,
        },
{
    match change {
        PassivateStateChange::ConfigurationChanged(configuration_change) => {
            configuration.change(configuration_change)
        },
        ui_change => {
            state.update_state(Some(&ui_change));
            Ok(())
        },
    }
}

/// The settings after the setting changes among `changes` are applied to
/// `settings` in order.
pub open spec fn settings_after(settings: ConfigurationModel, changes: Seq<PassivateStateChange>) -> ConfigurationModel
    decreases changes.len(),
{
    if changes.len() == 0 {
        settings
    } else {
        let before = settings_after(settings, changes.drop_last());
        match changes.last() {
            PassivateStateChange::ConfigurationChanged(c) => apply_change(before, c@),
            _ => before,
        }
    }
}

/// The selection after the selections among `changes`: the last one made,
/// or `selected` if none was.
pub open spec fn selection_after(selected: Option<Seq<Seq<char>>>, changes: Seq<PassivateStateChange>) -> Option<
    Seq<Seq<char>>,
>
    decreases changes.len(),
{
    if changes.len() == 0 {
        selected
    } else {
        match changes.last() {
            PassivateStateChange::HypSelected(hyp) => Some(hyp.id@),
            _ => selection_after(selected, changes.drop_last()),
        }
    }
}

/// Whether `result` is what applying `change` answered, with `settings` the
/// settings just after it: for a change of settings with a source, what
/// saving those settings to the source answered; otherwise `Ok`.
pub open spec fn saved_as<TSource: ConfigurationSource<PassivateConfiguration>>(
    source: Option<TSource>,
    settings: ConfigurationModel,
    change: PassivateStateChange,
    result: Result<(), ConfigurationPersistError>,
) -> bool {
    match source {
        Some(s) => if change is ConfigurationChanged {
            exists|c: PassivateConfiguration| c@ == settings && #[trigger] s.persisted(c, result)
        } else {
            result is Ok
        },
        None => result is Ok,
    }
}

/// The decisions of one update, given whether a source file changed and the
/// changes made in the views: whether the hypotheses must be run again (on
/// the first update, after a source change, or after a change that asks for
/// one), with every change applied in order (settings changed and saved,
/// selections made). Returns that decision and, for each change, what
/// applying it answered; after it, no update is the first.
pub fn update_frame<'a, TSource: ConfigurationSource<PassivateConfiguration>>(
    tracker: &mut RerunTracker,
    state: &mut PassivateState,
    configuration: &mut ConfigurationManager<TSource>,
    source_changed: bool,
    changes: Vec<PassivateStateChange<'a>>,
) -> (r: (bool, Vec<Result<(), ConfigurationPersistError>>))
    requires
        forall|i: int| 0 <= i < changes@.len() ==> !(#[trigger] changes@[i] is HypDetailsChanged),
    ensures
        r.0 == rerun_due(old(tracker).first_update_view(), source_changed, changes@),
        !final(tracker).first_update_view(),
        final(configuration).configuration_view() == settings_after(
            old(configuration).configuration_view(),
            changes@,
        ),
        final(configuration).source_view() == old(configuration).source_view(),
        selected_view(final(state).selected_hyp) == selection_after(
            selected_view(old(state).selected_hyp),
            changes@,
        ),
        r.1@.len() == changes@.len(),
        forall|i: int|
            0 <= i < changes@.len() ==> saved_as(
                old(configuration).source_view(),
                settings_after(old(configuration).configuration_view(), changes@.take(i + 1)),
                changes@[i],
                #[trigger] r.1@[i],
            ),
{
    let rerun = tracker.rerun_required(source_changed, changes.as_slice());
    let n: usize = changes.len();
    let ghost all = changes@;
    let ghost settings0 = configuration.configuration_view();
    let ghost selected0 = selected_view(state.selected_hyp);
    let mut remaining = changes;
    let mut results: Vec<Result<(), ConfigurationPersistError>> = Vec::new();
    let mut i: usize = 0;
    while remaining.len() > 0
        invariant
            all.len() == n,
            i + remaining@.len() == all.len(),
            remaining@ == all.skip(i as int),
            results@.len() == i,
            forall|k: int| 0 <= k < all.len() ==> !(#[trigger] all[k] is HypDetailsChanged),
            configuration.configuration_view() == settings_after(settings0, all.take(i as int)),
            configuration.source_view() == old(configuration).source_view(),
            selected_view(state.selected_hyp) == selection_after(selected0, all.take(i as int)),
            forall|k: int|
                0 <= k < i ==> saved_as(
                    old(configuration).source_view(),
                    settings_after(settings0, all.take(k + 1)),
                    all[k],
                    #[trigger] results@[k],
                ),
        decreases remaining@.len(),
    {
        let change = remaining.remove(0);
        proof {
            assert(change == all[i as int]);
            assert(all.take(i + 1).drop_last() =~= all.take(i as int));
            assert(all.take(i + 1).last() == all[i as int]);
        }
        let ghost before = *configuration;
        let result = apply_ui_change(state, configuration, change);
        proof {
            configuration.lemma_held_settings();
            if before.source_view() is Some && all[i as int] is ConfigurationChanged {
                let s = before.source_view()->0;
                assert(s.persisted(configuration.configuration_ref_view(), result));
            }
            assert(remaining@ =~= all.skip(i + 1));
        }
        results.push(result);
        i = i + 1;
    }
    proof {
        assert(all.take(i as int) =~= all);
    }
    (rerun, results)
}

/// A change the session reports about its hypotheses.
#[derive(Debug)]
pub enum HypSessionChange<'a> {
    /// A known hypothesis changed.
    HypUpdated(&'a Hyp),
    /// A hypothesis was found for the first time.
    NewHyp(&'a Hyp),
}

/// The change to Passivate's state that a session change makes: an updated
/// hypothesis changes its details; a new one changes nothing yet.
pub fn map_session_change<'a>(change: HypSessionChange<'a>) -> (r: Option<PassivateStateChange<'a>>)
    ensures
        match change {
            HypSessionChange::HypUpdated(hyp) => r == Some(PassivateStateChange::HypDetailsChanged(hyp)),
            HypSessionChange::NewHyp(_) => r is None,
        },
{
    match change {
        HypSessionChange::HypUpdated(single_hyp) => Some(PassivateStateChange::HypDetailsChanged(single_hyp)),
        HypSessionChange::NewHyp(_) => None,
    }
}

} // verus!
