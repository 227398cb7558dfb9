//! The five views of Passivate, each in its own place in the layout.
use vstd::prelude::*;

use crate::configuration_view::ConfigurationView;
use crate::coverage_view::CoverageView;
use crate::details_view::DetailsView;
use crate::dock_view::{DockId, DockView};
use crate::log_view::LogView;
use crate::session_view::SessionView;

verus! {

/// One of Passivate's views.
pub enum PassivateView {
    Configuration(ConfigurationView),
    Coverage(CoverageView),
    Details(DetailsView),
    Log(LogView),
    HypRun(SessionView),
}

/// The id of the view a value holds.
pub open spec fn view_dock_id(view: PassivateView) -> Seq<char> {
    match view {
        PassivateView::Configuration(v) => v.dock_id(),
        PassivateView::Coverage(v) => v.dock_id(),
        PassivateView::Details(v) => v.dock_id(),
        PassivateView::Log(v) => v.dock_id(),
        PassivateView::HypRun(v) => v.dock_id(),
    }
}

/// The title of the view a value holds.
pub open spec fn view_dock_title(view: PassivateView) -> Seq<char> {
    match view {
        PassivateView::Configuration(v) => v.dock_title(),
        PassivateView::Coverage(v) => v.dock_title(),
        PassivateView::Details(v) => v.dock_title(),
        PassivateView::Log(v) => v.dock_title(),
        PassivateView::HypRun(v) => v.dock_title(),
    }
}

impl DockView for PassivateView {
    open spec fn dock_id(&self) -> Seq<char> {
        view_dock_id(*self)
    }

    open spec fn dock_title(&self) -> Seq<char> {
        view_dock_title(*self)
    }

    fn id(&self) -> (r: DockId) {
        match self {
            PassivateView::Configuration(v) => v.id(),
            PassivateView::Coverage(v) => v.id(),
            PassivateView::Details(v) => v.id(),
            PassivateView::Log(v) => v.id(),
            PassivateView::HypRun(v) => v.id(),
        }
    }

    fn title(&self) -> (r: String) {
        match self {
            PassivateView::Configuration(v) => v.title(),
            PassivateView::Coverage(v) => v.title(),
            PassivateView::Details(v) => v.title(),
            PassivateView::Log(v) => v.title(),
            PassivateView::HypRun(v) => v.title(),
        }
    }
}

/// The ids of the views, in the order session, details, coverage,
/// configuration, log.
pub open spec fn view_ids() -> Seq<Seq<char>> {
    seq!["session_view"@, "details_view"@, "coverage_view"@, "configuration_view"@, "log_view"@]
}

/// Passivate's five views.
pub struct PassivateViews {
    session_view: PassivateView,
    details_view: PassivateView,
    coverage_view: PassivateView,
    configuration_view: PassivateView,
    log_view: PassivateView,
}

impl PassivateViews {
    #[verifier::type_invariant]
    spec fn each_in_its_place(self) -> bool {
        &&& self.session_view is HypRun
        &&& self.details_view is Details
        &&& self.coverage_view is Coverage
        &&& self.configuration_view is Configuration
        &&& self.log_view is Log
    }

    /// The text typed so far into the configuration view's field.
    pub closed spec fn configuration_field_view(&self) -> Seq<char> {
        match self.configuration_view {
            PassivateView::Configuration(v) => v.field_view(),
            _ => Seq::empty(),
        }
    }

    /// The five views.
    pub fn new(
        session_view: SessionView,
        details_view: DetailsView,
        coverage_view: CoverageView,
        configuration_view: ConfigurationView,
        log_view: LogView,
    ) -> (r: Self)
        ensures
            r.configuration_field_view() == configuration_view.field_view(),
    {
        PassivateViews {
            session_view: PassivateView::HypRun(session_view),
            details_view: PassivateView::Details(details_view),
            coverage_view: PassivateView::Coverage(coverage_view),
            configuration_view: PassivateView::Configuration(configuration_view),
            log_view: PassivateView::Log(log_view),
        }
    }

    /// The five views with an empty configuration field, for tests.
    pub fn stub() -> (r: Self)
        ensures
            r.configuration_field_view() == Seq::<char>::empty(),
    {
        Self::new(SessionView, DetailsView, CoverageView, ConfigurationView::new(), LogView)
    }

    /// The views in the order session, details, coverage, configuration, log.
    pub fn get(&self) -> (r: [&PassivateView; 5])
        ensures
            r@.len() == 5,
            forall|i: int| 0 <= i < 5 ==> #[trigger] r@[i].dock_id() == view_ids()[i],
            r@[3] matches PassivateView::Configuration(v) && v.field_view()
                == self.configuration_field_view(),
    {
        proof {
            use_type_invariant(self);
        }
        [
            &self.session_view,
            &self.details_view,
            &self.coverage_view,
            &self.configuration_view,
            &self.log_view,
        ]
    }

    /// The views, in the same order, to hand to the layout.
    pub fn into(self) -> (r: Vec<PassivateView>)
        ensures
            r@.len() == 5,
            forall|i: int| 0 <= i < 5 ==> #[trigger] r@[i].dock_id() == view_ids()[i],
            r@[3] matches PassivateView::Configuration(v) && v.field_view()
                == self.configuration_field_view(),
    {
        proof {
            use_type_invariant(&self);
        }
        let PassivateViews { session_view, details_view, coverage_view, configuration_view, log_view } =
            self;
        let mut r: Vec<PassivateView> = Vec::new();
        r.push(session_view);
        r.push(details_view);
        r.push(coverage_view);
        r.push(configuration_view);
        r.push(log_view);
        r
    }

    /// The ids of the views, in the same order.
    pub fn ids(&self) -> (r: Vec<DockId>)
        ensures
            r@.len() == 5,
            forall|i: int| 0 <= i < 5 ==> #[trigger] r@[i]@ == view_ids()[i],
    {
        let views = self.get();
        let mut r: Vec<DockId> = Vec::new();
        let mut i: usize = 0;
        while i < 5
            invariant
                i <= 5,
                r@.len() == i,
                views@.len() == 5,
                forall|k: int| 0 <= k < 5 ==> #[trigger] views@[k].dock_id() == view_ids()[k],
                forall|k: int| 0 <= k < i ==> #[trigger] r@[k]@ == view_ids()[k],
            decreases 5 - i,
        {
            r.push(views[i].id());
            i = i + 1;
        }
        r
    }

    /// The session view.
    pub fn session_view(&self) -> (r: &SessionView) {
        proof {
            use_type_invariant(self);
        }
        match &self.session_view {
            PassivateView::HypRun(v) => v,
            _ => vstd::pervasive::unreached(),
        }
    }

    /// The details view.
    pub fn details_view(&self) -> (r: &DetailsView) {
        proof {
            use_type_invariant(self);
        }
        match &self.details_view {
            PassivateView::Details(v) => v,
            _ => vstd::pervasive::unreached(),
        }
    }

    /// The coverage view.
    pub fn coverage_view(&self) -> (r: &CoverageView) {
        proof {
            use_type_invariant(self);
        }
        match &self.coverage_view {
            PassivateView::Coverage(v) => v,
            _ => vstd::pervasive::unreached(),
        }
    }

    /// The configuration view.
    pub fn configuration_view(&self) -> (r: &ConfigurationView)
        ensures
            r.field_view() == self.configuration_field_view(),
    {
        proof {
            use_type_invariant(self);
        }
        match &self.configuration_view {
            PassivateView::Configuration(v) => v,
            _ => vstd::pervasive::unreached(),
        }
    }

    /// The log view.
    pub fn log_view(&self) -> (r: &LogView) {
        proof {
            use_type_invariant(self);
        }
        match &self.log_view {
            PassivateView::Log(v) => v,
            _ => vstd::pervasive::unreached(),
        }
    }

    /// The views other than the session view.
    pub fn except_hyp_run_view(&self) -> (r: [&PassivateView; 4])
        ensures
            r@.len() == 4,
            forall|i: int| 0 <= i < 4 ==> #[trigger] r@[i].dock_id() == view_ids().remove(0)[i],
            r@[2] matches PassivateView::Configuration(v) && v.field_view()
                == self.configuration_field_view(),
    {
        proof {
            use_type_invariant(self);
        }
        [&self.details_view, &self.coverage_view, &self.configuration_view, &self.log_view]
    }

    /// The views other than the details view.
    pub fn except_details_view(&self) -> (r: [&PassivateView; 4])
        ensures
            r@.len() == 4,
            forall|i: int| 0 <= i < 4 ==> #[trigger] r@[i].dock_id() == view_ids().remove(1)[i],
    {
        proof {
            use_type_invariant(self);
        }
        [&self.session_view, &self.coverage_view, &self.configuration_view, &self.log_view]
    }

    /// The views other than the coverage view.
    pub fn except_coverage_view(&self) -> (r: [&PassivateView; 4])
        ensures
            r@.len() == 4,
            forall|i: int| 0 <= i < 4 ==> #[trigger] r@[i].dock_id() == view_ids().remove(2)[i],
    {
        proof {
            use_type_invariant(self);
        }
        [&self.session_view, &self.details_view, &self.configuration_view, &self.log_view]
    }

    /// The views other than the configuration view.
    pub fn except_configuration_view(&self) -> (r: [&PassivateView; 4])
        ensures
            r@.len() == 4,
            forall|i: int| 0 <= i < 4 ==> #[trigger] r@[i].dock_id() == view_ids().remove(3)[i],
    {
        proof {
            use_type_invariant(self);
        }
        [&self.session_view, &self.details_view, &self.coverage_view, &self.log_view]
    }

    /// The views other than the log view.
    pub fn except_log_view(&self) -> (r: [&PassivateView; 4])
        ensures
            r@.len() == 4,
            forall|i: int| 0 <= i < 4 ==> #[trigger] r@[i].dock_id() == view_ids().remove(4)[i],
    {
        proof {
            use_type_invariant(self);
        }
        [&self.session_view, &self.details_view, &self.coverage_view, &self.configuration_view]
    }
}

} // verus!
