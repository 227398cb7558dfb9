//! The log view: one line per log entry, time first.
use vstd::prelude::*;

use crate::dock_view::{DockId, DockView};

verus! {

/// The log view.
pub struct LogView;

impl DockView for LogView {
    open spec fn dock_id(&self) -> Seq<char> {
        "log_view"@
    }

    open spec fn dock_title(&self) -> Seq<char> {
        "Log"@
    }

    fn id(&self) -> (r: DockId) {
        DockId::new("log_view")
    }

    fn title(&self) -> (r: String) {
        String::from_str("Log")
    }
}

} // verus!
