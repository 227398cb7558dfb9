//! What the docking layout knows of a view: a stable id and a title.
use vstd::prelude::*;

verus! {

/// The stable identifier of a dockable view.
#[derive(Debug, PartialEq, Eq, Hash)]
pub struct DockId(String);

impl View for DockId {
    type V = Seq<char>;

    closed spec fn view(&self) -> Seq<char> {
        self.0@
    }
}

impl DockId {
    /// The id with text `id`.
    pub fn new(id: &str) -> (r: Self)
        ensures
            r@ == id@,
    {
        DockId(String::from_str(id))
    }

    /// The id as text.
    pub fn as_str(&self) -> (r: &str)
        ensures
            r@ == self@,
    {
        self.0.as_str()
    }
}

impl Clone for DockId {
    fn clone(&self) -> (r: Self)
        ensures
            r@ == self@,
    {
        DockId(self.0.clone())
    }
}

/// A view that can be placed in the docking layout.
pub trait DockView {
    /// The view's id.
    spec fn dock_id(&self) -> Seq<char>;

    /// The view's title.
    spec fn dock_title(&self) -> Seq<char>;

    /// The view's id, the same on every call.
    fn id(&self) -> (r: DockId)
        ensures
            r@ == self.dock_id(),
    ;

    /// The title shown on the view's tab.
    fn title(&self) -> (r: String)
        ensures
            r@ == self.dock_title(),
    ;
}

/// A color the views draw with.
#[derive(Debug, Clone, Copy, PartialEq, Eq)]
pub enum Color {
    Green,
    Red,
    Gray,
    LightBlue,
}

} // verus!
