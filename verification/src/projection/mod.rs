//! Projections: read models rebuilt from the event stream of a session.

pub mod event;
pub mod fold;
pub mod page;
pub mod paging;
pub mod publish;
pub mod table;

use vstd::prelude::*;

verus! {

/// A read model.
#[derive(Clone, Copy, PartialEq, Eq, Debug, Structural)]
pub enum ProjectionView {
    SessionTree,
    ActiveWork,
    Delivery,
    Approval,
    Recovery,
    Capacity,
    Failure,
}

/// The stored name of a read model.
pub open spec fn view_text(view: ProjectionView) -> Seq<char> {
    match view {
        ProjectionView::SessionTree => "session_tree"@,
        ProjectionView::ActiveWork => "active_work"@,
        ProjectionView::Delivery => "delivery"@,
        ProjectionView::Approval => "approval"@,
        ProjectionView::Recovery => "recovery"@,
        ProjectionView::Capacity => "capacity"@,
        ProjectionView::Failure => "failure"@,
    }
}

impl ProjectionView {
    /// The stored name of this read model.
    pub fn as_str(self) -> (name: &'static str)
        ensures
            name@ == view_text(self),
    {
        match self {
            ProjectionView::SessionTree => "session_tree",
            ProjectionView::ActiveWork => "active_work",
            ProjectionView::Delivery => "delivery",
            ProjectionView::Approval => "approval",
            ProjectionView::Recovery => "recovery",
            ProjectionView::Capacity => "capacity",
            ProjectionView::Failure => "failure",
        }
    }
}

} // verus!
