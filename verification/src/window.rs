//! The window that a context is created in.

use raw_window_handle::RawWindowHandle;
use vstd::prelude::*;

verus! {

/// The address of no object.
pub const NIL: usize = 0;

/// What is read of a parent's window handle.
#[derive(Clone, Copy, Debug, PartialEq, Eq, Structural)]
pub enum ParentWindow {
    /// A window of AppKit, with the address of its view.
    AppKit { ns_view: usize },
    /// A window of another window system.
    Other,
}

impl ParentWindow {
    /// The handle names a view that something can be put into.
    pub open spec fn usable(self) -> bool {
        self matches ParentWindow::AppKit { ns_view } && ns_view != NIL
    }
}

/// `raw_window_handle::RawWindowHandle`, which is opaque here.
#[verifier::external_type_specification]
#[verifier::external_body]
pub struct ExRawWindowHandle(raw_window_handle::RawWindowHandle);

/// What a `raw_window_handle::RawWindowHandle` holds: whether it is the variant
/// `AppKit`, and if so the address in the field `ns_view`.
pub uninterp spec fn window_of(parent: RawWindowHandle) -> ParentWindow;

/// Reads the variant of a `raw_window_handle::RawWindowHandle` and, of the
/// variant `AppKit`, the field `ns_view`. The contract claims that the result
/// is what the handle holds and depends on nothing else.
#[verifier::external_body]
pub(crate) fn read_window(parent: &RawWindowHandle) -> (window: ParentWindow)
    ensures
        window == window_of(*parent),
{
    match parent {
        RawWindowHandle::AppKit(handle) => ParentWindow::AppKit { ns_view: handle.ns_view as usize },
        _ => ParentWindow::Other,
    }
}

} // verus!
