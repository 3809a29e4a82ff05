use vstd::prelude::*;

verus! {

/// Pointer interaction that the engine's hit-testing reports for a widget.
#[derive(Debug, Clone, Copy, PartialEq, Eq, Structural)]
pub enum Interaction {
    /// The pointer button is held down on the widget.
    Clicked,
    /// The pointer is over the widget, button up.
    Hovered,
    /// No pointer over the widget.
    Idle,
}

} // verus!
