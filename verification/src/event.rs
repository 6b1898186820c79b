//! Window events, reduced to what the dismissal policy reads.

use vstd::prelude::*;

verus! {

/// An event delivered to one of the program's windows.
///
/// Only the facts that decide the program's reaction are kept: for a key
/// event, whether the logical key is escape and whether the key press
/// resolved to text. Pure modifier keys (shift, control, alt, meta) resolve
/// to no text.
#[derive(Clone, Copy, Debug, PartialEq, Eq, Structural)]
pub enum WindowEvent {
    /// The window was asked to close.
    CloseRequested,
    /// The window's contents must be painted again.
    RedrawRequested,
    /// A key event.
    KeyboardInput {
        /// The logical key is the escape key.
        is_escape: bool,
        /// The event carries resolved text.
        has_text: bool,
    },
    /// A mouse button event.
    MouseInput,
    /// Any other event; none of them matters to the program.
    Other,
}

} // verus!
