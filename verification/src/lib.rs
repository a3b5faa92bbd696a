//! Interaction logic of a small PNG converter: the user picks an input file,
//! chooses a destination through a save dialog, and the application either
//! dispatches a conversion (to PNG, or from PNG) or raises a modal error.
//! The routing decision is made purely by a case-sensitive `.png` suffix
//! check on the two paths.

/// Case-sensitive `.png` suffix detection on paths.
pub mod suffix;

/// The exact messages shown in the modal error dialog.
pub mod messages;

/// The application state and its interaction state machine.
pub mod machine;
