//! The verified core of ClubFridge neo: the hidden log viewer (directory
//! listing, selection, file contents and their colouring), the handling of
//! its keyboard shortcuts, and the checkout screen's state machine.

/// The checkout screen: typed input, member, purchase lines and payment.
pub mod checkout;
/// The owner of the hidden log viewer and the messages that drive it.
pub mod host;
/// Keys, modifiers and the keyboard shortcuts.
pub mod keys;
/// Log file names and the listing of the log directory.
pub mod log_files;
/// Log lines and the colours of their levels.
pub mod log_line;
/// The state of one opening of the hidden log viewer.
pub mod log_viewer;
/// The alphabetical order of names.
pub mod order;
/// Text helpers.
pub mod text;
