//! Verified core of a desktop backend that lets a user pick a layout file
//! (GDS/GDSII/DXF), watch it for external modifications, and remember the
//! most recently opened file across sessions.
//!
//! Everything that decides or computes lives here: interpreting the outcome
//! of the native file picker, the watch-target state machine, the model of
//! the debounced notification pipeline, and the persistence rules for the
//! marker file that stores the last opened path. The surrounding process
//! (dialog calls, filesystem watching, reading and writing the marker file)
//! hands plain values in and carries the decisions out.

pub mod debounce;
pub mod dialog;
pub mod marker;
pub mod text;
pub mod watch;
