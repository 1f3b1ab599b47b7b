//! The decision logic of a file dialog and of an editor's view options,
//! separated from the widgets that draw them.

pub mod paths;
pub mod listing;
pub mod dialog;
pub mod view_options;
pub mod laws;
