//! What the widgets of a front end show, as plain data.

pub mod toast;
