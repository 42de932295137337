//! Small types shared by the screens.

pub mod ui;
