//! Management of an image-based Linux system through `rpm-ostree`, `ostree`
//! and `flatpak`: how a command is invoked from each execution context, how
//! the tools' textual output is read, how the outcome of a privileged
//! operation is classified, and how each screen of a front end moves between
//! its states.
//!
//! Nothing here spawns a process or touches the file system: callers run the
//! commands that the library describes and hand back what they printed.

pub mod backend;
pub mod icons;
pub mod screen;
pub mod shell;
pub mod style;
pub mod text;
pub mod utils;
pub mod widgets;
