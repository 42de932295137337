//! The screens of the front end, each as a state machine.
//!
//! A screen takes a message, moves to its next state and answers with an
//! action. Where the action asks for outside work, a task names it; whoever
//! drives the screen performs the task and sends its result back as a
//! message. No screen performs outside work itself.

use vstd::prelude::*;

pub mod about;
pub mod config;
pub mod rollback;
pub mod system_status;
pub mod update_applications;
pub mod update_system;

pub use about::About;
pub use config::Config;
pub use rollback::Rollback;
pub use system_status::SystemStatus;
pub use update_applications::UpdateApplications;
pub use update_system::UpdateSystem;

verus! {

/// The screen that is shown.
#[derive(Debug, Clone)]
pub enum Screen {
    Welcome,
    UpdateSystem(UpdateSystem),
    UpdateApplications(UpdateApplications),
    Rollback(Rollback),
    SystemStatus(SystemStatus),
    Config(Config),
    About(About),
}

/// What a [`Screen`] holds, as plain values.
pub enum ScreenView {
    Welcome,
    UpdateSystem(update_system::StateView),
    UpdateApplications(update_applications::StateView),
    Rollback(rollback::State),
    SystemStatus(system_status::StateView),
    Config(config::State),
    About,
}

impl View for Screen {
    type V = ScreenView;

    open spec fn view(&self) -> ScreenView {
        match self {
            Screen::Welcome => ScreenView::Welcome,
            Screen::UpdateSystem(screen) => ScreenView::UpdateSystem(screen.state@),
            Screen::UpdateApplications(screen) => ScreenView::UpdateApplications(screen.state@),
            Screen::Rollback(screen) => ScreenView::Rollback(screen.state),
            Screen::SystemStatus(screen) => ScreenView::SystemStatus(screen.state@),
            Screen::Config(screen) => ScreenView::Config(screen.state),
            Screen::About(_) => ScreenView::About,
        }
    }
}

} // verus!
