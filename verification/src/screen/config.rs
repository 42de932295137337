//! The screen that selects the theme.

use crate::backend::config::ApplicationTheme;
use vstd::prelude::*;

verus! {

/// What can happen to the screen.
#[derive(Debug, Clone, Copy, PartialEq, Eq, Structural)]
pub enum Message {
    /// Asks to go back a screen.
    Back,
    /// A theme was picked.
    ChangedTheme(ApplicationTheme),
}

/// What the screen holds: the configuration as it stands.
#[derive(Debug, Clone, Copy, PartialEq, Eq, Structural)]
pub struct State {
    pub config: crate::backend::config::Config,
}

/// What the screen asks of whoever drives it.
#[derive(Debug, Clone, Copy, PartialEq, Eq, Structural)]
pub enum Action {
    Back,
    /// The theme changed: the configuration is to be saved with it.
    ChangedTheme(ApplicationTheme),
}

/// The configuration screen.
#[derive(Debug, Clone, Copy)]
pub struct Config {
    pub state: State,
}

impl Config {
    /// The screen as it opens on the configuration `current_config`.
    pub fn new(current_config: crate::backend::config::Config) -> (screen: Config)
        ensures
            screen.state.config == current_config,
    {
        Config { state: State { config: current_config } }
    }

    /// Takes `message`: a picked theme becomes the theme of the screen's
    /// configuration and is handed on; going back changes nothing.
    pub fn update(&mut self, message: Message) -> (action: Action)
        ensures
            match message {
                Message::Back => *final(self) == *old(self) && action == Action::Back,
                Message::ChangedTheme(theme) => final(self).state.config.theme == theme && action
                    == Action::ChangedTheme(theme),
            },
    {
        match message {
            Message::Back => Action::Back,
            Message::ChangedTheme(application_theme) => {
                self.state.config.theme = application_theme;
                Action::ChangedTheme(application_theme)
            },
        }
    }
}

} // verus!
