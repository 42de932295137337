//! The screen that tells about the front end and links to its pages.

use vstd::prelude::*;

verus! {

/// What can happen to the screen.
#[derive(Debug, Clone)]
pub enum Message {
    /// Asks to go back a screen.
    Back,
    /// Asks for the page at the address to be opened.
    LaunchURL(String),
}

/// What the screen asks of whoever drives it.
#[derive(Debug, Clone)]
pub enum Action {
    Nothing,
    Back,
    /// Open the page at the address in the user's browser.
    Launch(String),
}

/// The pages that the screen links to.
#[derive(Debug, Clone, Copy, PartialEq, Eq, Structural)]
pub enum Link {
    Author,
    License,
    Repository,
    Issues,
    Version,
    Readme,
}

impl Link {
    /// The address of the page.
    pub open spec fn address(&self) -> Seq<char> {
        match self {
            Link::Author => "https://github.com/mariinkys"@,
            Link::License => "https://github.com/mariinkys/rot-management-gui/blob/main/LICENSE"@,
            Link::Repository => "https://github.com/mariinkys/rot-management-gui"@,
            Link::Issues => "https://github.com/mariinkys/rot-management-gui/issues"@,
            Link::Version => "https://github.com/mariinkys/rot-management-gui/releases"@,
            Link::Readme => "https://github.com/mariinkys/rot-management-gui/blob/main/README.md"@,
        }
    }

    /// The address of the page.
    pub fn url(&self) -> (url: &'static str)
        ensures
            url@ == self.address(),
    {
        match self {
            Link::Author => "https://github.com/mariinkys",
            Link::License => "https://github.com/mariinkys/rot-management-gui/blob/main/LICENSE",
            Link::Repository => "https://github.com/mariinkys/rot-management-gui",
            Link::Issues => "https://github.com/mariinkys/rot-management-gui/issues",
            Link::Version => "https://github.com/mariinkys/rot-management-gui/releases",
            Link::Readme => "https://github.com/mariinkys/rot-management-gui/blob/main/README.md",
        }
    }
}

/// The about screen; it has no state of its own.
#[derive(Debug, Clone, Copy)]
pub struct About {}

impl About {
    /// The screen as it opens.
    pub fn new() -> About {
        About {  }
    }

    /// Takes `message`: going back is handed on, and an address is to be
    /// opened.
    pub fn update(&mut self, message: Message) -> (action: Action)
        ensures
            match message {
                Message::Back => action is Back,
                Message::LaunchURL(url) => action matches Action::Launch(address) && address@
                    == url@,
            },
    {
        match message {
            Message::Back => Action::Back,
            Message::LaunchURL(url) => Action::Launch(url),
        }
    }
}

} // verus!
