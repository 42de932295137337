//! The shell around the screens: which screen is shown, the configuration,
//! and the toasts that are up.
//!
//! The shell hands each message to the screen it is meant for and turns the
//! screen's answer into an effect for whoever drives the front end.

use crate::backend::config::{ApplicationTheme, Config};
use crate::screen::{
    about, config, rollback, system_status, update_applications, update_system, About, Rollback,
    Screen, ScreenView, SystemStatus, UpdateApplications, UpdateSystem,
};
use crate::widgets::toast::{toast_views, Toast, ToastView};
use vstd::prelude::*;

verus! {

/// The identifier of the front end, which names its configuration directory.
pub const APP_ID: &'static str = "dev.mariinkys.FaManagementGUI";

/// What the shell holds.
#[derive(Debug, Clone)]
pub enum State {
    /// The configuration is being loaded.
    Loading,
    Ready { config: Config, screen: Screen },
}

/// What a [`State`] holds, as plain values.
pub enum StateView {
    Loading,
    Ready { config: Config, screen: ScreenView },
}

impl View for State {
    type V = StateView;

    open spec fn view(&self) -> StateView {
        match self {
            State::Loading => StateView::Loading,
            State::Ready { config, screen } => StateView::Ready { config: *config, screen: screen@ },
        }
    }
}

/// What can happen to the front end.
#[derive(Debug, Clone)]
pub enum Message {
    /// The configuration, or why it could not be loaded.
    ConfigLoaded(Result<Config, String>),
    /// How saving the configuration ended.
    ConfigSaved(Result<(), String>),
    UpdateSystem(update_system::Message),
    UpdateApplications(update_applications::Message),
    Rollback(rollback::Message),
    SystemStatus(system_status::Message),
    Config(config::Message),
    About(about::Message),
    OpenUpdateSystem,
    OpenUpdateApplications,
    OpenRollback,
    OpenSystemStatus,
    OpenConfig,
    OpenAbout,
    /// Puts a toast up.
    AddToast(Toast),
    /// Takes down the toast at this position.
    CloseToast(usize),
}

/// The outside work that the shell asks for.
#[derive(Debug, Clone)]
pub enum Effect {
    Nothing,
    /// Save this configuration; answered by [`Message::ConfigSaved`].
    SaveConfig(Config),
    /// Open the page at this address in the user's browser.
    Launch(String),
    /// A task of the screen, whose answer goes back to that screen.
    UpdateSystem(update_system::Task),
    UpdateApplications(update_applications::Task),
    Rollback(rollback::Task),
    SystemStatus(system_status::Task),
}

/// What an [`Effect`] holds, as plain values.
pub enum EffectView {
    Nothing,
    SaveConfig(Config),
    Launch(Seq<char>),
    UpdateSystem(update_system::Task),
    UpdateApplications(update_applications::TaskView),
    Rollback(rollback::Task),
    SystemStatus(system_status::TaskView),
}

impl View for Effect {
    type V = EffectView;

    open spec fn view(&self) -> EffectView {
        match self {
            Effect::Nothing => EffectView::Nothing,
            Effect::SaveConfig(config) => EffectView::SaveConfig(*config),
            Effect::Launch(url) => EffectView::Launch(url@),
            Effect::UpdateSystem(task) => EffectView::UpdateSystem(*task),
            Effect::UpdateApplications(task) => EffectView::UpdateApplications(task@),
            Effect::Rollback(task) => EffectView::Rollback(*task),
            Effect::SystemStatus(task) => EffectView::SystemStatus(task@),
        }
    }
}

/// The front end: the toasts that are up, and the state of the shell.
#[derive(Debug, Clone)]
pub struct FAManagement {
    pub toasts: Vec<Toast>,
    pub state: State,
}

/// What a [`FAManagement`] holds, as plain values.
pub struct ShellView {
    pub toasts: Seq<ToastView>,
    pub state: StateView,
}

impl View for FAManagement {
    type V = ShellView;

    open spec fn view(&self) -> ShellView {
        ShellView { toasts: toast_views(self.toasts@), state: self.state@ }
    }
}

/// What comes of the rollback screen in state `state` taking `message`:
/// the toasts, the screen that is shown, and the effect. Going back shows
/// the welcome screen; a toast of the screen is put up.
pub open spec fn after_rollback(
    toasts: Seq<ToastView>,
    state: rollback::State,
    message: rollback::Message,
) -> (Seq<ToastView>, ScreenView, EffectView) {
    let next = ScreenView::Rollback(rollback::step(state, message).0);
    match rollback::step(state, message).1 {
        rollback::ActionView::Nothing => (toasts, next, EffectView::Nothing),
        rollback::ActionView::Back => (toasts, ScreenView::Welcome, EffectView::Nothing),
        rollback::ActionView::Run(task) => (toasts, next, EffectView::Rollback(task)),
        rollback::ActionView::AddToast(toast) => (toasts.push(toast), next, EffectView::Nothing),
        rollback::ActionView::AddToastAndRun(toast, task) => (
            toasts.push(toast),
            next,
            EffectView::Rollback(task),
        ),
    }
}

/// What comes of the system update screen in state `state` taking `message`.
pub open spec fn after_update_system(
    toasts: Seq<ToastView>,
    state: update_system::StateView,
    message: update_system::Message,
) -> (Seq<ToastView>, ScreenView, EffectView) {
    let next = ScreenView::UpdateSystem(update_system::step(state, message).0);
    match update_system::step(state, message).1 {
        update_system::ActionView::Nothing => (toasts, next, EffectView::Nothing),
        update_system::ActionView::Back => (toasts, ScreenView::Welcome, EffectView::Nothing),
        update_system::ActionView::Run(task) => (toasts, next, EffectView::UpdateSystem(task)),
        update_system::ActionView::AddToast(toast) => (
            toasts.push(toast),
            next,
            EffectView::Nothing,
        ),
        update_system::ActionView::AddToastAndRun(toast, task) => (
            toasts.push(toast),
            next,
            EffectView::UpdateSystem(task),
        ),
    }
}

/// What comes of the system status screen in state `state` taking `message`.
pub open spec fn after_system_status(
    toasts: Seq<ToastView>,
    state: system_status::StateView,
    message: system_status::Message,
) -> (Seq<ToastView>, ScreenView, EffectView) {
    let next = ScreenView::SystemStatus(system_status::step(state, message).0);
    match system_status::step(state, message).1 {
        system_status::ActionView::Nothing => (toasts, next, EffectView::Nothing),
        system_status::ActionView::Back => (toasts, ScreenView::Welcome, EffectView::Nothing),
        system_status::ActionView::Run(task) => (toasts, next, EffectView::SystemStatus(task)),
        system_status::ActionView::AddToast(toast) => (
            toasts.push(toast),
            next,
            EffectView::Nothing,
        ),
        system_status::ActionView::AddToastAndRun(toast, task) => (
            toasts.push(toast),
            next,
            EffectView::SystemStatus(task),
        ),
    }
}

/// What comes of the applications screen in state `state` taking `message`.
pub open spec fn after_update_applications(
    toasts: Seq<ToastView>,
    state: update_applications::StateView,
    message: update_applications::Message,
) -> (Seq<ToastView>, ScreenView, EffectView) {
    let next = ScreenView::UpdateApplications(update_applications::step(state, message).0);
    match update_applications::step(state, message).1 {
        update_applications::ActionView::Nothing => (toasts, next, EffectView::Nothing),
        update_applications::ActionView::Back => (
            toasts,
            ScreenView::Welcome,
            EffectView::Nothing,
        ),
        update_applications::ActionView::Run(task) => (
            toasts,
            next,
            EffectView::UpdateApplications(task),
        ),
        update_applications::ActionView::AddToast(toast) => (
            toasts.push(toast),
            next,
            EffectView::Nothing,
        ),
    }
}

/// `s` showing `screen`, with `toasts` up.
pub open spec fn showing(s: ShellView, config: Config, toasts: Seq<ToastView>, screen: ScreenView)
    -> ShellView {
    ShellView { toasts, state: StateView::Ready { config, screen } }
}

/// `toasts` without the one at position `index`; unchanged where there is
/// no such position.
pub open spec fn closed_at(toasts: Seq<ToastView>, index: int) -> Seq<ToastView> {
    if 0 <= index < toasts.len() {
        toasts.remove(index)
    } else {
        toasts
    }
}

/// The shell that follows `s` on `message`, and the effect that it asks for.
///
/// The configuration's arrival makes the shell ready on the welcome screen.
/// Opening a screen shows it and starts its first task; that needs a shell
/// that is ready. A message for a screen reaches it only while that screen
/// is shown, and is dropped otherwise. A picked theme becomes the theme of
/// the configuration, which is then saved.
pub open spec fn route(s: ShellView, message: Message) -> (ShellView, EffectView) {
    match message {
        Message::ConfigLoaded(result) => match result {
            Ok(config) => (showing(s, config, s.toasts, ScreenView::Welcome), EffectView::Nothing),
            Err(_) => (s, EffectView::Nothing),
        },
        Message::ConfigSaved(_) => (s, EffectView::Nothing),
        Message::AddToast(toast) => (
            ShellView { toasts: s.toasts.push(toast@), ..s },
            EffectView::Nothing,
        ),
        Message::CloseToast(index) => (
            ShellView { toasts: closed_at(s.toasts, index as int), ..s },
            EffectView::Nothing,
        ),
        _ => match s.state {
            StateView::Loading => (s, EffectView::Nothing),
            StateView::Ready { config, screen } => match message {
                Message::OpenUpdateSystem => (
                    showing(
                        s,
                        config,
                        s.toasts,
                        ScreenView::UpdateSystem(update_system::StateView::Loading),
                    ),
                    EffectView::UpdateSystem(update_system::Task::CheckReboot),
                ),
                Message::OpenUpdateApplications => (
                    showing(
                        s,
                        config,
                        s.toasts,
                        ScreenView::UpdateApplications(update_applications::StateView::Loading),
                    ),
                    EffectView::UpdateApplications(update_applications::TaskView::LoadApplications),
                ),
                Message::OpenRollback => (
                    showing(s, config, s.toasts, ScreenView::Rollback(rollback::State::Loading)),
                    EffectView::Rollback(rollback::Task::CheckReboot),
                ),
                Message::OpenSystemStatus => (
                    showing(
                        s,
                        config,
                        s.toasts,
                        ScreenView::SystemStatus(system_status::StateView::Loading),
                    ),
                    EffectView::SystemStatus(system_status::TaskView::CheckReboot),
                ),
                Message::OpenConfig => (
                    showing(s, config, s.toasts, ScreenView::Config(config::State { config })),
                    EffectView::Nothing,
                ),
                Message::OpenAbout => (
                    showing(s, config, s.toasts, ScreenView::About),
                    EffectView::Nothing,
                ),
                Message::UpdateSystem(m) => match screen {
                    ScreenView::UpdateSystem(state) => {
                        let (toasts, next, effect) = after_update_system(s.toasts, state, m);
                        (showing(s, config, toasts, next), effect)
                    },
                    _ => (s, EffectView::Nothing),
                },
                Message::UpdateApplications(m) => match screen {
                    ScreenView::UpdateApplications(state) => {
                        let (toasts, next, effect) = after_update_applications(s.toasts, state, m);
                        (showing(s, config, toasts, next), effect)
                    },
                    _ => (s, EffectView::Nothing),
                },
                Message::Rollback(m) => match screen {
                    ScreenView::Rollback(state) => {
                        let (toasts, next, effect) = after_rollback(s.toasts, state, m);
                        (showing(s, config, toasts, next), effect)
                    },
                    _ => (s, EffectView::Nothing),
                },
                Message::SystemStatus(m) => match screen {
                    ScreenView::SystemStatus(state) => {
                        let (toasts, next, effect) = after_system_status(s.toasts, state, m);
                        (showing(s, config, toasts, next), effect)
                    },
                    _ => (s, EffectView::Nothing),
                },
                Message::Config(m) => match screen {
                    ScreenView::Config(state) => match m {
                        config::Message::Back => (
                            showing(s, config, s.toasts, ScreenView::Welcome),
                            EffectView::Nothing,
                        ),
                        config::Message::ChangedTheme(theme) => (
                            showing(
                                s,
                                Config { theme },
                                s.toasts,
                                ScreenView::Config(config::State { config: Config { theme } }),
                            ),
                            EffectView::SaveConfig(Config { theme }),
                        ),
                    },
                    _ => (s, EffectView::Nothing),
                },
                Message::About(m) => match screen {
                    ScreenView::About => match m {
                        about::Message::Back => (
                            showing(s, config, s.toasts, ScreenView::Welcome),
                            EffectView::Nothing,
                        ),
                        about::Message::LaunchURL(url) => (s, EffectView::Launch(url@)),
                    },
                    _ => (s, EffectView::Nothing),
                },
                _ => (s, EffectView::Nothing),
            },
        },
    }
}

/// Puts `toast` up.
fn put_up(toasts: &mut Vec<Toast>, toast: Toast)
    ensures
        toast_views(final(toasts)@) == toast_views(old(toasts)@).push(toast@),
{
    proof {
        assert(toast_views(toasts@.push(toast)) =~= toast_views(toasts@).push(toast@));
    }
    toasts.push(toast);
}

fn route_rollback(toasts: &mut Vec<Toast>, screen: Rollback, message: rollback::Message) -> (r: (
    Screen,
    Effect,
))
    ensures
        (toast_views(final(toasts)@), r.0@, r.1@) == after_rollback(
            toast_views(old(toasts)@),
            screen.state,
            message,
        ),
{
    let mut screen = screen;
    match screen.update(message) {
        rollback::Action::Nothing => (Screen::Rollback(screen), Effect::Nothing),
        rollback::Action::Back => (Screen::Welcome, Effect::Nothing),
        rollback::Action::Run(task) => (Screen::Rollback(screen), Effect::Rollback(task)),
        rollback::Action::AddToast(toast) => {
            put_up(toasts, toast);
            (Screen::Rollback(screen), Effect::Nothing)
        },
        rollback::Action::AddToastAndRun(toast, task) => {
            put_up(toasts, toast);
            (Screen::Rollback(screen), Effect::Rollback(task))
        },
    }
}

fn route_update_system(
    toasts: &mut Vec<Toast>,
    screen: UpdateSystem,
    message: update_system::Message,
) -> (r: (Screen, Effect))
    ensures
        (toast_views(final(toasts)@), r.0@, r.1@) == after_update_system(
            toast_views(old(toasts)@),
            screen.state@,
            message,
        ),
{
    let mut screen = screen;
    match screen.update(message) {
        update_system::Action::Nothing => (Screen::UpdateSystem(screen), Effect::Nothing),
        update_system::Action::Back => (Screen::Welcome, Effect::Nothing),
        update_system::Action::Run(task) => (
            Screen::UpdateSystem(screen),
            Effect::UpdateSystem(task),
        ),
        update_system::Action::AddToast(toast) => {
            put_up(toasts, toast);
            (Screen::UpdateSystem(screen), Effect::Nothing)
        },
        update_system::Action::AddToastAndRun(toast, task) => {
            put_up(toasts, toast);
            (Screen::UpdateSystem(screen), Effect::UpdateSystem(task))
        },
    }
}

fn route_system_status(
    toasts: &mut Vec<Toast>,
    screen: SystemStatus,
    message: system_status::Message,
) -> (r: (Screen, Effect))
    ensures
        (toast_views(final(toasts)@), r.0@, r.1@) == after_system_status(
            toast_views(old(toasts)@),
            screen.state@,
            message,
        ),
{
    let mut screen = screen;
    match screen.update(message) {
        system_status::Action::Nothing => (Screen::SystemStatus(screen), Effect::Nothing),
        system_status::Action::Back => (Screen::Welcome, Effect::Nothing),
        system_status::Action::Run(task) => (
            Screen::SystemStatus(screen),
            Effect::SystemStatus(task),
        ),
        system_status::Action::AddToast(toast) => {
            put_up(toasts, toast);
            (Screen::SystemStatus(screen), Effect::Nothing)
        },
        system_status::Action::AddToastAndRun(toast, task) => {
            put_up(toasts, toast);
            (Screen::SystemStatus(screen), Effect::SystemStatus(task))
        },
    }
}

fn route_update_applications(
    toasts: &mut Vec<Toast>,
    screen: UpdateApplications,
    message: update_applications::Message,
) -> (r: (Screen, Effect))
    ensures
        (toast_views(final(toasts)@), r.0@, r.1@) == after_update_applications(
            toast_views(old(toasts)@),
            screen.state@,
            message,
        ),
{
    let mut screen = screen;
    match screen.update(message) {
        update_applications::Action::Nothing => (
            Screen::UpdateApplications(screen),
            Effect::Nothing,
        ),
        update_applications::Action::Back => (Screen::Welcome, Effect::Nothing),
        update_applications::Action::Run(task) => (
            Screen::UpdateApplications(screen),
            Effect::UpdateApplications(task),
        ),
        update_applications::Action::AddToast(toast) => {
            put_up(toasts, toast);
            (Screen::UpdateApplications(screen), Effect::Nothing)
        },
    }
}

impl FAManagement {
    /// The front end as it starts: no toast up, the configuration loading.
    pub fn new() -> (shell: FAManagement)
        ensures
            shell@ == (ShellView { toasts: Seq::empty(), state: StateView::Loading }),
    {
        let toasts: Vec<Toast> = Vec::new();
        proof {
            assert(toast_views(toasts@) =~= Seq::<ToastView>::empty());
        }
        FAManagement { toasts, state: State::Loading }
    }

    /// The theme of the front end: that of the configuration, and the
    /// light theme while the configuration is loading.
    pub fn theme(&self) -> (theme: ApplicationTheme)
        ensures
            theme == match self.state@ {
                StateView::Ready { config, .. } => config.theme,
                StateView::Loading => ApplicationTheme::Light,
            },
    {
        match &self.state {
            State::Ready { config, .. } => config.theme,
            State::Loading => ApplicationTheme::Light,
        }
    }

    /// Takes `message`: hands it to the screen it is meant for, moves to
    /// the next state and answers with the effect to perform.
    pub fn update(&mut self, message: Message) -> (effect: Effect)
        ensures
            (final(self)@, effect@) == route(old(self)@, message),
    {
        match message {
            Message::ConfigLoaded(result) => {
                match result {
                    Ok(config) => {
                        self.state = State::Ready { config, screen: Screen::Welcome };
                    },
                    Err(_) => {},
                }
                Effect::Nothing
            },
            Message::ConfigSaved(_) => Effect::Nothing,
            Message::AddToast(toast) => {
                put_up(&mut self.toasts, toast);
                Effect::Nothing
            },
            Message::CloseToast(index) => {
                if index < self.toasts.len() {
                    proof {
                        assert(toast_views(self.toasts@.remove(index as int)) =~= toast_views(
                            self.toasts@,
                        ).remove(index as int));
                    }
                    self.toasts.remove(index);
                }
                Effect::Nothing
            },
            other => {
                let mut taken: State = State::Loading;
                core::mem::swap(&mut self.state, &mut taken);
                match taken {
                    State::Loading => Effect::Nothing,
                    State::Ready { config, screen } => {
                        let (next_config, next, effect): (Config, Screen, Effect) = match other {
                            Message::OpenUpdateSystem => {
                                let (opened, task) = UpdateSystem::new();
                                (config, Screen::UpdateSystem(opened), Effect::UpdateSystem(task))
                            },
                            Message::OpenUpdateApplications => {
                                let (opened, task) = UpdateApplications::new();
                                (
                                    config,
                                    Screen::UpdateApplications(opened),
                                    Effect::UpdateApplications(task),
                                )
                            },
                            Message::OpenRollback => {
                                let (opened, task) = Rollback::new();
                                (config, Screen::Rollback(opened), Effect::Rollback(task))
                            },
                            Message::OpenSystemStatus => {
                                let (opened, task) = SystemStatus::new();
                                (config, Screen::SystemStatus(opened), Effect::SystemStatus(task))
                            },
                            Message::OpenConfig => (
                                config,
                                Screen::Config(crate::screen::Config::new(config)),
                                Effect::Nothing,
                            ),
                            Message::OpenAbout => (
                                config,
                                Screen::About(About::new()),
                                Effect::Nothing,
                            ),
                            Message::UpdateSystem(m) => match screen {
                                Screen::UpdateSystem(shown) => {
                                    let (next, effect) = route_update_system(
                                        &mut self.toasts,
                                        shown,
                                        m,
                                    );
                                    (config, next, effect)
                                },
                                shown => (config, shown, Effect::Nothing),
                            },
                            Message::UpdateApplications(m) => match screen {
                                Screen::UpdateApplications(shown) => {
                                    let (next, effect) = route_update_applications(
                                        &mut self.toasts,
                                        shown,
                                        m,
                                    );
                                    (config, next, effect)
                                },
                                shown => (config, shown, Effect::Nothing),
                            },
                            Message::Rollback(m) => match screen {
                                Screen::Rollback(shown) => {
                                    let (next, effect) = route_rollback(&mut self.toasts, shown, m);
                                    (config, next, effect)
                                },
                                shown => (config, shown, Effect::Nothing),
                            },
                            Message::SystemStatus(m) => match screen {
                                Screen::SystemStatus(shown) => {
                                    let (next, effect) = route_system_status(
                                        &mut self.toasts,
                                        shown,
                                        m,
                                    );
                                    (config, next, effect)
                                },
                                shown => (config, shown, Effect::Nothing),
                            },
                            Message::Config(m) => match screen {
                                Screen::Config(shown) => {
                                    let mut shown = shown;
                                    match shown.update(m) {
                                        config::Action::Back => (
                                            config,
                                            Screen::Welcome,
                                            Effect::Nothing,
                                        ),
                                        config::Action::ChangedTheme(theme) => (
                                            Config { theme },
                                            Screen::Config(shown),
                                            Effect::SaveConfig(Config { theme }),
                                        ),
                                    }
                                },
                                shown => (config, shown, Effect::Nothing),
                            },
                            Message::About(m) => match screen {
                                Screen::About(shown) => {
                                    let mut shown = shown;
                                    match shown.update(m) {
                                        about::Action::Back => (
                                            config,
                                            Screen::Welcome,
                                            Effect::Nothing,
                                        ),
                                        about::Action::Launch(url) => (
                                            config,
                                            Screen::About(shown),
                                            Effect::Launch(url),
                                        ),
                                        about::Action::Nothing => (
                                            config,
                                            Screen::About(shown),
                                            Effect::Nothing,
                                        ),
                                    }
                                },
                                shown => (config, shown, Effect::Nothing),
                            },
                            _ => (config, screen, Effect::Nothing),
                        };
                        self.state = State::Ready { config: next_config, screen: next };
                        effect
                    },
                }
            },
        }
    }
}

} // verus!
