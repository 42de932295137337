//! The screen that shows the pending update of the system and applies it.

use crate::backend::update_system::{SystemUpdate, SystemUpdateView};
use crate::backend::CommandError;
use crate::widgets::toast::{error_of, Toast, ToastView};
use vstd::prelude::*;

verus! {

/// What the screen shows.
#[derive(Debug, Clone)]
pub enum State {
    Loading,
    Updating,
    PendingReboot,
    Ready { update: Option<SystemUpdate> },
}

/// What a [`State`] holds, as plain values.
pub enum StateView {
    Loading,
    Updating,
    PendingReboot,
    Ready { update: Option<SystemUpdateView> },
}

/// The view of an optional update.
pub open spec fn update_view(update: Option<SystemUpdate>) -> Option<SystemUpdateView> {
    match update {
        Some(u) => Some(u@),
        None => None,
    }
}

impl View for State {
    type V = StateView;

    open spec fn view(&self) -> StateView {
        match self {
            State::Loading => StateView::Loading,
            State::Updating => StateView::Updating,
            State::PendingReboot => StateView::PendingReboot,
            State::Ready { update } => StateView::Ready { update: update_view(*update) },
        }
    }
}

/// What can happen to the screen.
#[derive(Debug, Clone)]
pub enum Message {
    /// Asks to go back a screen.
    Back,
    /// Asks whether a reboot is pending.
    CheckReboot,
    /// Whether a reboot is pending.
    RebootChecked(bool),
    /// The update that the check found, if any.
    UpdateLoaded(Option<SystemUpdate>),
    /// Asks for a new check for updates.
    RefreshAvailableUpdates,
    /// Asks for the update to be applied.
    Update,
    /// How applying the update ended.
    Updated(Result<(), CommandError>),
    /// Asks for a reboot.
    RebootNow,
    /// How the reboot ended, should it report back.
    RebootCallback(Result<(), CommandError>),
}

/// The outside work that the screen asks for.
#[derive(Debug, Clone, Copy, PartialEq, Eq, Structural)]
pub enum Task {
    /// Find out whether a reboot is pending; answered by [`Message::RebootChecked`].
    CheckReboot,
    /// Check for an update; answered by [`Message::UpdateLoaded`].
    CheckUpdate,
    /// Apply the update; answered by [`Message::Updated`].
    Update,
    /// Reboot the system; answered by [`Message::RebootCallback`].
    Reboot,
}

/// What the screen asks of whoever drives it.
#[derive(Debug, Clone)]
pub enum Action {
    Nothing,
    Back,
    Run(Task),
    AddToast(Toast),
    AddToastAndRun(Toast, Task),
}

/// What an [`Action`] holds, as plain values.
pub enum ActionView {
    Nothing,
    Back,
    Run(Task),
    AddToast(ToastView),
    AddToastAndRun(ToastView, Task),
}

impl View for Action {
    type V = ActionView;

    open spec fn view(&self) -> ActionView {
        match self {
            Action::Nothing => ActionView::Nothing,
            Action::Back => ActionView::Back,
            Action::Run(task) => ActionView::Run(*task),
            Action::AddToast(toast) => ActionView::AddToast(toast@),
            Action::AddToastAndRun(toast, task) => ActionView::AddToastAndRun(toast@, *task),
        }
    }
}

/// The state that follows `state` on `message`, and the action that the
/// screen answers with.
///
/// Checking for a reboot shows the screen as loading. A pending reboot is
/// shown; without one the screen checks for an update, whose answer makes
/// it ready. Applying the update shows the screen as updating; success, and
/// a reboot that reported back, lead to a new check for a reboot. A failed
/// update is reported in a toast and followed by that check, the state
/// standing until it is answered; a failed reboot is reported in a toast.
pub open spec fn step(state: StateView, message: Message) -> (StateView, ActionView) {
    match message {
        Message::Back => (state, ActionView::Back),
        Message::CheckReboot => (StateView::Loading, ActionView::Run(Task::CheckReboot)),
        Message::RebootChecked(pending) => if pending {
            (StateView::PendingReboot, ActionView::Nothing)
        } else {
            (StateView::Loading, ActionView::Run(Task::CheckUpdate))
        },
        Message::UpdateLoaded(update) => (
            StateView::Ready { update: update_view(update) },
            ActionView::Nothing,
        ),
        Message::RefreshAvailableUpdates => (
            StateView::Loading,
            ActionView::Run(Task::CheckUpdate),
        ),
        Message::Update => (StateView::Updating, ActionView::Run(Task::Update)),
        Message::Updated(result) => match result {
            Ok(_) => (StateView::Loading, ActionView::Run(Task::CheckReboot)),
            Err(e) => (state, ActionView::AddToastAndRun(error_of(e.text()), Task::CheckReboot)),
        },
        Message::RebootNow => (state, ActionView::Run(Task::Reboot)),
        Message::RebootCallback(result) => match result {
            Ok(_) => (StateView::Loading, ActionView::Run(Task::CheckReboot)),
            Err(e) => (state, ActionView::AddToast(error_of(e.text()))),
        },
    }
}

/// The system update screen.
#[derive(Debug, Clone)]
pub struct UpdateSystem {
    pub state: State,
}

impl UpdateSystem {
    /// The screen as it opens: loading, with the check for a pending reboot
    /// as its first task.
    pub fn new() -> (r: (UpdateSystem, Task))
        ensures
            r.0.state@ == StateView::Loading,
            r.1 == Task::CheckReboot,
    {
        (UpdateSystem { state: State::Loading }, Task::CheckReboot)
    }

    /// Takes `message`: moves to the next state and answers with an action.
    pub fn update(&mut self, message: Message) -> (action: Action)
        ensures
            (final(self).state@, action@) == step(old(self).state@, message),
    {
        match message {
            Message::Back => Action::Back,
            Message::CheckReboot => {
                self.state = State::Loading;
                Action::Run(Task::CheckReboot)
            },
            Message::RebootChecked(pending) => {
                if pending {
                    self.state = State::PendingReboot;
                    Action::Nothing
                } else {
                    self.state = State::Loading;
                    Action::Run(Task::CheckUpdate)
                }
            },
            Message::UpdateLoaded(update) => {
                self.state = State::Ready { update };
                Action::Nothing
            },
            Message::RefreshAvailableUpdates => {
                self.state = State::Loading;
                Action::Run(Task::CheckUpdate)
            },
            Message::Update => {
                self.state = State::Updating;
                Action::Run(Task::Update)
            },
            Message::Updated(result) => match result {
                Ok(_) => {
                    self.state = State::Loading;
                    Action::Run(Task::CheckReboot)
                },
                Err(e) => Action::AddToastAndRun(
                    Toast::error_toast(e.message().as_str()),
                    Task::CheckReboot,
                ),
            },
            Message::RebootNow => Action::Run(Task::Reboot),
            Message::RebootCallback(result) => match result {
                Ok(_) => {
                    self.state = State::Loading;
                    Action::Run(Task::CheckReboot)
                },
                Err(e) => Action::AddToast(Toast::error_toast(e.message().as_str())),
            },
        }
    }
}

} // verus!
