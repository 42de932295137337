//! The screen that rolls the system back to its previous deployment.

use crate::backend::CommandError;
use crate::widgets::toast::{error_of, Toast, ToastView};
use vstd::prelude::*;

verus! {

/// What the screen shows.
#[derive(Debug, Clone, Copy, PartialEq, Eq, Structural)]
pub enum State {
    Loading,
    ApplyingRollback,
    PendingReboot,
    Ready,
}

/// What can happen to the screen.
#[derive(Debug, Clone)]
pub enum Message {
    /// Asks to go back a screen.
    Back,
    /// Asks whether a reboot is pending.
    CheckReboot,
    /// Whether a reboot is pending.
    RebootChecked(bool),
    /// Asks for the rollback.
    Rollback,
    /// How the rollback ended.
    RollbackCompleted(Result<(), CommandError>),
    /// Asks for a reboot.
    RebootNow,
    /// How the reboot ended, should it report back.
    RebootCallback(Result<(), CommandError>),
}

/// The outside work that the screen asks for.
#[derive(Debug, Clone, Copy, PartialEq, Eq, Structural)]
pub enum Task {
    /// Find out whether a reboot is pending; answered by [`Message::RebootChecked`].
    CheckReboot,
    /// Roll the system back; answered by [`Message::RollbackCompleted`].
    Rollback,
    /// Reboot the system; answered by [`Message::RebootCallback`].
    Reboot,
}

/// What the screen asks of whoever drives it.
#[derive(Debug, Clone)]
pub enum Action {
    Nothing,
    Back,
    Run(Task),
    AddToast(Toast),
    AddToastAndRun(Toast, Task),
}

/// What an [`Action`] holds, as plain values.
pub enum ActionView {
    Nothing,
    Back,
    Run(Task),
    AddToast(ToastView),
    AddToastAndRun(ToastView, Task),
}

impl View for Action {
    type V = ActionView;

    open spec fn view(&self) -> ActionView {
        match self {
            Action::Nothing => ActionView::Nothing,
            Action::Back => ActionView::Back,
            Action::Run(task) => ActionView::Run(*task),
            Action::AddToast(toast) => ActionView::AddToast(toast@),
            Action::AddToastAndRun(toast, task) => ActionView::AddToastAndRun(toast@, *task),
        }
    }
}

/// The state that follows `state` on `message`, and the action that the
/// screen answers with.
///
/// Checking for a reboot shows the screen as loading; its answer makes the
/// screen ready or shows the pending reboot. A rollback that succeeded, and
/// a reboot that reported back, lead to a new check. A rollback that failed
/// is reported in a toast and followed by a new check, the state standing
/// until that is answered; a reboot that failed is reported in a toast.
pub open spec fn step(state: State, message: Message) -> (State, ActionView) {
    match message {
        Message::Back => (state, ActionView::Back),
        Message::CheckReboot => (State::Loading, ActionView::Run(Task::CheckReboot)),
        Message::RebootChecked(pending) => (
            if pending {
                State::PendingReboot
            } else {
                State::Ready
            },
            ActionView::Nothing,
        ),
        Message::Rollback => (State::ApplyingRollback, ActionView::Run(Task::Rollback)),
        Message::RollbackCompleted(result) => match result {
            Ok(_) => (State::Loading, ActionView::Run(Task::CheckReboot)),
            Err(e) => (state, ActionView::AddToastAndRun(error_of(e.text()), Task::CheckReboot)),
        },
        Message::RebootNow => (state, ActionView::Run(Task::Reboot)),
        Message::RebootCallback(result) => match result {
            Ok(_) => (State::Loading, ActionView::Run(Task::CheckReboot)),
            Err(e) => (state, ActionView::AddToast(error_of(e.text()))),
        },
    }
}

/// The rollback screen.
#[derive(Debug, Clone, Copy)]
pub struct Rollback {
    pub state: State,
}

impl Rollback {
    /// The screen as it opens: loading, with the check for a pending reboot
    /// as its first task.
    pub fn new() -> (r: (Rollback, Task))
        ensures
            r.0.state == State::Loading,
            r.1 == Task::CheckReboot,
    {
        (Rollback { state: State::Loading }, Task::CheckReboot)
    }

    /// Takes `message`: moves to the next state and answers with an action.
    pub fn update(&mut self, message: Message) -> (action: Action)
        ensures
            (final(self).state, action@) == step(old(self).state, message),
    {
        match message {
            Message::Back => Action::Back,
            Message::CheckReboot => {
                self.state = State::Loading;
                Action::Run(Task::CheckReboot)
            },
            Message::RebootChecked(pending) => {
                if pending {
                    self.state = State::PendingReboot;
                } else {
                    self.state = State::Ready;
                }
                Action::Nothing
            },
            Message::Rollback => {
                self.state = State::ApplyingRollback;
                Action::Run(Task::Rollback)
            },
            Message::RollbackCompleted(result) => match result {
                Ok(_) => {
                    self.state = State::Loading;
                    Action::Run(Task::CheckReboot)
                },
                Err(e) => Action::AddToastAndRun(
                    Toast::error_toast(e.message().as_str()),
                    Task::CheckReboot,
                ),
            },
            Message::RebootNow => Action::Run(Task::Reboot),
            Message::RebootCallback(result) => match result {
                Ok(_) => {
                    self.state = State::Loading;
                    Action::Run(Task::CheckReboot)
                },
                Err(e) => Action::AddToast(Toast::error_toast(e.message().as_str())),
            },
        }
    }
}

/// From loading, the answer to the check decides: a pending reboot is
/// shown, and without one the screen is ready. From ready, asking for the
/// rollback shows it as being applied.
pub proof fn lemma_rollback_flow(pending: bool)
    ensures
        step(State::Loading, Message::RebootChecked(pending)).0 == if pending {
            State::PendingReboot
        } else {
            State::Ready
        },
        step(State::Ready, Message::Rollback) == (
            State::ApplyingRollback,
            ActionView::Run(Task::Rollback),
        ),
{
}

} // verus!
