//! The screen that lists the deployments, pins or unpins them, and opens
//! the management of the layered packages.

use crate::backend::system_status::{deployment_views, Deployment, DeploymentView, StatusError};
use crate::backend::CommandError;
use crate::screen::system_status::layered_packages::{
    package_names, LayeredPackages, LayeredPackagesView, TabView,
};
use crate::widgets::toast::{error_of, Toast, ToastView};
use vstd::prelude::*;

pub mod layered_packages;

verus! {

/// What the screen shows.
#[derive(Debug, Clone)]
pub enum State {
    Loading,
    PendingReboot,
    Ready { deployments: Vec<Deployment> },
    /// The layered packages of the first deployment are being managed.
    Packages { deployments: Vec<Deployment>, screen: LayeredPackages },
}

/// What a [`State`] holds, as plain values.
pub enum StateView {
    Loading,
    PendingReboot,
    Ready { deployments: Seq<DeploymentView> },
    Packages { deployments: Seq<DeploymentView>, screen: LayeredPackagesView },
}

impl View for State {
    type V = StateView;

    open spec fn view(&self) -> StateView {
        match self {
            State::Loading => StateView::Loading,
            State::PendingReboot => StateView::PendingReboot,
            State::Ready { deployments } => StateView::Ready {
                deployments: deployment_views(deployments@),
            },
            State::Packages { deployments, screen } => StateView::Packages {
                deployments: deployment_views(deployments@),
                screen: screen@,
            },
        }
    }
}

/// What can happen to the screen.
#[derive(Debug, Clone)]
pub enum Message {
    /// Asks to go back a screen.
    Back,
    /// Asks whether a reboot is pending.
    CheckReboot,
    /// Whether a reboot is pending.
    RebootChecked(bool),
    /// Asks for the deployments.
    LoadDeployments,
    /// The deployments, or why they could not be had.
    DeploymentsLoaded(Result<Vec<Deployment>, StatusError>),
    /// Asks for the management of the layered packages.
    ManageLayeredPackages,
    /// Something happened to the management of the layered packages.
    LayeredPackages(layered_packages::Message),
    /// Asks for a deployment to be pinned.
    PinDeployment(Deployment),
    /// Asks for a deployment to be unpinned.
    UnpinDeployment(Deployment),
    /// How pinning or unpinning ended.
    DeploymentPinChanged(Result<(), CommandError>),
    /// Asks for a reboot.
    RebootNow,
    /// How the reboot ended, should it report back.
    RebootCallback(Result<(), CommandError>),
}

/// The outside work that the screen asks for.
#[derive(Debug, Clone)]
pub enum Task {
    /// Find out whether a reboot is pending; answered by [`Message::RebootChecked`].
    CheckReboot,
    /// Query the deployments; answered by [`Message::DeploymentsLoaded`].
    LoadDeployments,
    /// Pin the deployment with this index; answered by [`Message::DeploymentPinChanged`].
    Pin(usize),
    /// Unpin the deployment with this index; answered by [`Message::DeploymentPinChanged`].
    Unpin(usize),
    /// Reboot the system; answered by [`Message::RebootCallback`].
    Reboot,
    /// A task of the management of the layered packages; answered in a
    /// [`Message::LayeredPackages`].
    Packages(layered_packages::Task),
}

/// What a [`Task`] holds, as plain values.
pub enum TaskView {
    CheckReboot,
    LoadDeployments,
    Pin(usize),
    Unpin(usize),
    Reboot,
    Packages(layered_packages::TaskView),
}

impl View for Task {
    type V = TaskView;

    open spec fn view(&self) -> TaskView {
        match self {
            Task::CheckReboot => TaskView::CheckReboot,
            Task::LoadDeployments => TaskView::LoadDeployments,
            Task::Pin(index) => TaskView::Pin(*index),
            Task::Unpin(index) => TaskView::Unpin(*index),
            Task::Reboot => TaskView::Reboot,
            Task::Packages(task) => TaskView::Packages(task@),
        }
    }
}

/// What the screen asks of whoever drives it.
#[derive(Debug, Clone)]
pub enum Action {
    Nothing,
    Back,
    Run(Task),
    AddToast(Toast),
    AddToastAndRun(Toast, Task),
}

/// What an [`Action`] holds, as plain values.
pub enum ActionView {
    Nothing,
    Back,
    Run(TaskView),
    AddToast(ToastView),
    AddToastAndRun(ToastView, TaskView),
}

impl View for Action {
    type V = ActionView;

    open spec fn view(&self) -> ActionView {
        match self {
            Action::Nothing => ActionView::Nothing,
            Action::Back => ActionView::Back,
            Action::Run(task) => ActionView::Run(task@),
            Action::AddToast(toast) => ActionView::AddToast(toast@),
            Action::AddToastAndRun(toast, task) => ActionView::AddToastAndRun(toast@, task@),
        }
    }
}

/// The management of layered packages as it opens on `deployment`.
pub open spec fn opened_on(deployment: DeploymentView) -> LayeredPackagesView {
    LayeredPackagesView {
        applying_changes: false,
        current_packages: package_names(deployment.layered_packages),
        current_tab: TabView::AddPackages {
            package_name_input: Seq::empty(),
            packages_to_add: Seq::empty(),
        },
    }
}

/// What comes of the management of layered packages in state `screen`
/// taking `message`, the deployments being `deployments`. Going back shows
/// the deployments again; changes that were applied lead to a new check
/// for a pending reboot.
pub open spec fn after_packages(
    deployments: Seq<DeploymentView>,
    screen: LayeredPackagesView,
    message: layered_packages::Message,
) -> (StateView, ActionView) {
    let next = StateView::Packages {
        deployments,
        screen: layered_packages::step(screen, message).0,
    };
    match layered_packages::step(screen, message).1 {
        layered_packages::ActionView::Nothing => (next, ActionView::Nothing),
        layered_packages::ActionView::Back => (
            StateView::Ready { deployments },
            ActionView::Nothing,
        ),
        layered_packages::ActionView::Run(task) => (
            next,
            ActionView::Run(TaskView::Packages(task)),
        ),
        layered_packages::ActionView::AddToast(toast) => (next, ActionView::AddToast(toast)),
        layered_packages::ActionView::BackAndCheckReboot => (
            StateView::Loading,
            ActionView::Run(TaskView::CheckReboot),
        ),
    }
}

/// The state that follows `state` on `message`, and the action that the
/// screen answers with.
///
/// Checking for a reboot shows the screen as loading. A pending reboot is
/// shown; without one the deployments are queried, and their arrival makes
/// the screen ready. Deployments that could not be had leave the screen
/// ready with none, and the reason in a toast. A deployment is pinned only
/// where it is not pinned, and unpinned only where it is; either way the
/// deployments are queried again afterwards, never changed in place, a
/// failure being reported in a toast. The layered packages are managed for
/// the first deployment, from a screen that is ready; a pending reboot
/// rules it out. A message for that management reaches it only while it is open.
pub open spec fn step(state: StateView, message: Message) -> (StateView, ActionView) {
    match message {
        Message::Back => (state, ActionView::Back),
        Message::CheckReboot => (StateView::Loading, ActionView::Run(TaskView::CheckReboot)),
        Message::RebootChecked(pending) => if pending {
            (StateView::PendingReboot, ActionView::Nothing)
        } else {
            (state, ActionView::Run(TaskView::LoadDeployments))
        },
        Message::LoadDeployments => (state, ActionView::Run(TaskView::LoadDeployments)),
        Message::DeploymentsLoaded(result) => match result {
            Ok(deployments) => (
                StateView::Ready { deployments: deployment_views(deployments@) },
                ActionView::Nothing,
            ),
            Err(e) => (
                StateView::Ready { deployments: Seq::empty() },
                ActionView::AddToast(error_of(e.text())),
            ),
        },
        Message::ManageLayeredPackages => match state {
            StateView::Ready { deployments } => if deployments.len() > 0 {
                (
                    StateView::Packages { deployments, screen: opened_on(deployments[0]) },
                    ActionView::Nothing,
                )
            } else {
                (state, ActionView::Nothing)
            },
            StateView::PendingReboot => (
                state,
                ActionView::AddToast(
                    error_of("Can't manage layered packages with a pending reboot"@),
                ),
            ),
            _ => (state, ActionView::Nothing),
        },
        Message::LayeredPackages(m) => match state {
            StateView::Packages { deployments, screen } => after_packages(deployments, screen, m),
            _ => (state, ActionView::Nothing),
        },
        Message::PinDeployment(deployment) => if !deployment.is_pinned {
            (state, ActionView::Run(TaskView::Pin(deployment.index)))
        } else {
            (state, ActionView::Nothing)
        },
        Message::UnpinDeployment(deployment) => if deployment.is_pinned {
            (state, ActionView::Run(TaskView::Unpin(deployment.index)))
        } else {
            (state, ActionView::Nothing)
        },
        Message::DeploymentPinChanged(result) => match result {
            Ok(_) => (state, ActionView::Run(TaskView::LoadDeployments)),
            Err(e) => (
                state,
                ActionView::AddToastAndRun(error_of(e.text()), TaskView::LoadDeployments),
            ),
        },
        Message::RebootNow => (state, ActionView::Run(TaskView::Reboot)),
        Message::RebootCallback(result) => match result {
            Ok(_) => (StateView::Loading, ActionView::Run(TaskView::CheckReboot)),
            Err(e) => (state, ActionView::AddToast(error_of(e.text()))),
        },
    }
}

/// Hands `message` to the management of layered packages.
fn route_packages(
    deployments: Vec<Deployment>,
    screen: LayeredPackages,
    message: layered_packages::Message,
) -> (r: (State, Action))
    ensures
        (r.0@, r.1@) == after_packages(deployment_views(deployments@), screen@, message),
{
    let mut screen = screen;
    match screen.update(message) {
        layered_packages::Action::Nothing => (
            State::Packages { deployments, screen },
            Action::Nothing,
        ),
        layered_packages::Action::Back => (State::Ready { deployments }, Action::Nothing),
        layered_packages::Action::Run(task) => (
            State::Packages { deployments, screen },
            Action::Run(Task::Packages(task)),
        ),
        layered_packages::Action::AddToast(toast) => (
            State::Packages { deployments, screen },
            Action::AddToast(toast),
        ),
        layered_packages::Action::BackAndCheckReboot => (
            State::Loading,
            Action::Run(Task::CheckReboot),
        ),
    }
}

/// The system status screen.
#[derive(Debug, Clone)]
pub struct SystemStatus {
    pub state: State,
}

impl SystemStatus {
    /// The screen as it opens: loading, with the check for a pending reboot
    /// as its first task.
    pub fn new() -> (r: (SystemStatus, Task))
        ensures
            r.0.state@ == StateView::Loading,
            r.1@ == TaskView::CheckReboot,
    {
        (SystemStatus { state: State::Loading }, Task::CheckReboot)
    }

    /// Takes `message`: moves to the next state and answers with an action.
    pub fn update(&mut self, message: Message) -> (action: Action)
        ensures
            (final(self).state@, action@) == step(old(self).state@, message),
    {
        match message {
            Message::Back => Action::Back,
            Message::CheckReboot => {
                self.state = State::Loading;
                Action::Run(Task::CheckReboot)
            },
            Message::RebootChecked(pending) => {
                if pending {
                    self.state = State::PendingReboot;
                    Action::Nothing
                } else {
                    Action::Run(Task::LoadDeployments)
                }
            },
            Message::LoadDeployments => Action::Run(Task::LoadDeployments),
            Message::DeploymentsLoaded(result) => match result {
                Ok(deployments) => {
                    self.state = State::Ready { deployments };
                    Action::Nothing
                },
                Err(e) => {
                    let deployments: Vec<Deployment> = Vec::new();
                    proof {
                        assert(deployment_views(deployments@) =~= Seq::<DeploymentView>::empty());
                    }
                    self.state = State::Ready { deployments };
                    Action::AddToast(Toast::error_toast(e.message().as_str()))
                },
            },
            Message::ManageLayeredPackages => {
                let mut taken: State = State::Loading;
                core::mem::swap(&mut self.state, &mut taken);
                match taken {
                    State::Ready { deployments } => {
                        if deployments.len() > 0 {
                            let screen: LayeredPackages = LayeredPackages::new(&deployments[0]);
                            proof {
                                assert(deployment_views(deployments@)[0] == deployments[0]@);
                            }
                            self.state = State::Packages { deployments, screen };
                        } else {
                            self.state = State::Ready { deployments };
                        }
                        Action::Nothing
                    },
                    State::PendingReboot => {
                        self.state = State::PendingReboot;
                        Action::AddToast(
                            Toast::error_toast(
                                "Can't manage layered packages with a pending reboot",
                            ),
                        )
                    },
                    other => {
                        self.state = other;
                        Action::Nothing
                    },
                }
            },
            Message::LayeredPackages(m) => {
                let mut taken: State = State::Loading;
                core::mem::swap(&mut self.state, &mut taken);
                match taken {
                    State::Packages { deployments, screen } => {
                        let (next, action) = route_packages(deployments, screen, m);
                        self.state = next;
                        action
                    },
                    other => {
                        self.state = other;
                        Action::Nothing
                    },
                }
            },
            Message::PinDeployment(deployment) => {
                if !deployment.is_pinned {
                    Action::Run(Task::Pin(deployment.index))
                } else {
                    Action::Nothing
                }
            },
            Message::UnpinDeployment(deployment) => {
                if deployment.is_pinned {
                    Action::Run(Task::Unpin(deployment.index))
                } else {
                    Action::Nothing
                }
            },
            Message::DeploymentPinChanged(result) => match result {
                Ok(_) => Action::Run(Task::LoadDeployments),
                Err(e) => Action::AddToastAndRun(
                    Toast::error_toast(e.message().as_str()),
                    Task::LoadDeployments,
                ),
            },
            Message::RebootNow => Action::Run(Task::Reboot),
            Message::RebootCallback(result) => match result {
                Ok(_) => {
                    self.state = State::Loading;
                    Action::Run(Task::CheckReboot)
                },
                Err(e) => Action::AddToast(Toast::error_toast(e.message().as_str())),
            },
        }
    }
}

} // verus!
