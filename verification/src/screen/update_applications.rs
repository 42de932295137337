//! The screen that lists the applications with an update and updates them.

use crate::backend::update_applications::{
    application_views, Application, ApplicationStatus, ApplicationView, ScanError, UpdateError,
    UpdateResult,
};
use crate::widgets::toast::{error_of, Toast, ToastView};
use vstd::prelude::*;

verus! {

/// What the screen shows.
#[derive(Debug, Clone)]
pub enum State {
    Loading,
    Ready { applications: Vec<Application> },
}

/// What a [`State`] holds, as plain values.
pub enum StateView {
    Loading,
    Ready { applications: Seq<ApplicationView> },
}

impl View for State {
    type V = StateView;

    open spec fn view(&self) -> StateView {
        match self {
            State::Loading => StateView::Loading,
            State::Ready { applications } => StateView::Ready {
                applications: application_views(applications@),
            },
        }
    }
}

/// What can happen to the screen.
#[derive(Debug, Clone)]
pub enum Message {
    /// Asks to go back a screen.
    Back,
    /// The applications with an update, or why they could not be had.
    LoadedApplicationsList(Result<Vec<Application>, ScanError>),
    /// Asks for a new scan.
    RefreshApplicationsList,
    /// Asks for every application to be updated.
    UpdateAllApplications,
    /// How the update of every application ended.
    UpdatedAllApplications(Result<Vec<UpdateResult>, UpdateError>),
    /// Asks for the application with this identifier to be updated.
    UpdateSingleApplication(String),
    /// How the update of one application ended.
    UpdatedSingleApplication(Result<(), UpdateError>),
}

/// The outside work that the screen asks for.
#[derive(Debug, Clone)]
pub enum Task {
    /// Scan for applications with an update; answered by
    /// [`Message::LoadedApplicationsList`].
    LoadApplications,
    /// Update all of these applications; answered by
    /// [`Message::UpdatedAllApplications`].
    UpdateAll(Vec<Application>),
    /// Update the application with this identifier; answered by
    /// [`Message::UpdatedSingleApplication`].
    UpdateOne(String),
}

/// What a [`Task`] holds, as plain values.
pub enum TaskView {
    LoadApplications,
    UpdateAll(Seq<ApplicationView>),
    UpdateOne(Seq<char>),
}

impl View for Task {
    type V = TaskView;

    open spec fn view(&self) -> TaskView {
        match self {
            Task::LoadApplications => TaskView::LoadApplications,
            Task::UpdateAll(applications) => TaskView::UpdateAll(application_views(applications@)),
            Task::UpdateOne(app_id) => TaskView::UpdateOne(app_id@),
        }
    }
}

/// What the screen asks of whoever drives it.
#[derive(Debug, Clone)]
pub enum Action {
    Nothing,
    Back,
    Run(Task),
    AddToast(Toast),
}

/// What an [`Action`] holds, as plain values.
pub enum ActionView {
    Nothing,
    Back,
    Run(TaskView),
    AddToast(ToastView),
}

impl View for Action {
    type V = ActionView;

    open spec fn view(&self) -> ActionView {
        match self {
            Action::Nothing => ActionView::Nothing,
            Action::Back => ActionView::Back,
            Action::Run(task) => ActionView::Run(task@),
            Action::AddToast(toast) => ActionView::AddToast(toast@),
        }
    }
}

/// `application` marked as being updated.
pub open spec fn updating(application: ApplicationView) -> ApplicationView {
    ApplicationView { application_status: ApplicationStatus::Updating, ..application }
}

/// Every application of `applications` marked as being updated.
pub open spec fn all_updating(applications: Seq<ApplicationView>) -> Seq<ApplicationView> {
    applications.map_values(|a: ApplicationView| updating(a))
}

/// The index of the first application of `applications` with the
/// identifier `app_id`, or `applications.len()` when there is none.
pub open spec fn index_of(applications: Seq<ApplicationView>, app_id: Seq<char>) -> int
    decreases applications.len(),
{
    if applications.len() == 0 || applications[0].app_id == app_id {
        0
    } else {
        1 + index_of(applications.skip(1), app_id)
    }
}

/// Whether one of `applications` is being updated.
pub open spec fn any_updating(applications: Seq<ApplicationView>) -> bool {
    exists|i: int|
        0 <= i < applications.len() && (#[trigger] applications[i]).application_status
            == ApplicationStatus::Updating
}

/// The state that follows `state` on `message`, and the action that the
/// screen answers with.
///
/// The arrival of the applications makes the screen ready; where they could
/// not be had it is ready with none, and the reason in a toast. Updating
/// marks what is updated, all applications or the first one with the given
/// identifier, before the update is attempted; with no application there
/// is nothing to do, and an identifier that no application has is reported
/// in a toast. A finished update leads to a new scan, a failed one to a toast.
pub open spec fn step(state: StateView, message: Message) -> (StateView, ActionView) {
    match message {
        Message::Back => (state, ActionView::Back),
        Message::LoadedApplicationsList(result) => match result {
            Ok(applications) => (
                StateView::Ready { applications: application_views(applications@) },
                ActionView::Nothing,
            ),
            Err(e) => (
                StateView::Ready { applications: Seq::empty() },
                ActionView::AddToast(error_of(e.text())),
            ),
        },
        Message::RefreshApplicationsList => (
            StateView::Loading,
            ActionView::Run(TaskView::LoadApplications),
        ),
        Message::UpdateAllApplications => match state {
            StateView::Ready { applications } => if applications.len() == 0 {
                (state, ActionView::Nothing)
            } else {
                (
                    StateView::Ready { applications: all_updating(applications) },
                    ActionView::Run(TaskView::UpdateAll(all_updating(applications))),
                )
            },
            StateView::Loading => (state, ActionView::Nothing),
        },
        Message::UpdatedAllApplications(result) => match result {
            Ok(_) => (StateView::Loading, ActionView::Run(TaskView::LoadApplications)),
            Err(e) => (state, ActionView::AddToast(error_of(e.text()))),
        },
        Message::UpdateSingleApplication(app_id) => match state {
            StateView::Ready { applications } => if applications.len() == 0 {
                (state, ActionView::Nothing)
            } else {
                let i = index_of(applications, app_id@);
                if 0 <= i < applications.len() {
                    (
                        StateView::Ready {
                            applications: applications.update(i, updating(applications[i])),
                        },
                        ActionView::Run(TaskView::UpdateOne(app_id@)),
                    )
                } else {
                    (state, ActionView::AddToast(error_of("Application not found!"@)))
                }
            },
            StateView::Loading => (state, ActionView::Nothing),
        },
        Message::UpdatedSingleApplication(result) => match result {
            Ok(_) => (StateView::Loading, ActionView::Run(TaskView::LoadApplications)),
            Err(e) => (state, ActionView::AddToast(error_of(e.text()))),
        },
    }
}

proof fn lemma_index_of_is(applications: Seq<ApplicationView>, app_id: Seq<char>, k: int)
    requires
        0 <= k <= applications.len(),
        forall|j: int| 0 <= j < k ==> (#[trigger] applications[j]).app_id != app_id,
        k < applications.len() ==> applications[k].app_id == app_id,
    ensures
        index_of(applications, app_id) == k,
    decreases k,
{
    if k > 0 {
        let rest = applications.skip(1);
        assert forall|j: int| 0 <= j < k - 1 implies (#[trigger] rest[j]).app_id != app_id by {
            assert(rest[j] == applications[j + 1]);
        }
        assert(applications[0].app_id != app_id);
        lemma_index_of_is(rest, app_id, k - 1);
    }
}

/// Copies of `applications`, each with `status` where `marked` says so for
/// its index.
fn copies(applications: &Vec<Application>, all: bool, only: usize) -> (r: Vec<Application>)
    ensures
        r.len() == applications.len(),
        forall|i: int|
            0 <= i < r.len() ==> (#[trigger] r[i])@ == if all || i == only {
                updating(applications[i]@)
            } else {
                applications[i]@
            },
{
    let mut r: Vec<Application> = Vec::new();
    let mut i: usize = 0;
    while i < applications.len()
        invariant
            i <= applications.len(),
            r.len() == i,
            forall|j: int|
                0 <= j < i ==> (#[trigger] r[j])@ == if all || j == only {
                    updating(applications[j]@)
                } else {
                    applications[j]@
                },
        decreases applications.len() - i,
    {
        let status: ApplicationStatus = if all || i == only {
            ApplicationStatus::Updating
        } else {
            applications[i].application_status
        };
        r.push(applications[i].with_status(status));
        i += 1;
    }
    r
}

/// Whether one of `applications` is being updated.
fn one_updating(applications: &Vec<Application>) -> (b: bool)
    ensures
        b == any_updating(application_views(applications@)),
{
    let mut i: usize = 0;
    while i < applications.len()
        invariant
            i <= applications.len(),
            forall|j: int|
                0 <= j < i ==> (#[trigger] application_views(applications@)[j]).application_status
                    != ApplicationStatus::Updating,
        decreases applications.len() - i,
    {
        if applications[i].application_status == ApplicationStatus::Updating {
            proof {
                assert(application_views(applications@)[i as int].application_status
                    == ApplicationStatus::Updating);
            }
            return true;
        }
        i += 1;
    }
    false
}

/// The applications update screen.
#[derive(Debug, Clone)]
pub struct UpdateApplications {
    pub state: State,
}

impl UpdateApplications {
    /// The screen as it opens: loading, with the scan as its first task.
    pub fn new() -> (r: (UpdateApplications, Task))
        ensures
            r.0.state@ == StateView::Loading,
            r.1@ == TaskView::LoadApplications,
    {
        (UpdateApplications { state: State::Loading }, Task::LoadApplications)
    }

    /// Whether an application of the screen is being updated, during which
    /// the screen lets nothing else be started.
    pub fn any_app_updating(&self) -> (b: bool)
        ensures
            b == match self.state@ {
                StateView::Ready { applications } => any_updating(applications),
                StateView::Loading => false,
            },
    {
        match &self.state {
            State::Loading => false,
            State::Ready { applications } => one_updating(applications),
        }
    }

    /// Takes `message`: moves to the next state and answers with an action.
    pub fn update(&mut self, message: Message) -> (action: Action)
        ensures
            (final(self).state@, action@) == step(old(self).state@, message),
    {
        match message {
            Message::Back => Action::Back,
            Message::LoadedApplicationsList(result) => match result {
                Ok(applications) => {
                    self.state = State::Ready { applications };
                    Action::Nothing
                },
                Err(e) => {
                    let applications: Vec<Application> = Vec::new();
                    proof {
                        assert(application_views(applications@) =~= Seq::<
                            ApplicationView,
                        >::empty());
                    }
                    self.state = State::Ready { applications };
                    Action::AddToast(Toast::error_toast(e.message().as_str()))
                },
            },
            Message::RefreshApplicationsList => {
                self.state = State::Loading;
                Action::Run(Task::LoadApplications)
            },
            Message::UpdateAllApplications => {
                let marked: Option<(Vec<Application>, Vec<Application>)> = match &self.state {
                    State::Loading => None,
                    State::Ready { applications } => {
                        if applications.len() == 0 {
                            None
                        } else {
                            let shown: Vec<Application> = copies(applications, true, 0);
                            let sent: Vec<Application> = copies(applications, true, 0);
                            proof {
                                let before = application_views(applications@);
                                assert(application_views(shown@) =~= all_updating(before));
                                assert(application_views(sent@) =~= all_updating(before));
                            }
                            Some((shown, sent))
                        }
                    },
                };
                match marked {
                    None => Action::Nothing,
                    Some((shown, sent)) => {
                        self.state = State::Ready { applications: shown };
                        Action::Run(Task::UpdateAll(sent))
                    },
                }
            },
            Message::UpdatedAllApplications(result) => match result {
                Ok(_) => {
                    self.state = State::Loading;
                    Action::Run(Task::LoadApplications)
                },
                Err(e) => Action::AddToast(Toast::error_toast(e.message().as_str())),
            },
            Message::UpdateSingleApplication(application_id) => {
                let marked: Option<Option<Vec<Application>>> = match &self.state {
                    State::Loading => None,
                    State::Ready { applications } => {
                        if applications.len() == 0 {
                            None
                        } else {
                            let ghost before = application_views(applications@);
                            let mut i: usize = 0;
                            while i < applications.len() && applications[i].app_id
                                != application_id
                                invariant
                                    i <= applications.len(),
                                    before == application_views(applications@),
                                    forall|j: int|
                                        0 <= j < i ==> (#[trigger] before[j]).app_id
                                            != application_id@,
                                decreases applications.len() - i,
                            {
                                proof {
                                    assert(before[i as int].app_id != application_id@);
                                }
                                i += 1;
                            }
                            proof {
                                if i < applications.len() {
                                    assert(before[i as int].app_id == application_id@);
                                }
                                lemma_index_of_is(before, application_id@, i as int);
                            }
                            if i < applications.len() {
                                let shown: Vec<Application> = copies(applications, false, i);
                                proof {
                                    assert(application_views(shown@) =~= before.update(
                                        i as int,
                                        updating(before[i as int]),
                                    ));
                                }
                                Some(Some(shown))
                            } else {
                                Some(None)
                            }
                        }
                    },
                };
                match marked {
                    None => Action::Nothing,
                    Some(None) => Action::AddToast(Toast::error_toast("Application not found!")),
                    Some(Some(shown)) => {
                        self.state = State::Ready { applications: shown };
                        Action::Run(Task::UpdateOne(application_id))
                    },
                }
            },
            Message::UpdatedSingleApplication(result) => match result {
                Ok(_) => {
                    self.state = State::Loading;
                    Action::Run(Task::LoadApplications)
                },
                Err(e) => Action::AddToast(Toast::error_toast(e.message().as_str())),
            },
        }
    }
}

} // verus!
