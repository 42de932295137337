use rot_management::backend::config::{ApplicationTheme, Config};
use rot_management::backend::layered_packages::CheckPackageError;
use rot_management::backend::system_status::{Deployment, StatusError};
use rot_management::backend::update_applications::{
    Application, ApplicationStatus, ScanError, UpdateError,
};
use rot_management::backend::update_system::SystemUpdate;
use rot_management::backend::{CommandError, ParseError};
use rot_management::screen::system_status::layered_packages::{
    Action as PackagesAction, LayeredPackages, Message as PackagesMessage, Tab,
    Task as PackagesTask,
};
use rot_management::screen::{about, config, rollback, system_status, update_applications, update_system};
use rot_management::widgets::toast::Status;

fn deployment(packages: &str, pinned: bool, index: usize) -> Deployment {
    Deployment {
        name: "fedora".to_string(),
        version: "42".to_string(),
        base_commit: "abc".to_string(),
        gpg_signature: String::new(),
        layered_packages: packages.to_string(),
        is_pinned: pinned,
        index,
    }
}

fn app(id: &str) -> Application {
    Application {
        name: id.to_uppercase(),
        app_id: id.to_string(),
        icon: None,
        current_version: "1".to_string(),
        latest_version: "2".to_string(),
        application_status: ApplicationStatus::NotUpdating,
    }
}

#[test]
fn rollback_flow() {
    let (mut screen, task) = rollback::Rollback::new();
    assert_eq!(screen.state, rollback::State::Loading);
    assert_eq!(task, rollback::Task::CheckReboot);
    assert!(matches!(
        screen.update(rollback::Message::RebootChecked(false)),
        rollback::Action::Nothing
    ));
    assert_eq!(screen.state, rollback::State::Ready);
    assert!(matches!(
        screen.update(rollback::Message::Rollback),
        rollback::Action::Run(rollback::Task::Rollback)
    ));
    assert_eq!(screen.state, rollback::State::ApplyingRollback);
    assert!(matches!(
        screen.update(rollback::Message::RollbackCompleted(Ok(()))),
        rollback::Action::Run(rollback::Task::CheckReboot)
    ));
    assert_eq!(screen.state, rollback::State::Loading);
    screen.update(rollback::Message::RebootChecked(true));
    assert_eq!(screen.state, rollback::State::PendingReboot);
    assert!(matches!(
        screen.update(rollback::Message::RebootNow),
        rollback::Action::Run(rollback::Task::Reboot)
    ));
    assert_eq!(screen.state, rollback::State::PendingReboot);
    assert!(matches!(
        screen.update(rollback::Message::Back),
        rollback::Action::Back
    ));
}

#[test]
fn rollback_failure_is_a_toast_and_a_new_check() {
    let (mut screen, _) = rollback::Rollback::new();
    screen.update(rollback::Message::RebootChecked(false));
    screen.update(rollback::Message::Rollback);
    match screen.update(rollback::Message::RollbackCompleted(Err(
        CommandError::PermissionDenied,
    ))) {
        rollback::Action::AddToastAndRun(toast, task) => {
            assert_eq!(toast.title, "Error");
            assert_eq!(toast.body, "Permission denied");
            assert_eq!(toast.status, Status::Danger);
            assert_eq!(task, rollback::Task::CheckReboot);
        }
        other => panic!("unexpected: {:?}", other),
    }
    assert_eq!(screen.state, rollback::State::ApplyingRollback);
    match screen.update(rollback::Message::RebootCallback(Err(
        CommandError::CommandFailed("systemctl reboot failed: x".to_string()),
    ))) {
        rollback::Action::AddToast(toast) => assert_eq!(toast.body, "systemctl reboot failed: x"),
        other => panic!("unexpected: {:?}", other),
    }
    assert!(matches!(
        screen.update(rollback::Message::RebootCallback(Ok(()))),
        rollback::Action::Run(rollback::Task::CheckReboot)
    ));
    assert_eq!(screen.state, rollback::State::Loading);
}

#[test]
fn update_system_flow() {
    let (mut screen, task) = update_system::UpdateSystem::new();
    assert_eq!(task, update_system::Task::CheckReboot);
    assert!(matches!(screen.state, update_system::State::Loading));
    assert!(matches!(
        screen.update(update_system::Message::RebootChecked(false)),
        update_system::Action::Run(update_system::Task::CheckUpdate)
    ));
    assert!(matches!(screen.state, update_system::State::Loading));
    let update = SystemUpdate {
        version: "42.1".to_string(),
        commit: "abc".to_string(),
        gpg_signature: String::new(),
        sec_advisories: None,
        diff: String::new(),
    };
    assert!(matches!(
        screen.update(update_system::Message::UpdateLoaded(Some(update))),
        update_system::Action::Nothing
    ));
    match &screen.state {
        update_system::State::Ready { update: Some(u) } => assert_eq!(u.version, "42.1"),
        other => panic!("unexpected: {:?}", other),
    }
    assert!(matches!(
        screen.update(update_system::Message::Update),
        update_system::Action::Run(update_system::Task::Update)
    ));
    assert!(matches!(screen.state, update_system::State::Updating));
    match screen.update(update_system::Message::Updated(Err(CommandError::CommandFailed(
        "no space".to_string(),
    )))) {
        update_system::Action::AddToastAndRun(toast, task) => {
            assert_eq!(toast.body, "no space");
            assert_eq!(task, update_system::Task::CheckReboot);
        }
        other => panic!("unexpected: {:?}", other),
    }
    assert!(matches!(screen.state, update_system::State::Updating));
    assert!(matches!(
        screen.update(update_system::Message::Updated(Ok(()))),
        update_system::Action::Run(update_system::Task::CheckReboot)
    ));
    assert!(matches!(screen.state, update_system::State::Loading));
    screen.update(update_system::Message::RebootChecked(true));
    assert!(matches!(screen.state, update_system::State::PendingReboot));
    assert!(matches!(
        screen.update(update_system::Message::RefreshAvailableUpdates),
        update_system::Action::Run(update_system::Task::CheckUpdate)
    ));
    assert!(matches!(screen.state, update_system::State::Loading));
    screen.update(update_system::Message::UpdateLoaded(None));
    assert!(matches!(
        screen.state,
        update_system::State::Ready { update: None }
    ));
}

#[test]
fn system_status_flow() {
    let (mut screen, task) = system_status::SystemStatus::new();
    assert!(matches!(task, system_status::Task::CheckReboot));
    assert!(matches!(
        screen.update(system_status::Message::RebootChecked(false)),
        system_status::Action::Run(system_status::Task::LoadDeployments)
    ));
    assert!(matches!(screen.state, system_status::State::Loading));
    screen.update(system_status::Message::DeploymentsLoaded(Ok(vec![
        deployment("None", false, 0),
        deployment("None", true, 1),
    ])));
    match &screen.state {
        system_status::State::Ready { deployments } => assert_eq!(deployments.len(), 2),
        other => panic!("unexpected: {:?}", other),
    }
    assert!(matches!(
        screen.update(system_status::Message::PinDeployment(deployment("", false, 3))),
        system_status::Action::Run(system_status::Task::Pin(3))
    ));
    assert!(matches!(
        screen.update(system_status::Message::PinDeployment(deployment("", true, 3))),
        system_status::Action::Nothing
    ));
    assert!(matches!(
        screen.update(system_status::Message::UnpinDeployment(deployment("", true, 1))),
        system_status::Action::Run(system_status::Task::Unpin(1))
    ));
    assert!(matches!(
        screen.update(system_status::Message::UnpinDeployment(deployment("", false, 1))),
        system_status::Action::Nothing
    ));
    assert!(matches!(
        screen.update(system_status::Message::DeploymentPinChanged(Ok(()))),
        system_status::Action::Run(system_status::Task::LoadDeployments)
    ));
    match screen.update(system_status::Message::DeploymentPinChanged(Err(
        CommandError::PermissionDenied,
    ))) {
        system_status::Action::AddToastAndRun(toast, task) => {
            assert_eq!(toast.body, "Permission denied");
            assert!(matches!(task, system_status::Task::LoadDeployments));
        }
        other => panic!("unexpected: {:?}", other),
    }
    match screen.update(system_status::Message::DeploymentsLoaded(Err(
        StatusError::Parse(ParseError::NoDeploymentsFound),
    ))) {
        system_status::Action::AddToast(toast) => {
            assert_eq!(toast.body, "No deployments found in rpm-ostree status output")
        }
        other => panic!("unexpected: {:?}", other),
    }
    match &screen.state {
        system_status::State::Ready { deployments } => assert!(deployments.is_empty()),
        other => panic!("unexpected: {:?}", other),
    }
    screen.update(system_status::Message::CheckReboot);
    assert!(matches!(screen.state, system_status::State::Loading));
    screen.update(system_status::Message::RebootChecked(true));
    assert!(matches!(screen.state, system_status::State::PendingReboot));
}

#[test]
fn update_applications_flow() {
    let (mut screen, task) = update_applications::UpdateApplications::new();
    assert!(matches!(task, update_applications::Task::LoadApplications));
    assert!(!screen.any_app_updating());
    assert!(matches!(
        screen.update(update_applications::Message::UpdateAllApplications),
        update_applications::Action::Nothing
    ));
    screen.update(update_applications::Message::LoadedApplicationsList(Ok(vec![
        app("org.a"),
        app("org.b"),
        app("org.a"),
    ])));
    assert!(!screen.any_app_updating());
    match screen.update(update_applications::Message::UpdateSingleApplication(
        "org.a".to_string(),
    )) {
        update_applications::Action::Run(update_applications::Task::UpdateOne(id)) => {
            assert_eq!(id, "org.a")
        }
        other => panic!("unexpected: {:?}", other),
    }
    match &screen.state {
        update_applications::State::Ready { applications } => {
            assert_eq!(applications[0].application_status, ApplicationStatus::Updating);
            assert_eq!(applications[1].application_status, ApplicationStatus::NotUpdating);
            assert_eq!(applications[2].application_status, ApplicationStatus::NotUpdating);
        }
        other => panic!("unexpected: {:?}", other),
    }
    assert!(screen.any_app_updating());
    match screen.update(update_applications::Message::UpdateSingleApplication(
        "org.none".to_string(),
    )) {
        update_applications::Action::AddToast(toast) => {
            assert_eq!(toast.body, "Application not found!")
        }
        other => panic!("unexpected: {:?}", other),
    }
    match screen.update(update_applications::Message::UpdateAllApplications) {
        update_applications::Action::Run(update_applications::Task::UpdateAll(apps)) => {
            assert_eq!(apps.len(), 3);
            assert!(apps
                .iter()
                .all(|a| a.application_status == ApplicationStatus::Updating));
            assert_eq!(apps[1].app_id, "org.b");
        }
        other => panic!("unexpected: {:?}", other),
    }
    match screen.update(update_applications::Message::UpdatedSingleApplication(Err(
        UpdateError::UpdateFailed("x".to_string()),
    ))) {
        update_applications::Action::AddToast(toast) => assert_eq!(toast.body, "Update failed: x"),
        other => panic!("unexpected: {:?}", other),
    }
    match screen.update(update_applications::Message::UpdatedAllApplications(Err(
        UpdateError::PermissionDenied,
    ))) {
        update_applications::Action::AddToast(toast) => {
            assert_eq!(toast.title, "Error");
            assert_eq!(toast.body, "Permission denied");
        }
        other => panic!("unexpected: {:?}", other),
    }
    assert!(matches!(
        screen.update(update_applications::Message::UpdatedAllApplications(Ok(Vec::new()))),
        update_applications::Action::Run(update_applications::Task::LoadApplications)
    ));
    assert!(matches!(screen.state, update_applications::State::Loading));
    match screen.update(update_applications::Message::LoadedApplicationsList(Err(
        ScanError::NoUpdatesFound,
    ))) {
        update_applications::Action::AddToast(toast) => assert_eq!(
            toast.body,
            "Failed to get available updates: No updates found"
        ),
        other => panic!("unexpected: {:?}", other),
    }
    match &screen.state {
        update_applications::State::Ready { applications } => assert!(applications.is_empty()),
        other => panic!("unexpected: {:?}", other),
    }
    assert!(matches!(
        screen.update(update_applications::Message::UpdateSingleApplication("org.a".to_string())),
        update_applications::Action::Nothing
    ));
    assert!(matches!(
        screen.update(update_applications::Message::RefreshApplicationsList),
        update_applications::Action::Run(update_applications::Task::LoadApplications)
    ));
}

#[test]
fn config_and_about_screens() {
    let mut screen = config::Config::new(Config::default());
    assert_eq!(screen.state.config.theme, ApplicationTheme::Light);
    assert_eq!(
        screen.update(config::Message::ChangedTheme(ApplicationTheme::Nord)),
        config::Action::ChangedTheme(ApplicationTheme::Nord)
    );
    assert_eq!(screen.state.config.theme, ApplicationTheme::Nord);
    assert_eq!(screen.update(config::Message::Back), config::Action::Back);
    assert_eq!(screen.state.config.theme, ApplicationTheme::Nord);
    let mut info = about::About::new();
    assert!(matches!(info.update(about::Message::Back), about::Action::Back));
    match info.update(about::Message::LaunchURL(about::Link::Issues.url().to_string())) {
        about::Action::Launch(url) => {
            assert_eq!(url, "https://github.com/mariinkys/rot-management-gui/issues")
        }
        other => panic!("unexpected: {:?}", other),
    }
}

#[test]
fn layered_packages_opens_on_the_add_tab() {
    let screen = LayeredPackages::new(&deployment("htop  vim ", false, 0));
    assert!(!screen.applying_changes);
    assert_eq!(screen.current_packages, vec!["htop", "", "vim", ""]);
    assert!(screen.current_tab.is_add_packages());
    assert!(!screen.current_tab.is_remove_packages());
    assert_eq!(screen.current_tab.kind(), "AddPackages");
    assert!(screen.current_tab == Tab::default());
    let none = LayeredPackages::new(&deployment("None", false, 0));
    assert_eq!(none.current_packages, vec!["None"]);
}

#[test]
fn layered_packages_add_flow() {
    let mut screen = LayeredPackages::new(&deployment("htop", false, 0));
    assert!(matches!(
        screen.update(PackagesMessage::CheckPackageBeforeAddList),
        PackagesAction::Nothing
    ));
    screen.update(PackagesMessage::AddPackageInputUpdated("  vim ".to_string()));
    match screen.update(PackagesMessage::CheckPackageBeforeAddList) {
        PackagesAction::Run(PackagesTask::CheckPackage(name)) => assert_eq!(name, "vim"),
        other => panic!("unexpected: {:?}", other),
    }
    screen.update(PackagesMessage::PackageToAddChecked(Ok("vim".to_string())));
    match &screen.current_tab {
        Tab::AddPackages {
            package_name_input,
            packages_to_add,
        } => {
            assert_eq!(package_name_input, "");
            assert_eq!(packages_to_add, &vec!["vim".to_string()]);
        }
        other => panic!("unexpected: {:?}", other),
    }
    screen.update(PackagesMessage::AddPackageInputUpdated("vim".to_string()));
    match screen.update(PackagesMessage::CheckPackageBeforeAddList) {
        PackagesAction::AddToast(toast) => {
            assert_eq!(toast.title, "Warning");
            assert_eq!(toast.status, Status::Warning);
            assert_eq!(toast.body, "This package is already on the add list");
        }
        other => panic!("unexpected: {:?}", other),
    }
    screen.update(PackagesMessage::AddPackageInputUpdated("htop".to_string()));
    match screen.update(PackagesMessage::CheckPackageBeforeAddList) {
        PackagesAction::AddToast(toast) => assert_eq!(toast.body, "Package already installed"),
        other => panic!("unexpected: {:?}", other),
    }
    match screen.update(PackagesMessage::OpenRemovePackagesTab) {
        PackagesAction::AddToast(toast) => assert_eq!(
            toast.body,
            "You have packages to add selected, changes will be lost if you change Tab's"
        ),
        other => panic!("unexpected: {:?}", other),
    }
    assert!(screen.current_tab.is_add_packages());
    match screen.update(PackagesMessage::ApplyChanges) {
        PackagesAction::Run(PackagesTask::AddPackages(names)) => assert_eq!(names, vec!["vim"]),
        other => panic!("unexpected: {:?}", other),
    }
    assert!(screen.applying_changes);
    match screen.update(PackagesMessage::ApplyChangesCallback(Err(
        CommandError::PermissionDenied,
    ))) {
        PackagesAction::AddToast(toast) => {
            assert_eq!(toast.title, "Error");
            assert_eq!(toast.body, "Permission denied");
        }
        other => panic!("unexpected: {:?}", other),
    }
    assert!(!screen.applying_changes);
    screen.update(PackagesMessage::ApplyChanges);
    assert!(matches!(
        screen.update(PackagesMessage::ApplyChangesCallback(Ok(()))),
        PackagesAction::BackAndCheckReboot
    ));
    screen.update(PackagesMessage::RemovePackageFromAddList("vim".to_string()));
    match screen.update(PackagesMessage::ApplyChanges) {
        PackagesAction::AddToast(toast) => assert_eq!(toast.body, "No packages to add"),
        other => panic!("unexpected: {:?}", other),
    }
    assert!(matches!(screen.update(PackagesMessage::Back), PackagesAction::Back));
}

#[test]
fn layered_packages_check_errors() {
    let mut screen = LayeredPackages::new(&deployment("htop", false, 0));
    match screen.update(PackagesMessage::PackageToAddChecked(Err(
        CheckPackageError::NotFound,
    ))) {
        PackagesAction::AddToast(toast) => {
            assert_eq!(toast.title, "Warning");
            assert_eq!(toast.body, "Package not found");
        }
        other => panic!("unexpected: {:?}", other),
    }
    match screen.update(PackagesMessage::PackageToAddChecked(Err(
        CheckPackageError::Error("Error searching for package: x".to_string()),
    ))) {
        PackagesAction::AddToast(toast) => {
            assert_eq!(toast.title, "Error");
            assert_eq!(toast.body, "Error searching for package: x");
        }
        other => panic!("unexpected: {:?}", other),
    }
}

#[test]
fn layered_packages_remove_flow() {
    let mut screen = LayeredPackages::new(&deployment("htop vim htop", false, 0));
    assert!(matches!(
        screen.update(PackagesMessage::OpenRemovePackagesTab),
        PackagesAction::Nothing
    ));
    assert!(screen.current_tab.is_remove_packages());
    assert_eq!(screen.current_tab.kind(), "RemovePackages");
    assert!(screen.current_tab != Tab::default());
    match screen.update(PackagesMessage::ApplyChanges) {
        PackagesAction::AddToast(toast) => assert_eq!(toast.body, "No packages to remove"),
        other => panic!("unexpected: {:?}", other),
    }
    screen.update(PackagesMessage::TogglePackageToRemove("htop".to_string(), true));
    match &screen.current_tab {
        Tab::RemovePackages { packages_to_remove } => assert_eq!(
            packages_to_remove,
            &vec![
                ("htop".to_string(), true),
                ("vim".to_string(), false),
                ("htop".to_string(), true)
            ]
        ),
        other => panic!("unexpected: {:?}", other),
    }
    match screen.update(PackagesMessage::OpenAddPackagesTab) {
        PackagesAction::AddToast(toast) => assert_eq!(
            toast.body,
            "You have packages to remove selected, changes will be lost if you change Tab's"
        ),
        other => panic!("unexpected: {:?}", other),
    }
    match screen.update(PackagesMessage::ApplyChanges) {
        PackagesAction::Run(PackagesTask::RemovePackages(names)) => {
            assert_eq!(names, vec!["htop", "htop"])
        }
        other => panic!("unexpected: {:?}", other),
    }
    assert!(screen.applying_changes);
    screen.update(PackagesMessage::TogglePackageToRemove("htop".to_string(), false));
    assert!(matches!(
        screen.update(PackagesMessage::OpenAddPackagesTab),
        PackagesAction::Nothing
    ));
    assert!(screen.current_tab.is_add_packages());
}

#[test]
fn no_layered_package_no_remove_tab() {
    let mut screen = LayeredPackages {
        applying_changes: false,
        current_packages: Vec::new(),
        current_tab: Tab::default(),
    };
    match screen.update(PackagesMessage::OpenRemovePackagesTab) {
        PackagesAction::AddToast(toast) => {
            assert_eq!(toast.body, "You have no packages available to remove")
        }
        other => panic!("unexpected: {:?}", other),
    }
    assert!(screen.current_tab.is_add_packages());
}

#[test]
fn layered_packages_are_managed_from_the_status_screen() {
    let (mut screen, _) = system_status::SystemStatus::new();
    assert!(matches!(
        screen.update(system_status::Message::ManageLayeredPackages),
        system_status::Action::Nothing
    ));
    assert!(matches!(screen.state, system_status::State::Loading));
    assert!(matches!(
        screen.update(system_status::Message::LayeredPackages(PackagesMessage::ApplyChanges)),
        system_status::Action::Nothing
    ));
    screen.update(system_status::Message::RebootChecked(true));
    match screen.update(system_status::Message::ManageLayeredPackages) {
        system_status::Action::AddToast(toast) => {
            assert_eq!(toast.title, "Error");
            assert_eq!(
                toast.body,
                "Can't manage layered packages with a pending reboot"
            );
        }
        other => panic!("unexpected: {:?}", other),
    }
    assert!(matches!(screen.state, system_status::State::PendingReboot));
    screen.update(system_status::Message::DeploymentsLoaded(Ok(Vec::new())));
    screen.update(system_status::Message::ManageLayeredPackages);
    assert!(matches!(screen.state, system_status::State::Ready { .. }));
    screen.update(system_status::Message::DeploymentsLoaded(Ok(vec![
        deployment("htop", false, 0),
        deployment("vim", false, 1),
    ])));
    assert!(matches!(
        screen.update(system_status::Message::ManageLayeredPackages),
        system_status::Action::Nothing
    ));
    match &screen.state {
        system_status::State::Packages {
            deployments,
            screen,
        } => {
            assert_eq!(deployments.len(), 2);
            assert_eq!(screen.current_packages, vec!["htop"]);
        }
        other => panic!("unexpected: {:?}", other),
    }
    screen.update(system_status::Message::LayeredPackages(
        PackagesMessage::AddPackageInputUpdated("vim".to_string()),
    ));
    match screen.update(system_status::Message::LayeredPackages(
        PackagesMessage::CheckPackageBeforeAddList,
    )) {
        system_status::Action::Run(system_status::Task::Packages(PackagesTask::CheckPackage(
            name,
        ))) => assert_eq!(name, "vim"),
        other => panic!("unexpected: {:?}", other),
    }
    match screen.update(system_status::Message::LayeredPackages(
        PackagesMessage::ApplyChanges,
    )) {
        system_status::Action::AddToast(toast) => assert_eq!(toast.body, "No packages to add"),
        other => panic!("unexpected: {:?}", other),
    }
    screen.update(system_status::Message::LayeredPackages(
        PackagesMessage::PackageToAddChecked(Ok("vim".to_string())),
    ));
    assert!(matches!(
        screen.update(system_status::Message::LayeredPackages(
            PackagesMessage::ApplyChanges
        )),
        system_status::Action::Run(system_status::Task::Packages(PackagesTask::AddPackages(_)))
    ));
    assert!(matches!(
        screen.update(system_status::Message::LayeredPackages(
            PackagesMessage::ApplyChangesCallback(Ok(()))
        )),
        system_status::Action::Run(system_status::Task::CheckReboot)
    ));
    assert!(matches!(screen.state, system_status::State::Loading));
    screen.update(system_status::Message::DeploymentsLoaded(Ok(vec![deployment(
        "htop", false, 0,
    )])));
    screen.update(system_status::Message::ManageLayeredPackages);
    assert!(matches!(
        screen.update(system_status::Message::LayeredPackages(PackagesMessage::Back)),
        system_status::Action::Nothing
    ));
    match &screen.state {
        system_status::State::Ready { deployments } => assert_eq!(deployments.len(), 1),
        other => panic!("unexpected: {:?}", other),
    }
}
