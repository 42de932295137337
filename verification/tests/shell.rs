use rot_management::backend::config::{ApplicationTheme, Config};
use rot_management::backend::CommandError;
use rot_management::icons::{bundled_icons, IconCacheKey, BUNDLED_ICON_SIZE};
use rot_management::screen::{about, config, rollback, system_status, update_applications, update_system, Screen};
use rot_management::shell::{Effect, FAManagement, Message, State, APP_ID};
use rot_management::style::{AccordionButtonPosition, Corners, TabButtonPosition};
use rot_management::utils::ui::{AccordionButtonStatus, AccordionIcon, PossibleBundledSVGs};
use rot_management::widgets::toast::{Status, Toast, DEFAULT_TIMEOUT};

fn ready() -> FAManagement {
    let mut shell = FAManagement::new();
    shell.update(Message::ConfigLoaded(Ok(Config::default())));
    shell
}

fn screen(shell: &FAManagement) -> &Screen {
    match &shell.state {
        State::Ready { screen, .. } => screen,
        State::Loading => panic!("the shell is loading"),
    }
}

#[test]
fn shell_starts_loading() {
    let mut shell = FAManagement::new();
    assert!(shell.toasts.is_empty());
    assert!(matches!(shell.state, State::Loading));
    assert_eq!(shell.theme(), ApplicationTheme::Light);
    assert!(matches!(shell.update(Message::OpenRollback), Effect::Nothing));
    assert!(matches!(shell.state, State::Loading));
    assert!(matches!(
        shell.update(Message::ConfigLoaded(Err("unreadable".to_string()))),
        Effect::Nothing
    ));
    assert!(matches!(shell.state, State::Loading));
    assert_eq!(APP_ID, "dev.mariinkys.FaManagementGUI");
}

#[test]
fn configuration_makes_the_shell_ready() {
    let mut shell = FAManagement::new();
    let loaded = Config {
        theme: ApplicationTheme::Dracula,
    };
    assert!(matches!(
        shell.update(Message::ConfigLoaded(Ok(loaded))),
        Effect::Nothing
    ));
    assert!(matches!(screen(&shell), Screen::Welcome));
    assert_eq!(shell.theme(), ApplicationTheme::Dracula);
}

#[test]
fn opening_a_screen_starts_its_first_task() {
    let mut shell = ready();
    assert!(matches!(
        shell.update(Message::OpenRollback),
        Effect::Rollback(rollback::Task::CheckReboot)
    ));
    assert!(matches!(screen(&shell), Screen::Rollback(_)));
    assert!(matches!(
        shell.update(Message::OpenUpdateSystem),
        Effect::UpdateSystem(update_system::Task::CheckReboot)
    ));
    assert!(matches!(screen(&shell), Screen::UpdateSystem(_)));
    assert!(matches!(
        shell.update(Message::OpenSystemStatus),
        Effect::SystemStatus(system_status::Task::CheckReboot)
    ));
    assert!(matches!(
        shell.update(Message::OpenUpdateApplications),
        Effect::UpdateApplications(update_applications::Task::LoadApplications)
    ));
    assert!(matches!(shell.update(Message::OpenConfig), Effect::Nothing));
    assert!(matches!(screen(&shell), Screen::Config(_)));
    assert!(matches!(shell.update(Message::OpenAbout), Effect::Nothing));
    assert!(matches!(screen(&shell), Screen::About(_)));
}

#[test]
fn messages_reach_the_screen_that_is_shown() {
    let mut shell = ready();
    shell.update(Message::OpenRollback);
    assert!(matches!(
        shell.update(Message::UpdateSystem(update_system::Message::Update)),
        Effect::Nothing
    ));
    assert!(matches!(screen(&shell), Screen::Rollback(_)));
    shell.update(Message::Rollback(rollback::Message::RebootChecked(false)));
    match screen(&shell) {
        Screen::Rollback(r) => assert_eq!(r.state, rollback::State::Ready),
        _ => panic!("unexpected screen"),
    }
    assert!(matches!(
        shell.update(Message::Rollback(rollback::Message::Rollback)),
        Effect::Rollback(rollback::Task::Rollback)
    ));
    assert!(matches!(
        shell.update(Message::Rollback(rollback::Message::RollbackCompleted(Err(
            CommandError::PermissionDenied
        )))),
        Effect::Rollback(rollback::Task::CheckReboot)
    ));
    assert_eq!(shell.toasts.len(), 1);
    assert_eq!(shell.toasts[0].body, "Permission denied");
    assert!(matches!(
        shell.update(Message::Rollback(rollback::Message::Back)),
        Effect::Nothing
    ));
    assert!(matches!(screen(&shell), Screen::Welcome));
    assert_eq!(shell.toasts.len(), 1);
}

#[test]
fn picked_theme_is_saved() {
    let mut shell = ready();
    shell.update(Message::OpenConfig);
    match shell.update(Message::Config(config::Message::ChangedTheme(
        ApplicationTheme::Nord,
    ))) {
        Effect::SaveConfig(saved) => assert_eq!(saved.theme, ApplicationTheme::Nord),
        other => panic!("unexpected: {:?}", other),
    }
    assert_eq!(shell.theme(), ApplicationTheme::Nord);
    assert!(matches!(
        shell.update(Message::ConfigSaved(Err("read-only".to_string()))),
        Effect::Nothing
    ));
    shell.update(Message::Config(config::Message::Back));
    assert!(matches!(screen(&shell), Screen::Welcome));
    assert_eq!(shell.theme(), ApplicationTheme::Nord);
}

#[test]
fn links_are_launched() {
    let mut shell = ready();
    shell.update(Message::OpenAbout);
    match shell.update(Message::About(about::Message::LaunchURL(
        about::Link::Repository.url().to_string(),
    ))) {
        Effect::Launch(url) => assert_eq!(url, "https://github.com/mariinkys/rot-management-gui"),
        other => panic!("unexpected: {:?}", other),
    }
    assert!(matches!(screen(&shell), Screen::About(_)));
    shell.update(Message::About(about::Message::Back));
    assert!(matches!(screen(&shell), Screen::Welcome));
}

#[test]
fn toasts_go_up_and_come_down() {
    let mut shell = FAManagement::new();
    shell.update(Message::AddToast(Toast::success_toast("one")));
    shell.update(Message::AddToast(Toast::warning_toast("two")));
    shell.update(Message::AddToast(Toast::error_toast("three")));
    assert_eq!(shell.toasts.len(), 3);
    shell.update(Message::CloseToast(1));
    assert_eq!(shell.toasts.len(), 2);
    assert_eq!(shell.toasts[0].body, "one");
    assert_eq!(shell.toasts[1].body, "three");
    shell.update(Message::CloseToast(7));
    assert_eq!(shell.toasts.len(), 2);
    shell.update(Message::CloseToast(0));
    shell.update(Message::CloseToast(0));
    assert!(shell.toasts.is_empty());
    shell.update(Message::CloseToast(0));
    assert!(shell.toasts.is_empty());
}

#[test]
fn toast_constructors() {
    let s = Toast::success_toast("done");
    assert_eq!(s.title, "Success");
    assert_eq!(s.body, "done");
    assert_eq!(s.status, Status::Success);
    let e = Toast::error_toast("bad");
    assert_eq!(e.title, "Error");
    assert_eq!(e.body, "bad");
    assert_eq!(e.status, Status::Danger);
    let w = Toast::warning_toast("careful");
    assert_eq!(w.title, "Warning");
    assert_eq!(w.body, "careful");
    assert_eq!(w.status, Status::Warning);
    let d = Toast::default();
    assert_eq!(d.title, "");
    assert_eq!(d.body, "");
    assert_eq!(d.status, Status::Primary);
    assert_eq!(Status::default(), Status::Primary);
    assert_eq!(
        Status::all(),
        vec![
            Status::Primary,
            Status::Secondary,
            Status::Success,
            Status::Danger,
            Status::Warning
        ]
    );
    assert_eq!(Status::Danger.name(), "Danger");
    assert_eq!(DEFAULT_TIMEOUT, 3);
}

#[test]
fn corners_by_position() {
    assert_eq!(
        TabButtonPosition::Left.corners(),
        Some(Corners {
            top_left: 25,
            top_right: 0,
            bottom_left: 25,
            bottom_right: 0
        })
    );
    assert_eq!(TabButtonPosition::Middle.corners(), None);
    assert_eq!(
        TabButtonPosition::Right.corners(),
        Some(Corners {
            top_left: 0,
            top_right: 25,
            bottom_left: 0,
            bottom_right: 25
        })
    );
    assert_eq!(
        AccordionButtonPosition::Top.corners(),
        Corners {
            top_left: 5,
            top_right: 5,
            bottom_left: 0,
            bottom_right: 0
        }
    );
    assert_eq!(
        AccordionButtonPosition::Bottom.corners(),
        Corners {
            top_left: 0,
            top_right: 0,
            bottom_left: 5,
            bottom_right: 5
        }
    );
    assert_eq!(AccordionButtonPosition::Middle.corners().top_left, 0);
    assert_eq!(AccordionButtonPosition::for_index(0, 3), AccordionButtonPosition::Top);
    assert_eq!(AccordionButtonPosition::for_index(1, 3), AccordionButtonPosition::Middle);
    assert_eq!(AccordionButtonPosition::for_index(2, 3), AccordionButtonPosition::Bottom);
    assert_eq!(AccordionButtonPosition::for_index(0, 1), AccordionButtonPosition::Top);
    assert_eq!(AccordionButtonPosition::for_index(5, 0), AccordionButtonPosition::Middle);
}

#[test]
fn accordion_buttons() {
    assert_eq!(AccordionButtonStatus::unless(true), AccordionButtonStatus::Disabled);
    assert_eq!(AccordionButtonStatus::unless(false), AccordionButtonStatus::Enabled);
    assert_eq!(AccordionButtonStatus::Enabled.on_press(7), Some(7));
    assert_eq!(AccordionButtonStatus::Disabled.on_press(7), None);
    assert_eq!(AccordionIcon::Absent.side(), 0);
    assert_eq!(
        AccordionIcon::BundledSvg {
            svg: PossibleBundledSVGs::Rollback
        }
        .side(),
        40
    );
    match AccordionIcon::for_application(&Some("/a.svg".to_string())) {
        AccordionIcon::SvgPath { svg_path } => assert_eq!(svg_path, "/a.svg"),
        other => panic!("unexpected: {:?}", other),
    }
    assert!(matches!(
        AccordionIcon::for_application(&None),
        AccordionIcon::Absent
    ));
    assert_eq!(
        AccordionIcon::ImgPath {
            img_path: "/a.png".to_string()
        }
        .side(),
        50
    );
}

#[test]
fn bundled_icons_and_keys() {
    let keys = bundled_icons();
    assert_eq!(keys.len(), 7);
    assert_eq!(keys[0].name(), "emblem-system-symbolic");
    assert_eq!(keys[6].name(), "help-info-symbolic");
    assert!(keys.iter().all(|k| k.size() == BUNDLED_ICON_SIZE));
    assert_eq!(BUNDLED_ICON_SIZE, 18);
    let key = PossibleBundledSVGs::UpdateSystem.get();
    assert_eq!(key, IconCacheKey::new("system-software-install-symbolic", 18));
    assert_eq!(
        PossibleBundledSVGs::UpdateApplications.get().name(),
        "software-update-available-symbolic"
    );
    assert_eq!(
        PossibleBundledSVGs::SystemStatus.get().name(),
        "utilities-system-monitor-symbolic"
    );
    assert_eq!(PossibleBundledSVGs::Rollback.get().name(), "view-refresh-symbolic");
    assert!(keys.contains(&PossibleBundledSVGs::Rollback.get()));
}
