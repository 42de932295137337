use rot_management::backend::config::{ApplicationTheme, Config, CONFIG_VERSION};
use rot_management::backend::layered_packages::{
    add_packages, add_packages_command, check_package, remove_packages,
    remove_packages_command, search_command, CheckPackageError,
};
use rot_management::backend::{
    is_flatpak, is_running_in_distrobox, resolve, run_command, CommandError, CommandOutcome,
    Environment, ExecutionContext, IoError, ParseError,
};

fn env() -> Environment {
    Environment {
        flatpak_id: false,
        distrobox_enter: false,
        container: None,
        containerenv: false,
        toolboxenv: false,
    }
}

fn ok(stdout: &str) -> Result<CommandOutcome, IoError> {
    Ok(CommandOutcome {
        exit_success: true,
        exit_code_raw: 0,
        stdout: stdout.to_string(),
        stderr: String::new(),
    })
}

fn strings(items: &[&str]) -> Vec<String> {
    items.iter().map(|s| s.to_string()).collect()
}

#[test]
fn no_marker_is_direct() {
    assert_eq!(resolve(&env()), ExecutionContext::Direct);
    assert!(!is_flatpak(&env()));
    assert!(!is_running_in_distrobox(&env()));
}

#[test]
fn sandbox_is_looked_for_first() {
    let mut e = env();
    e.flatpak_id = true;
    e.distrobox_enter = true;
    e.containerenv = true;
    assert_eq!(resolve(&e), ExecutionContext::FlatpakSandbox);
    assert!(is_flatpak(&e));
}

#[test]
fn each_container_marker_counts() {
    let mut a = env();
    a.distrobox_enter = true;
    assert_eq!(resolve(&a), ExecutionContext::ContainerHost);
    let mut b = env();
    b.container = Some("distrobox".to_string());
    assert_eq!(resolve(&b), ExecutionContext::ContainerHost);
    let mut c = env();
    c.containerenv = true;
    assert_eq!(resolve(&c), ExecutionContext::ContainerHost);
    let mut d = env();
    d.toolboxenv = true;
    assert_eq!(resolve(&d), ExecutionContext::ContainerHost);
    let mut other = env();
    other.container = Some("podman".to_string());
    assert_eq!(resolve(&other), ExecutionContext::Direct);
    assert!(!is_running_in_distrobox(&other));
}

#[test]
fn command_line_for_each_context() {
    let args = strings(&["rpm-ostree", "rollback"]);
    let direct = run_command("pkexec", &args, ExecutionContext::Direct);
    assert_eq!(direct.program, "pkexec");
    assert_eq!(direct.args, vec!["rpm-ostree", "rollback"]);
    let sandbox = run_command("pkexec", &args, ExecutionContext::FlatpakSandbox);
    assert_eq!(sandbox.program, "flatpak-spawn");
    assert_eq!(sandbox.args, vec!["--host", "pkexec", "rpm-ostree", "rollback"]);
    let container = run_command("pkexec", &args, ExecutionContext::ContainerHost);
    assert_eq!(container.program, "distrobox-host-exec");
    assert_eq!(container.args, vec!["pkexec", "rpm-ostree", "rollback"]);
    let none: Vec<String> = Vec::new();
    let bare = run_command("ls", &none, ExecutionContext::ContainerHost);
    assert_eq!(bare.args, vec!["ls"]);
}

#[test]
fn package_commands() {
    let search = search_command("htop");
    assert_eq!(search.program, "rpm-ostree");
    assert_eq!(search.args, vec!["search", "htop"]);
    let add = add_packages_command(&strings(&["htop", "vim"]));
    assert_eq!(add.program, "rpm-ostree");
    assert_eq!(add.args, vec!["install", "htop", "vim"]);
    let remove = remove_packages_command(&strings(&["htop"]));
    assert_eq!(remove.args, vec!["uninstall", "htop"]);
    let nothing = remove_packages_command(&Vec::new());
    assert_eq!(nothing.args, vec!["uninstall"]);
}

const SEARCH: &str = "===== Name Matched =====\nhtop : Interactive process viewer\n\n===== Summary Matched =====\nbashtop : Linux resource monitor like htop\n";

#[test]
fn package_is_found_by_its_exact_name() {
    assert_eq!(check_package("htop", &ok(SEARCH)).unwrap(), "htop");
    assert_eq!(check_package("bashtop", &ok(SEARCH)).unwrap(), "bashtop");
}

#[test]
fn package_that_is_not_listed() {
    assert!(matches!(
        check_package("top", &ok(SEARCH)),
        Err(CheckPackageError::NotFound)
    ));
    assert!(matches!(
        check_package("htop", &ok("No matches found.\n")),
        Err(CheckPackageError::NotFound)
    ));
    assert!(matches!(
        check_package("htop", &ok("htop : viewer\nNo matches found.\n")),
        Err(CheckPackageError::NotFound)
    ));
    assert!(matches!(
        check_package("htop", &ok("")),
        Err(CheckPackageError::NotFound)
    ));
    assert!(matches!(
        check_package("htop", &ok("htop: no spaces\n")),
        Err(CheckPackageError::NotFound)
    ));
    assert_eq!(CheckPackageError::NotFound.message(), "Package Not Found");
}

#[test]
fn package_name_stands_before_the_first_separator() {
    assert_eq!(
        check_package("a", &ok("  a  : b : c\n")).unwrap(),
        "a"
    );
    assert!(check_package("a : b", &ok("a : b : c\n")).is_err());
}

#[test]
fn search_that_could_not_run() {
    let missing = Err(IoError::NotFound("no rpm-ostree".to_string()));
    match check_package("htop", &missing) {
        Err(CheckPackageError::Error(m)) => {
            assert_eq!(m, "Error searching for package: no rpm-ostree");
            assert_eq!(
                CheckPackageError::Error(m).message(),
                "Update failed: Error searching for package: no rpm-ostree"
            );
        }
        other => panic!("unexpected: {:?}", other),
    }
}

#[test]
fn package_changes_are_classified() {
    let denied = Ok(CommandOutcome {
        exit_success: false,
        exit_code_raw: 32256,
        stdout: String::new(),
        stderr: String::new(),
    });
    assert!(matches!(add_packages(&denied), Err(CommandError::PermissionDenied)));
    assert!(matches!(
        remove_packages(&denied),
        Err(CommandError::PermissionDenied)
    ));
    assert!(add_packages(&ok("")).is_ok());
    assert!(remove_packages(&ok("")).is_ok());
    let other_code = Ok(CommandOutcome {
        exit_success: false,
        exit_code_raw: 126,
        stdout: String::new(),
        stderr: "e".to_string(),
    });
    assert!(matches!(
        add_packages(&other_code),
        Err(CommandError::CommandFailed(_))
    ));
}

#[test]
fn parse_error_messages() {
    assert_eq!(
        ParseError::NoDeploymentsFound.message(),
        "No deployments found in rpm-ostree status output"
    );
    assert_eq!(
        ParseError::NoUpdateInfo.message(),
        "No update information in rpm-ostree upgrade output"
    );
}

#[test]
fn configuration_defaults_and_file_name() {
    assert_eq!(Config::default().theme, ApplicationTheme::Light);
    assert_eq!(ApplicationTheme::default(), ApplicationTheme::Light);
    assert_eq!(CONFIG_VERSION, 1);
    assert_eq!(Config::file_name(), "config_v1.ron");
    assert_eq!(Config::load(None), (Config::default(), true));
    let stored = Config {
        theme: ApplicationTheme::Nord,
    };
    assert_eq!(Config::load(Some(stored)), (stored, false));
    let all = ApplicationTheme::all();
    assert_eq!(all.len(), 22);
    assert_eq!(all[0], ApplicationTheme::Light);
    assert_eq!(all[21], ApplicationTheme::Ferra);
    assert_eq!(ApplicationTheme::TokyoNightStorm.name(), "TokyoNightStorm");
}
