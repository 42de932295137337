use rot_management::backend::update_applications::{
    list_command, metadata_command, remote_info_command, Application, ApplicationStatus,
    BulkUpdate, Candidate, IconFile, Installation, InstallationProbe, ScanError, UpdateError,
};
use rot_management::backend::version_order::is_newer;
use rot_management::backend::versions::VersionTable;
use rot_management::backend::{CommandOutcome, IoError};

fn ok(stdout: &str) -> Result<CommandOutcome, IoError> {
    Ok(CommandOutcome {
        exit_success: true,
        exit_code_raw: 0,
        stdout: stdout.to_string(),
        stderr: String::new(),
    })
}

fn failed(stderr: &str) -> Result<CommandOutcome, IoError> {
    Ok(CommandOutcome {
        exit_success: false,
        exit_code_raw: 256,
        stdout: String::new(),
        stderr: stderr.to_string(),
    })
}

fn app(name: &str, id: &str) -> Application {
    Application {
        name: name.to_string(),
        app_id: id.to_string(),
        icon: None,
        current_version: "1".to_string(),
        latest_version: "2".to_string(),
        application_status: ApplicationStatus::NotUpdating,
    }
}

#[test]
fn version_comparator_examples() {
    assert!(is_newer("1.2.10", "1.2.9"));
    assert!(!is_newer("1.2", "1.2.0"));
    assert!(is_newer("2.0", "1.9.9"));
    assert!(!is_newer("abc", "abd"));
}

#[test]
fn version_comparator_edges() {
    assert!(!is_newer("1.2.9", "1.2.10"));
    assert!(!is_newer("1.0", "1.0"));
    assert!(is_newer("1.2.0", "1.2"));
    assert!(is_newer("1.2.1", "1.2"));
    assert!(!is_newer("1.2", "1.2.1"));
    assert!(is_newer("abd", "abc"));
    assert!(is_newer("1-2_4", "1.2.3"));
    assert!(!is_newer("01", "1"));
    assert!(!is_newer("1", "01"));
    assert!(is_newer("10", "9"));
    assert!(is_newer("1.b", "1.a"));
    assert!(is_newer("1.a", "1.0"));
    assert!(is_newer("+2", "1"));
    assert!(!is_newer("", ""));
    assert!(is_newer("1", ""));
    assert!(is_newer("ab", "a"));
    assert!(!is_newer("a", "ab"));
}

#[test]
fn numbers_beyond_64_bits_compare_as_text() {
    assert!(is_newer("99999999999999999999", "100000000000000000000"));
    assert!(is_newer("18446744073709551615", "18446744073709551614"));
    assert!(!is_newer("18446744073709551616", "9"));
    assert!(is_newer("9", "18446744073709551616"));
}

#[test]
fn version_table_keeps_one_version_per_identifier() {
    let mut table = VersionTable::new();
    assert!(table.is_empty());
    table.insert("org.a", "1");
    table.insert("org.b", "2");
    table.insert("org.a", "3");
    assert_eq!(table.len(), 2);
    assert_eq!(table.get("org.a"), Some("3".to_string()));
    assert_eq!(table.get("org.b"), Some("2".to_string()));
    assert_eq!(table.get("org.c"), None);
    assert_eq!(
        table.pairs(),
        vec![
            ("org.a".to_string(), "3".to_string()),
            ("org.b".to_string(), "2".to_string())
        ]
    );
    let mut other = VersionTable::new();
    other.insert("org.b", "9");
    other.insert("org.d", "4");
    table.extend(&other);
    assert_eq!(table.len(), 3);
    assert_eq!(table.get("org.b"), Some("9".to_string()));
    assert_eq!(table.pairs()[2], ("org.d".to_string(), "4".to_string()));
}

#[test]
fn installed_applications_skip_the_header() {
    let list = ok("Application ID\tVersion\norg.gnome.Calculator\t46.1\norg.mozilla.firefox \t 125.0 \tstable\nnotabs\n");
    let table = Application::get_installed_applications(&list).unwrap();
    assert_eq!(table.len(), 2);
    assert_eq!(table.get("org.gnome.Calculator"), Some("46.1".to_string()));
    assert_eq!(table.get("org.mozilla.firefox"), Some("125.0".to_string()));
    assert_eq!(table.get("Application ID"), None);
    let empty = Application::get_installed_applications(&ok("")).unwrap();
    assert!(empty.is_empty());
}

#[test]
fn installed_applications_failures() {
    match Application::get_installed_applications(&failed("no flatpak")) {
        Err(ScanError::ListFailed(m)) => assert_eq!(m, "flatpak list failed: no flatpak"),
        other => panic!("unexpected: {:?}", other),
    }
    let missing = Err(IoError::NotFound("No such file".to_string()));
    match Application::get_installed_applications(&missing) {
        Err(e) => assert_eq!(
            e.message(),
            "Failed to get installed applications: No such file"
        ),
        Ok(_) => panic!("expected an error"),
    }
}

const REMOTE_LS: &str = "org.gnome.Calculator\t46.2\norg.mozilla.firefox\t126.0\norg.other.App\t3\n";
const LISTING: &str = "Looking for updates...\n\n        ID                      Branch  Op  Remote  Download\n 1.     org.gnome.Calculator    stable  u   fedora  < 2,5 MB\n 2.     org.unknown.App         stable  u   flathub < 1 MB\n 3.     org.mozilla.firefox     stable  u   flathub < 90 MB\n\nProceed with these changes to the system installation? [Y/n]: n\n";

#[test]
fn probe_intersects_listing_and_offers() {
    let probe = InstallationProbe {
        remote_ls: ok(REMOTE_LS),
        listing: ok(LISTING),
    };
    let updates = probe.updates();
    assert_eq!(updates.len(), 2);
    assert_eq!(updates.get("org.gnome.Calculator"), Some("46.2".to_string()));
    assert_eq!(updates.get("org.mozilla.firefox"), Some("126.0".to_string()));
    assert_eq!(updates.get("org.unknown.App"), None);
    assert_eq!(updates.get("org.other.App"), None);
    assert_eq!(updates.pairs()[0].0, "org.gnome.Calculator");
}

#[test]
fn listing_starts_at_the_first_entry() {
    let probe = InstallationProbe {
        remote_ls: ok("a.b.c 1\nd.e.f 2\n"),
        listing: ok("0. d.e.f before the list\n1. a.b.c stable\nnote. d.e.f\n 2 . d.e.f\n"),
    };
    let updates = probe.updates();
    assert_eq!(updates.len(), 2);
    assert_eq!(updates.pairs()[0].0, "a.b.c");
    assert_eq!(updates.pairs()[1].0, "d.e.f");
    let none = InstallationProbe {
        remote_ls: ok("a.b.c 1\n"),
        listing: ok("2. a.b.c\n"),
    };
    assert!(none.updates().is_empty());
}

#[test]
fn failed_probes_give_nothing() {
    let no_offers = InstallationProbe {
        remote_ls: failed("x"),
        listing: ok(LISTING),
    };
    assert!(no_offers.updates().is_empty());
    let no_listing = InstallationProbe {
        remote_ls: ok(REMOTE_LS),
        listing: Err(IoError::Other("x".to_string())),
    };
    assert!(no_listing.updates().is_empty());
}

#[test]
fn available_updates_over_installations() {
    let probes = vec![
        InstallationProbe {
            remote_ls: ok("a.b.c 1\n"),
            listing: ok("1. a.b.c\n"),
        },
        InstallationProbe {
            remote_ls: ok("a.b.c 2\nd.e.f 5\n"),
            listing: ok("1. d.e.f\n2. a.b.c\n"),
        },
    ];
    let updates = Application::get_available_updates(&probes).unwrap();
    assert_eq!(updates.len(), 2);
    assert_eq!(updates.get("a.b.c"), Some("2".to_string()));
    assert_eq!(updates.get("d.e.f"), Some("5".to_string()));
    let nothing: Vec<InstallationProbe> = Vec::new();
    assert!(matches!(
        Application::get_available_updates(&nothing),
        Err(ScanError::NoUpdatesFound)
    ));
    assert_eq!(
        ScanError::NoUpdatesFound.message(),
        "Failed to get available updates: No updates found"
    );
}

#[test]
fn candidates_are_the_installed_applications_with_updates() {
    let list = ok("Application ID\tVersion\norg.mozilla.firefox\t125.0\norg.gnome.Calculator\t46.1\n");
    let probes = vec![InstallationProbe {
        remote_ls: ok(REMOTE_LS),
        listing: ok(LISTING),
    }];
    let found = Application::get_all_available_updates(&list, &probes).unwrap();
    assert_eq!(found.len(), 2);
    assert_eq!(found[0].app_id, "org.gnome.Calculator");
    assert_eq!(found[0].current_version, "46.1");
    assert_eq!(found[0].latest_version, "46.2");
    assert_eq!(found[1].app_id, "org.mozilla.firefox");
    assert_eq!(found[1].current_version, "125.0");
    assert_eq!(found[1].latest_version, "126.0");
    let not_installed = ok("Application ID\tVersion\norg.else\t1\n");
    let none = Application::get_all_available_updates(&not_installed, &probes).unwrap();
    assert!(none.is_empty());
    assert!(matches!(
        Application::get_all_available_updates(&failed("x"), &probes),
        Err(ScanError::ListFailed(_))
    ));
    let no_probes: Vec<InstallationProbe> = Vec::new();
    assert!(matches!(
        Application::get_all_available_updates(&list, &no_probes),
        Err(ScanError::NoUpdatesFound)
    ));
}

#[test]
fn display_name_from_metadata() {
    let metadata = ok("[Application]\nname=org.gnome.Calculator\nruntime=org.gnome.Platform/x86_64/46\nname=second\n");
    assert_eq!(
        Application::get_app_display_name("org.x", &metadata),
        "org.gnome.Calculator"
    );
    assert_eq!(
        Application::get_app_display_name("org.x", &ok("[Application]\nruntime=a\n")),
        "org.x"
    );
    assert_eq!(
        Application::get_app_display_name("org.x", &ok("  name=indented\n")),
        "org.x"
    );
    assert_eq!(Application::get_app_display_name("org.x", &failed("e")), "org.x");
    let missing = Err(IoError::NotFound("m".to_string()));
    assert_eq!(Application::get_app_display_name("org.x", &missing), "org.x");
    assert_eq!(Application::get_app_display_name("org.x", &ok("name=\n")), "");
}

#[test]
fn only_svg_icons_are_kept() {
    let svg = Some(IconFile {
        path: "/usr/share/icons/a.svg".to_string(),
        extension: Some("svg".to_string()),
    });
    assert_eq!(
        Application::get_app_icon(&svg),
        Some("/usr/share/icons/a.svg".to_string())
    );
    let png = Some(IconFile {
        path: "/usr/share/icons/a.png".to_string(),
        extension: Some("png".to_string()),
    });
    assert_eq!(Application::get_app_icon(&png), None);
    let upper = Some(IconFile {
        path: "/a.SVG".to_string(),
        extension: Some("SVG".to_string()),
    });
    assert_eq!(Application::get_app_icon(&upper), None);
    let bare = Some(IconFile {
        path: "/a".to_string(),
        extension: None,
    });
    assert_eq!(Application::get_app_icon(&bare), None);
    assert_eq!(Application::get_app_icon(&None), None);
}

#[test]
fn application_from_candidate() {
    let candidate = Candidate {
        app_id: "org.gnome.Calculator".to_string(),
        current_version: "46.1".to_string(),
        latest_version: "46.2".to_string(),
    };
    let icon = Some(IconFile {
        path: "/i/calc.svg".to_string(),
        extension: Some("svg".to_string()),
    });
    let app = Application::new(candidate, &ok("name=Calculator\n"), &icon);
    assert_eq!(app.name, "Calculator");
    assert_eq!(app.app_id, "org.gnome.Calculator");
    assert_eq!(app.icon, Some("/i/calc.svg".to_string()));
    assert_eq!(app.current_version, "46.1");
    assert_eq!(app.latest_version, "46.2");
    assert_eq!(app.application_status, ApplicationStatus::NotUpdating);
    assert_eq!(ApplicationStatus::default(), ApplicationStatus::NotUpdating);
    let marked = app.with_status(ApplicationStatus::Updating);
    assert_eq!(marked.application_status, ApplicationStatus::Updating);
    assert_eq!(marked.name, "Calculator");
}

#[test]
fn flatpak_commands() {
    let list = list_command();
    assert_eq!(list.program, "flatpak");
    assert_eq!(list.args, vec!["list", "--app", "--columns=application,version"]);
    let info = remote_info_command("org.a");
    assert_eq!(info.args, vec!["remote-info", "flathub", "org.a"]);
    let metadata = metadata_command("org.a");
    assert_eq!(metadata.args, vec!["info", "--show-metadata", "org.a"]);
    let all = Application::update_all_command();
    assert_eq!(all.program, "flatpak");
    assert_eq!(all.args, vec!["update", "-y"]);
    let one = Application::update_command("org.a");
    assert_eq!(one.args, vec!["update", "-y", "org.a"]);
    let ls = Installation::User.remote_ls_command();
    assert_eq!(
        ls.args,
        vec!["remote-ls", "--user", "--updates", "--app", "--columns=application,version"]
    );
    let listing = Installation::System.listing_command();
    assert_eq!(listing.args, vec!["update", "--system"]);
    assert_eq!(Installation::User.flag(), "--user");
}

#[test]
fn single_update_outcomes() {
    assert!(Application::update("org.a", &ok("")).is_ok());
    match Application::update("org.a", &failed(" no such ref \n")) {
        Err(e) => {
            assert!(matches!(e, UpdateError::UpdateFailed(_)));
            assert_eq!(e.message(), "Update failed: Failed to update org.a: no such ref");
        }
        Ok(()) => panic!("expected an error"),
    }
    let on_stdout = Ok(CommandOutcome {
        exit_success: false,
        exit_code_raw: 256,
        stdout: "error: told on stdout\n".to_string(),
        stderr: String::new(),
    });
    match Application::update("org.a", &on_stdout) {
        Err(UpdateError::UpdateFailed(m)) => {
            assert_eq!(m, "Failed to update org.a: error: told on stdout")
        }
        other => panic!("unexpected: {:?}", other),
    }
    let silent = Ok(CommandOutcome {
        exit_success: false,
        exit_code_raw: 256,
        stdout: String::new(),
        stderr: String::new(),
    });
    match Application::update("org.a", &silent) {
        Err(UpdateError::UpdateFailed(m)) => assert_eq!(m, "Failed to update org.a: unknown error"),
        other => panic!("unexpected: {:?}", other),
    }
    let missing = Err(IoError::NotFound("no flatpak".to_string()));
    match Application::update("org.a", &missing) {
        Err(e) => {
            assert!(matches!(e, UpdateError::CommandFailed(_)));
            assert_eq!(e.message(), "Command execution failed: no flatpak");
        }
        Ok(()) => panic!("expected an error"),
    }
}

fn denied(stderr: &str) -> Result<CommandOutcome, IoError> {
    Ok(CommandOutcome {
        exit_success: false,
        exit_code_raw: 32256,
        stdout: String::new(),
        stderr: stderr.to_string(),
    })
}

#[test]
fn single_update_that_is_denied() {
    match Application::update("org.gnome.Calculator", &denied("denied\n")) {
        Err(e) => {
            assert!(matches!(e, UpdateError::PermissionDenied));
            assert_eq!(e.message(), "Permission denied");
        }
        Ok(()) => panic!("expected an error"),
    }
    let other_code = Ok(CommandOutcome {
        exit_success: false,
        exit_code_raw: 126,
        stdout: String::new(),
        stderr: "denied\n".to_string(),
    });
    assert!(matches!(
        Application::update("org.gnome.Calculator", &other_code),
        Err(UpdateError::UpdateFailed(_))
    ));
}

#[test]
fn bulk_update_that_is_denied() {
    let apps = vec![app("A", "org.a"), app("B", "org.b")];
    assert!(matches!(
        Application::update_all(&apps, &denied("")),
        Err(UpdateError::PermissionDenied)
    ));
    let outcomes = vec![denied("x"), ok("")];
    let results = Application::update_one_by_one(&apps, &outcomes);
    assert_eq!(results.len(), 2);
    assert!(!results[0].success);
    assert_eq!(results[0].error_message, Some("Permission denied".to_string()));
    assert!(results[1].success);
}

#[test]
fn bulk_update_then_one_by_one() {
    let apps = vec![app("A", "org.a"), app("B", "org.b")];
    match Application::update_all(&apps, &ok("")) {
        Ok(BulkUpdate::Done(results)) => {
            assert_eq!(results.len(), 2);
            assert_eq!(results[0].app_name, "A");
            assert!(results[0].success);
            assert_eq!(results[0].error_message, None);
            assert_eq!(results[1].app_name, "B");
        }
        other => panic!("unexpected: {:?}", other),
    }
    assert!(matches!(
        Application::update_all(&apps, &failed("x")),
        Ok(BulkUpdate::OneByOne)
    ));
    let missing = Err(IoError::NotFound("no flatpak".to_string()));
    assert!(matches!(
        Application::update_all(&apps, &missing),
        Err(UpdateError::CommandFailed(_))
    ));
    let outcomes = vec![failed("bad"), ok("")];
    let results = Application::update_one_by_one(&apps, &outcomes);
    assert_eq!(results.len(), 2);
    assert_eq!(results[0].app_name, "A");
    assert!(!results[0].success);
    assert_eq!(
        results[0].error_message,
        Some("Update failed: Failed to update org.a: bad".to_string())
    );
    assert!(results[1].success);
    assert_eq!(results[1].error_message, None);
    let fewer = vec![ok("")];
    assert_eq!(Application::update_one_by_one(&apps, &fewer).len(), 1);
}
