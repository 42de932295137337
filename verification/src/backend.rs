//! Invoking the system tools and classifying how they ended.
//!
//! A command is described by an [`Invocation`]; the caller spawns it and
//! reports a [`CommandOutcome`], or an [`IoError`] when it could not be
//! spawned. The submodules read the output of each tool.

use crate::backend::system_status::booted_glyph;
use crate::text::{
    join, has_prefix, lines_of, split_lines, starts_with, string_views, to_chars, to_text, trim,
    trimmed, views,
};
use vstd::prelude::*;

pub mod config;
pub mod layered_packages;
pub mod rollback;
pub mod system_status;
pub mod update_applications;
pub mod update_system;
pub mod version_order;
pub mod versions;

verus! {

/// Where the process runs, which decides how a host command is reached.
#[derive(Debug, Clone, Copy, PartialEq, Eq, Structural)]
pub enum ExecutionContext {
    /// On the host itself.
    Direct,
    /// Inside a Flatpak sandbox.
    FlatpakSandbox,
    /// Inside a Distrobox or toolbox container.
    ContainerHost,
}

/// What the process can observe about where it runs.
#[derive(Debug, Clone)]
pub struct Environment {
    /// Whether the variable `FLATPAK_ID` is set.
    pub flatpak_id: bool,
    /// Whether the variable `DISTROBOX_ENTER` is set.
    pub distrobox_enter: bool,
    /// The value of the variable `container`, if it is set.
    pub container: Option<String>,
    /// Whether the file `/run/.containerenv` exists.
    pub containerenv: bool,
    /// Whether the file `/run/.toolboxenv` exists.
    pub toolboxenv: bool,
}

impl Environment {
    /// Whether the environment is that of a container with a host behind it.
    pub open spec fn in_container(&self) -> bool {
        ||| self.distrobox_enter
        ||| (self.container matches Some(v) && v@ == "distrobox"@)
        ||| self.containerenv
        ||| self.toolboxenv
    }

    /// The execution context of the environment: the sandbox is looked for
    /// first, then the container.
    pub open spec fn context(&self) -> ExecutionContext {
        if self.flatpak_id {
            ExecutionContext::FlatpakSandbox
        } else if self.in_container() {
            ExecutionContext::ContainerHost
        } else {
            ExecutionContext::Direct
        }
    }
}

/// Whether the process runs inside a Flatpak sandbox.
pub fn is_flatpak(env: &Environment) -> (b: bool)
    ensures
        b == env.flatpak_id,
{
    env.flatpak_id
}

/// Whether the process runs inside a Distrobox or toolbox container.
pub fn is_running_in_distrobox(env: &Environment) -> (b: bool)
    ensures
        b == env.in_container(),
{
    if env.distrobox_enter {
        return true;
    }
    match &env.container {
        Some(v) => {
            if crate::text::equals(&to_chars(v.as_str()), "distrobox") {
                return true;
            }
        },
        None => {},
    }
    env.containerenv || env.toolboxenv
}

/// The execution context that `env` shows.
pub fn resolve(env: &Environment) -> (context: ExecutionContext)
    ensures
        context == env.context(),
{
    if is_flatpak(env) {
        ExecutionContext::FlatpakSandbox
    } else if is_running_in_distrobox(env) {
        ExecutionContext::ContainerHost
    } else {
        ExecutionContext::Direct
    }
}

/// A command line: the program to spawn and its arguments.
#[derive(Debug, Clone)]
pub struct Invocation {
    pub program: String,
    pub args: Vec<String>,
}

/// What a [`Invocation`] holds, as plain values.
pub struct InvocationView {
    pub program: Seq<char>,
    pub args: Seq<Seq<char>>,
}

impl View for Invocation {
    type V = InvocationView;

    open spec fn view(&self) -> InvocationView {
        InvocationView { program: self.program@, args: string_views(self.args@) }
    }
}

/// The command line that reaches `main_command` with `args` from `context`:
/// through `flatpak-spawn --host` from a sandbox, through
/// `distrobox-host-exec` from a container, and as it is on the host.
pub open spec fn command_line(
    main_command: Seq<char>,
    args: Seq<Seq<char>>,
    context: ExecutionContext,
) -> InvocationView {
    match context {
        ExecutionContext::FlatpakSandbox => InvocationView {
            program: "flatpak-spawn"@,
            args: seq!["--host"@, main_command] + args,
        },
        ExecutionContext::ContainerHost => InvocationView {
            program: "distrobox-host-exec"@,
            args: seq![main_command] + args,
        },
        ExecutionContext::Direct => InvocationView { program: main_command, args },
    }
}

/// Appends copies of the strings of `from` to `to`.
fn extend(to: &mut Vec<String>, from: &Vec<String>)
    ensures
        string_views(final(to)@) == string_views(old(to)@) + string_views(from@),
{
    let mut i: usize = 0;
    proof {
        assert(string_views(to@) + string_views(from@).take(0) =~= string_views(to@));
    }
    while i < from.len()
        invariant
            i <= from.len(),
            string_views(to@) == string_views(old(to)@) + string_views(from@).take(i as int),
        decreases from.len() - i,
    {
        let copy: String = from[i].clone();
        proof {
            let given = string_views(from@);
            assert(copy@ == given[i as int]);
            assert(string_views(to@.push(copy)) =~= string_views(to@).push(copy@));
            assert(given.take(i + 1) =~= given.take(i as int).push(given[i as int]));
            assert((string_views(old(to)@) + given.take(i as int)).push(given[i as int])
                =~= string_views(old(to)@) + given.take(i + 1));
        }
        to.push(copy);
        i += 1;
    }
    proof {
        assert(string_views(from@).take(from@.len() as int) =~= string_views(from@));
    }
}

/// The command line to spawn so that `main_command` runs on the host with
/// `args`, from the execution context `context`.
pub fn run_command(main_command: &str, args: &Vec<String>, context: ExecutionContext) -> (r:
    Invocation)
    ensures
        r@ == command_line(main_command@, string_views(args@), context),
{
    let mut argv: Vec<String> = Vec::new();
    proof {
        assert(string_views(argv@) =~= Seq::<Seq<char>>::empty());
    }
    match context {
        ExecutionContext::FlatpakSandbox => {
            argv.push("--host".to_owned());
            argv.push(main_command.to_owned());
            proof {
                assert(string_views(argv@) =~= seq!["--host"@, main_command@]);
            }
            extend(&mut argv, args);
            Invocation { program: "flatpak-spawn".to_owned(), args: argv }
        },
        ExecutionContext::ContainerHost => {
            argv.push(main_command.to_owned());
            proof {
                assert(string_views(argv@) =~= seq![main_command@]);
            }
            extend(&mut argv, args);
            Invocation { program: "distrobox-host-exec".to_owned(), args: argv }
        },
        ExecutionContext::Direct => {
            extend(&mut argv, args);
            proof {
                assert(Seq::<Seq<char>>::empty() + string_views(args@) =~= string_views(args@));
            }
            Invocation { program: main_command.to_owned(), args: argv }
        },
    }
}

/// How a spawned command ended.
#[derive(Debug, Clone)]
pub struct CommandOutcome {
    /// Whether the command exited with code 0.
    pub exit_success: bool,
    /// The raw wait status of the process.
    pub exit_code_raw: i32,
    pub stdout: String,
    pub stderr: String,
}

/// The raw wait status of a process that exited with code 126, which is how
/// the elevation helper ends when authorization is dismissed or denied.
pub const PERMISSION_DENIED_STATUS: i32 = 32256;

/// Why a command could not be spawned.
#[derive(Debug, Clone)]
pub enum IoError {
    /// The program does not exist.
    NotFound(String),
    /// Any other failure, with the system's message.
    Other(String),
}

impl IoError {
    /// The message of the error.
    pub open spec fn text(&self) -> Seq<char> {
        match self {
            IoError::NotFound(m) => m@,
            IoError::Other(m) => m@,
        }
    }

    /// The message of the error.
    pub fn message(&self) -> (m: String)
        ensures
            m@ == self.text(),
    {
        match self {
            IoError::NotFound(m) => m.clone(),
            IoError::Other(m) => m.clone(),
        }
    }

    /// A copy of the error.
    pub fn duplicate(&self) -> (e: IoError)
        ensures
            e.text() == self.text(),
            e is NotFound <==> self is NotFound,
    {
        match self {
            IoError::NotFound(m) => IoError::NotFound(m.clone()),
            IoError::Other(m) => IoError::Other(m.clone()),
        }
    }
}

/// Why an operation did not succeed.
#[derive(Debug, Clone)]
pub enum CommandError {
    /// The command could not be spawned.
    Io(IoError),
    /// Elevation was declined or failed.
    PermissionDenied,
    /// The command exited with a failure; the text says why.
    CommandFailed(String),
}

impl CommandError {
    /// The message of the error.
    pub open spec fn text(&self) -> Seq<char> {
        match self {
            CommandError::Io(e) => e.text(),
            CommandError::PermissionDenied => "Permission denied"@,
            CommandError::CommandFailed(m) => m@,
        }
    }

    /// The message of the error, as it is shown to the user.
    pub fn message(&self) -> (m: String)
        ensures
            m@ == self.text(),
    {
        match self {
            CommandError::Io(e) => e.message(),
            CommandError::PermissionDenied => "Permission denied".to_owned(),
            CommandError::CommandFailed(m) => m.clone(),
        }
    }
}

/// std's `Clone` for `Result`, which copies the value that the result
/// holds: the copy is a success exactly when the result copied is one.
pub assume_specification<T: Clone, E: Clone>[ <Result<T, E> as Clone>::clone ](
    r: &Result<T, E>,
) -> (res: Result<T, E>)
    ensures
        res is Ok <==> r is Ok,
;

/// What a command that ran is reported as, or why it could not be spawned.
pub type CommandResult = Result<CommandOutcome, IoError>;

/// The text that explains a failed command: what it wrote to standard
/// error, trimmed; if it wrote nothing there, what it wrote to standard
/// output, trimmed; and a fixed text if it wrote nothing at all.
pub open spec fn failure_text(outcome: CommandOutcome) -> Seq<char> {
    if outcome.stderr@.len() > 0 {
        trimmed(outcome.stderr@)
    } else if outcome.stdout@.len() > 0 {
        trimmed(outcome.stdout@)
    } else {
        "unknown error"@
    }
}

/// Whether `outcome` is that of a command whose elevation was declined.
pub open spec fn is_denied(outcome: CommandOutcome) -> bool {
    !outcome.exit_success && outcome.exit_code_raw == PERMISSION_DENIED_STATUS
}

/// The text that explains the failed command `outcome`.
pub fn failure_message(outcome: &CommandOutcome) -> (m: String)
    ensures
        m@ == failure_text(*outcome),
{
    let stderr: Vec<char> = to_chars(outcome.stderr.as_str());
    if stderr.len() > 0 {
        return to_text(&trim(&stderr));
    }
    let stdout: Vec<char> = to_chars(outcome.stdout.as_str());
    if stdout.len() > 0 {
        to_text(&trim(&stdout))
    } else {
        "unknown error".to_owned()
    }
}

/// Whether `r` is the classification of `result`: a command that could
/// not be spawned is an I/O error; one that exited with success is a
/// success; one that exited with code 126 was denied its elevation; any
/// other is a failure, explained by what the command wrote.
pub open spec fn classifies(result: CommandResult, r: Result<(), CommandError>) -> bool {
    match result {
        Err(e) => r matches Err(CommandError::Io(io)) && io.text() == e.text() && (io is NotFound
            <==> e is NotFound),
        Ok(outcome) => if outcome.exit_success {
            r is Ok
        } else if is_denied(outcome) {
            r matches Err(CommandError::PermissionDenied)
        } else {
            r matches Err(CommandError::CommandFailed(m)) && m@ == failure_text(outcome)
        },
    }
}

/// Classifies how a state-changing operation ended.
pub fn classify(result: &CommandResult) -> (r: Result<(), CommandError>)
    ensures
        classifies(*result, r),
{
    match result {
        Err(e) => Err(CommandError::Io(e.duplicate())),
        Ok(outcome) => {
            if outcome.exit_success {
                Ok(())
            } else if outcome.exit_code_raw == PERMISSION_DENIED_STATUS {
                Err(CommandError::PermissionDenied)
            } else {
                Err(CommandError::CommandFailed(failure_message(outcome)))
            }
        },
    }
}

/// Why the output of a query could not be turned into records.
#[derive(Debug, Clone, Copy, PartialEq, Eq, Structural)]
pub enum ParseError {
    /// The status output described no deployment.
    NoDeploymentsFound,
    /// The upgrade check described no update.
    NoUpdateInfo,
}

impl ParseError {
    /// The message of the error.
    pub open spec fn text(&self) -> Seq<char> {
        match self {
            ParseError::NoDeploymentsFound => "No deployments found in rpm-ostree status output"@,
            ParseError::NoUpdateInfo => "No update information in rpm-ostree upgrade output"@,
        }
    }

    /// The message of the error, as it is shown to the user.
    pub fn message(&self) -> (m: String)
        ensures
            m@ == self.text(),
    {
        match self {
            ParseError::NoDeploymentsFound => {
                "No deployments found in rpm-ostree status output".to_owned()
            },
            ParseError::NoUpdateInfo => {
                "No update information in rpm-ostree upgrade output".to_owned()
            },
        }
    }
}

/// An invocation of `program` with `args`.
pub fn invocation(program: &str, args: Vec<String>) -> (r: Invocation)
    ensures
        r@ == (InvocationView { program: program@, args: string_views(args@) }),
{
    Invocation { program: program.to_owned(), args }
}

/// The command that asks for the status of the system: `rpm-ostree status`.
pub fn status_command() -> (r: Invocation)
    ensures
        r@ == (InvocationView { program: "rpm-ostree"@, args: seq!["status"@] }),
{
    let mut args: Vec<String> = Vec::new();
    args.push("status".to_owned());
    proof {
        assert(string_views(args@) =~= seq!["status"@]);
    }
    invocation("rpm-ostree", args)
}

/// How far the status output has been read in search of a staged deployment.
pub struct RebootScan {
    /// Whether the header of the deployments section has been read.
    pub in_section: bool,
    /// Whether the end of the deployments section has been read.
    pub stopped: bool,
    /// The number of deployment entries read.
    pub count: nat,
    /// The position of the booted entry among them, if one was read.
    pub booted: Option<nat>,
}

/// Whether the trimmed line `t` is the entry of a deployment that is not booted.
pub open spec fn is_pending_entry(t: Seq<char>) -> bool {
    ||| has_prefix(t, "*"@)
    ||| has_prefix(t, "ostree://"@)
    ||| has_prefix(t, "fedora:"@)
    ||| has_prefix(t, "Version:"@)
}

/// Whether the trimmed line `t` follows the deployments section.
pub open spec fn ends_section(t: Seq<char>) -> bool {
    has_prefix(t, "State:"@) || has_prefix(t, "AutomaticUpdates:"@)
}

/// `st` after the line `line` has been read.
pub open spec fn reboot_scan_line(st: RebootScan, line: Seq<char>) -> RebootScan {
    let t = trimmed(line);
    if st.stopped {
        st
    } else if has_prefix(t, "Deployments:"@) {
        RebootScan { in_section: true, ..st }
    } else if st.in_section && t.len() > 0 {
        if t[0] == booted_glyph() {
            RebootScan { count: st.count + 1, booted: Some(st.count), ..st }
        } else if is_pending_entry(t) {
            RebootScan { count: st.count + 1, ..st }
        } else if ends_section(t) {
            RebootScan { stopped: true, ..st }
        } else {
            st
        }
    } else {
        st
    }
}

/// The state after all of `lines` have been read, first to last.
pub open spec fn reboot_scan(lines: Seq<Seq<char>>) -> RebootScan
    decreases lines.len(),
{
    if lines.len() == 0 {
        RebootScan { in_section: false, stopped: false, count: 0, booted: None }
    } else {
        reboot_scan_line(reboot_scan(lines.drop_last()), lines.last())
    }
}

/// The number of deployment entries in the deployments section of the
/// status output `text`.
pub open spec fn entry_count(text: Seq<char>) -> nat {
    reboot_scan(lines_of(text)).count
}

/// The position of the booted entry among the deployment entries of the
/// status output `text`; 0 where none is marked as booted.
pub open spec fn booted_position(text: Seq<char>) -> nat {
    match reboot_scan(lines_of(text)).booted {
        Some(p) => p,
        None => 0,
    }
}

/// Whether a staged deployment waits for a reboot, going by `stdout`, the
/// output of `rpm-ostree status`: the output lists more than one deployment
/// and the booted one is not the first.
pub fn reboot_pending(stdout: &str) -> (pending: bool)
    ensures
        pending == (entry_count(stdout@) > 1 && booted_position(stdout@) != 0),
{
    let chars: Vec<char> = to_chars(stdout);
    let lines: Vec<Vec<char>> = split_lines(&chars);
    let mut in_section: bool = false;
    let mut count: usize = 0;
    let mut booted: Option<usize> = None;
    let mut i: usize = 0;
    let mut stopped: bool = false;
    while i < lines.len() && !stopped
        invariant
            i <= lines.len(),
            count <= i,
            views(lines@) == lines_of(stdout@),
            reboot_scan(views(lines@).take(i as int)) == (RebootScan {
                in_section,
                stopped,
                count: count as nat,
                booted: match booted {
                    Some(p) => Some(p as nat),
                    None => None,
                },
            }),
        decreases lines.len() - i,
    {
        proof {
            let all = views(lines@);
            assert(all.take(i + 1).drop_last() =~= all.take(i as int));
            assert(all.take(i + 1).last() == lines@[i as int]@);
        }
        let t: Vec<char> = trim(&lines[i]);
        if starts_with(&t, "Deployments:") {
            in_section = true;
        } else if in_section && t.len() > 0 {
            if t[0] == '\u{25cf}' {
                booted = Some(count);
                count += 1;
            } else if starts_with(&t, "*") || starts_with(&t, "ostree://") || starts_with(
                &t,
                "fedora:",
            ) || starts_with(&t, "Version:") {
                count += 1;
            } else if starts_with(&t, "State:") || starts_with(&t, "AutomaticUpdates:") {
                stopped = true;
            }
        }
        i += 1;
    }
    proof {
        let all = views(lines@);
        lemma_stopped_stays(all, i as int);
    }
    match booted {
        Some(p) => count > 1 && p != 0,
        None => false,
    }
}

/// Once the end of the section has been read, further lines change nothing.
proof fn lemma_stopped_stays(lines: Seq<Seq<char>>, i: int)
    requires
        0 <= i <= lines.len(),
        i < lines.len() ==> reboot_scan(lines.take(i)).stopped,
    ensures
        reboot_scan(lines) == reboot_scan(lines.take(i)),
    decreases lines.len() - i,
{
    if i < lines.len() {
        assert(lines.take(i + 1).drop_last() =~= lines.take(i));
        lemma_stopped_stays(lines, i + 1);
    } else {
        assert(lines.take(i) =~= lines);
    }
}

/// The command that reboots the system: `systemctl reboot`.
pub fn reboot_command() -> (r: Invocation)
    ensures
        r@ == (InvocationView { program: "systemctl"@, args: seq!["reboot"@] }),
{
    let mut args: Vec<String> = Vec::new();
    args.push("reboot".to_owned());
    proof {
        assert(string_views(args@) =~= seq!["reboot"@]);
    }
    invocation("systemctl", args)
}

/// The text that explains why the reboot `outcome` failed.
pub open spec fn reboot_failure_text(outcome: CommandOutcome) -> Seq<char> {
    if outcome.stderr@.len() > 0 {
        "systemctl reboot failed: "@ + trimmed(outcome.stderr@)
    } else if outcome.stdout@.len() > 0 {
        "systemctl reboot failed: "@ + trimmed(outcome.stdout@)
    } else {
        "systemctl reboot failed with unknown error"@
    }
}

/// Classifies how the reboot command ended. A reboot that works may never
/// report back; one that reports back without success has failed.
pub fn reboot(result: &CommandResult) -> (r: Result<(), CommandError>)
    ensures
        match *result {
            Err(e) => r matches Err(CommandError::Io(io)) && io.text() == e.text() && (io
                is NotFound <==> e is NotFound),
            Ok(outcome) => if outcome.exit_success {
                r is Ok
            } else if is_denied(outcome) {
                r matches Err(CommandError::PermissionDenied)
            } else {
                r matches Err(CommandError::CommandFailed(m)) && m@ == reboot_failure_text(outcome)
            },
        },
{
    match result {
        Err(e) => Err(CommandError::Io(e.duplicate())),
        Ok(outcome) => {
            if outcome.exit_success {
                Ok(())
            } else if outcome.exit_code_raw == PERMISSION_DENIED_STATUS {
                Err(CommandError::PermissionDenied)
            } else {
                let stderr: Vec<char> = to_chars(outcome.stderr.as_str());
                let stdout: Vec<char> = to_chars(outcome.stdout.as_str());
                let text: Vec<char> = if stderr.len() > 0 {
                    join(&to_chars("systemctl reboot failed: "), &trim(&stderr))
                } else if stdout.len() > 0 {
                    join(&to_chars("systemctl reboot failed: "), &trim(&stdout))
                } else {
                    to_chars("systemctl reboot failed with unknown error")
                };
                Err(CommandError::CommandFailed(to_text(&text)))
            }
        },
    }
}

} // verus!
