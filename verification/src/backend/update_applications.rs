//! The Flatpak applications for which a newer version is available.
//!
//! The installed applications come from `flatpak list`; for each
//! installation the versions on offer come from `flatpak remote-ls` and the
//! applications that would in fact be updated from the list that
//! `flatpak update` prints before it asks for confirmation.

use crate::backend::{
    failure_message, failure_text, invocation, is_denied, CommandOutcome, CommandResult,
    Invocation, InvocationView, IoError, PERMISSION_DENIED_STATUS,
};
use crate::backend::versions::{distinct_keys, lookup, put, put_all, VersionTable, Versions};
use crate::text::{
    find_char, first_word, first_word_of, has_prefix, is_digit, is_space, is_space_char, join,
    lines_of, no_texts, position, push_text, slice, split_lines, split_words, starts_with,
    string_views, strip_prefix, to_chars, to_text, trim, trimmed, views, words_of,
};
use vstd::prelude::*;

verus! {

/// Whether an application is being updated.
#[derive(Debug, Clone, Copy, PartialEq, Eq, Structural)]
pub enum ApplicationStatus {
    Updating,
    NotUpdating,
}

impl Default for ApplicationStatus {
    fn default() -> (status: ApplicationStatus)
        ensures
            status == ApplicationStatus::NotUpdating,
    {
        ApplicationStatus::NotUpdating
    }
}

/// An installed application for which a newer version is available.
#[derive(Debug, Clone)]
pub struct Application {
    /// The name to display; the identifier where no name is known.
    pub name: String,
    pub app_id: String,
    /// The path of the application's icon, if it has one in SVG format.
    pub icon: Option<String>,
    pub current_version: String,
    pub latest_version: String,
    pub application_status: ApplicationStatus,
}

/// What an [`Application`] holds, as plain values.
pub struct ApplicationView {
    pub name: Seq<char>,
    pub app_id: Seq<char>,
    pub icon: Option<Seq<char>>,
    pub current_version: Seq<char>,
    pub latest_version: Seq<char>,
    pub application_status: ApplicationStatus,
}

impl View for Application {
    type V = ApplicationView;

    open spec fn view(&self) -> ApplicationView {
        ApplicationView {
            name: self.name@,
            app_id: self.app_id@,
            icon: match self.icon {
                Some(path) => Some(path@),
                None => None,
            },
            current_version: self.current_version@,
            latest_version: self.latest_version@,
            application_status: self.application_status,
        }
    }
}

/// The views of a sequence of applications.
pub open spec fn application_views(v: Seq<Application>) -> Seq<ApplicationView> {
    v.map_values(|a: Application| a@)
}

impl Application {
    /// A copy of the application with `status` as its status.
    pub fn with_status(&self, status: ApplicationStatus) -> (app: Application)
        ensures
            app@ == (ApplicationView { application_status: status, ..self@ }),
    {
        Application {
            name: self.name.clone(),
            app_id: self.app_id.clone(),
            icon: match &self.icon {
                Some(path) => Some(path.clone()),
                None => None,
            },
            current_version: self.current_version.clone(),
            latest_version: self.latest_version.clone(),
            application_status: status,
        }
    }
}

/// `table` after the line `line` of the list of installed applications has
/// been read: a line with a tab gives the identifier before the tab the
/// version that follows it, each trimmed.
pub open spec fn with_installed_line(table: Versions, line: Seq<char>) -> Versions {
    let k = position(line, '\t');
    if 0 <= k < line.len() {
        let rest = line.skip(k + 1);
        put(table, trimmed(line.take(k)), trimmed(rest.take(position(rest, '\t'))))
    } else {
        table
    }
}

/// The table that `lines` of the list of installed applications give.
pub open spec fn installed_lines(lines: Seq<Seq<char>>) -> Versions
    decreases lines.len(),
{
    if lines.len() == 0 {
        Versions::empty()
    } else {
        with_installed_line(installed_lines(lines.drop_last()), lines.last())
    }
}

/// The installed applications with their versions, going by `text`, the
/// output of `flatpak list`, whose first line is a header.
pub open spec fn installed_versions(text: Seq<char>) -> Versions {
    let lines = lines_of(text);
    installed_lines(lines.subrange(if lines.len() > 0 { 1 } else { 0 }, lines.len() as int))
}

/// `table` after the line `line` of a remote listing has been read: a line
/// of two words or more gives its first word the second as version.
pub open spec fn with_offered_line(table: Versions, line: Seq<char>) -> Versions {
    let words = words_of(line);
    if words.len() >= 2 {
        put(table, words[0], words[1])
    } else {
        table
    }
}

/// The table that `lines` of a remote listing give.
pub open spec fn offered_lines(lines: Seq<Seq<char>>) -> Versions
    decreases lines.len(),
{
    if lines.len() == 0 {
        Versions::empty()
    } else {
        with_offered_line(offered_lines(lines.drop_last()), lines.last())
    }
}

/// How far the list that `flatpak update` prints has been read.
pub struct Listing {
    /// Whether the entry numbered 1 has been read.
    pub in_list: bool,
    /// The applications listed so far, each with the version on offer.
    pub updates: Versions,
}

/// Whether `s` can be the number of a list entry: digits and white space only.
pub open spec fn is_entry_number(s: Seq<char>) -> bool {
    forall|i: int| 0 <= i < s.len() ==> is_digit(#[trigger] s[i]) || is_space(s[i])
}

/// `st` after the line `line` has been read. The list starts at the line
/// that begins with `1.`. From there on, a line whose text before the first
/// full stop is a number names an application by the first word after that
/// full stop; the application counts where `offered` has a version for it.
pub open spec fn with_update_entry(st: Listing, line: Seq<char>, offered: Versions) -> Listing {
    let t = trimmed(line);
    let in_list = st.in_list || has_prefix(t, "1."@);
    let k = position(t, '.');
    let id = first_word(t.skip(k + 1));
    if in_list && 0 <= k < t.len() && is_entry_number(t.take(k)) && id.len() > 0 {
        match lookup(offered, id) {
            Some(version) => Listing { in_list, updates: put(st.updates, id, version) },
            None => Listing { in_list, updates: st.updates },
        }
    } else {
        Listing { in_list, updates: st.updates }
    }
}

/// The state after all of `lines` have been read, first to last.
pub open spec fn update_entries(lines: Seq<Seq<char>>, offered: Versions) -> Listing
    decreases lines.len(),
{
    if lines.len() == 0 {
        Listing { in_list: false, updates: Versions::empty() }
    } else {
        with_update_entry(update_entries(lines.drop_last(), offered), lines.last(), offered)
    }
}

/// What was asked of one installation: the remote listing of updates with
/// their versions, and the list that an update prints before it is declined.
#[derive(Debug)]
pub struct InstallationProbe {
    pub remote_ls: CommandResult,
    pub listing: CommandResult,
}

/// The versions on offer that the remote listing `remote_ls` shows; none
/// where the listing failed.
pub open spec fn offered_versions(remote_ls: CommandResult) -> Versions {
    match remote_ls {
        Ok(outcome) => if outcome.exit_success {
            offered_lines(lines_of(outcome.stdout@))
        } else {
            Versions::empty()
        },
        Err(_) => Versions::empty(),
    }
}

/// The applications of one installation that an update would touch, each
/// with the version on offer.
pub open spec fn probe_updates(probe: InstallationProbe) -> Versions {
    match probe.listing {
        Ok(outcome) => update_entries(
            lines_of(outcome.stdout@),
            offered_versions(probe.remote_ls),
        ).updates,
        Err(_) => Versions::empty(),
    }
}

/// The updates of all installations together; where two installations
/// name one application, the later one's version stands.
pub open spec fn all_updates(probes: Seq<InstallationProbe>) -> Versions
    decreases probes.len(),
{
    if probes.len() == 0 {
        Versions::empty()
    } else {
        put_all(all_updates(probes.drop_last()), probe_updates(probes.last()))
    }
}

/// Why the scan for updates gave no result.
#[derive(Debug, Clone)]
pub enum ScanError {
    /// The installed applications could not be listed; the text says why.
    ListFailed(String),
    /// No installation has an application to update.
    NoUpdatesFound,
}

impl ScanError {
    /// The message of the error.
    pub open spec fn text(&self) -> Seq<char> {
        match self {
            ScanError::ListFailed(m) => "Failed to get installed applications: "@ + m@,
            ScanError::NoUpdatesFound => "Failed to get available updates: No updates found"@,
        }
    }

    /// The message of the error, as it is shown to the user.
    pub fn message(&self) -> (m: String)
        ensures
            m@ == self.text(),
    {
        match self {
            ScanError::ListFailed(m) => to_text(
                &join(&to_chars("Failed to get installed applications: "), &to_chars(m.as_str())),
            ),
            ScanError::NoUpdatesFound => {
                "Failed to get available updates: No updates found".to_owned()
            },
        }
    }
}

/// Whether `v` can be the number of a list entry.
fn entry_number(v: &Vec<char>) -> (b: bool)
    ensures
        b == is_entry_number(v@),
{
    let mut i: usize = 0;
    while i < v.len()
        invariant
            i <= v.len(),
            forall|j: int| 0 <= j < i ==> is_digit(#[trigger] v@[j]) || is_space(v@[j]),
        decreases v.len() - i,
    {
        let c: char = v[i];
        if !(('0' <= c && c <= '9') || is_space_char(c)) {
            return false;
        }
        i += 1;
    }
    true
}

fn read_installed_line(table: &mut VersionTable, line: &Vec<char>)
    ensures
        old(table).wf() ==> final(table).wf(),
        final(table)@ == with_installed_line(old(table)@, line@),
{
    match find_char(line, '\t') {
        Some(k) => {
            let id: Vec<char> = trim(&slice(line, 0, k));
            let rest: Vec<char> = slice(line, k + 1, line.len());
            let end: usize = match find_char(&rest, '\t') {
                Some(e) => e,
                None => rest.len(),
            };
            let version: Vec<char> = trim(&slice(&rest, 0, end));
            proof {
                assert(line@.subrange(0, k as int) =~= line@.take(k as int));
                assert(rest@ =~= line@.skip(k + 1));
                assert(rest@.subrange(0, end as int) =~= rest@.take(end as int));
            }
            table.insert(to_text(&id).as_str(), to_text(&version).as_str());
        },
        None => {},
    }
}

fn read_offered_line(table: &mut VersionTable, line: &Vec<char>)
    ensures
        old(table).wf() ==> final(table).wf(),
        final(table)@ == with_offered_line(old(table)@, line@),
{
    let words: Vec<Vec<char>> = split_words(line);
    if words.len() >= 2 {
        proof {
            assert(views(words@)[0] == words@[0]@);
            assert(views(words@)[1] == words@[1]@);
        }
        table.insert(to_text(&words[0]).as_str(), to_text(&words[1]).as_str());
    }
}

/// The versions on offer that the remote listing `remote_ls` shows.
fn read_offered(remote_ls: &CommandResult) -> (table: VersionTable)
    ensures
        table.wf(),
        table@ == offered_versions(*remote_ls),
{
    let mut table = VersionTable::new();
    match remote_ls {
        Ok(outcome) => {
            if outcome.exit_success {
                let lines: Vec<Vec<char>> = split_lines(&to_chars(outcome.stdout.as_str()));
                let mut i: usize = 0;
                while i < lines.len()
                    invariant
                        i <= lines.len(),
                        table.wf(),
                        views(lines@) == lines_of(outcome.stdout@),
                        table@ == offered_lines(views(lines@).take(i as int)),
                    decreases lines.len() - i,
                {
                    proof {
                        let all = views(lines@);
                        assert(all.take(i + 1).drop_last() =~= all.take(i as int));
                        assert(all.take(i + 1).last() == lines@[i as int]@);
                    }
                    read_offered_line(&mut table, &lines[i]);
                    i += 1;
                }
                proof {
                    let all = views(lines@);
                    assert(all.take(i as int) =~= all);
                }
            }
        },
        Err(_) => {},
    }
    table
}

fn read_update_entry(
    in_list: bool,
    updates: &mut VersionTable,
    line: &Vec<char>,
    offered: &VersionTable,
) -> (now_in_list: bool)
    ensures
        old(updates).wf() ==> final(updates).wf(),
        (Listing { in_list: now_in_list, updates: final(updates)@ }) == with_update_entry(
            Listing { in_list, updates: old(updates)@ },
            line@,
            offered@,
        ),
{
    let t: Vec<char> = trim(line);
    let now_in_list: bool = in_list || starts_with(&t, "1.");
    if now_in_list {
        match find_char(&t, '.') {
            Some(k) => {
                let number: Vec<char> = slice(&t, 0, k);
                let after: Vec<char> = slice(&t, k + 1, t.len());
                proof {
                    assert(number@ =~= t@.take(k as int));
                    assert(after@ =~= t@.skip(k + 1));
                }
                if entry_number(&number) {
                    let id: Vec<char> = first_word_of(&after);
                    if id.len() > 0 {
                        let id_text: String = to_text(&id);
                        match offered.get(id_text.as_str()) {
                            Some(version) => {
                                updates.insert(id_text.as_str(), version.as_str());
                            },
                            None => {},
                        }
                    }
                }
            },
            None => {},
        }
    }
    now_in_list
}

impl InstallationProbe {
    /// The applications of this installation that an update would touch,
    /// each with the version on offer.
    pub fn updates(&self) -> (table: VersionTable)
        ensures
            table.wf(),
            table@ == probe_updates(*self),
    {
        let offered: VersionTable = read_offered(&self.remote_ls);
        let mut updates = VersionTable::new();
        match &self.listing {
            Ok(outcome) => {
                let lines: Vec<Vec<char>> = split_lines(&to_chars(outcome.stdout.as_str()));
                let mut in_list: bool = false;
                let mut i: usize = 0;
                while i < lines.len()
                    invariant
                        i <= lines.len(),
                        updates.wf(),
                        views(lines@) == lines_of(outcome.stdout@),
                        (Listing { in_list, updates: updates@ }) == update_entries(
                            views(lines@).take(i as int),
                            offered@,
                        ),
                    decreases lines.len() - i,
                {
                    proof {
                        let all = views(lines@);
                        assert(all.take(i + 1).drop_last() =~= all.take(i as int));
                        assert(all.take(i + 1).last() == lines@[i as int]@);
                    }
                    in_list = read_update_entry(in_list, &mut updates, &lines[i], &offered);
                    i += 1;
                }
                proof {
                    let all = views(lines@);
                    assert(all.take(i as int) =~= all);
                }
            },
            Err(_) => {},
        }
        updates
    }
}

/// An installation of Flatpak applications.
#[derive(Debug, Clone, Copy, PartialEq, Eq, Structural)]
pub enum Installation {
    User,
    System,
}

impl Installation {
    /// The flag that selects the installation on a `flatpak` command line.
    pub open spec fn flag_text(&self) -> Seq<char> {
        match self {
            Installation::User => "--user"@,
            Installation::System => "--system"@,
        }
    }

    /// The flag that selects the installation on a `flatpak` command line.
    pub fn flag(&self) -> (flag: &'static str)
        ensures
            flag@ == self.flag_text(),
    {
        match self {
            Installation::User => "--user",
            Installation::System => "--system",
        }
    }

    /// The command that lists the updates on offer with their versions:
    /// `flatpak remote-ls <installation> --updates --app --columns=application,version`.
    pub fn remote_ls_command(&self) -> (r: Invocation)
        ensures
            r@ == (InvocationView {
                program: "flatpak"@,
                args: seq![
                    "remote-ls"@,
                    self.flag_text(),
                    "--updates"@,
                    "--app"@,
                    "--columns=application,version"@,
                ],
            }),
    {
        let mut args: Vec<String> = no_texts();
        push_text(&mut args, "remote-ls");
        push_text(&mut args, self.flag());
        push_text(&mut args, "--updates");
        push_text(&mut args, "--app");
        push_text(&mut args, "--columns=application,version");
        proof {
            assert(string_views(args@) =~= seq![
                "remote-ls"@,
                self.flag_text(),
                "--updates"@,
                "--app"@,
                "--columns=application,version"@,
            ]);
        }
        invocation("flatpak", args)
    }

    /// The command whose prompt lists what an update would touch:
    /// `flatpak update <installation>`. The prompt is to be declined.
    pub fn listing_command(&self) -> (r: Invocation)
        ensures
            r@ == (InvocationView { program: "flatpak"@, args: seq!["update"@, self.flag_text()] }),
    {
        let mut args: Vec<String> = no_texts();
        push_text(&mut args, "update");
        push_text(&mut args, self.flag());
        proof {
            assert(string_views(args@) =~= seq!["update"@, self.flag_text()]);
        }
        invocation("flatpak", args)
    }
}

/// An installed application that an update would touch.
#[derive(Debug, Clone)]
pub struct Candidate {
    pub app_id: String,
    pub current_version: String,
    pub latest_version: String,
}

/// What a [`Candidate`] holds, as plain values.
pub struct CandidateView {
    pub app_id: Seq<char>,
    pub current_version: Seq<char>,
    pub latest_version: Seq<char>,
}

impl View for Candidate {
    type V = CandidateView;

    open spec fn view(&self) -> CandidateView {
        CandidateView {
            app_id: self.app_id@,
            current_version: self.current_version@,
            latest_version: self.latest_version@,
        }
    }
}

/// The views of a sequence of candidates.
pub open spec fn candidate_views(v: Seq<Candidate>) -> Seq<CandidateView> {
    v.map_values(|c: Candidate| c@)
}

/// The applications of `updates` that `installed` knows, in the order of
/// `updates`, each with its installed version and the version on offer.
pub open spec fn candidates_of(installed: Versions, updates: Versions) -> Seq<CandidateView>
    decreases updates.len(),
{
    if updates.len() == 0 {
        Seq::empty()
    } else {
        let before = candidates_of(installed, updates.drop_last());
        match lookup(installed, updates.last().0) {
            Some(current) => before.push(
                CandidateView {
                    app_id: updates.last().0,
                    current_version: current,
                    latest_version: updates.last().1,
                },
            ),
            None => before,
        }
    }
}

/// Whether no application stands twice in `candidates`.
pub open spec fn distinct_applications(candidates: Seq<CandidateView>) -> bool {
    forall|i: int, j: int|
        0 <= i < j < candidates.len() ==> (#[trigger] candidates[i]).app_id != (
        #[trigger] candidates[j]).app_id
}

proof fn lemma_candidates_among_updates(installed: Versions, updates: Versions)
    ensures
        forall|i: int|
            0 <= i < candidates_of(installed, updates).len() ==> exists|j: int|
                0 <= j < updates.len() && (#[trigger] updates[j]).0 == (#[trigger] candidates_of(
                    installed,
                    updates,
                )[i]).app_id,
    decreases updates.len(),
{
    if updates.len() > 0 {
        let before = updates.drop_last();
        lemma_candidates_among_updates(installed, before);
        let all = candidates_of(installed, updates);
        assert forall|i: int| 0 <= i < all.len() implies exists|j: int|
            0 <= j < updates.len() && (#[trigger] updates[j]).0 == (#[trigger] all[i]).app_id by {
            if i < candidates_of(installed, before).len() {
                let j = choose|j: int|
                    0 <= j < before.len() && (#[trigger] before[j]).0 == candidates_of(
                        installed,
                        before,
                    )[i].app_id;
                assert(updates[j] == before[j]);
            } else {
                assert(updates[updates.len() - 1].0 == all[i].app_id);
            }
        }
    }
}

/// Updates that name no application twice give candidates that name no
/// application twice.
pub proof fn lemma_candidates_distinct(installed: Versions, updates: Versions)
    requires
        distinct_keys(updates),
    ensures
        distinct_applications(candidates_of(installed, updates)),
    decreases updates.len(),
{
    if updates.len() > 0 {
        let before = updates.drop_last();
        assert forall|i: int, j: int| 0 <= i < j < before.len() implies (#[trigger] before[i]).0
            != (#[trigger] before[j]).0 by {
            assert(before[i] == updates[i]);
            assert(before[j] == updates[j]);
        }
        lemma_candidates_distinct(installed, before);
        lemma_candidates_among_updates(installed, before);
        let earlier = candidates_of(installed, before);
        let all = candidates_of(installed, updates);
        assert forall|i: int, j: int| 0 <= i < j < all.len() implies (#[trigger] all[i]).app_id != (
        #[trigger] all[j]).app_id by {
            if j < earlier.len() {
                assert(all[i] == earlier[i]);
                assert(all[j] == earlier[j]);
            } else {
                let k = choose|k: int|
                    0 <= k < before.len() && (#[trigger] before[k]).0 == earlier[i].app_id;
                assert(before[k] == updates[k]);
                assert(updates[k].0 != updates[updates.len() - 1].0);
            }
        }
    }
}

/// The text that explains why the installed applications could not be listed.
pub open spec fn list_failure_text(list: CommandResult) -> Seq<char> {
    match list {
        Ok(outcome) => "flatpak list failed: "@ + outcome.stderr@,
        Err(e) => e.text(),
    }
}

/// Whether the installed applications were listed.
pub open spec fn listed(list: CommandResult) -> bool {
    list matches Ok(outcome) && outcome.exit_success
}

/// The display name that `metadata`, the outcome of asking for an
/// application's metadata, gives: what follows `name=` on the first line
/// that starts with it.
pub open spec fn named_in(lines: Seq<Seq<char>>) -> Option<Seq<char>>
    decreases lines.len(),
{
    if lines.len() == 0 {
        None
    } else if has_prefix(lines[0], "name="@) {
        Some(lines[0].skip("name="@.len() as int))
    } else {
        named_in(lines.skip(1))
    }
}

/// The name under which the application `app_id` is displayed: the name in
/// its metadata, and the identifier itself where the metadata could not be
/// had or holds no name.
pub open spec fn display_name(app_id: Seq<char>, metadata: CommandResult) -> Seq<char> {
    match metadata {
        Ok(outcome) => if outcome.exit_success {
            match named_in(lines_of(outcome.stdout@)) {
                Some(name) => name,
                None => app_id,
            }
        } else {
            app_id
        },
        Err(_) => app_id,
    }
}

/// An icon file that the icon theme holds for an application.
#[derive(Debug, Clone)]
pub struct IconFile {
    /// The path of the file.
    pub path: String,
    /// The extension of the file's name, if it has one.
    pub extension: Option<String>,
}

/// The path of the icon `found`, provided that it is an SVG file.
pub open spec fn svg_icon(found: Option<IconFile>) -> Option<Seq<char>> {
    match found {
        Some(file) => match file.extension {
            Some(extension) => if extension@ == "svg"@ {
                Some(file.path@)
            } else {
                None
            },
            None => None,
        },
        None => None,
    }
}

/// The view of an optional string.
pub open spec fn optional_text(s: Option<String>) -> Option<Seq<char>> {
    match s {
        Some(t) => Some(t@),
        None => None,
    }
}

/// The command that lists the installed applications:
/// `flatpak list --app --columns=application,version`.
pub fn list_command() -> (r: Invocation)
    ensures
        r@ == (InvocationView {
            program: "flatpak"@,
            args: seq!["list"@, "--app"@, "--columns=application,version"@],
        }),
{
    let mut args: Vec<String> = no_texts();
    push_text(&mut args, "list");
    push_text(&mut args, "--app");
    push_text(&mut args, "--columns=application,version");
    proof {
        assert(string_views(args@) =~= seq!["list"@, "--app"@, "--columns=application,version"@]);
    }
    invocation("flatpak", args)
}

/// The command that shows the metadata of the application `app_id`:
/// `flatpak info --show-metadata <app_id>`.
pub fn metadata_command(app_id: &str) -> (r: Invocation)
    ensures
        r@ == (InvocationView {
            program: "flatpak"@,
            args: seq!["info"@, "--show-metadata"@, app_id@],
        }),
{
    let mut args: Vec<String> = no_texts();
    push_text(&mut args, "info");
    push_text(&mut args, "--show-metadata");
    push_text(&mut args, app_id);
    proof {
        assert(string_views(args@) =~= seq!["info"@, "--show-metadata"@, app_id@]);
    }
    invocation("flatpak", args)
}

/// The command that asks the remote `flathub` about the application
/// `app_id`: `flatpak remote-info flathub <app_id>`.
pub fn remote_info_command(app_id: &str) -> (r: Invocation)
    ensures
        r@ == (InvocationView {
            program: "flatpak"@,
            args: seq!["remote-info"@, "flathub"@, app_id@],
        }),
{
    let mut args: Vec<String> = no_texts();
    push_text(&mut args, "remote-info");
    push_text(&mut args, "flathub");
    push_text(&mut args, app_id);
    proof {
        assert(string_views(args@) =~= seq!["remote-info"@, "flathub"@, app_id@]);
    }
    invocation("flatpak", args)
}

impl Application {
    /// The installed applications with their versions, going by `list`, the
    /// outcome of the command that lists them.
    pub fn get_installed_applications(list: &CommandResult) -> (r: Result<VersionTable, ScanError>)
        ensures
            match r {
                Ok(table) => listed(*list) && table.wf() && table@ == installed_versions(
                    list->Ok_0.stdout@,
                ),
                Err(e) => !listed(*list) && (e matches ScanError::ListFailed(m) && m@
                    == list_failure_text(*list)),
            },
    {
        match list {
            Err(e) => Err(ScanError::ListFailed(e.message())),
            Ok(outcome) => {
                if !outcome.exit_success {
                    let text: Vec<char> = join(
                        &to_chars("flatpak list failed: "),
                        &to_chars(outcome.stderr.as_str()),
                    );
                    return Err(ScanError::ListFailed(to_text(&text)));
                }
                let lines: Vec<Vec<char>> = split_lines(&to_chars(outcome.stdout.as_str()));
                let mut table = VersionTable::new();
                let first: usize = if lines.len() > 0 {
                    1
                } else {
                    0
                };
                let mut i: usize = first;
                proof {
                    assert(views(lines@).subrange(first as int, first as int)
                        =~= Seq::<Seq<char>>::empty());
                }
                while i < lines.len()
                    invariant
                        first <= i <= lines.len(),
                        table.wf(),
                        views(lines@) == lines_of(outcome.stdout@),
                        table@ == installed_lines(views(lines@).subrange(first as int, i as int)),
                    decreases lines.len() - i,
                {
                    proof {
                        let all = views(lines@);
                        assert(all.subrange(first as int, i + 1).drop_last() =~= all.subrange(
                            first as int,
                            i as int,
                        ));
                        assert(all.subrange(first as int, i + 1).last() == lines@[i as int]@);
                    }
                    read_installed_line(&mut table, &lines[i]);
                    i += 1;
                }
                Ok(table)
            },
        }
    }

    /// The applications that an update would touch, over all installations,
    /// each with the version on offer. That there is none is an error.
    pub fn get_available_updates(probes: &Vec<InstallationProbe>) -> (r: Result<
        VersionTable,
        ScanError,
    >)
        ensures
            match r {
                Ok(table) => table.wf() && table@ == all_updates(probes@) && table@.len() > 0,
                Err(e) => e is NoUpdatesFound && all_updates(probes@).len() == 0,
            },
    {
        let mut updates = VersionTable::new();
        let mut i: usize = 0;
        proof {
            assert(probes@.take(0) =~= Seq::<InstallationProbe>::empty());
        }
        while i < probes.len()
            invariant
                i <= probes.len(),
                updates.wf(),
                updates@ == all_updates(probes@.take(i as int)),
            decreases probes.len() - i,
        {
            proof {
                assert(probes@.take(i + 1).drop_last() =~= probes@.take(i as int));
                assert(probes@.take(i + 1).last() == probes@[i as int]);
            }
            let found: VersionTable = probes[i].updates();
            updates.extend(&found);
            i += 1;
        }
        proof {
            assert(probes@.take(i as int) =~= probes@);
        }
        if updates.is_empty() {
            Err(ScanError::NoUpdatesFound)
        } else {
            Ok(updates)
        }
    }

    /// The installed applications that an update would touch.
    ///
    /// `list` is the outcome of the command that lists the installed
    /// applications, `probes` what each installation answered. The result
    /// holds, in the order in which the updates were found, every
    /// application with an update that is installed.
    pub fn get_all_available_updates(list: &CommandResult, probes: &Vec<InstallationProbe>) -> (r:
        Result<Vec<Candidate>, ScanError>)
        ensures
            match r {
                Ok(found) => listed(*list) && all_updates(probes@).len() > 0 && candidate_views(
                    found@,
                ) == candidates_of(installed_versions(list->Ok_0.stdout@), all_updates(probes@))
                    && distinct_applications(candidate_views(found@)),
                Err(e) => if !listed(*list) {
                    e matches ScanError::ListFailed(m) && m@ == list_failure_text(*list)
                } else {
                    e is NoUpdatesFound && all_updates(probes@).len() == 0
                },
            },
    {
        let installed: VersionTable = match Application::get_installed_applications(list) {
            Ok(table) => table,
            Err(e) => {
                return Err(e);
            },
        };
        let updates: VersionTable = match Application::get_available_updates(probes) {
            Ok(table) => table,
            Err(e) => {
                return Err(e);
            },
        };
        let pairs: Vec<(String, String)> = updates.pairs();
        let mut found: Vec<Candidate> = Vec::new();
        let mut i: usize = 0;
        proof {
            assert(updates@.take(0) =~= Versions::empty());
            assert(candidate_views(found@) =~= Seq::<CandidateView>::empty());
        }
        while i < pairs.len()
            invariant
                i <= pairs.len() == updates@.len(),
                forall|j: int|
                    0 <= j < pairs.len() ==> (#[trigger] pairs[j]).0@ == updates@[j].0
                        && pairs[j].1@ == updates@[j].1,
                candidate_views(found@) == candidates_of(installed@, updates@.take(i as int)),
            decreases pairs.len() - i,
        {
            proof {
                assert(updates@.take(i + 1).drop_last() =~= updates@.take(i as int));
                assert(updates@.take(i + 1).last() == updates@[i as int]);
            }
            match installed.get(pairs[i].0.as_str()) {
                Some(current_version) => {
                    let candidate = Candidate {
                        app_id: pairs[i].0.clone(),
                        current_version,
                        latest_version: pairs[i].1.clone(),
                    };
                    proof {
                        assert(candidate_views(found@.push(candidate)) =~= candidate_views(
                            found@,
                        ).push(candidate@));
                    }
                    found.push(candidate);
                },
                None => {},
            }
            i += 1;
        }
        proof {
            assert(updates@.take(i as int) =~= updates@);
            lemma_candidates_distinct(installed@, updates@);
        }
        Ok(found)
    }

    /// The name under which the application `app_id` is displayed, going
    /// by `metadata`, the outcome of asking for its metadata.
    pub fn get_app_display_name(app_id: &str, metadata: &CommandResult) -> (name: String)
        ensures
            name@ == display_name(app_id@, *metadata),
    {
        match metadata {
            Err(_) => app_id.to_owned(),
            Ok(outcome) => {
                if !outcome.exit_success {
                    return app_id.to_owned();
                }
                let lines: Vec<Vec<char>> = split_lines(&to_chars(outcome.stdout.as_str()));
                let mut i: usize = 0;
                proof {
                    assert(views(lines@).skip(0) =~= views(lines@));
                }
                while i < lines.len()
                    invariant
                        i <= lines.len(),
                        views(lines@) == lines_of(outcome.stdout@),
                        named_in(views(lines@)) == named_in(views(lines@).skip(i as int)),
                        *metadata == Ok::<CommandOutcome, IoError>(*outcome),
                        outcome.exit_success,
                    decreases lines.len() - i,
                {
                    proof {
                        let rest = views(lines@).skip(i as int);
                        assert(rest[0] == lines@[i as int]@);
                        assert(rest.skip(1) =~= views(lines@).skip(i + 1));
                    }
                    if let Some(name) = strip_prefix(&lines[i], "name=") {
                        return to_text(&name);
                    }
                    i += 1;
                }
                app_id.to_owned()
            },
        }
    }

    /// The path of the application's icon: that of `found`, the file that
    /// the icon theme holds for it, provided that it is an SVG file.
    pub fn get_app_icon(found: &Option<IconFile>) -> (icon: Option<String>)
        ensures
            optional_text(icon) == svg_icon(*found),
    {
        match found {
            Some(file) => match &file.extension {
                Some(extension) => {
                    if crate::text::equals(&to_chars(extension.as_str()), "svg") {
                        Some(file.path.clone())
                    } else {
                        None
                    }
                },
                None => None,
            },
            None => None,
        }
    }

    /// The application that `candidate` describes, with the display name
    /// that `metadata` gives and the icon `found`, not being updated.
    pub fn new(candidate: Candidate, metadata: &CommandResult, found: &Option<IconFile>) -> (app:
        Application)
        ensures
            app.name@ == display_name(candidate.app_id@, *metadata),
            app.app_id@ == candidate.app_id@,
            optional_text(app.icon) == svg_icon(*found),
            app.current_version@ == candidate.current_version@,
            app.latest_version@ == candidate.latest_version@,
            app.application_status == ApplicationStatus::NotUpdating,
    {
        let name: String = Application::get_app_display_name(candidate.app_id.as_str(), metadata);
        Application {
            name,
            app_id: candidate.app_id,
            icon: Application::get_app_icon(found),
            current_version: candidate.current_version,
            latest_version: candidate.latest_version,
            application_status: ApplicationStatus::NotUpdating,
        }
    }
}

/// Why an application was not updated.
#[derive(Debug, Clone)]
pub enum UpdateError {
    /// The update command could not be spawned; the text says why.
    CommandFailed(String),
    /// The update was denied its authorization.
    PermissionDenied,
    /// The update command failed; the text says why.
    UpdateFailed(String),
}

impl UpdateError {
    /// The message of the error.
    pub open spec fn text(&self) -> Seq<char> {
        match self {
            UpdateError::CommandFailed(m) => "Command execution failed: "@ + m@,
            UpdateError::PermissionDenied => "Permission denied"@,
            UpdateError::UpdateFailed(m) => "Update failed: "@ + m@,
        }
    }

    /// The message of the error, as it is shown to the user.
    pub fn message(&self) -> (m: String)
        ensures
            m@ == self.text(),
    {
        match self {
            UpdateError::CommandFailed(m) => to_text(
                &join(&to_chars("Command execution failed: "), &to_chars(m.as_str())),
            ),
            UpdateError::PermissionDenied => "Permission denied".to_owned(),
            UpdateError::UpdateFailed(m) => to_text(
                &join(&to_chars("Update failed: "), &to_chars(m.as_str())),
            ),
        }
    }
}

/// How the update of one application ended.
#[derive(Debug, Clone)]
pub struct UpdateResult {
    pub app_name: String,
    pub success: bool,
    pub error_message: Option<String>,
}

/// What an [`UpdateResult`] holds, as plain values.
pub struct UpdateResultView {
    pub app_name: Seq<char>,
    pub success: bool,
    pub error_message: Option<Seq<char>>,
}

impl View for UpdateResult {
    type V = UpdateResultView;

    open spec fn view(&self) -> UpdateResultView {
        UpdateResultView {
            app_name: self.app_name@,
            success: self.success,
            error_message: optional_text(self.error_message),
        }
    }
}

/// The text that explains why the update of `app_id` failed: the
/// application, and what the command wrote to standard error, or else to
/// standard output, or else a fixed text.
pub open spec fn update_failure_text(app_id: Seq<char>, outcome: CommandOutcome) -> Seq<char> {
    "Failed to update "@ + app_id + ": "@ + failure_text(outcome)
}

/// Whether `r` is what the outcome `result` of updating `app_id` amounts
/// to: a command that could not be spawned is an error of its own; one
/// that exited with success is a success; one that exited with code 126
/// was denied its authorization; any other is a failure, explained by what
/// the command wrote.
pub open spec fn is_update_outcome(
    app_id: Seq<char>,
    result: CommandResult,
    r: Result<(), UpdateError>,
) -> bool {
    match result {
        Err(e) => r matches Err(UpdateError::CommandFailed(m)) && m@ == e.text(),
        Ok(outcome) => if outcome.exit_success {
            r is Ok
        } else if is_denied(outcome) {
            r matches Err(UpdateError::PermissionDenied)
        } else {
            r matches Err(UpdateError::UpdateFailed(m)) && m@ == update_failure_text(
                app_id,
                outcome,
            )
        },
    }
}

/// The result that is reported for the application `name` with the
/// identifier `app_id` whose update ended as `result` says.
pub open spec fn reported(name: Seq<char>, app_id: Seq<char>, result: CommandResult)
    -> UpdateResultView {
    match result {
        Err(e) => UpdateResultView {
            app_name: name,
            success: false,
            error_message: Some("Command execution failed: "@ + e.text()),
        },
        Ok(outcome) => if outcome.exit_success {
            UpdateResultView { app_name: name, success: true, error_message: None }
        } else if is_denied(outcome) {
            UpdateResultView {
                app_name: name,
                success: false,
                error_message: Some("Permission denied"@),
            }
        } else {
            UpdateResultView {
                app_name: name,
                success: false,
                error_message: Some("Update failed: "@ + update_failure_text(app_id, outcome)),
            }
        },
    }
}

/// What the update of all applications at once leads to.
#[derive(Debug)]
pub enum BulkUpdate {
    /// Every application was updated; one result for each.
    Done(Vec<UpdateResult>),
    /// The update failed for another reason than a denied authorization:
    /// the applications are to be updated one by one.
    OneByOne,
}

impl Application {
    /// The command that updates the application `app_id`:
    /// `flatpak update -y <app_id>`.
    pub fn update_command(app_id: &str) -> (r: Invocation)
        ensures
            r@ == (InvocationView { program: "flatpak"@, args: seq!["update"@, "-y"@, app_id@] }),
    {
        let mut args: Vec<String> = no_texts();
        push_text(&mut args, "update");
        push_text(&mut args, "-y");
        push_text(&mut args, app_id);
        proof {
            assert(string_views(args@) =~= seq!["update"@, "-y"@, app_id@]);
        }
        invocation("flatpak", args)
    }

    /// The command that updates every application: `flatpak update -y`.
    pub fn update_all_command() -> (r: Invocation)
        ensures
            r@ == (InvocationView { program: "flatpak"@, args: seq!["update"@, "-y"@] }),
    {
        let mut args: Vec<String> = no_texts();
        push_text(&mut args, "update");
        push_text(&mut args, "-y");
        proof {
            assert(string_views(args@) =~= seq!["update"@, "-y"@]);
        }
        invocation("flatpak", args)
    }

    /// Says how the update of the application `app_id` ended, going by
    /// `result`, the outcome of its update command.
    pub fn update(app_id: &str, result: &CommandResult) -> (r: Result<(), UpdateError>)
        ensures
            is_update_outcome(app_id@, *result, r),
    {
        match result {
            Err(e) => Err(UpdateError::CommandFailed(e.message())),
            Ok(outcome) => {
                if outcome.exit_success {
                    Ok(())
                } else if outcome.exit_code_raw == PERMISSION_DENIED_STATUS {
                    Err(UpdateError::PermissionDenied)
                } else {
                    let why: String = failure_message(outcome);
                    let mut text: Vec<char> = join(
                        &to_chars("Failed to update "),
                        &to_chars(app_id),
                    );
                    text = join(&text, &to_chars(": "));
                    text = join(&text, &to_chars(why.as_str()));
                    Err(UpdateError::UpdateFailed(to_text(&text)))
                }
            },
        }
    }

    /// Says what the update of all of `apps_to_update` at once led to, going
    /// by `result`, the outcome of its command.
    ///
    /// A command that could not be spawned is an error, and so is one that
    /// was denied its authorization. After a command that exited with
    /// success every application counts as updated. After one that failed
    /// for another reason the applications are to be updated one by one.
    pub fn update_all(apps_to_update: &Vec<Application>, result: &CommandResult) -> (r: Result<
        BulkUpdate,
        UpdateError,
    >)
        ensures
            match *result {
                Err(e) => r matches Err(UpdateError::CommandFailed(m)) && m@ == e.text(),
                Ok(outcome) => if outcome.exit_success {
                    r matches Ok(BulkUpdate::Done(results)) && results.len()
                        == apps_to_update.len() && forall|i: int|
                        0 <= i < results.len() ==> (#[trigger] results[i])@ == (UpdateResultView {
                            app_name: apps_to_update[i].name@,
                            success: true,
                            error_message: None,
                        })
                } else if is_denied(outcome) {
                    r matches Err(UpdateError::PermissionDenied)
                } else {
                    r matches Ok(BulkUpdate::OneByOne)
                },
            },
    {
        match result {
            Err(e) => Err(UpdateError::CommandFailed(e.message())),
            Ok(outcome) => {
                if !outcome.exit_success {
                    if outcome.exit_code_raw == PERMISSION_DENIED_STATUS {
                        return Err(UpdateError::PermissionDenied);
                    }
                    return Ok(BulkUpdate::OneByOne);
                }
                let mut results: Vec<UpdateResult> = Vec::new();
                let mut i: usize = 0;
                while i < apps_to_update.len()
                    invariant
                        i <= apps_to_update.len(),
                        results.len() == i,
                        forall|j: int|
                            0 <= j < i ==> (#[trigger] results[j])@ == (UpdateResultView {
                                app_name: apps_to_update[j].name@,
                                success: true,
                                error_message: None,
                            }),
                    decreases apps_to_update.len() - i,
                {
                    results.push(
                        UpdateResult {
                            app_name: apps_to_update[i].name.clone(),
                            success: true,
                            error_message: None,
                        },
                    );
                    i += 1;
                }
                Ok(BulkUpdate::Done(results))
            },
        }
    }

    /// The results of updating `apps_to_update` one by one, `outcomes`
    /// holding for each application, in order, how its update command
    /// ended. A failed update is recorded and does not stop the others. An
    /// application without an outcome has no result.
    pub fn update_one_by_one(apps_to_update: &Vec<Application>, outcomes: &Vec<CommandResult>) -> (r:
        Vec<UpdateResult>)
        ensures
            r.len() == if apps_to_update.len() <= outcomes.len() {
                apps_to_update.len()
            } else {
                outcomes.len()
            },
            forall|i: int|
                0 <= i < r.len() ==> (#[trigger] r[i])@ == reported(
                    apps_to_update[i].name@,
                    apps_to_update[i].app_id@,
                    outcomes[i],
                ),
    {
        let mut results: Vec<UpdateResult> = Vec::new();
        let mut i: usize = 0;
        while i < apps_to_update.len() && i < outcomes.len()
            invariant
                i <= apps_to_update.len(),
                i <= outcomes.len(),
                results.len() == i,
                forall|j: int|
                    0 <= j < i ==> (#[trigger] results[j])@ == reported(
                        apps_to_update[j].name@,
                        apps_to_update[j].app_id@,
                        outcomes[j],
                    ),
            decreases apps_to_update.len() - i,
        {
            let app: &Application = &apps_to_update[i];
            let result: UpdateResult = match Application::update(
                app.app_id.as_str(),
                &outcomes[i],
            ) {
                Ok(()) => UpdateResult {
                    app_name: app.name.clone(),
                    success: true,
                    error_message: None,
                },
                Err(e) => UpdateResult {
                    app_name: app.name.clone(),
                    success: false,
                    error_message: Some(e.message()),
                },
            };
            results.push(result);
            i += 1;
        }
        results
    }
}

} // verus!
