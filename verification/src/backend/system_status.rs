//! The deployments that `rpm-ostree status` lists.
//!
//! The output is loosely structured text, read line by line. A line opens a
//! deployment when it starts with a marker glyph or, for vendors that print
//! none, when it looks like a deployment reference. The lines that follow
//! fill in the open deployment's fields.

use crate::backend::{
    classifies, classify, invocation, CommandError, CommandResult, Invocation, InvocationView,
    IoError, ParseError,
};
use crate::text::{
    join, contains_char, decimal, decimal_chars, eq_ignore_ascii_case, find_char, has_char,
    has_prefix, lines_of, no_texts, position, push_text, same_ignoring_ascii_case, slice,
    split_lines, starts_with, string_views, strip_prefixes, to_chars, to_text, trim, trimmed,
    views, without_prefixes,
};
use vstd::prelude::*;

pub mod laws;

verus! {

/// One bootable image generation.
#[derive(Debug, Clone)]
pub struct Deployment {
    pub name: String,
    pub version: String,
    pub base_commit: String,
    pub gpg_signature: String,
    /// The layered packages, separated by spaces; `"None"` when the output named none.
    pub layered_packages: String,
    pub is_pinned: bool,
    /// The deployment's position in the output: the argument that pinning takes.
    pub index: usize,
}

/// What a [`Deployment`] holds, as plain values.
pub struct DeploymentView {
    pub name: Seq<char>,
    pub version: Seq<char>,
    pub base_commit: Seq<char>,
    pub gpg_signature: Seq<char>,
    pub layered_packages: Seq<char>,
    pub is_pinned: bool,
    pub index: nat,
}

impl View for Deployment {
    type V = DeploymentView;

    open spec fn view(&self) -> DeploymentView {
        DeploymentView {
            name: self.name@,
            version: self.version@,
            base_commit: self.base_commit@,
            gpg_signature: self.gpg_signature@,
            layered_packages: self.layered_packages@,
            is_pinned: self.is_pinned,
            index: self.index as nat,
        }
    }
}

/// The views of a sequence of deployments.
pub open spec fn deployment_views(v: Seq<Deployment>) -> Seq<DeploymentView> {
    v.map_values(|d: Deployment| d@)
}

/// The glyph in front of the booted deployment.
pub open spec fn booted_glyph() -> char {
    '\u{25cf}'
}

/// The glyph in front of any other deployment.
pub open spec fn other_glyph() -> char {
    '\u{25cb}'
}

/// Whether the trimmed line `t` starts with a marker glyph.
pub open spec fn has_marker(t: Seq<char>) -> bool {
    t.len() > 0 && (t[0] == booted_glyph() || t[0] == other_glyph())
}

/// Whether the trimmed line `t` carries no deployment data: a blank line, the
/// overall state line, or the header of the deployments section.
pub open spec fn is_skipped(t: Seq<char>) -> bool {
    t.len() == 0 || has_prefix(t, "State:"@) || has_prefix(t, "Deployments:"@)
}

/// Whether the trimmed line `t` starts with the label of a deployment field.
pub open spec fn has_field_label(t: Seq<char>) -> bool {
    ||| has_prefix(t, "Version:"@)
    ||| has_prefix(t, "BaseCommit:"@)
    ||| has_prefix(t, "Digest:"@)
    ||| has_prefix(t, "GPGSignature:"@)
    ||| has_prefix(t, "LayeredPackages:"@)
    ||| has_prefix(t, "Pinned:"@)
}

/// Whether a line starts with a space.
pub open spec fn is_indented(line: Seq<char>) -> bool {
    line.len() > 0 && line[0] == ' '
}

/// Whether `line` looks like a deployment reference although it has no marker
/// glyph. A line that starts with a field label never does. Otherwise it does
/// when it holds a colon (`origin:branch`), when it holds a slash and is
/// indented by fewer than four spaces, or when it is a single word of more
/// than three characters indented by fewer than two spaces.
pub open spec fn looks_like_deployment(line: Seq<char>) -> bool {
    let t = trimmed(line);
    &&& !has_field_label(t)
    &&& {
        ||| has_char(t, ':')
        ||| (has_char(t, '/') && !has_prefix(line, "    "@))
        ||| (!has_char(t, ' ') && !has_prefix(line, "  "@) && t.len() > 3)
    }
}

/// A deployment reference split at its first colon into name and version;
/// without a colon the whole reference is the name.
pub open spec fn split_name(reference: Seq<char>) -> (Seq<char>, Seq<char>) {
    let k = position(reference, ':');
    if k < reference.len() {
        (reference.take(k), reference.skip(k + 1))
    } else {
        (reference, Seq::empty())
    }
}

/// A deployment as it is when its opening line `reference` has been read.
pub open spec fn fresh(reference: Seq<char>, index: nat) -> DeploymentView {
    DeploymentView {
        name: split_name(reference).0,
        version: split_name(reference).1,
        base_commit: Seq::empty(),
        gpg_signature: Seq::empty(),
        layered_packages: Seq::empty(),
        is_pinned: false,
        index,
    }
}

/// The value that follows `label` on the trimmed line `t`.
pub open spec fn field_value(t: Seq<char>, label: Seq<char>) -> Seq<char> {
    trimmed(without_prefixes(t, label))
}

/// The build identifier of a `Version:` line: its value up to the first
/// space, which leaves out a timestamp in parentheses.
pub open spec fn build_id(t: Seq<char>) -> Seq<char> {
    let value = field_value(t, "Version:"@);
    value.take(position(value, ' '))
}

/// `d` after the trimmed line `t` has been read as one of its fields. A line
/// with no known label changes nothing.
pub open spec fn with_field(d: DeploymentView, t: Seq<char>) -> DeploymentView {
    if has_prefix(t, "Version:"@) {
        DeploymentView {
            version: if d.version.len() > 0 {
                d.version + "/"@ + build_id(t)
            } else {
                build_id(t)
            },
            ..d
        }
    } else if has_prefix(t, "BaseCommit:"@) {
        DeploymentView { base_commit: field_value(t, "BaseCommit:"@), ..d }
    } else if has_prefix(t, "Digest:"@) {
        DeploymentView { base_commit: field_value(t, "Digest:"@), ..d }
    } else if has_prefix(t, "GPGSignature:"@) {
        DeploymentView { gpg_signature: field_value(t, "GPGSignature:"@), ..d }
    } else if has_prefix(t, "LayeredPackages:"@) {
        DeploymentView {
            layered_packages: if field_value(t, "LayeredPackages:"@).len() == 0 {
                "None"@
            } else {
                field_value(t, "LayeredPackages:"@)
            },
            ..d
        }
    } else if has_prefix(t, "Pinned:"@) {
        DeploymentView {
            is_pinned: same_ignoring_ascii_case(field_value(t, "Pinned:"@), "yes"@),
            ..d
        }
    } else {
        d
    }
}

/// How far the status output has been read: the deployments that are
/// complete, and the one whose fields are still being read.
pub struct Scan {
    pub done: Seq<DeploymentView>,
    pub open: Option<DeploymentView>,
}

/// The deployments of `st` once the open one is closed.
pub open spec fn closed(st: Scan) -> Seq<DeploymentView> {
    match st.open {
        Some(d) => st.done.push(d),
        None => st.done,
    }
}

/// `st` after a line has opened a new deployment with `reference`.
pub open spec fn opened(st: Scan, reference: Seq<char>) -> Scan {
    Scan { done: closed(st), open: Some(fresh(reference, closed(st).len())) }
}

/// `st` after the line `line` has been read.
///
/// A marker glyph opens a deployment; the rest of its line is the reference,
/// and where nothing follows the glyph the name is still to come. While the
/// open deployment has no name, an indented line without a field label is
/// taken as its reference. Otherwise a line that looks like a deployment
/// opens one, and any other line is read as a field of the open deployment.
pub open spec fn scan_line(st: Scan, line: Seq<char>) -> Scan {
    let t = trimmed(line);
    if is_skipped(t) {
        st
    } else if has_marker(t) {
        opened(st, trimmed(t.skip(1)))
    } else {
        match st.open {
            None => if looks_like_deployment(line) {
                opened(st, t)
            } else {
                st
            },
            Some(d) => if d.name.len() == 0 && is_indented(line) && !has_field_label(t) {
                Scan {
                    done: st.done,
                    open: Some(
                        DeploymentView { name: split_name(t).0, version: split_name(t).1, ..d },
                    ),
                }
            } else if looks_like_deployment(line) {
                opened(st, t)
            } else {
                Scan { done: st.done, open: Some(with_field(d, t)) }
            },
        }
    }
}

/// The state after all of `lines` have been read, first to last.
pub open spec fn scan_lines(lines: Seq<Seq<char>>) -> Scan
    decreases lines.len(),
{
    if lines.len() == 0 {
        Scan { done: Seq::empty(), open: None }
    } else {
        scan_line(scan_lines(lines.drop_last()), lines.last())
    }
}

/// The deployments that the status output `text` describes, in the order in
/// which they appear.
pub open spec fn deployments_of(text: Seq<char>) -> Seq<DeploymentView> {
    closed(scan_lines(lines_of(text)))
}

/// A deployment while its lines are being read.
struct Draft {
    name: Vec<char>,
    version: Vec<char>,
    base_commit: Vec<char>,
    gpg_signature: Vec<char>,
    layered_packages: Vec<char>,
    is_pinned: bool,
    index: usize,
}

impl View for Draft {
    type V = DeploymentView;

    closed spec fn view(&self) -> DeploymentView {
        DeploymentView {
            name: self.name@,
            version: self.version@,
            base_commit: self.base_commit@,
            gpg_signature: self.gpg_signature@,
            layered_packages: self.layered_packages@,
            is_pinned: self.is_pinned,
            index: self.index as nat,
        }
    }
}

/// The view of the draft that is open, if one is.
spec fn open_view(open: Option<Draft>) -> Option<DeploymentView> {
    match open {
        Some(d) => Some(d@),
        None => None,
    }
}

/// The reading state that `done` and `open` stand for.
spec fn scan_of(done: Seq<Deployment>, open: Option<Draft>) -> Scan {
    Scan { done: deployment_views(done), open: open_view(open) }
}

fn marked(t: &Vec<char>) -> (b: bool)
    ensures
        b == has_marker(t@),
{
    t.len() > 0 && (t[0] == '\u{25cf}' || t[0] == '\u{25cb}')
}

fn skipped(t: &Vec<char>) -> (b: bool)
    ensures
        b == is_skipped(t@),
{
    t.len() == 0 || starts_with(t, "State:") || starts_with(t, "Deployments:")
}

fn labelled(t: &Vec<char>) -> (b: bool)
    ensures
        b == has_field_label(t@),
{
    starts_with(t, "Version:") || starts_with(t, "BaseCommit:") || starts_with(t, "Digest:")
        || starts_with(t, "GPGSignature:") || starts_with(t, "LayeredPackages:") || starts_with(
        t,
        "Pinned:",
    )
}

fn indented(line: &Vec<char>) -> (b: bool)
    ensures
        b == is_indented(line@),
{
    line.len() > 0 && line[0] == ' '
}

fn looks_like(line: &Vec<char>) -> (b: bool)
    ensures
        b == looks_like_deployment(line@),
{
    let t: Vec<char> = trim(line);
    if labelled(&t) {
        return false;
    }
    if contains_char(&t, ':') {
        return true;
    }
    if contains_char(&t, '/') && !starts_with(line, "    ") {
        return true;
    }
    !contains_char(&t, ' ') && !starts_with(line, "  ") && t.len() > 3
}

fn split_reference(reference: &Vec<char>) -> (r: (Vec<char>, Vec<char>))
    ensures
        (r.0@, r.1@) == split_name(reference@),
{
    match find_char(reference, ':') {
        Some(k) => (slice(reference, 0, k), slice(reference, k + 1, reference.len())),
        None => (slice(reference, 0, reference.len()), Vec::new()),
    }
}

fn value_after(t: &Vec<char>, label: &str) -> (r: Vec<char>)
    ensures
        r@ == field_value(t@, label@),
{
    trim(&strip_prefixes(t, label))
}

fn read_field(d: Draft, t: &Vec<char>) -> (r: Draft)
    ensures
        r@ == with_field(d@, t@),
{
    let mut d = d;
    if starts_with(t, "Version:") {
        let value: Vec<char> = value_after(t, "Version:");
        let id: Vec<char> = match find_char(&value, ' ') {
            Some(k) => slice(&value, 0, k),
            None => slice(&value, 0, value.len()),
        };
        if d.version.len() > 0 {
            d.version = join(&join(&d.version, &to_chars("/")), &id);
        } else {
            d.version = id;
        }
    } else if starts_with(t, "BaseCommit:") {
        d.base_commit = value_after(t, "BaseCommit:");
    } else if starts_with(t, "Digest:") {
        d.base_commit = value_after(t, "Digest:");
    } else if starts_with(t, "GPGSignature:") {
        d.gpg_signature = value_after(t, "GPGSignature:");
    } else if starts_with(t, "LayeredPackages:") {
        let value: Vec<char> = value_after(t, "LayeredPackages:");
        if value.len() == 0 {
            d.layered_packages = to_chars("None");
        } else {
            d.layered_packages = value;
        }
    } else if starts_with(t, "Pinned:") {
        let value: Vec<char> = value_after(t, "Pinned:");
        d.is_pinned = eq_ignore_ascii_case(&value, "yes");
    }
    d
}

fn finish(d: Draft) -> (r: Deployment)
    ensures
        r@ == d@,
{
    Deployment {
        name: to_text(&d.name),
        version: to_text(&d.version),
        base_commit: to_text(&d.base_commit),
        gpg_signature: to_text(&d.gpg_signature),
        layered_packages: to_text(&d.layered_packages),
        is_pinned: d.is_pinned,
        index: d.index,
    }
}

/// Closes the open draft, if there is one.
fn close(done: &mut Vec<Deployment>, open: Option<Draft>)
    ensures
        deployment_views(final(done)@) == closed(scan_of(old(done)@, open)),
{
    match open {
        Some(d) => {
            let finished = finish(d);
            proof {
                assert(deployment_views(done@.push(finished)) =~= deployment_views(done@).push(
                    finished@,
                ));
            }
            done.push(finished);
        },
        None => {},
    }
}

/// Closes the open draft and opens one for `reference`.
fn open_next(done: &mut Vec<Deployment>, open: Option<Draft>, reference: &Vec<char>) -> (next:
    Option<Draft>)
    ensures
        scan_of(final(done)@, next) == opened(scan_of(old(done)@, open), reference@),
{
    close(done, open);
    let (name, version) = split_reference(reference);
    Some(
        Draft {
            name,
            version,
            base_commit: Vec::new(),
            gpg_signature: Vec::new(),
            layered_packages: Vec::new(),
            is_pinned: false,
            index: done.len(),
        },
    )
}

/// Reads one line of the status output.
fn read_line(done: &mut Vec<Deployment>, open: Option<Draft>, line: &Vec<char>) -> (next: Option<
    Draft,
>)
    ensures
        scan_of(final(done)@, next) == scan_line(scan_of(old(done)@, open), line@),
{
    let t: Vec<char> = trim(line);
    if skipped(&t) {
        open
    } else if marked(&t) {
        let rest: Vec<char> = slice(&t, 1, t.len());
        let reference: Vec<char> = trim(&rest);
        proof {
            assert(rest@ =~= t@.skip(1));
        }
        open_next(done, open, &reference)
    } else {
        match open {
            None => {
                if looks_like(line) {
                    open_next(done, None, &t)
                } else {
                    None
                }
            },
            Some(d) => {
                if d.name.len() == 0 && indented(line) && !labelled(&t) {
                    let (name, version) = split_reference(&t);
                    let mut d = d;
                    d.name = name;
                    d.version = version;
                    Some(d)
                } else if looks_like(line) {
                    open_next(done, Some(d), &t)
                } else {
                    Some(read_field(d, &t))
                }
            },
        }
    }
}

/// Why the deployments could not be had.
#[derive(Debug, Clone)]
pub enum StatusError {
    /// The status command could not be spawned.
    Io(IoError),
    /// Its output could not be read.
    Parse(ParseError),
}

impl StatusError {
    /// The message of the error.
    pub open spec fn text(&self) -> Seq<char> {
        match self {
            StatusError::Io(e) => "Error fetching System Status: "@ + e.text(),
            StatusError::Parse(e) => e.text(),
        }
    }

    /// The message of the error, as it is shown to the user.
    pub fn message(&self) -> (m: String)
        ensures
            m@ == self.text(),
    {
        match self {
            StatusError::Io(e) => {
                let cause: String = e.message();
                to_text(
                    &join(&to_chars("Error fetching System Status: "), &to_chars(cause.as_str())),
                )
            },
            StatusError::Parse(e) => e.message(),
        }
    }
}

impl Deployment {
    /// Reads the deployments out of `stdout`, the output of `rpm-ostree status`.
    ///
    /// The result holds every deployment of the output, in the order of the
    /// output and numbered from zero. Output that describes no deployment is
    /// an error.
    pub fn parse(stdout: &str) -> (r: Result<Vec<Deployment>, ParseError>)
        ensures
            match r {
                Ok(v) => v.len() > 0 && deployment_views(v@) == deployments_of(stdout@),
                Err(e) => e == ParseError::NoDeploymentsFound && deployments_of(stdout@).len() == 0,
            },
            r matches Ok(v) ==> forall|i: int| 0 <= i < v.len() ==> (#[trigger] v[i]).index == i,
    {
        let chars: Vec<char> = to_chars(stdout);
        let lines: Vec<Vec<char>> = split_lines(&chars);
        let mut done: Vec<Deployment> = Vec::new();
        let mut open: Option<Draft> = None;
        let mut i: usize = 0;
        proof {
            assert(deployment_views(done@) =~= Seq::<DeploymentView>::empty());
        }
        while i < lines.len()
            invariant
                i <= lines.len(),
                views(lines@) == lines_of(stdout@),
                scan_of(done@, open) == scan_lines(views(lines@).take(i as int)),
            decreases lines.len() - i,
        {
            proof {
                let all = views(lines@);
                assert(all.take(i + 1).drop_last() =~= all.take(i as int));
                assert(all.take(i + 1).last() == lines@[i as int]@);
            }
            open = read_line(&mut done, open, &lines[i]);
            i += 1;
        }
        proof {
            let all = views(lines@);
            assert(all.take(i as int) =~= all);
        }
        close(&mut done, open);
        proof {
            laws::lemma_indices_follow_order(stdout@);
            assert(deployments_of(stdout@) == deployment_views(done@));
            assert forall|i: int| 0 <= i < done.len() implies (#[trigger] done[i]).index == i by {
                assert(deployments_of(stdout@)[i].index == i);
                assert(deployment_views(done@)[i] == done[i]@);
            }
        }
        if done.len() == 0 {
            Err(ParseError::NoDeploymentsFound)
        } else {
            Ok(done)
        }
    }

    /// The deployments of the system, going by `result`, the outcome of
    /// `rpm-ostree status`: those that its output describes. A command that
    /// could not be spawned, and output without a deployment, are errors.
    pub fn get_all(result: &CommandResult) -> (r: Result<Vec<Deployment>, StatusError>)
        ensures
            match *result {
                Err(e) => r matches Err(StatusError::Io(io)) && io.text() == e.text() && (io
                    is NotFound <==> e is NotFound),
                Ok(outcome) => match r {
                    Ok(v) => v.len() > 0 && deployment_views(v@) == deployments_of(
                        outcome.stdout@,
                    ),
                    Err(e) => e == StatusError::Parse(ParseError::NoDeploymentsFound)
                        && deployments_of(outcome.stdout@).len() == 0,
                },
            },
            r matches Ok(v) ==> forall|i: int| 0 <= i < v.len() ==> (#[trigger] v[i]).index == i,
    {
        match result {
            Err(e) => Err(StatusError::Io(e.duplicate())),
            Ok(outcome) => match Deployment::parse(outcome.stdout.as_str()) {
                Ok(v) => Ok(v),
                Err(e) => Err(StatusError::Parse(e)),
            },
        }
    }

    /// Whether `line`, which has no marker glyph, looks like a deployment reference.
    pub fn is_deployment_line(line: &str) -> (b: bool)
        ensures
            b == looks_like_deployment(line@),
    {
        looks_like(&to_chars(line))
    }

    /// Splits a deployment reference at its first colon into name and version.
    pub fn parse_deployment_name(deployment_line: &str) -> (r: (String, String))
        ensures
            (r.0@, r.1@) == split_name(deployment_line@),
    {
        let (name, version) = split_reference(&to_chars(deployment_line));
        (to_text(&name), to_text(&version))
    }

    /// The command that pins the deployment at `deployment_index`:
    /// `pkexec ostree admin pin <index>`.
    pub fn pin_command(deployment_index: usize) -> (r: Invocation)
        ensures
            r@ == (InvocationView {
                program: "pkexec"@,
                args: seq!["ostree"@, "admin"@, "pin"@, decimal(deployment_index as nat)],
            }),
    {
        let mut args: Vec<String> = no_texts();
        push_text(&mut args, "ostree");
        push_text(&mut args, "admin");
        push_text(&mut args, "pin");
        let index: String = to_text(&decimal_chars(deployment_index));
        push_text(&mut args, index.as_str());
        proof {
            assert(string_views(args@) =~= seq![
                "ostree"@,
                "admin"@,
                "pin"@,
                decimal(deployment_index as nat),
            ]);
        }
        invocation("pkexec", args)
    }

    /// The command that unpins the deployment at `deployment_index`:
    /// `pkexec ostree admin pin --unpin <index>`.
    pub fn unpin_command(deployment_index: usize) -> (r: Invocation)
        ensures
            r@ == (InvocationView {
                program: "pkexec"@,
                args: seq![
                    "ostree"@,
                    "admin"@,
                    "pin"@,
                    "--unpin"@,
                    decimal(deployment_index as nat),
                ],
            }),
    {
        let mut args: Vec<String> = no_texts();
        push_text(&mut args, "ostree");
        push_text(&mut args, "admin");
        push_text(&mut args, "pin");
        push_text(&mut args, "--unpin");
        let index: String = to_text(&decimal_chars(deployment_index));
        push_text(&mut args, index.as_str());
        proof {
            assert(string_views(args@) =~= seq![
                "ostree"@,
                "admin"@,
                "pin"@,
                "--unpin"@,
                decimal(deployment_index as nat),
            ]);
        }
        invocation("pkexec", args)
    }

    /// Classifies how the command that pins a deployment ended.
    pub fn pin_deployment(result: &CommandResult) -> (r: Result<(), CommandError>)
        ensures
            classifies(*result, r),
    {
        classify(result)
    }

    /// Classifies how the command that unpins a deployment ended.
    pub fn unpin_deployment(result: &CommandResult) -> (r: Result<(), CommandError>)
        ensures
            classifies(*result, r),
    {
        classify(result)
    }
}

} // verus!
