//! The update that `rpm-ostree upgrade --check` reports, and applying it.

use crate::backend::{
    classifies, classify, invocation, CommandError, CommandResult, Invocation, InvocationView,
    ParseError,
};
use crate::text::{
    contains_text, first_word, first_word_of, has_infix, has_prefix, lines_of, no_texts,
    push_text, split_lines, string_views, strip_prefix, to_chars, to_text, trim,
    trimmed, views,
};
use vstd::prelude::*;

verus! {

/// An update of the system that waits to be applied.
#[derive(Debug, Clone)]
pub struct SystemUpdate {
    pub version: String,
    pub commit: String,
    pub gpg_signature: String,
    pub sec_advisories: Option<String>,
    pub diff: String,
}

/// What a [`SystemUpdate`] holds, as plain values.
pub struct SystemUpdateView {
    pub version: Seq<char>,
    pub commit: Seq<char>,
    pub gpg_signature: Seq<char>,
    pub sec_advisories: Option<Seq<char>>,
    pub diff: Seq<char>,
}

impl View for SystemUpdate {
    type V = SystemUpdateView;

    open spec fn view(&self) -> SystemUpdateView {
        SystemUpdateView {
            version: self.version@,
            commit: self.commit@,
            gpg_signature: self.gpg_signature@,
            sec_advisories: match self.sec_advisories {
                Some(a) => Some(a@),
                None => None,
            },
            diff: self.diff@,
        }
    }
}

/// The value that follows `label` on the trimmed line `t`, which starts with `label`.
pub open spec fn labelled_value(t: Seq<char>, label: Seq<char>) -> Seq<char> {
    trimmed(t.skip(label.len() as int))
}

/// `u` after the line `line` of the upgrade check has been read. The
/// version is the first word after its label; an empty list of security
/// advisories leaves what was read before.
pub open spec fn with_update_line(u: SystemUpdateView, line: Seq<char>) -> SystemUpdateView {
    let t = trimmed(line);
    if has_prefix(t, "Version:"@) {
        SystemUpdateView { version: first_word(t.skip("Version:"@.len() as int)), ..u }
    } else if has_prefix(t, "Commit:"@) {
        SystemUpdateView { commit: labelled_value(t, "Commit:"@), ..u }
    } else if has_prefix(t, "GPGSignature:"@) {
        SystemUpdateView { gpg_signature: labelled_value(t, "GPGSignature:"@), ..u }
    } else if has_prefix(t, "SecAdvisories:"@) {
        if labelled_value(t, "SecAdvisories:"@).len() > 0 {
            SystemUpdateView { sec_advisories: Some(labelled_value(t, "SecAdvisories:"@)), ..u }
        } else {
            u
        }
    } else if has_prefix(t, "Diff:"@) {
        SystemUpdateView { diff: labelled_value(t, "Diff:"@), ..u }
    } else {
        u
    }
}

/// The fields that `lines` give, read first to last; a later line
/// overrides an earlier one with the same label.
pub open spec fn update_fields(lines: Seq<Seq<char>>) -> SystemUpdateView
    decreases lines.len(),
{
    if lines.len() == 0 {
        SystemUpdateView {
            version: Seq::empty(),
            commit: Seq::empty(),
            gpg_signature: Seq::empty(),
            sec_advisories: None,
            diff: Seq::empty(),
        }
    } else {
        with_update_line(update_fields(lines.drop_last()), lines.last())
    }
}

/// The update that the upgrade check `text` reports: none unless the text
/// holds the marker `AvailableUpdate:` and names both a version and a commit.
pub open spec fn available_update(text: Seq<char>) -> Option<SystemUpdateView> {
    let u = update_fields(lines_of(text));
    if has_infix(text, "AvailableUpdate:"@) && u.version.len() > 0 && u.commit.len() > 0 {
        Some(u)
    } else {
        None
    }
}

/// A draft of the update while the lines are read.
struct Fields {
    version: Vec<char>,
    commit: Vec<char>,
    gpg_signature: Vec<char>,
    sec_advisories: Option<Vec<char>>,
    diff: Vec<char>,
}

impl View for Fields {
    type V = SystemUpdateView;

    closed spec fn view(&self) -> SystemUpdateView {
        SystemUpdateView {
            version: self.version@,
            commit: self.commit@,
            gpg_signature: self.gpg_signature@,
            sec_advisories: match self.sec_advisories {
                Some(a) => Some(a@),
                None => None,
            },
            diff: self.diff@,
        }
    }
}

fn read_update_line(u: Fields, line: &Vec<char>) -> (r: Fields)
    ensures
        r@ == with_update_line(u@, line@),
{
    let mut u = u;
    let t: Vec<char> = trim(line);
    if let Some(rest) = strip_prefix(&t, "Version:") {
        u.version = first_word_of(&rest);
    } else if let Some(rest) = strip_prefix(&t, "Commit:") {
        u.commit = trim(&rest);
    } else if let Some(rest) = strip_prefix(&t, "GPGSignature:") {
        u.gpg_signature = trim(&rest);
    } else if let Some(rest) = strip_prefix(&t, "SecAdvisories:") {
        let advisories: Vec<char> = trim(&rest);
        if advisories.len() > 0 {
            u.sec_advisories = Some(advisories);
        }
    } else if let Some(rest) = strip_prefix(&t, "Diff:") {
        u.diff = trim(&rest);
    }
    u
}

impl SystemUpdate {
    /// The command that asks whether an update is available:
    /// `rpm-ostree upgrade --check`.
    pub fn check_command() -> (r: Invocation)
        ensures
            r@ == (InvocationView { program: "rpm-ostree"@, args: seq!["upgrade"@, "--check"@] }),
    {
        let mut args: Vec<String> = no_texts();
        push_text(&mut args, "upgrade");
        push_text(&mut args, "--check");
        proof {
            assert(string_views(args@) =~= seq!["upgrade"@, "--check"@]);
        }
        invocation("rpm-ostree", args)
    }

    /// Reads the pending update out of `stdout`, the output of the upgrade
    /// check. Output that reports no update, or that names no version or no
    /// commit, is an error.
    pub fn parse(stdout: &str) -> (r: Result<SystemUpdate, ParseError>)
        ensures
            match r {
                Ok(u) => available_update(stdout@) == Some(u@),
                Err(e) => e == ParseError::NoUpdateInfo && available_update(stdout@) is None,
            },
            !has_infix(stdout@, "AvailableUpdate:"@) ==> r is Err,
    {
        let chars: Vec<char> = to_chars(stdout);
        if !contains_text(&chars, "AvailableUpdate:") {
            return Err(ParseError::NoUpdateInfo);
        }
        let lines: Vec<Vec<char>> = split_lines(&chars);
        let mut u = Fields {
            version: Vec::new(),
            commit: Vec::new(),
            gpg_signature: Vec::new(),
            sec_advisories: None,
            diff: Vec::new(),
        };
        let mut i: usize = 0;
        while i < lines.len()
            invariant
                i <= lines.len(),
                views(lines@) == lines_of(stdout@),
                u@ == update_fields(views(lines@).take(i as int)),
            decreases lines.len() - i,
        {
            proof {
                let all = views(lines@);
                assert(all.take(i + 1).drop_last() =~= all.take(i as int));
                assert(all.take(i + 1).last() == lines@[i as int]@);
            }
            u = read_update_line(u, &lines[i]);
            i += 1;
        }
        proof {
            let all = views(lines@);
            assert(all.take(i as int) =~= all);
        }
        if u.version.len() > 0 && u.commit.len() > 0 {
            Ok(
                SystemUpdate {
                    version: to_text(&u.version),
                    commit: to_text(&u.commit),
                    gpg_signature: to_text(&u.gpg_signature),
                    sec_advisories: match &u.sec_advisories {
                        Some(a) => Some(to_text(a)),
                        None => None,
                    },
                    diff: to_text(&u.diff),
                },
            )
        } else {
            Err(ParseError::NoUpdateInfo)
        }
    }

    /// The pending update, going by `result`, the outcome of the upgrade
    /// check. A check that could not be run and malformed output count as
    /// no update.
    pub fn check(result: &CommandResult) -> (r: Option<SystemUpdate>)
        ensures
            match *result {
                Err(_) => r is None,
                Ok(outcome) => match r {
                    Some(u) => available_update(outcome.stdout@) == Some(u@),
                    None => available_update(outcome.stdout@) is None,
                },
            },
            result matches Ok(outcome) && !has_infix(outcome.stdout@, "AvailableUpdate:"@) ==> r
                is None,
    {
        match result {
            Err(_) => None,
            Ok(outcome) => match SystemUpdate::parse(outcome.stdout.as_str()) {
                Ok(u) => Some(u),
                Err(_) => None,
            },
        }
    }

    /// The command that applies the update: `pkexec rpm-ostree upgrade`.
    pub fn update_command() -> (r: Invocation)
        ensures
            r@ == (InvocationView { program: "pkexec"@, args: seq!["rpm-ostree"@, "upgrade"@] }),
    {
        let mut args: Vec<String> = no_texts();
        push_text(&mut args, "rpm-ostree");
        push_text(&mut args, "upgrade");
        proof {
            assert(string_views(args@) =~= seq!["rpm-ostree"@, "upgrade"@]);
        }
        invocation("pkexec", args)
    }

    /// Classifies how the upgrade command ended.
    pub fn update(result: &CommandResult) -> (r: Result<(), CommandError>)
        ensures
            classifies(*result, r),
    {
        classify(result)
    }
}

} // verus!
