//! Looking for a package with `rpm-ostree search`, and layering packages
//! onto the image or taking them off it.

use crate::backend::{
    classifies, classify, invocation, CommandError, CommandOutcome, CommandResult, Invocation,
    InvocationView, IoError,
};
use crate::text::{
    join, contains_text, equals, find_text, has_infix, has_prefix, lines_of, no_texts,
    occurs_at, push_text, slice, split_lines, starts_with, string_views, to_chars, to_text, trim,
    trimmed, views,
};
use vstd::prelude::*;

verus! {

/// Why a package was not confirmed to exist.
#[derive(Debug, Clone)]
pub enum CheckPackageError {
    /// The search listed no package of that exact name.
    NotFound,
    /// The search could not be run; the text says why.
    Error(String),
}

impl CheckPackageError {
    /// The message of the error.
    pub open spec fn text(&self) -> Seq<char> {
        match self {
            CheckPackageError::NotFound => "Package Not Found"@,
            CheckPackageError::Error(m) => "Update failed: "@ + m@,
        }
    }

    /// The message of the error, as it is shown to the user.
    pub fn message(&self) -> (m: String)
        ensures
            m@ == self.text(),
    {
        match self {
            CheckPackageError::NotFound => "Package Not Found".to_owned(),
            CheckPackageError::Error(m) => to_text(
                &join(&to_chars("Update failed: "), &to_chars(m.as_str())),
            ),
        }
    }
}

/// Whether the line `line` of a search result describes the package
/// `name`: the line is `name : description`, the name being what stands
/// before the first ` : `.
pub open spec fn describes_package(line: Seq<char>, name: Seq<char>) -> bool {
    let t = trimmed(line);
    &&& t.len() > 0
    &&& !has_prefix(t, "====="@)
    &&& exists|k: int|
        {
            &&& #[trigger] occurs_at(t, " : "@, k)
            &&& forall|j: int| 0 <= j < k ==> !occurs_at(t, " : "@, j)
            &&& trimmed(t.take(k)) == name
        }
}

/// Whether the search result `text` lists the package `name`.
pub open spec fn lists_package(text: Seq<char>, name: Seq<char>) -> bool {
    &&& !has_infix(text, "No matches found."@)
    &&& exists|i: int|
        0 <= i < lines_of(text).len() && describes_package(#[trigger] lines_of(text)[i], name)
}

fn describes(line: &Vec<char>, name: &str) -> (b: bool)
    ensures
        b == describes_package(line@, name@),
{
    let t: Vec<char> = trim(line);
    if t.len() == 0 || starts_with(&t, "=====") {
        return false;
    }
    match find_text(&t, " : ") {
        Some(k) => {
            let found: Vec<char> = trim(&slice(&t, 0, k));
            let same: bool = equals(&found, name);
            proof {
                assert(t@.subrange(0, k as int) =~= t@.take(k as int));
                if describes_package(line@, name@) {
                    let w = choose|w: int|
                        {
                            &&& #[trigger] occurs_at(t@, " : "@, w)
                            &&& forall|j: int| 0 <= j < w ==> !occurs_at(t@, " : "@, j)
                            &&& trimmed(t@.take(w)) == name@
                        };
                    assert(w == k);
                }
                if same {
                    assert(occurs_at(t@, " : "@, k as int));
                }
            }
            same
        },
        None => {
            proof {
                assert forall|k: int| !occurs_at(t@, " : "@, k) by {
                    if occurs_at(t@, " : "@, k) {
                        assert(has_infix(t@, " : "@));
                    }
                }
            }
            false
        },
    }
}

/// The command that searches for the package `package_name`:
/// `rpm-ostree search <name>`.
pub fn search_command(package_name: &str) -> (r: Invocation)
    ensures
        r@ == (InvocationView { program: "rpm-ostree"@, args: seq!["search"@, package_name@] }),
{
    let mut args: Vec<String> = no_texts();
    push_text(&mut args, "search");
    push_text(&mut args, package_name);
    proof {
        assert(string_views(args@) =~= seq!["search"@, package_name@]);
    }
    invocation("rpm-ostree", args)
}

/// Confirms that the package `package_name` exists, going by `result`, the
/// outcome of the search for it, and gives back its name.
///
/// A search that could not be run is an error. Otherwise the package exists
/// when the output does not say that nothing matched and one of its lines
/// describes a package of exactly that name.
pub fn check_package(package_name: &str, result: &CommandResult) -> (r: Result<
    String,
    CheckPackageError,
>)
    ensures
        match *result {
            Err(e) => r matches Err(CheckPackageError::Error(m)) && m@
                == "Error searching for package: "@ + e.text(),
            Ok(outcome) => if lists_package(outcome.stdout@, package_name@) {
                r matches Ok(name) && name@ == package_name@
            } else {
                r matches Err(CheckPackageError::NotFound)
            },
        },
{
    match result {
        Err(e) => {
            let cause: String = e.message();
            Err(
                CheckPackageError::Error(
                    to_text(
                        &join(
                            &to_chars("Error searching for package: "),
                            &to_chars(cause.as_str()),
                        ),
                    ),
                ),
            )
        },
        Ok(outcome) => {
            let chars: Vec<char> = to_chars(outcome.stdout.as_str());
            if contains_text(&chars, "No matches found.") {
                return Err(CheckPackageError::NotFound);
            }
            let lines: Vec<Vec<char>> = split_lines(&chars);
            let mut i: usize = 0;
            while i < lines.len()
                invariant
                    i <= lines.len(),
                    *result == Ok::<CommandOutcome, IoError>(*outcome),
                    views(lines@) == lines_of(outcome.stdout@),
                    !has_infix(outcome.stdout@, "No matches found."@),
                    forall|j: int|
                        0 <= j < i ==> !describes_package(
                            #[trigger] lines_of(outcome.stdout@)[j],
                            package_name@,
                        ),
                decreases lines.len() - i,
            {
                proof {
                    assert(views(lines@)[i as int] == lines@[i as int]@);
                }
                if describes(&lines[i], package_name) {
                    proof {
                        assert(describes_package(lines_of(outcome.stdout@)[i as int], package_name@));
                    }
                    return Ok(package_name.to_owned());
                }
                i += 1;
            }
            Err(CheckPackageError::NotFound)
        },
    }
}

/// The command that layers `packages_to_add` onto the image:
/// `rpm-ostree install <names...>`.
pub fn add_packages_command(packages_to_add: &Vec<String>) -> (r: Invocation)
    ensures
        r@ == (InvocationView {
            program: "rpm-ostree"@,
            args: seq!["install"@] + string_views(packages_to_add@),
        }),
{
    let mut args: Vec<String> = no_texts();
    push_text(&mut args, "install");
    let mut i: usize = 0;
    proof {
        assert(string_views(args@) =~= seq!["install"@] + string_views(packages_to_add@).take(0));
    }
    while i < packages_to_add.len()
        invariant
            i <= packages_to_add.len(),
            string_views(args@) == seq!["install"@] + string_views(packages_to_add@).take(
                i as int,
            ),
        decreases packages_to_add.len() - i,
    {
        proof {
            let given = string_views(packages_to_add@);
            assert((seq!["install"@] + given.take(i as int)).push(given[i as int]) =~= seq![
                "install"@,
            ] + given.take(i + 1));
        }
        push_text(&mut args, packages_to_add[i].as_str());
        i += 1;
    }
    proof {
        let given = string_views(packages_to_add@);
        assert(given.take(given.len() as int) =~= given);
    }
    invocation("rpm-ostree", args)
}

/// The command that takes `packages_to_remove` off the image:
/// `rpm-ostree uninstall <names...>`.
pub fn remove_packages_command(packages_to_remove: &Vec<String>) -> (r: Invocation)
    ensures
        r@ == (InvocationView {
            program: "rpm-ostree"@,
            args: seq!["uninstall"@] + string_views(packages_to_remove@),
        }),
{
    let mut args: Vec<String> = no_texts();
    push_text(&mut args, "uninstall");
    let mut i: usize = 0;
    proof {
        assert(string_views(args@) =~= seq!["uninstall"@] + string_views(
            packages_to_remove@,
        ).take(0));
    }
    while i < packages_to_remove.len()
        invariant
            i <= packages_to_remove.len(),
            string_views(args@) == seq!["uninstall"@] + string_views(packages_to_remove@).take(
                i as int,
            ),
        decreases packages_to_remove.len() - i,
    {
        proof {
            let given = string_views(packages_to_remove@);
            assert((seq!["uninstall"@] + given.take(i as int)).push(given[i as int]) =~= seq![
                "uninstall"@,
            ] + given.take(i + 1));
        }
        push_text(&mut args, packages_to_remove[i].as_str());
        i += 1;
    }
    proof {
        let given = string_views(packages_to_remove@);
        assert(given.take(given.len() as int) =~= given);
    }
    invocation("rpm-ostree", args)
}

/// Classifies how the command that layers packages ended.
pub fn add_packages(result: &CommandResult) -> (r: Result<(), CommandError>)
    ensures
        classifies(*result, r),
{
    classify(result)
}

/// Classifies how the command that removes layered packages ended.
pub fn remove_packages(result: &CommandResult) -> (r: Result<(), CommandError>)
    ensures
        classifies(*result, r),
{
    classify(result)
}

} // verus!
