//! The screen that layers packages onto the booted deployment and takes
//! them off it.
//!
//! The screen has two tabs. One collects the names of packages to add, each
//! confirmed to exist before it joins the list. The other lists the layered
//! packages, each with a mark that says whether it is to be removed.

use crate::backend::layered_packages::CheckPackageError;
use crate::backend::system_status::Deployment;
use crate::backend::CommandError;
use crate::text::{fields_of, split_char, string_views, to_chars, to_text, trim, trimmed, views};
use crate::widgets::toast::{error_of, warning_of, Toast, ToastView};
use vstd::prelude::*;

verus! {

/// The tab that is open, with what the user has entered on it.
#[derive(Debug, Clone)]
pub enum Tab {
    AddPackages { package_name_input: String, packages_to_add: Vec<String> },
    RemovePackages { packages_to_remove: Vec<(String, bool)> },
}

/// What a [`Tab`] holds, as plain values.
pub enum TabView {
    AddPackages { package_name_input: Seq<char>, packages_to_add: Seq<Seq<char>> },
    RemovePackages { packages_to_remove: Seq<(Seq<char>, bool)> },
}

/// The views of a sequence of packages, each with its mark.
pub open spec fn selection_views(v: Seq<(String, bool)>) -> Seq<(Seq<char>, bool)> {
    v.map_values(|p: (String, bool)| (p.0@, p.1))
}

impl View for Tab {
    type V = TabView;

    open spec fn view(&self) -> TabView {
        match self {
            Tab::AddPackages { package_name_input, packages_to_add } => TabView::AddPackages {
                package_name_input: package_name_input@,
                packages_to_add: string_views(packages_to_add@),
            },
            Tab::RemovePackages { packages_to_remove } => TabView::RemovePackages {
                packages_to_remove: selection_views(packages_to_remove@),
            },
        }
    }
}

impl Tab {
    /// The name of the tab's kind.
    pub fn kind(&self) -> (kind: &'static str)
        ensures
            kind@ == match *self {
                Tab::AddPackages { .. } => "AddPackages"@,
                Tab::RemovePackages { .. } => "RemovePackages"@,
            },
    {
        match self {
            Tab::AddPackages { .. } => "AddPackages",
            Tab::RemovePackages { .. } => "RemovePackages",
        }
    }

    /// Whether this is the tab that adds packages.
    pub fn is_add_packages(&self) -> (b: bool)
        ensures
            b == (self is AddPackages),
    {
        match self {
            Tab::AddPackages { .. } => true,
            Tab::RemovePackages { .. } => false,
        }
    }

    /// Whether this is the tab that removes packages.
    pub fn is_remove_packages(&self) -> (b: bool)
        ensures
            b == (self is RemovePackages),
    {
        match self {
            Tab::AddPackages { .. } => false,
            Tab::RemovePackages { .. } => true,
        }
    }
}

impl Default for Tab {
    fn default() -> (tab: Tab)
        ensures
            tab@ == (TabView::AddPackages {
                package_name_input: Seq::empty(),
                packages_to_add: Seq::empty(),
            }),
    {
        let packages_to_add: Vec<String> = Vec::new();
        proof {
            assert(string_views(packages_to_add@) =~= Seq::<Seq<char>>::empty());
        }
        Tab::AddPackages { package_name_input: String::new(), packages_to_add }
    }
}

impl PartialEq for Tab {
    /// Two tabs are equal when they are of the same kind, whatever has been
    /// entered on them.
    fn eq(&self, other: &Tab) -> (equal: bool) {
        self.is_add_packages() == other.is_add_packages()
    }
}

impl vstd::std_specs::cmp::PartialEqSpecImpl for Tab {
    open spec fn obeys_eq_spec() -> bool {
        true
    }

    open spec fn eq_spec(&self, other: &Tab) -> bool {
        (self is AddPackages) == (other is AddPackages)
    }
}

/// What can happen to the screen.
#[derive(Debug, Clone)]
pub enum Message {
    /// Asks to go back a screen.
    Back,
    /// Asks for the tab that adds packages.
    OpenAddPackagesTab,
    /// Asks for the tab that removes packages.
    OpenRemovePackagesTab,
    /// The text of the package name input changed.
    AddPackageInputUpdated(String),
    /// Asks for the entered package to be checked and added to the list.
    CheckPackageBeforeAddList,
    /// The name of the package that was checked, or why it was not confirmed.
    PackageToAddChecked(Result<String, CheckPackageError>),
    /// Takes a package off the list of packages to add.
    RemovePackageFromAddList(String),
    /// Sets the mark of a package on the list of packages to remove.
    TogglePackageToRemove(String, bool),
    /// Asks for the changes of the open tab to be applied.
    ApplyChanges,
    /// How applying the changes ended.
    ApplyChangesCallback(Result<(), CommandError>),
}

/// The outside work that the screen asks for.
#[derive(Debug, Clone)]
pub enum Task {
    /// Check that this package exists; answered by [`Message::PackageToAddChecked`].
    CheckPackage(String),
    /// Layer these packages; answered by [`Message::ApplyChangesCallback`].
    AddPackages(Vec<String>),
    /// Remove these layered packages; answered by [`Message::ApplyChangesCallback`].
    RemovePackages(Vec<String>),
}

/// What a [`Task`] holds, as plain values.
pub enum TaskView {
    CheckPackage(Seq<char>),
    AddPackages(Seq<Seq<char>>),
    RemovePackages(Seq<Seq<char>>),
}

impl View for Task {
    type V = TaskView;

    open spec fn view(&self) -> TaskView {
        match self {
            Task::CheckPackage(name) => TaskView::CheckPackage(name@),
            Task::AddPackages(names) => TaskView::AddPackages(string_views(names@)),
            Task::RemovePackages(names) => TaskView::RemovePackages(string_views(names@)),
        }
    }
}

/// What the screen asks of whoever drives it.
#[derive(Debug, Clone)]
pub enum Action {
    Nothing,
    Back,
    Run(Task),
    AddToast(Toast),
    /// Go back a screen and find out whether a reboot is pending.
    BackAndCheckReboot,
}

/// What an [`Action`] holds, as plain values.
pub enum ActionView {
    Nothing,
    Back,
    Run(TaskView),
    AddToast(ToastView),
    BackAndCheckReboot,
}

impl View for Action {
    type V = ActionView;

    open spec fn view(&self) -> ActionView {
        match self {
            Action::Nothing => ActionView::Nothing,
            Action::Back => ActionView::Back,
            Action::Run(task) => ActionView::Run(task@),
            Action::AddToast(toast) => ActionView::AddToast(toast@),
            Action::BackAndCheckReboot => ActionView::BackAndCheckReboot,
        }
    }
}

/// The layered packages screen.
#[derive(Debug, Clone)]
pub struct LayeredPackages {
    pub applying_changes: bool,
    pub current_packages: Vec<String>,
    pub current_tab: Tab,
}

/// What a [`LayeredPackages`] holds, as plain values.
pub struct LayeredPackagesView {
    pub applying_changes: bool,
    pub current_packages: Seq<Seq<char>>,
    pub current_tab: TabView,
}

impl View for LayeredPackages {
    type V = LayeredPackagesView;

    open spec fn view(&self) -> LayeredPackagesView {
        LayeredPackagesView {
            applying_changes: self.applying_changes,
            current_packages: string_views(self.current_packages@),
            current_tab: self.current_tab@,
        }
    }
}

/// The names that the list `layered_packages` of a deployment holds: its
/// fields between spaces, each trimmed.
pub open spec fn package_names(layered_packages: Seq<char>) -> Seq<Seq<char>> {
    fields_of(layered_packages, ' ').map_values(|field: Seq<char>| trimmed(field))
}

/// Whether a package of `packages` is marked.
pub open spec fn any_selected(packages: Seq<(Seq<char>, bool)>) -> bool {
    exists|i: int| 0 <= i < packages.len() && (#[trigger] packages[i]).1
}

/// The packages `names`, none of them marked.
pub open spec fn unselected(names: Seq<Seq<char>>) -> Seq<(Seq<char>, bool)> {
    names.map_values(|name: Seq<char>| (name, false))
}

/// `names` without every occurrence of `name`.
pub open spec fn without(names: Seq<Seq<char>>, name: Seq<char>) -> Seq<Seq<char>>
    decreases names.len(),
{
    if names.len() == 0 {
        Seq::empty()
    } else if names.last() == name {
        without(names.drop_last(), name)
    } else {
        without(names.drop_last(), name).push(names.last())
    }
}

/// `packages` with `mark` as the mark of every package called `name`.
pub open spec fn toggled(packages: Seq<(Seq<char>, bool)>, name: Seq<char>, mark: bool) -> Seq<
    (Seq<char>, bool),
> {
    packages.map_values(
        |p: (Seq<char>, bool)|
            if p.0 == name {
                (p.0, mark)
            } else {
                p
            },
    )
}

/// The names of the packages of `packages` that are marked, in order.
pub open spec fn selected(packages: Seq<(Seq<char>, bool)>) -> Seq<Seq<char>>
    decreases packages.len(),
{
    if packages.len() == 0 {
        Seq::empty()
    } else if packages.last().1 {
        selected(packages.drop_last()).push(packages.last().0)
    } else {
        selected(packages.drop_last())
    }
}

/// `s` with `tab` as its open tab.
pub open spec fn on_tab(s: LayeredPackagesView, tab: TabView) -> LayeredPackagesView {
    LayeredPackagesView { current_tab: tab, ..s }
}

/// The state that follows `s` on `message`, and the action that the screen
/// answers with.
///
/// A tab is left only while nothing is selected on it, and the tab that
/// removes packages opens only where a package is layered; otherwise a
/// toast warns and nothing changes. A package joins the list of packages to
/// add after it was confirmed to exist; one that is on the list already, or
/// layered already, is not checked again. Applying the changes of a tab
/// with a selection marks the screen as applying them; success leaves the
/// screen for the check of a pending reboot, and failure is reported in a
/// toast, the screen being ready again.
pub open spec fn step(s: LayeredPackagesView, message: Message) -> (
    LayeredPackagesView,
    ActionView,
) {
    match message {
        Message::Back => (s, ActionView::Back),
        Message::OpenAddPackagesTab => match s.current_tab {
            TabView::RemovePackages { packages_to_remove } => if !any_selected(
                packages_to_remove,
            ) {
                (
                    on_tab(
                        s,
                        TabView::AddPackages {
                            package_name_input: Seq::empty(),
                            packages_to_add: Seq::empty(),
                        },
                    ),
                    ActionView::Nothing,
                )
            } else {
                (
                    s,
                    ActionView::AddToast(
                        warning_of(
                            "You have packages to remove selected, changes will be lost if you change Tab's"@,
                        ),
                    ),
                )
            },
            TabView::AddPackages { .. } => (s, ActionView::Nothing),
        },
        Message::OpenRemovePackagesTab => if s.current_packages.len() == 0 {
            (s, ActionView::AddToast(warning_of("You have no packages available to remove"@)))
        } else {
            match s.current_tab {
                TabView::AddPackages { packages_to_add, .. } => if packages_to_add.len() == 0 {
                    (
                        on_tab(
                            s,
                            TabView::RemovePackages {
                                packages_to_remove: unselected(s.current_packages),
                            },
                        ),
                        ActionView::Nothing,
                    )
                } else {
                    (
                        s,
                        ActionView::AddToast(
                            warning_of(
                                "You have packages to add selected, changes will be lost if you change Tab's"@,
                            ),
                        ),
                    )
                },
                TabView::RemovePackages { .. } => (s, ActionView::Nothing),
            }
        },
        Message::AddPackageInputUpdated(new_value) => match s.current_tab {
            TabView::AddPackages { packages_to_add, .. } => (
                on_tab(
                    s,
                    TabView::AddPackages { package_name_input: new_value@, packages_to_add },
                ),
                ActionView::Nothing,
            ),
            TabView::RemovePackages { .. } => (s, ActionView::Nothing),
        },
        Message::CheckPackageBeforeAddList => match s.current_tab {
            TabView::AddPackages { package_name_input, packages_to_add } => {
                let name = trimmed(package_name_input);
                if packages_to_add.contains(name) {
                    (
                        s,
                        ActionView::AddToast(
                            warning_of("This package is already on the add list"@),
                        ),
                    )
                } else if s.current_packages.contains(name) {
                    (s, ActionView::AddToast(warning_of("Package already installed"@)))
                } else if name.len() > 0 {
                    (s, ActionView::Run(TaskView::CheckPackage(name)))
                } else {
                    (s, ActionView::Nothing)
                }
            },
            TabView::RemovePackages { .. } => (s, ActionView::Nothing),
        },
        Message::PackageToAddChecked(result) => match result {
            Ok(name) => match s.current_tab {
                TabView::AddPackages { packages_to_add, .. } => (
                    on_tab(
                        s,
                        TabView::AddPackages {
                            package_name_input: Seq::empty(),
                            packages_to_add: packages_to_add.push(name@),
                        },
                    ),
                    ActionView::Nothing,
                ),
                TabView::RemovePackages { .. } => (s, ActionView::Nothing),
            },
            Err(e) => match e {
                CheckPackageError::NotFound => (
                    s,
                    ActionView::AddToast(warning_of("Package not found"@)),
                ),
                CheckPackageError::Error(cause) => (s, ActionView::AddToast(error_of(cause@))),
            },
        },
        Message::RemovePackageFromAddList(name) => match s.current_tab {
            TabView::AddPackages { package_name_input, packages_to_add } => (
                on_tab(
                    s,
                    TabView::AddPackages {
                        package_name_input,
                        packages_to_add: without(packages_to_add, name@),
                    },
                ),
                ActionView::Nothing,
            ),
            TabView::RemovePackages { .. } => (s, ActionView::Nothing),
        },
        Message::TogglePackageToRemove(name, mark) => match s.current_tab {
            TabView::RemovePackages { packages_to_remove } => (
                on_tab(
                    s,
                    TabView::RemovePackages {
                        packages_to_remove: toggled(packages_to_remove, name@, mark),
                    },
                ),
                ActionView::Nothing,
            ),
            TabView::AddPackages { .. } => (s, ActionView::Nothing),
        },
        Message::ApplyChanges => match s.current_tab {
            TabView::AddPackages { packages_to_add, .. } => if packages_to_add.len() > 0 {
                (
                    LayeredPackagesView { applying_changes: true, ..s },
                    ActionView::Run(TaskView::AddPackages(packages_to_add)),
                )
            } else {
                (s, ActionView::AddToast(warning_of("No packages to add"@)))
            },
            TabView::RemovePackages { packages_to_remove } => if selected(
                packages_to_remove,
            ).len() > 0 {
                (
                    LayeredPackagesView { applying_changes: true, ..s },
                    ActionView::Run(TaskView::RemovePackages(selected(packages_to_remove))),
                )
            } else {
                (s, ActionView::AddToast(warning_of("No packages to remove"@)))
            },
        },
        Message::ApplyChangesCallback(result) => match result {
            Ok(_) => (s, ActionView::BackAndCheckReboot),
            Err(e) => (
                LayeredPackagesView { applying_changes: false, ..s },
                ActionView::AddToast(error_of(e.text())),
            ),
        },
    }
}

/// A copy of `names`.
fn copy_names(names: &Vec<String>) -> (r: Vec<String>)
    ensures
        string_views(r@) == string_views(names@),
{
    let mut r: Vec<String> = Vec::new();
    let mut i: usize = 0;
    while i < names.len()
        invariant
            i <= names.len(),
            r.len() == i,
            forall|j: int| 0 <= j < i ==> (#[trigger] r[j])@ == names[j]@,
        decreases names.len() - i,
    {
        r.push(names[i].clone());
        i += 1;
    }
    proof {
        assert(string_views(r@) =~= string_views(names@));
    }
    r
}

/// Whether `names` holds `name`.
fn holds(names: &Vec<String>, name: &Vec<char>) -> (b: bool)
    ensures
        b == string_views(names@).contains(name@),
{
    let mut i: usize = 0;
    while i < names.len()
        invariant
            i <= names.len(),
            forall|j: int| 0 <= j < i ==> (#[trigger] string_views(names@)[j]) != name@,
        decreases names.len() - i,
    {
        if crate::text::equals(name, names[i].as_str()) {
            proof {
                assert(string_views(names@)[i as int] == name@);
            }
            return true;
        }
        i += 1;
    }
    false
}

/// Whether a package of `packages` is marked.
fn any_marked(packages: &Vec<(String, bool)>) -> (b: bool)
    ensures
        b == any_selected(selection_views(packages@)),
{
    let mut i: usize = 0;
    while i < packages.len()
        invariant
            i <= packages.len(),
            forall|j: int| 0 <= j < i ==> !(#[trigger] selection_views(packages@)[j]).1,
        decreases packages.len() - i,
    {
        if packages[i].1 {
            proof {
                assert(selection_views(packages@)[i as int].1);
            }
            return true;
        }
        i += 1;
    }
    false
}

/// The packages `names`, none of them marked.
fn unmarked(names: &Vec<String>) -> (r: Vec<(String, bool)>)
    ensures
        selection_views(r@) == unselected(string_views(names@)),
{
    let mut r: Vec<(String, bool)> = Vec::new();
    let mut i: usize = 0;
    while i < names.len()
        invariant
            i <= names.len(),
            r.len() == i,
            forall|j: int| 0 <= j < i ==> (#[trigger] r[j]).0@ == names[j]@ && !r[j].1,
        decreases names.len() - i,
    {
        r.push((names[i].clone(), false));
        i += 1;
    }
    proof {
        assert(selection_views(r@) =~= unselected(string_views(names@)));
    }
    r
}

/// `names` without every occurrence of `name`.
fn remove_name(names: &Vec<String>, name: &String) -> (r: Vec<String>)
    ensures
        string_views(r@) == without(string_views(names@), name@),
{
    let mut r: Vec<String> = Vec::new();
    let mut i: usize = 0;
    proof {
        assert(string_views(names@).take(0) =~= Seq::<Seq<char>>::empty());
        assert(string_views(r@) =~= Seq::<Seq<char>>::empty());
    }
    while i < names.len()
        invariant
            i <= names.len(),
            string_views(r@) == without(string_views(names@).take(i as int), name@),
        decreases names.len() - i,
    {
        proof {
            let all = string_views(names@);
            assert(all.take(i + 1).drop_last() =~= all.take(i as int));
            assert(all.take(i + 1).last() == names[i as int]@);
        }
        if names[i] != *name {
            let copy: String = names[i].clone();
            proof {
                assert(string_views(r@.push(copy)) =~= string_views(r@).push(copy@));
            }
            r.push(copy);
        }
        i += 1;
    }
    proof {
        let all = string_views(names@);
        assert(all.take(i as int) =~= all);
    }
    r
}

/// `packages` with `mark` as the mark of every package called `name`.
fn toggle(packages: &Vec<(String, bool)>, name: &String, mark: bool) -> (r: Vec<(String, bool)>)
    ensures
        selection_views(r@) == toggled(selection_views(packages@), name@, mark),
{
    let mut r: Vec<(String, bool)> = Vec::new();
    let mut i: usize = 0;
    while i < packages.len()
        invariant
            i <= packages.len(),
            r.len() == i,
            forall|j: int|
                0 <= j < i ==> (#[trigger] r[j]).0@ == packages[j].0@ && r[j].1 == if packages[j].0@
                    == name@ {
                    mark
                } else {
                    packages[j].1
                },
        decreases packages.len() - i,
    {
        let now: bool = if packages[i].0 == *name {
            mark
        } else {
            packages[i].1
        };
        r.push((packages[i].0.clone(), now));
        i += 1;
    }
    proof {
        assert(selection_views(r@) =~= toggled(selection_views(packages@), name@, mark));
    }
    r
}

/// The names of the packages of `packages` that are marked.
fn marked_names(packages: &Vec<(String, bool)>) -> (r: Vec<String>)
    ensures
        string_views(r@) == selected(selection_views(packages@)),
{
    let mut r: Vec<String> = Vec::new();
    let mut i: usize = 0;
    proof {
        assert(selection_views(packages@).take(0) =~= Seq::<(Seq<char>, bool)>::empty());
        assert(string_views(r@) =~= Seq::<Seq<char>>::empty());
    }
    while i < packages.len()
        invariant
            i <= packages.len(),
            string_views(r@) == selected(selection_views(packages@).take(i as int)),
        decreases packages.len() - i,
    {
        proof {
            let all = selection_views(packages@);
            assert(all.take(i + 1).drop_last() =~= all.take(i as int));
            assert(all.take(i + 1).last() == (packages[i as int].0@, packages[i as int].1));
        }
        if packages[i].1 {
            let copy: String = packages[i].0.clone();
            proof {
                assert(string_views(r@.push(copy)) =~= string_views(r@).push(copy@));
            }
            r.push(copy);
        }
        i += 1;
    }
    proof {
        let all = selection_views(packages@);
        assert(all.take(i as int) =~= all);
    }
    r
}

impl LayeredPackages {
    /// The screen as it opens on the deployment `current_deployment`: on
    /// the tab that adds packages, nothing entered, with the deployment's
    /// layered packages as the packages that can be removed.
    pub fn new(current_deployment: &Deployment) -> (screen: LayeredPackages)
        ensures
            screen@ == (LayeredPackagesView {
                applying_changes: false,
                current_packages: package_names(current_deployment.layered_packages@),
                current_tab: TabView::AddPackages {
                    package_name_input: Seq::empty(),
                    packages_to_add: Seq::empty(),
                },
            }),
    {
        let fields: Vec<Vec<char>> = split_char(
            &to_chars(current_deployment.layered_packages.as_str()),
            ' ',
        );
        let mut current_packages: Vec<String> = Vec::new();
        let mut i: usize = 0;
        while i < fields.len()
            invariant
                i <= fields.len(),
                current_packages.len() == i,
                forall|j: int|
                    0 <= j < i ==> (#[trigger] current_packages[j])@ == trimmed(fields[j]@),
            decreases fields.len() - i,
        {
            current_packages.push(to_text(&trim(&fields[i])));
            i += 1;
        }
        proof {
            assert(string_views(current_packages@) =~= views(fields@).map_values(
                |field: Seq<char>| trimmed(field),
            ));
        }
        LayeredPackages { applying_changes: false, current_packages, current_tab: Tab::default() }
    }

    /// Takes `message`: moves to the next state and answers with an action.
    pub fn update(&mut self, message: Message) -> (action: Action)
        ensures
            (final(self)@, action@) == step(old(self)@, message),
    {
        match message {
            Message::Back => Action::Back,
            Message::OpenAddPackagesTab => {
                let blocked: Option<bool> = match &self.current_tab {
                    Tab::RemovePackages { packages_to_remove } => Some(
                        any_marked(packages_to_remove),
                    ),
                    Tab::AddPackages { .. } => None,
                };
                match blocked {
                    Some(false) => {
                        self.current_tab = Tab::default();
                        Action::Nothing
                    },
                    Some(true) => Action::AddToast(
                        Toast::warning_toast(
                            "You have packages to remove selected, changes will be lost if you change Tab's",
                        ),
                    ),
                    None => Action::Nothing,
                }
            },
            Message::OpenRemovePackagesTab => {
                if self.current_packages.len() == 0 {
                    return Action::AddToast(
                        Toast::warning_toast("You have no packages available to remove"),
                    );
                }
                let blocked: Option<bool> = match &self.current_tab {
                    Tab::AddPackages { packages_to_add, .. } => Some(packages_to_add.len() > 0),
                    Tab::RemovePackages { .. } => None,
                };
                match blocked {
                    Some(false) => {
                        let packages_to_remove: Vec<(String, bool)> = unmarked(
                            &self.current_packages,
                        );
                        self.current_tab = Tab::RemovePackages { packages_to_remove };
                        Action::Nothing
                    },
                    Some(true) => Action::AddToast(
                        Toast::warning_toast(
                            "You have packages to add selected, changes will be lost if you change Tab's",
                        ),
                    ),
                    None => Action::Nothing,
                }
            },
            Message::AddPackageInputUpdated(new_value) => {
                let list: Option<Vec<String>> = match &self.current_tab {
                    Tab::AddPackages { packages_to_add, .. } => Some(copy_names(packages_to_add)),
                    Tab::RemovePackages { .. } => None,
                };
                match list {
                    Some(packages_to_add) => {
                        self.current_tab = Tab::AddPackages {
                            package_name_input: new_value,
                            packages_to_add,
                        };
                    },
                    None => {},
                }
                Action::Nothing
            },
            Message::CheckPackageBeforeAddList => {
                match &self.current_tab {
                    Tab::AddPackages { package_name_input, packages_to_add } => {
                        let name: Vec<char> = trim(&to_chars(package_name_input.as_str()));
                        if holds(packages_to_add, &name) {
                            Action::AddToast(
                                Toast::warning_toast("This package is already on the add list"),
                            )
                        } else if holds(&self.current_packages, &name) {
                            Action::AddToast(Toast::warning_toast("Package already installed"))
                        } else if name.len() > 0 {
                            Action::Run(Task::CheckPackage(to_text(&name)))
                        } else {
                            Action::Nothing
                        }
                    },
                    Tab::RemovePackages { .. } => Action::Nothing,
                }
            },
            Message::PackageToAddChecked(result) => match result {
                Ok(package_name) => {
                    let list: Option<Vec<String>> = match &self.current_tab {
                        Tab::AddPackages { packages_to_add, .. } => Some(
                            copy_names(packages_to_add),
                        ),
                        Tab::RemovePackages { .. } => None,
                    };
                    match list {
                        Some(packages_to_add) => {
                            let mut packages_to_add = packages_to_add;
                            proof {
                                assert(string_views(packages_to_add@.push(package_name))
                                    =~= string_views(packages_to_add@).push(package_name@));
                            }
                            packages_to_add.push(package_name);
                            self.current_tab = Tab::AddPackages {
                                package_name_input: String::new(),
                                packages_to_add,
                            };
                        },
                        None => {},
                    }
                    Action::Nothing
                },
                Err(e) => match e {
                    CheckPackageError::NotFound => Action::AddToast(
                        Toast::warning_toast("Package not found"),
                    ),
                    CheckPackageError::Error(cause) => Action::AddToast(
                        Toast::error_toast(cause.as_str()),
                    ),
                },
            },
            Message::RemovePackageFromAddList(package_name) => {
                let tab: Option<Tab> = match &self.current_tab {
                    Tab::AddPackages { package_name_input, packages_to_add } => Some(
                        Tab::AddPackages {
                            package_name_input: package_name_input.clone(),
                            packages_to_add: remove_name(packages_to_add, &package_name),
                        },
                    ),
                    Tab::RemovePackages { .. } => None,
                };
                match tab {
                    Some(tab) => {
                        self.current_tab = tab;
                    },
                    None => {},
                }
                Action::Nothing
            },
            Message::TogglePackageToRemove(package_name, new_value) => {
                let tab: Option<Tab> = match &self.current_tab {
                    Tab::RemovePackages { packages_to_remove } => Some(
                        Tab::RemovePackages {
                            packages_to_remove: toggle(
                                packages_to_remove,
                                &package_name,
                                new_value,
                            ),
                        },
                    ),
                    Tab::AddPackages { .. } => None,
                };
                match tab {
                    Some(tab) => {
                        self.current_tab = tab;
                    },
                    None => {},
                }
                Action::Nothing
            },
            Message::ApplyChanges => {
                let task: Result<Task, bool> = match &self.current_tab {
                    Tab::AddPackages { packages_to_add, .. } => {
                        if packages_to_add.len() > 0 {
                            Ok(Task::AddPackages(copy_names(packages_to_add)))
                        } else {
                            Err(true)
                        }
                    },
                    Tab::RemovePackages { packages_to_remove } => {
                        let names: Vec<String> = marked_names(packages_to_remove);
                        if names.len() > 0 {
                            Ok(Task::RemovePackages(names))
                        } else {
                            Err(false)
                        }
                    },
                };
                match task {
                    Ok(task) => {
                        self.applying_changes = true;
                        Action::Run(task)
                    },
                    Err(adding) => {
                        if adding {
                            Action::AddToast(Toast::warning_toast("No packages to add"))
                        } else {
                            Action::AddToast(Toast::warning_toast("No packages to remove"))
                        }
                    },
                }
            },
            Message::ApplyChangesCallback(result) => match result {
                Ok(_) => Action::BackAndCheckReboot,
                Err(e) => {
                    self.applying_changes = false;
                    Action::AddToast(Toast::error_toast(e.message().as_str()))
                },
            },
        }
    }
}

} // verus!
