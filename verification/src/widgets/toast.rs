//! Short notifications that a front end shows above its content.

use vstd::prelude::*;

verus! {

/// The number of seconds for which a toast stays, unless told otherwise.
pub const DEFAULT_TIMEOUT: u64 = 3;

/// The kind of a toast, which decides its colours.
#[derive(Debug, Clone, Copy, PartialEq, Eq, Structural)]
pub enum Status {
    Primary,
    Secondary,
    Success,
    Danger,
    Warning,
}

impl Default for Status {
    fn default() -> (status: Status)
        ensures
            status == Status::Primary,
    {
        Status::Primary
    }
}

impl Status {
    /// The name of the status.
    pub open spec fn name_text(&self) -> Seq<char> {
        match self {
            Status::Primary => "Primary"@,
            Status::Secondary => "Secondary"@,
            Status::Success => "Success"@,
            Status::Danger => "Danger"@,
            Status::Warning => "Warning"@,
        }
    }

    /// The name of the status.
    pub fn name(&self) -> (name: &'static str)
        ensures
            name@ == self.name_text(),
    {
        match self {
            Status::Primary => "Primary",
            Status::Secondary => "Secondary",
            Status::Success => "Success",
            Status::Danger => "Danger",
            Status::Warning => "Warning",
        }
    }

    /// Every status, in the order of their declaration.
    pub fn all() -> (all: Vec<Status>)
        ensures
            all@ == seq![
                Status::Primary,
                Status::Secondary,
                Status::Success,
                Status::Danger,
                Status::Warning,
            ],
    {
        let mut all: Vec<Status> = Vec::new();
        all.push(Status::Primary);
        all.push(Status::Secondary);
        all.push(Status::Success);
        all.push(Status::Danger);
        all.push(Status::Warning);
        proof {
            assert(all@ =~= seq![
                Status::Primary,
                Status::Secondary,
                Status::Success,
                Status::Danger,
                Status::Warning,
            ]);
        }
        all
    }
}

/// A notification: a title, a body and a status.
#[derive(Debug, Clone)]
pub struct Toast {
    pub title: String,
    pub body: String,
    pub status: Status,
}

/// What a [`Toast`] holds, as plain values.
pub struct ToastView {
    pub title: Seq<char>,
    pub body: Seq<char>,
    pub status: Status,
}

impl View for Toast {
    type V = ToastView;

    open spec fn view(&self) -> ToastView {
        ToastView { title: self.title@, body: self.body@, status: self.status }
    }
}

/// The toast that reports a success with `body`.
pub open spec fn success_of(body: Seq<char>) -> ToastView {
    ToastView { title: "Success"@, body, status: Status::Success }
}

/// The toast that reports an error with `body`.
pub open spec fn error_of(body: Seq<char>) -> ToastView {
    ToastView { title: "Error"@, body, status: Status::Danger }
}

/// The toast that gives a warning with `body`.
pub open spec fn warning_of(body: Seq<char>) -> ToastView {
    ToastView { title: "Warning"@, body, status: Status::Warning }
}

impl Default for Toast {
    fn default() -> (toast: Toast)
        ensures
            toast@ == (ToastView {
                title: Seq::empty(),
                body: Seq::empty(),
                status: Status::Primary,
            }),
    {
        Toast { title: String::new(), body: String::new(), status: Status::Primary }
    }
}

impl Toast {
    /// A toast titled `Success`, of status [`Status::Success`], with `body` as its body.
    pub fn success_toast(body: &str) -> (toast: Toast)
        ensures
            toast@ == success_of(body@),
    {
        Toast { title: "Success".to_owned(), body: body.to_owned(), status: Status::Success }
    }

    /// A toast titled `Error`, of status [`Status::Danger`], with `body` as its body.
    pub fn error_toast(body: &str) -> (toast: Toast)
        ensures
            toast@ == error_of(body@),
    {
        Toast { title: "Error".to_owned(), body: body.to_owned(), status: Status::Danger }
    }

    /// A toast titled `Warning`, of status [`Status::Warning`], with `body` as its body.
    pub fn warning_toast(body: &str) -> (toast: Toast)
        ensures
            toast@ == warning_of(body@),
    {
        Toast { title: "Warning".to_owned(), body: body.to_owned(), status: Status::Warning }
    }
}

/// The views of a sequence of toasts.
pub open spec fn toast_views(v: Seq<Toast>) -> Seq<ToastView> {
    v.map_values(|t: Toast| t@)
}

/// The position of the first toast that has been up for `timeout` seconds
/// or longer, `ages` holding for each toast, in order, the number of seconds
/// it has been up.
pub fn first_expired(ages: &Vec<u64>, timeout: u64) -> (r: Option<usize>)
    ensures
        match r {
            Some(i) => i < ages.len() && ages[i as int] >= timeout && forall|j: int|
                0 <= j < i ==> ages[j] < timeout,
            None => forall|j: int| 0 <= j < ages.len() ==> ages[j] < timeout,
        },
{
    let mut i: usize = 0;
    while i < ages.len()
        invariant
            i <= ages.len(),
            forall|j: int| 0 <= j < i ==> ages[j] < timeout,
        decreases ages.len() - i,
    {
        if ages[i] >= timeout {
            return Some(i);
        }
        i += 1;
    }
    None
}

} // verus!
