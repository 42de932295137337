//! Rolling the system back to the previous deployment.

use crate::backend::{
    classifies, classify, invocation, CommandError, CommandResult, Invocation, InvocationView,
};
use crate::text::{no_texts, push_text, string_views};
use vstd::prelude::*;

verus! {

/// The command that rolls the system back: `pkexec rpm-ostree rollback`.
pub fn rollback_command() -> (r: Invocation)
    ensures
        r@ == (InvocationView { program: "pkexec"@, args: seq!["rpm-ostree"@, "rollback"@] }),
{
    let mut args: Vec<String> = no_texts();
    push_text(&mut args, "rpm-ostree");
    push_text(&mut args, "rollback");
    proof {
        assert(string_views(args@) =~= seq!["rpm-ostree"@, "rollback"@]);
    }
    invocation("pkexec", args)
}

/// Classifies how the rollback command ended.
pub fn rollback(result: &CommandResult) -> (r: Result<(), CommandError>)
    ensures
        classifies(*result, r),
{
    classify(result)
}

} // verus!
