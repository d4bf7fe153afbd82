//! The startup pipeline's decision core. The four independent startup steps
//! (chat titling, sandbox start, branch naming, context retrieval) run
//! concurrently in the caller; their outcomes are joined fail-fast here, and
//! the retrieved context is framed for the agent.

use vstd::prelude::*;
use vstd::string::StringExecFns;

use crate::error::StartupError;
use crate::running::SandboxHandle;

verus! {

/// What the four concurrent startup steps deliver on success: the execution
/// sandbox, the branch-style name, and the retrieved initial context (the
/// titling step only announces its result and delivers nothing).
#[derive(Debug)]
pub struct StartupParts {
    pub executor: SandboxHandle,
    pub branch_name: String,
    pub initial_context: String,
}

/// The fail-fast join of the four step outcomes: `Ok` exactly when all four
/// succeeded; otherwise the error of the first failed step, in step order.
///
/// Which of several concurrently failing steps is observed first is the
/// scheduler's choice; this decision function is handed the outcomes in the
/// pipeline's fixed step order and surfaces the first failure among them.
pub open spec fn join_spec(
    renamed: Result<(), StartupError>,
    sandbox: Result<SandboxHandle, StartupError>,
    branch: Result<String, StartupError>,
    context: Result<String, StartupError>,
) -> Result<StartupParts, StartupError> {
    if renamed is Err {
        Err(renamed->Err_0)
    } else if sandbox is Err {
        Err(sandbox->Err_0)
    } else if branch is Err {
        Err(branch->Err_0)
    } else if context is Err {
        Err(context->Err_0)
    } else {
        Ok(
            StartupParts {
                executor: sandbox->Ok_0,
                branch_name: branch->Ok_0,
                initial_context: context->Ok_0,
            },
        )
    }
}

/// Join the outcomes of the four concurrent startup steps, fail-fast.
pub fn join_startup_steps(
    renamed: Result<(), StartupError>,
    sandbox: Result<SandboxHandle, StartupError>,
    branch: Result<String, StartupError>,
    context: Result<String, StartupError>,
) -> (r: Result<StartupParts, StartupError>)
    ensures
        r == join_spec(renamed, sandbox, branch, context),
{
    let sandbox_ok = match renamed {
        Ok(()) => sandbox,
        Err(e) => {
            return Err(e);
        },
    };
    let executor = match sandbox_ok {
        Ok(x) => x,
        Err(e) => {
            return Err(e);
        },
    };
    let branch_name = match branch {
        Ok(b) => b,
        Err(e) => {
            return Err(e);
        },
    };
    let initial_context = match context {
        Ok(c) => c,
        Err(e) => {
            return Err(e);
        },
    };
    Ok(StartupParts { executor, branch_name, initial_context })
}

/// Law: startup is fail-fast. If any one of the four concurrent steps fails,
/// the join surfaces a failed step's error and no session parts are returned,
/// whatever the other steps delivered; and the join succeeds exactly when all
/// four steps succeeded.
pub proof fn lemma_fail_fast_startup(
    renamed: Result<(), StartupError>,
    sandbox: Result<SandboxHandle, StartupError>,
    branch: Result<String, StartupError>,
    context: Result<String, StartupError>,
)
    ensures
        join_spec(renamed, sandbox, branch, context) is Ok <==> (renamed is Ok && sandbox is Ok
            && branch is Ok && context is Ok),
        join_spec(renamed, sandbox, branch, context) is Err ==> {
            let e = join_spec(renamed, sandbox, branch, context)->Err_0;
            ||| renamed matches Err(x) && e == x
            ||| sandbox matches Err(x) && e == x
            ||| branch matches Err(x) && e == x
            ||| context matches Err(x) && e == x
        },
{
}

/// Frame retrieved context for the agent: a fixed heading followed by the
/// retrieval collaborator's text.
pub fn format_initial_context(retrieved: &str) -> (r: String)
    ensures
        r@ == "Additional information:\n\n"@ + retrieved@,
{
    let mut s = String::from_str("Additional information:\n\n");
    s.append(retrieved);
    s
}

} // verus!
