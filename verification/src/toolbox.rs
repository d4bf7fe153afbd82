//! External toolbox lifecycle decisions: validating provider configuration,
//! wrapping started connections, deciding what to unwind when one provider
//! fails, and ordering teardown so that every open connection gets exactly
//! one cancel attempt.
//!
//! Spawning the subprocess, the handshake, and the asynchronous cancel are
//! the caller's collaborators; every decision about them is made here on
//! their plain outcomes.

use vstd::prelude::*;

use crate::config::ToolProviderConfig;
use crate::error::StartupError;
use crate::tools::clone_names;

verus! {

/// One open connection to an external tool provider: the provider's display
/// name, an opaque connection identifier handed back by the handshake, and
/// the optional restriction of which remote tools are exposed.
#[derive(Clone, Debug)]
pub struct Toolbox {
    pub name: String,
    pub connection: u64,
    pub filter: Option<Vec<String>>,
}

/// The mathematical value of a [`Toolbox`].
pub struct ToolboxV {
    pub name: Seq<char>,
    pub connection: u64,
    pub filter: Option<Seq<Seq<char>>>,
}

impl View for Toolbox {
    type V = ToolboxV;

    open spec fn view(&self) -> ToolboxV {
        ToolboxV { name: self.name@, connection: self.connection, filter: self.filter.deep_view() }
    }
}

impl DeepView for Toolbox {
    type V = ToolboxV;

    open spec fn deep_view(&self) -> ToolboxV {
        self.view()
    }
}

/// How one provider's spawn-and-handshake ended: a connection identifier, or
/// the collaborator's failure message.
pub enum ProviderOutcome {
    Started(u64),
    Failed(String),
}

/// `k` is the first provider whose command is empty.
pub open spec fn is_first_empty_command(providers: Seq<ToolProviderConfig>, k: int) -> bool {
    &&& 0 <= k < providers.len()
    &&& providers[k].command@.len() == 0
    &&& forall|j: int| 0 <= j < k ==> providers[j].command@.len() > 0
}

/// Check that every configured provider has a non-empty invocation command;
/// the first offender aborts startup with an error naming it.
pub fn validate_tool_providers(providers: &Vec<ToolProviderConfig>) -> (r: Result<
    (),
    StartupError,
>)
    ensures
        match r {
            Ok(_) => forall|i: int| 0 <= i < providers@.len() ==> providers@[i].command@.len() > 0,
            Err(e) => exists|k: int|
                is_first_empty_command(providers@, k) && (e matches StartupError::EmptyToolCommand(
                    n,
                ) && n@ == providers@[k].name@),
        },
{
    let mut i: usize = 0;
    while i < providers.len()
        invariant
            i <= providers@.len(),
            forall|j: int| 0 <= j < i ==> providers@[j].command@.len() > 0,
        decreases providers@.len() - i,
    {
        if providers[i].command.as_str().unicode_len() == 0 {
            assert(is_first_empty_command(providers@, i as int));
            return Err(StartupError::EmptyToolCommand(providers[i].name.clone()));
        }
        i += 1;
    }
    Ok(())
}

/// The connection wrapper a started provider gets: the provider's display
/// name and tool filter around the handshake's connection identifier.
pub open spec fn toolbox_v(p: ToolProviderConfig, conn: u64) -> ToolboxV {
    ToolboxV { name: p.name@, connection: conn, filter: p.filter.deep_view() }
}

/// All connections that were successfully started, in provider order. These
/// are exactly the connections that an aborting startup must cancel during
/// unwind.
pub open spec fn started_toolboxes(
    providers: Seq<ToolProviderConfig>,
    outcomes: Seq<ProviderOutcome>,
) -> Seq<ToolboxV>
    recommends
        providers.len() == outcomes.len(),
    decreases outcomes.len(),
{
    if outcomes.len() == 0 {
        Seq::<ToolboxV>::empty()
    } else {
        let rest = started_toolboxes(providers.drop_last(), outcomes.drop_last());
        match outcomes.last() {
            ProviderOutcome::Started(c) => rest.push(toolbox_v(providers.last(), c)),
            ProviderOutcome::Failed(_) => rest,
        }
    }
}

/// The connection identifiers of all started outcomes, in provider order.
pub open spec fn started_connections(outcomes: Seq<ProviderOutcome>) -> Seq<u64>
    decreases outcomes.len(),
{
    if outcomes.len() == 0 {
        Seq::<u64>::empty()
    } else {
        let rest = started_connections(outcomes.drop_last());
        match outcomes.last() {
            ProviderOutcome::Started(c) => rest.push(c),
            ProviderOutcome::Failed(_) => rest,
        }
    }
}

/// Law: the unwind set covers the started connections exactly. Cancelling the
/// connections of the unwind set attempts exactly the successfully started
/// connections, one each, in provider order — no started connection escapes
/// an aborted startup and none is cancelled twice.
pub proof fn lemma_unwind_covers_started(
    providers: Seq<ToolProviderConfig>,
    outcomes: Seq<ProviderOutcome>,
)
    requires
        providers.len() == outcomes.len(),
    ensures
        started_toolboxes(providers, outcomes).map_values(|tb: ToolboxV| tb.connection)
            == started_connections(outcomes),
    decreases outcomes.len(),
{
    if outcomes.len() > 0 {
        lemma_unwind_covers_started(providers.drop_last(), outcomes.drop_last());
        let rest = started_toolboxes(providers.drop_last(), outcomes.drop_last());
        match outcomes.last() {
            ProviderOutcome::Started(c) => {
                assert(rest.push(toolbox_v(providers.last(), c)).map_values(
                    |tb: ToolboxV| tb.connection,
                ) =~= rest.map_values(|tb: ToolboxV| tb.connection).push(c));
            },
            ProviderOutcome::Failed(_) => {},
        }
    }
}

/// `k` is the first provider whose spawn or handshake failed.
pub open spec fn is_first_failure(outcomes: Seq<ProviderOutcome>, k: int) -> bool {
    &&& 0 <= k < outcomes.len()
    &&& outcomes[k] is Failed
    &&& forall|j: int| 0 <= j < k ==> outcomes[j] is Started
}

/// What an aborted toolbox startup leaves behind: the error identifying the
/// failing provider, and the already-started connections that must be
/// cancelled during unwind.
#[derive(Debug)]
pub struct ToolboxFailure {
    pub error: StartupError,
    pub started: Vec<Toolbox>,
}

/// Wrap one started connection with its provider's name and filter.
fn wrap_toolbox(provider: &ToolProviderConfig, conn: u64) -> (r: Toolbox)
    ensures
        r@ == toolbox_v(*provider, conn),
{
    let filter = match &provider.filter {
        Some(f) => Some(clone_names(f)),
        None => None,
    };
    let r = Toolbox { name: provider.name.clone(), connection: conn, filter };
    proof {
        assert(r.filter.deep_view() == provider.filter.deep_view());
    }
    r
}

/// Decide the result of the concurrent toolbox startups from the providers'
/// outcomes: on total success, the wrapped connections in provider order; on
/// any failure, the error naming the first failing provider together with
/// every already-started connection, which the caller must cancel before the
/// error propagates.
pub fn collect_toolboxes(providers: &Vec<ToolProviderConfig>, outcomes: &Vec<ProviderOutcome>) -> (r:
    Result<Vec<Toolbox>, ToolboxFailure>)
    requires
        providers@.len() == outcomes@.len(),
    ensures
        match r {
            Ok(tbs) => {
                &&& forall|i: int| 0 <= i < outcomes@.len() ==> outcomes@[i] is Started
                &&& tbs.deep_view() == started_toolboxes(providers@, outcomes@)
                &&& tbs@.len() == providers@.len()
            },
            Err(f) => {
                &&& exists|k: int|
                    is_first_failure(outcomes@, k) && (f.error
                        matches StartupError::ToolboxStart { provider, detail } && provider@
                        == providers@[k].name@ && detail@ == outcomes@[k]->Failed_0@)
                &&& f.started.deep_view() == started_toolboxes(providers@, outcomes@)
            },
        },
{
    let mut started: Vec<Toolbox> = Vec::new();
    let mut failure: Option<usize> = None;
    let mut i: usize = 0;
    while i < outcomes.len()
        invariant
            providers@.len() == outcomes@.len(),
            i <= outcomes@.len(),
            started.deep_view() == started_toolboxes(
                providers@.take(i as int),
                outcomes@.take(i as int),
            ),
            match failure {
                Some(k) => is_first_failure(outcomes@, k as int),
                None => forall|j: int| 0 <= j < i ==> outcomes@[j] is Started,
            },
            failure is None ==> started@.len() == i,
        decreases outcomes@.len() - i,
    {
        let ghost pre_p = providers@.take(i as int);
        let ghost pre_o = outcomes@.take(i as int);
        let ghost post_p = providers@.take(i + 1int);
        let ghost post_o = outcomes@.take(i + 1int);
        proof {
            assert(post_p.drop_last() =~= pre_p);
            assert(post_o.drop_last() =~= pre_o);
        }
        match &outcomes[i] {
            ProviderOutcome::Started(conn) => {
                let tb = wrap_toolbox(&providers[i], *conn);
                let ghost before = started.deep_view();
                started.push(tb);
                proof {
                    assert(started.deep_view() =~= before.push(
                        toolbox_v(providers@[i as int], outcomes@[i as int]->Started_0),
                    ));
                }
            },
            ProviderOutcome::Failed(_) => {
                if failure.is_none() {
                    failure = Some(i);
                }
            },
        }
        i += 1;
    }
    proof {
        assert(providers@.take(providers@.len() as int) =~= providers@);
        assert(outcomes@.take(outcomes@.len() as int) =~= outcomes@);
    }
    match failure {
        None => Ok(started),
        Some(k) => {
            let detail = match &outcomes[k] {
                ProviderOutcome::Failed(d) => d.clone(),
                ProviderOutcome::Started(_) => unreached(),
            };
            Err(
                ToolboxFailure {
                    error: StartupError::ToolboxStart {
                        provider: providers[k].name.clone(),
                        detail,
                    },
                    started,
                },
            )
        },
    }
}

/// The teardown order: one cancel attempt per open connection, in order. The
/// attempts are a function of the open connections alone — no cancel outcome
/// appears here, so a failing attempt cannot change which attempts follow.
pub open spec fn cancel_attempts(toolboxes: Seq<Toolbox>) -> Seq<u64> {
    Seq::new(toolboxes.len(), |i: int| toolboxes[i].connection)
}

/// The connections whose cancel attempt failed, in order; these are logged
/// and otherwise ignored.
pub open spec fn failed_cancels(toolboxes: Seq<Toolbox>, ok: Seq<bool>) -> Seq<u64>
    recommends
        toolboxes.len() == ok.len(),
    decreases toolboxes.len(),
{
    if toolboxes.len() == 0 {
        Seq::<u64>::empty()
    } else {
        let rest = failed_cancels(toolboxes.drop_last(), ok.drop_last());
        if ok.last() {
            rest
        } else {
            rest.push(toolboxes.last().connection)
        }
    }
}

/// What teardown did: every connection it attempted to cancel, in order, and
/// the attempts that failed.
pub struct TeardownReport {
    pub attempted: Vec<u64>,
    pub failed: Vec<u64>,
}

/// Record a finished teardown round: `cancel_ok[i]` says whether cancelling
/// connection `i` succeeded. Every open connection is attempted exactly once,
/// in order, whatever the individual outcomes were; failures are collected
/// for logging and never stop the remaining attempts.
pub fn run_teardown(toolboxes: &Vec<Toolbox>, cancel_ok: &Vec<bool>) -> (r: TeardownReport)
    requires
        toolboxes@.len() == cancel_ok@.len(),
    ensures
        r.attempted@ == cancel_attempts(toolboxes@),
        r.failed@ == failed_cancels(toolboxes@, cancel_ok@),
{
    let mut attempted: Vec<u64> = Vec::new();
    let mut failed: Vec<u64> = Vec::new();
    let mut i: usize = 0;
    while i < toolboxes.len()
        invariant
            toolboxes@.len() == cancel_ok@.len(),
            i <= toolboxes@.len(),
            attempted@ == cancel_attempts(toolboxes@.take(i as int)),
            failed@ == failed_cancels(toolboxes@.take(i as int), cancel_ok@.take(i as int)),
        decreases toolboxes@.len() - i,
    {
        let ghost post_t = toolboxes@.take(i + 1int);
        let ghost post_o = cancel_ok@.take(i + 1int);
        proof {
            assert(post_t.drop_last() =~= toolboxes@.take(i as int));
            assert(post_o.drop_last() =~= cancel_ok@.take(i as int));
        }
        attempted.push(toolboxes[i].connection);
        if !cancel_ok[i] {
            failed.push(toolboxes[i].connection);
        }
        proof {
            assert(attempted@ =~= cancel_attempts(post_t));
        }
        i += 1;
    }
    proof {
        assert(toolboxes@.take(toolboxes@.len() as int) =~= toolboxes@);
        assert(cancel_ok@.take(cancel_ok@.len() as int) =~= cancel_ok@);
    }
    TeardownReport { attempted, failed }
}

/// Law: teardown completeness. For N open connections there are exactly N
/// cancel attempts, the i-th aimed at the i-th connection; and because the
/// attempt list is a function of the connections alone, a failure of any one
/// attempt cannot prevent, reorder or repeat the remaining attempts.
pub proof fn lemma_teardown_complete(toolboxes: Seq<Toolbox>)
    ensures
        cancel_attempts(toolboxes).len() == toolboxes.len(),
        forall|i: int|
            0 <= i < toolboxes.len() ==> cancel_attempts(toolboxes)[i] == toolboxes[i].connection,
{
}

} // verus!
