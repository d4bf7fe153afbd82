//! Plan-and-act topology: the outer planning agent's tool set. The outer
//! agent may plan and delegate but must not mutate the workspace directly, so
//! a fixed blacklist of mutating tools is removed from its set and a single
//! delegation tool is appended; all mutation is forced through the inner
//! agent behind that tool.

use vstd::prelude::*;
use vstd::string::StringExecFns;

use crate::config::AgentTopology;
use crate::config::SessionConfig;
use crate::tools::assembled_tool_names;
use crate::tools::clone_names;
use crate::tools::baseline_tool_names;
use crate::tools::candidate_tool_names;
use crate::tools::edit_mode_tool_names;
use crate::tools::filter_tool_names;
use crate::tools::lemma_disabled_tool_removed;
use crate::tools::lemma_remove_disabled_subset;
use crate::tools::push_tool;
use crate::tools::remove_disabled;

verus! {

/// The name the delegation tool is published under.
pub open spec fn delegate_tool_name() -> Seq<char> {
    "delegate_coding_agent"@
}

/// The mutating tools the outer agent must not hold. The repeated entry is
/// intentionally redundant and harmless: removal is by name.
pub open spec fn blacklist_names() -> Seq<Seq<char>> {
    seq!["write_file"@, "shell_command"@, "write_file"@, "replace_lines"@, "add_lines"@]
}

/// The outer agent's tool set: the full set with the blacklist removed and
/// the delegation tool appended at the end.
pub open spec fn delegate_tool_set(tools: Seq<Seq<char>>) -> Seq<Seq<char>> {
    remove_disabled(tools, blacklist_names()) + seq![delegate_tool_name()]
}

/// Build the outer agent's tool list from the full assembled tool list.
pub fn delegate_tool_names(tools: &Vec<String>) -> (r: Vec<String>)
    ensures
        r.deep_view() == delegate_tool_set(tools.deep_view()),
{
    let mut blacklist: Vec<String> = Vec::new();
    push_tool(&mut blacklist, "write_file");
    push_tool(&mut blacklist, "shell_command");
    push_tool(&mut blacklist, "write_file");
    push_tool(&mut blacklist, "replace_lines");
    push_tool(&mut blacklist, "add_lines");
    assert(blacklist.deep_view() =~= blacklist_names());

    let mut out = filter_tool_names(tools, &blacklist);
    push_tool(&mut out, "delegate_coding_agent");
    proof {
        assert(out.deep_view() =~= delegate_tool_set(tools.deep_view()));
    }
    out
}

/// The tool list the primary (outer) agent is built with, by topology: the
/// full assembled list for a single coding agent, or the blacklist-filtered
/// list with the delegation tool appended for plan-and-act.
pub fn agent_tool_names(cfg: &SessionConfig, builtin: &Vec<String>) -> (r: Vec<String>)
    ensures
        r.deep_view() == (match cfg.topology {
            AgentTopology::Coding => builtin.deep_view(),
            AgentTopology::PlanAct => delegate_tool_set(builtin.deep_view()),
        }),
{
    match cfg.topology {
        AgentTopology::Coding => clone_names(builtin),
        AgentTopology::PlanAct => delegate_tool_names(builtin),
    }
}

/// One parameter of the delegation tool.
pub struct ToolParam {
    pub name: String,
    pub description: String,
    pub required: bool,
}

/// The published shape of the delegation tool: its fixed name, the
/// instruction to delegate implementation work with a thorough task
/// description, and its single required text parameter.
pub struct DelegateToolSpec {
    pub name: String,
    pub description: String,
    pub parameters: Vec<ToolParam>,
}

/// Construct the delegation tool's published shape.
pub fn delegate_tool_spec() -> (r: DelegateToolSpec)
    ensures
        r.name@ == delegate_tool_name(),
        r.description@
            == "If you have a coding task, delegate to the coding agent. Provide a thorough description of the task and relevant details."@,
        r.parameters@.len() == 1,
        r.parameters@[0].name@ == "task"@,
        r.parameters@[0].description@ == "An in depth description of the task"@,
        r.parameters@[0].required,
{
    let param = ToolParam {
        name: String::from_str("task"),
        description: String::from_str("An in depth description of the task"),
        required: true,
    };
    let mut parameters: Vec<ToolParam> = Vec::new();
    parameters.push(param);
    DelegateToolSpec {
        name: String::from_str("delegate_coding_agent"),
        description: String::from_str(
            "If you have a coding task, delegate to the coding agent. Provide a thorough description of the task and relevant details.",
        ),
        parameters,
    }
}

/// Law: delegate isolation. In plan-and-act topology no blacklisted tool name
/// appears in the outer agent's tool set, and the delegation tool appears in
/// it exactly once — as the last entry and nowhere else. The one assumption
/// is that the incoming full tool set does not itself use the delegation
/// tool's name, which `lemma_no_delegate_in_builtin` discharges for every
/// assembled builtin list.
pub proof fn lemma_delegate_isolation(tools: Seq<Seq<char>>)
    requires
        !tools.contains(delegate_tool_name()),
    ensures
        forall|n: Seq<char>|
            blacklist_names().contains(n) ==> !delegate_tool_set(tools).contains(n),
        delegate_tool_set(tools).len() > 0,
        delegate_tool_set(tools).last() == delegate_tool_name(),
        forall|i: int|
            0 <= i < delegate_tool_set(tools).len() - 1 ==> delegate_tool_set(tools)[i]
                != delegate_tool_name(),
{
    broadcast use vstd::seq_lib::group_seq_properties;

    reveal_strlit("delegate_coding_agent");
    reveal_strlit("write_file");
    reveal_strlit("shell_command");
    reveal_strlit("replace_lines");
    reveal_strlit("add_lines");
    let filtered = remove_disabled(tools, blacklist_names());
    assert(delegate_tool_name().len() == 21);
    assert forall|n: Seq<char>| blacklist_names().contains(n) implies !delegate_tool_set(
        tools,
    ).contains(n) by {
        lemma_disabled_tool_removed(tools, blacklist_names(), n);
        let k = choose|k: int| 0 <= k < blacklist_names().len() && blacklist_names()[k] == n;
        assert(n.len() != 21);
        if delegate_tool_set(tools).contains(n) {
            assert(filtered.contains(n) || seq![delegate_tool_name()].contains(n));
            assert(false);
        }
    }
    assert(delegate_tool_set(tools).last() == delegate_tool_name());
    assert forall|i: int| 0 <= i < delegate_tool_set(tools).len() - 1 implies delegate_tool_set(
        tools,
    )[i] != delegate_tool_name() by {
        assert(delegate_tool_set(tools)[i] == filtered[i]);
        if filtered[i] == delegate_tool_name() {
            assert(filtered.contains(delegate_tool_name()));
            lemma_remove_disabled_subset(tools, blacklist_names(), delegate_tool_name());
            assert(false);
        }
    }
}

/// Law: delegate isolation holds of every assembled configuration. Whatever
/// the configuration, the outer agent's tool set built from the assembled
/// builtin list carries no blacklisted name and carries the delegation tool
/// exactly once, as its last entry.
pub proof fn lemma_plan_act_outer_set(cfg: &SessionConfig, has_git_env: bool)
    ensures
        ({
            let outer = delegate_tool_set(assembled_tool_names(cfg, has_git_env));
            &&& forall|n: Seq<char>| blacklist_names().contains(n) ==> !outer.contains(n)
            &&& outer.len() > 0
            &&& outer.last() == delegate_tool_name()
            &&& forall|i: int| 0 <= i < outer.len() - 1 ==> outer[i] != delegate_tool_name()
        }),
{
    lemma_no_delegate_in_builtin(cfg, has_git_env);
    lemma_delegate_isolation(assembled_tool_names(cfg, has_git_env));
}

/// The assembled builtin tool list never contains the delegation tool's name,
/// whatever the configuration: every candidate the policy can add is a fixed
/// name different from it.
pub proof fn lemma_no_delegate_in_builtin(cfg: &SessionConfig, has_git_env: bool)
    ensures
        !assembled_tool_names(cfg, has_git_env).contains(delegate_tool_name()),
{
    broadcast use vstd::seq_lib::group_seq_properties;

    reveal_strlit("delegate_coding_agent");
    reveal_strlit("write_file");
    reveal_strlit("search_file");
    reveal_strlit("git");
    reveal_strlit("shell_command");
    reveal_strlit("search_code");
    reveal_strlit("fetch_url");
    reveal_strlit("explain_code");
    reveal_strlit("read_file");
    reveal_strlit("read_file_with_line_numbers");
    reveal_strlit("replace_lines");
    reveal_strlit("add_lines");
    reveal_strlit("patch_file");
    reveal_strlit("create_or_update_pull_request");
    reveal_strlit("github_search_code");
    reveal_strlit("search_web");
    reveal_strlit("run_tests");
    reveal_strlit("run_coverage");
    reveal_strlit("reset_file");
    let d = delegate_tool_name();
    assert(d.len() == 21);
    assert(!baseline_tool_names().contains(d));
    assert(!edit_mode_tool_names(cfg.edit_mode).contains(d));
    if assembled_tool_names(cfg, has_git_env).contains(d) {
        lemma_remove_disabled_subset(
            candidate_tool_names(cfg, has_git_env),
            cfg.disabled_tools.deep_view(),
            d,
        );
        assert(candidate_tool_names(cfg, has_git_env).contains(d));
        assert(false);
    }
}

} // verus!
