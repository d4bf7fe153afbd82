//! Tool-set assembly: the ordered list of tool names visible to the primary
//! agent, driven entirely by configuration. For a fixed configuration the
//! result is deterministic, and a disabled name is removed no matter which
//! policy branch added it.

use vstd::prelude::*;
use vstd::string::StringExecFns;

use crate::config::AgentEditMode;
use crate::config::SessionConfig;

verus! {

/// The fixed baseline every agent starts from.
pub open spec fn baseline_tool_names() -> Seq<Seq<char>> {
    seq![
        "write_file"@,
        "search_file"@,
        "git"@,
        "shell_command"@,
        "search_code"@,
        "fetch_url"@,
        "explain_code"@,
    ]
}

/// The editing tool group selected by the edit mode; exactly one group.
pub open spec fn edit_mode_tool_names(mode: AgentEditMode) -> Seq<Seq<char>> {
    match mode {
        AgentEditMode::Whole => seq!["write_file"@, "read_file"@],
        AgentEditMode::Line => seq![
            "read_file_with_line_numbers"@,
            "replace_lines"@,
            "add_lines"@,
        ],
        AgentEditMode::Patch => seq!["read_file_with_line_numbers"@, "patch_file"@],
    }
}

/// Every tool name the policy adds for this configuration, in order, before
/// disabled names are removed.
pub open spec fn candidate_tool_names(cfg: &SessionConfig, has_git_env: bool) -> Seq<Seq<char>> {
    baseline_tool_names() + edit_mode_tool_names(cfg.edit_mode) + (if cfg.github_enabled {
        seq!["create_or_update_pull_request"@, "github_search_code"@]
    } else {
        Seq::<Seq<char>>::empty()
    }) + (if cfg.web_search_enabled {
        seq!["search_web"@]
    } else {
        Seq::<Seq<char>>::empty()
    }) + (if cfg.test_command is Some {
        seq!["run_tests"@]
    } else {
        Seq::<Seq<char>>::empty()
    }) + (if cfg.coverage_command is Some {
        seq!["run_coverage"@]
    } else {
        Seq::<Seq<char>>::empty()
    }) + (if has_git_env {
        seq!["reset_file"@]
    } else {
        Seq::<Seq<char>>::empty()
    })
}

/// `names` with every name that appears in `disabled` removed, order kept.
pub open spec fn remove_disabled(names: Seq<Seq<char>>, disabled: Seq<Seq<char>>) -> Seq<
    Seq<char>,
>
    decreases names.len(),
{
    if names.len() == 0 {
        Seq::<Seq<char>>::empty()
    } else {
        let rest = remove_disabled(names.drop_last(), disabled);
        if disabled.contains(names.last()) {
            rest
        } else {
            rest.push(names.last())
        }
    }
}

/// The assembled tool list for a configuration: the policy's candidates with
/// the configured disabled names removed.
pub open spec fn assembled_tool_names(cfg: &SessionConfig, has_git_env: bool) -> Seq<Seq<char>> {
    remove_disabled(candidate_tool_names(cfg, has_git_env), cfg.disabled_tools.deep_view())
}

/// Push one tool name, by literal, onto the list under construction.
pub(crate) fn push_tool(tools: &mut Vec<String>, name: &str)
    ensures
        final(tools).deep_view() == old(tools).deep_view().push(name@),
{
    tools.push(String::from_str(name));
    proof {
        assert(tools.deep_view() =~= old(tools).deep_view().push(name@));
    }
}

/// Copy a list of names.
pub(crate) fn clone_names(v: &Vec<String>) -> (r: Vec<String>)
    ensures
        r@ == v@,
{
    let mut out: Vec<String> = Vec::new();
    let mut i: usize = 0;
    while i < v.len()
        invariant
            i <= v@.len(),
            out@ == v@.take(i as int),
        decreases v@.len() - i,
    {
        out.push(v[i].clone());
        assert(out@ =~= v@.take(i + 1int));
        i += 1;
    }
    assert(v@.take(v@.len() as int) =~= v@);
    out
}

/// Whether `name` occurs in `list`.
fn name_in(list: &Vec<String>, name: &String) -> (r: bool)
    ensures
        r == list.deep_view().contains(name@),
{
    let mut j: usize = 0;
    while j < list.len()
        invariant
            j <= list.len(),
            forall|k: int| 0 <= k < j ==> list.deep_view()[k] != name@,
        decreases list.len() - j,
    {
        if list[j].eq(name) {
            assert(list.deep_view()[j as int] == name@);
            return true;
        }
        j += 1;
    }
    false
}

/// Remove from `names` every name that occurs in `removed`, keeping order.
pub fn filter_tool_names(names: &Vec<String>, removed: &Vec<String>) -> (r: Vec<String>)
    ensures
        r.deep_view() == remove_disabled(names.deep_view(), removed.deep_view()),
{
    let mut out: Vec<String> = Vec::new();
    let mut i: usize = 0;
    while i < names.len()
        invariant
            i <= names.len(),
            names.deep_view().len() == names.len(),
            out.deep_view() == remove_disabled(
                names.deep_view().take(i as int),
                removed.deep_view(),
            ),
        decreases names.len() - i,
    {
        let ghost pre = names.deep_view().take(i as int);
        let ghost post = names.deep_view().take(i + 1int);
        assert(post.drop_last() =~= pre);
        assert(post.last() == names.deep_view()[i as int]);
        if !name_in(removed, &names[i]) {
            let name = names[i].clone();
            assert(name@ == names.deep_view()[i as int]);
            let ghost before = out.deep_view();
            out.push(name);
            proof {
                assert(out.deep_view() =~= before.push(names.deep_view()[i as int]));
            }
        }
        i += 1;
    }
    assert(names.deep_view().take(names.len() as int) =~= names.deep_view());
    out
}

/// Assemble the ordered list of tool names visible to the primary agent.
///
/// `has_git_env` says whether a version-control working environment was
/// supplied (it adds the file-reset tool). The result is exactly the policy's
/// candidate list with the configured disabled names removed.
#[verifier::rlimit(100)]
pub fn available_builtin_tools(cfg: &SessionConfig, has_git_env: bool) -> (r: Vec<String>)
    ensures
        r.deep_view() == assembled_tool_names(cfg, has_git_env),
{
    let mut candidates: Vec<String> = Vec::new();
    push_tool(&mut candidates, "write_file");
    push_tool(&mut candidates, "search_file");
    push_tool(&mut candidates, "git");
    push_tool(&mut candidates, "shell_command");
    push_tool(&mut candidates, "search_code");
    push_tool(&mut candidates, "fetch_url");
    push_tool(&mut candidates, "explain_code");
    assert(candidates.deep_view() =~= baseline_tool_names());
    let ghost g_base = baseline_tool_names();

    match cfg.edit_mode {
        AgentEditMode::Whole => {
            push_tool(&mut candidates, "write_file");
            push_tool(&mut candidates, "read_file");
        },
        AgentEditMode::Line => {
            push_tool(&mut candidates, "read_file_with_line_numbers");
            push_tool(&mut candidates, "replace_lines");
            push_tool(&mut candidates, "add_lines");
        },
        AgentEditMode::Patch => {
            push_tool(&mut candidates, "read_file_with_line_numbers");
            push_tool(&mut candidates, "patch_file");
        },
    }
    let ghost g_edit = g_base + edit_mode_tool_names(cfg.edit_mode);
    assert(candidates.deep_view() =~= g_edit);

    if cfg.github_enabled {
        push_tool(&mut candidates, "create_or_update_pull_request");
        push_tool(&mut candidates, "github_search_code");
    }
    let ghost g_github = g_edit + (if cfg.github_enabled {
        seq!["create_or_update_pull_request"@, "github_search_code"@]
    } else {
        Seq::<Seq<char>>::empty()
    });
    assert(candidates.deep_view() =~= g_github);

    if cfg.web_search_enabled {
        push_tool(&mut candidates, "search_web");
    }
    let ghost g_web = g_github + (if cfg.web_search_enabled {
        seq!["search_web"@]
    } else {
        Seq::<Seq<char>>::empty()
    });
    assert(candidates.deep_view() =~= g_web);

    if cfg.test_command.is_some() {
        push_tool(&mut candidates, "run_tests");
    }
    let ghost g_test = g_web + (if cfg.test_command is Some {
        seq!["run_tests"@]
    } else {
        Seq::<Seq<char>>::empty()
    });
    assert(candidates.deep_view() =~= g_test);

    if cfg.coverage_command.is_some() {
        push_tool(&mut candidates, "run_coverage");
    }
    let ghost g_cov = g_test + (if cfg.coverage_command is Some {
        seq!["run_coverage"@]
    } else {
        Seq::<Seq<char>>::empty()
    });
    assert(candidates.deep_view() =~= g_cov);

    if has_git_env {
        push_tool(&mut candidates, "reset_file");
    }
    assert(candidates.deep_view() =~= candidate_tool_names(cfg, has_git_env));

    filter_tool_names(&candidates, &cfg.disabled_tools)
}

/// Law: tool-set assembly is deterministic. Two tool lists assembled from the
/// same configuration and the same git-environment flag are identical,
/// including their order.
pub proof fn lemma_tool_set_deterministic(
    cfg: &SessionConfig,
    has_git_env: bool,
    r1: Seq<Seq<char>>,
    r2: Seq<Seq<char>>,
)
    requires
        r1 == assembled_tool_names(cfg, has_git_env),
        r2 == assembled_tool_names(cfg, has_git_env),
    ensures
        r1 == r2,
{
}

/// Law: a disabled name never survives assembly, no matter which policy
/// branch added it.
pub proof fn lemma_disabled_tool_removed(
    names: Seq<Seq<char>>,
    disabled: Seq<Seq<char>>,
    n: Seq<char>,
)
    requires
        disabled.contains(n),
    ensures
        !remove_disabled(names, disabled).contains(n),
    decreases names.len(),
{
    broadcast use vstd::seq_lib::group_seq_properties;

    if names.len() > 0 {
        lemma_disabled_tool_removed(names.drop_last(), disabled, n);
    }
}

/// Every name that survives assembly was a candidate: removal only removes.
pub proof fn lemma_remove_disabled_subset(
    names: Seq<Seq<char>>,
    disabled: Seq<Seq<char>>,
    n: Seq<char>,
)
    requires
        remove_disabled(names, disabled).contains(n),
    ensures
        names.contains(n),
    decreases names.len(),
{
    broadcast use vstd::seq_lib::group_seq_properties;

    if names.len() > 0 {
        let rest = remove_disabled(names.drop_last(), disabled);
        if rest.contains(n) {
            lemma_remove_disabled_subset(names.drop_last(), disabled, n);
            assert(names.drop_last().contains(n));
            let i = choose|i: int|
                0 <= i < names.drop_last().len() && names.drop_last()[i] == n;
            assert(names[i] == n);
        } else {
            assert(n == names.last());
        }
    }
}

} // verus!
