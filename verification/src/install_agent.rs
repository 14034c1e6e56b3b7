//! Installing the agent skills into a project: which agents are supported, what marks a project
//! directory, and the text of the skills written into `.tokex/skills/`.
use vstd::prelude::*;

use crate::agent::prompt::copy_str;
use crate::text::{chars_of, ends_with, ends_with_seq, join_with, push_str, slice, str_eq, string_of, views};

verus! {

/// The agents that skills can be installed for.
pub open spec fn supported_agents() -> Seq<Seq<char>> {
    seq![
        "opencode"@, "codex"@, "cursor"@, "gemini"@, "windsurf"@, "aider"@, "continue"@,
        "cline"@,
    ]
}

/// The supported agents, in order.
pub fn supported_agent_names() -> (r: Vec<&'static str>)
    ensures
        views(r@) == supported_agents(),
{
    let r = vec!["opencode", "codex", "cursor", "gemini", "windsurf", "aider", "continue", "cline"];
    assert(views(r@) =~= supported_agents());
    r
}

/// The id of a supported agent (its own name), or the error that lists the supported ones.
pub fn agent_id(agent: &str) -> (r: Result<String, String>)
    ensures
        supported_agents().contains(agent@) ==> (r matches Ok(id) && id@ == agent@),
        !supported_agents().contains(agent@) ==> (r matches Err(e) && e@ == "unsupported agent '"@
            + agent@ + "'. Supported: "@ + join_with(supported_agents(), ", "@)),
{
    let names = supported_agent_names();
    let mut i: usize = 0;
    while i < names.len()
        invariant
            i <= names.len(),
            views(names@) == supported_agents(),
            forall|k: int| 0 <= k < i ==> supported_agents()[k] != agent@,
        decreases names.len() - i,
    {
        if str_eq(names[i], agent) {
            assert(supported_agents()[i as int] == agent@);
            return Ok(copy_str(agent));
        }
        i = i + 1;
    }
    let mut parts: Vec<Vec<char>> = Vec::new();
    let mut k: usize = 0;
    while k < names.len()
        invariant
            k <= names.len(),
            views(names@) == supported_agents(),
            crate::text::seqs(parts@) =~= supported_agents().take(k as int),
        decreases names.len() - k,
    {
        let ghost b = crate::text::seqs(parts@);
        parts.push(chars_of(names[k]));
        assert(crate::text::seqs(parts@) =~= b.push(supported_agents()[k as int]));
        k = k + 1;
    }
    assert(supported_agents().take(names.len() as int) =~= supported_agents());
    let mut m = String::new();
    push_str(&mut m, "unsupported agent '");
    push_str(&mut m, agent);
    push_str(&mut m, "'. Supported: ");
    crate::text::push_chars(&mut m, &crate::text::join_chars(&parts, ", "));
    Err(m)
}

/// The files whose presence marks a project directory.
pub open spec fn project_markers() -> Seq<Seq<char>> {
    seq![
        ".git"@, "Cargo.toml"@, "package.json"@, "pyproject.toml"@, "go.mod"@, "pom.xml"@,
        "build.gradle"@, "build.gradle.kts"@, "deno.json"@, "composer.json"@, "Gemfile"@,
    ]
}

/// The project markers, in order (the caller checks which exist).
pub fn marker_names() -> (r: Vec<&'static str>)
    ensures
        views(r@) == project_markers(),
{
    let r = vec![
        ".git", "Cargo.toml", "package.json", "pyproject.toml", "go.mod", "pom.xml", "build.gradle",
        "build.gradle.kts", "deno.json", "composer.json", "Gemfile",
    ];
    assert(views(r@) =~= project_markers());
    r
}

/// A directory is a project directory when any marker exists in it (`exists[i]` says whether
/// marker `i` does).
pub fn is_project_dir(exists: &Vec<bool>) -> (r: bool)
    ensures
        r == (exists|i: int| 0 <= i < exists@.len() && i < project_markers().len() && exists@[i]),
{
    let mut i: usize = 0;
    while i < exists.len() && i < 11
        invariant
            i <= exists.len(),
            i <= 11,
            forall|k: int| 0 <= k < i ==> !exists@[k],
        decreases exists.len() - i,
    {
        if exists[i] {
            return true;
        }
        i = i + 1;
    }
    false
}

/// The project's name: its directory's name, or `project` when it has none.
pub fn project_name(dir_name: Option<&str>) -> (r: String)
    ensures
        match dir_name {
            Some(n) => r@ == n@,
            None => r@ == "project"@,
        },
{
    match dir_name {
        Some(n) => copy_str(n),
        None => copy_str("project"),
    }
}

/// The graphify skill for an agent in a project.
pub open spec fn graphify_skill_spec(agent: Seq<char>, project: Seq<char>) -> Seq<char> {
    "---\nname: graphify\ndescription: \"any input (code, docs, papers, images) -> knowledge graph -> clustered communities -> HTML + JSON + audit report. Use when user asks any question about a codebase, project content, architecture, or file relationships -- especially if graphify-out/ exists.\"\ntrigger: /graphify\n---\n\n# /graphify\n\nTurn any folder of files into a navigable knowledge graph with community detection, an honest audit trail, and three outputs: interactive HTML, GraphRAG-ready JSON, and a plain-language GRAPH_REPORT.md.\n\n## Usage\n\n```\n/graphify                                             # full pipeline on current directory\n/graphify <path>                                      # full pipeline on specific path\n/graphify <path> --mode deep                          # thorough extraction\n/graphify <path> --update                             # incremental re-extraction\n```\n\n## Installed for: "@ + project + "\n\nInstalled by `tokex install "@ + agent + "`. Reinstall with `tokex install "@ + agent + "`.\n"@
}

/// The text of the graphify skill.
pub fn graphify_skill(agent: &str, project: &str) -> (r: String)
    ensures
        r@ == graphify_skill_spec(agent@, project@),
{
    let mut s = String::new();
    push_str(&mut s, "---\nname: graphify\ndescription: \"any input (code, docs, papers, images) -> knowledge graph -> clustered communities -> HTML + JSON + audit report. Use when user asks any question about a codebase, project content, architecture, or file relationships -- especially if graphify-out/ exists.\"\ntrigger: /graphify\n---\n\n# /graphify\n\nTurn any folder of files into a navigable knowledge graph with community detection, an honest audit trail, and three outputs: interactive HTML, GraphRAG-ready JSON, and a plain-language GRAPH_REPORT.md.\n\n## Usage\n\n```\n/graphify                                             # full pipeline on current directory\n/graphify <path>                                      # full pipeline on specific path\n/graphify <path> --mode deep                          # thorough extraction\n/graphify <path> --update                             # incremental re-extraction\n```\n\n## Installed for: ");
    push_str(&mut s, project);
    push_str(&mut s, "\n\nInstalled by `tokex install ");
    push_str(&mut s, agent);
    push_str(&mut s, "`. Reinstall with `tokex install ");
    push_str(&mut s, agent);
    push_str(&mut s, "`.\n");
    s
}

/// The tokex skill for an agent in a project.
pub open spec fn tokex_skill_spec(agent: Seq<char>, project: Seq<char>) -> Seq<char> {
    "---\nname: tokex\ndescription: \"Tokex RTK orchestration skills for "@ + project + ". Run commands, inspect projects, and get normalized output.\"\n---\n\n# Tokex Skills\n\n**IMPORTANT:** You are an AI agent. Always use `tokex -m` (model mode) to get clean output\nwithout spinners, live streaming, or ANSI decorations. Never use `tokex run` or bare `tokex`\nwithout `-m` — that mode is for humans and will produce noisy, hard-to-parse output.\n\n## Rules\n\n1. Always prefix commands with `tokex -m` — never `tokex run` or bare `tokex`.\n2. One command at a time. Feed the result back before running the next.\n3. Skip vendor/, target/, .git/ — they're noise.\n\n## Run a command\n\n```bash\ntokex -m \"cargo test\"\ntokex -m cargo test           # shorthand\ntokex -m \"git status\"\n```\n\n## Show project structure\n\n```bash\ntokex -m \"show the project tree\"\ntokex -m \"give me the directory layout\"\n```\n\n## Install skills for this project\n\n```bash\ntokex install "@ + agent + "         # reinstall/update skills\n```\n\n## Installed for: "@ + project + "\n\nSkills are in `.tokex/skills/`. Your agent detects them automatically.\n"@
}

/// The text of the tokex skill.
pub fn tokex_skill(agent: &str, project: &str) -> (r: String)
    ensures
        r@ == tokex_skill_spec(agent@, project@),
{
    let mut s = String::new();
    push_str(&mut s, "---\nname: tokex\ndescription: \"Tokex RTK orchestration skills for ");
    push_str(&mut s, project);
    push_str(&mut s, ". Run commands, inspect projects, and get normalized output.\"\n---\n\n# Tokex Skills\n\n**IMPORTANT:** You are an AI agent. Always use `tokex -m` (model mode) to get clean output\nwithout spinners, live streaming, or ANSI decorations. Never use `tokex run` or bare `tokex`\nwithout `-m` — that mode is for humans and will produce noisy, hard-to-parse output.\n\n## Rules\n\n1. Always prefix commands with `tokex -m` — never `tokex run` or bare `tokex`.\n2. One command at a time. Feed the result back before running the next.\n3. Skip vendor/, target/, .git/ — they're noise.\n\n## Run a command\n\n```bash\ntokex -m \"cargo test\"\ntokex -m cargo test           # shorthand\ntokex -m \"git status\"\n```\n\n## Show project structure\n\n```bash\ntokex -m \"show the project tree\"\ntokex -m \"give me the directory layout\"\n```\n\n## Install skills for this project\n\n```bash\ntokex install ");
    push_str(&mut s, agent);
    push_str(&mut s, "         # reinstall/update skills\n```\n\n## Installed for: ");
    push_str(&mut s, project);
    push_str(&mut s, "\n\nSkills are in `.tokex/skills/`. Your agent detects them automatically.\n");
    s
}

/// The skill a file holds: its name without `.md`, for a markdown file.
pub fn skill_name(file: &str) -> (r: Option<String>)
    ensures
        ends_with_seq(file@, ".md"@) ==> (r matches Some(n) && n@ == file@.subrange(0, file@.len() - 3)),
        !ends_with_seq(file@, ".md"@) ==> r is None,
{
    let c = chars_of(file);
    if ends_with(&c, ".md") {
        proof {
            reveal_strlit(".md");
        }
        Some(string_of(&slice(&c, 0, c.len() - 3)))
    } else {
        None
    }
}

} // verus!
