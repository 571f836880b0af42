//! Checking that everything a session needs is in place, reporting every
//! problem found.
use vstd::prelude::*;

use crate::calls::texts;

verus! {

/// What was found of the configuration file.
#[derive(Debug, Clone, PartialEq, Eq)]
pub enum ConfigStatus {
    /// It exists and parses.
    Valid,
    /// It does not exist or cannot be read.
    Missing { path: String },
    /// It exists and does not parse.
    Unparsable { path: String, detail: String },
    /// No configuration directory could be determined.
    NoConfigDir,
}

/// The problem with the tool `tool` when it is missing.
pub open spec fn missing_tool(tool: Seq<char>) -> Seq<char> {
    tool + " command not found"@
}

/// The problem, if any, with the configuration.
pub open spec fn config_problem(c: ConfigStatus) -> Seq<Seq<char>> {
    match c {
        ConfigStatus::Valid => seq![],
        ConfigStatus::Missing { path } => seq!["config file "@ + path@ + " not found"@],
        ConfigStatus::Unparsable { path, detail } => seq![
            "failed to parse "@ + path@ + ": "@ + detail@,
        ],
        ConfigStatus::NoConfigDir => seq!["could not determine configuration directory"@],
    }
}

pub open spec fn tool_problem(found: bool, tool: Seq<char>) -> Seq<Seq<char>> {
    if found {
        seq![]
    } else {
        seq![missing_tool(tool)]
    }
}

/// Every problem, in the order tools then configuration.
pub open spec fn problems(devcontainer: bool, git: bool, gh: bool, c: ConfigStatus) -> Seq<
    Seq<char>,
> {
    tool_problem(devcontainer, "devcontainer"@) + tool_problem(git, "git"@) + tool_problem(
        gh,
        "gh"@,
    ) + config_problem(c)
}

/// The problems as a list, one `- ` line each.
pub open spec fn bullets(ps: Seq<Seq<char>>) -> Seq<char>
    decreases ps.len(),
{
    if ps.len() == 0 {
        seq![]
    } else {
        bullets(ps.drop_last()) + "\n- "@ + ps.last()
    }
}

/// The report of a failed check.
pub open spec fn report_text(ps: Seq<Seq<char>>) -> Seq<char> {
    "precheck failed:"@ + bullets(ps)
}

fn push_problem(v: &mut Vec<String>, p: String)
    ensures
        texts(final(v)@) == texts(old(v)@).push(p@),
{
    v.push(p);
    assert(texts(final(v)@) =~= texts(old(v)@).push(p@));
}

/// The tools a session needs, in the order they are checked.
pub fn checked_tools() -> (r: Vec<String>)
    ensures
        texts(r@) == seq!["devcontainer"@, "git"@, "gh"@],
{
    let mut v: Vec<String> = Vec::new();
    push_problem(&mut v, String::from_str("devcontainer"));
    push_problem(&mut v, String::from_str("git"));
    push_problem(&mut v, String::from_str("gh"));
    assert(texts(v@) =~= seq!["devcontainer"@, "git"@, "gh"@]);
    v
}

/// Every problem found, given which tools run and what the configuration
/// file holds.
pub fn precheck_problems(devcontainer: bool, git: bool, gh: bool, config: &ConfigStatus) -> (r: Vec<
    String,
>)
    ensures
        texts(r@) == problems(devcontainer, git, gh, *config),
{
    let mut v: Vec<String> = Vec::new();
    if !devcontainer {
        push_problem(&mut v, String::from_str("devcontainer").concat(" command not found"));
    }
    assert(texts(v@) =~= tool_problem(devcontainer, "devcontainer"@));
    let ghost a = texts(v@);
    if !git {
        push_problem(&mut v, String::from_str("git").concat(" command not found"));
    }
    assert(texts(v@) =~= a + tool_problem(git, "git"@));
    let ghost b = texts(v@);
    if !gh {
        push_problem(&mut v, String::from_str("gh").concat(" command not found"));
    }
    assert(texts(v@) =~= b + tool_problem(gh, "gh"@));
    let ghost c = texts(v@);
    match config {
        ConfigStatus::Valid => {},
        ConfigStatus::Missing { path } => {
            push_problem(
                &mut v,
                String::from_str("config file ").concat(path.as_str()).concat(" not found"),
            );
        },
        ConfigStatus::Unparsable { path, detail } => {
            push_problem(
                &mut v,
                String::from_str("failed to parse ").concat(path.as_str()).concat(": ").concat(
                    detail.as_str(),
                ),
            );
        },
        ConfigStatus::NoConfigDir => {
            push_problem(&mut v, String::from_str("could not determine configuration directory"));
        },
    }
    assert(texts(v@) =~= c + config_problem(*config));
    v
}

/// The result of the check: success when nothing was found, else the report
/// of every problem.
pub fn precheck_report(problems: &Vec<String>) -> (r: Result<(), String>)
    ensures
        problems@.len() == 0 ==> r is Ok,
        problems@.len() > 0 ==> r is Err && r->Err_0@ == report_text(texts(problems@)),
{
    if problems.len() == 0 {
        return Ok(());
    }
    let mut out = String::from_str("precheck failed:");
    let mut i: usize = 0;
    while i < problems.len()
        invariant
            i <= problems@.len(),
            out@ == report_text(texts(problems@).subrange(0, i as int)),
        decreases problems@.len() - i,
    {
        let ghost before = out@;
        out = out.concat("\n- ").concat(problems[i].as_str());
        i = i + 1;
        assert(texts(problems@).subrange(0, i as int).drop_last() =~= texts(problems@).subrange(
            0,
            i - 1,
        ));
    }
    assert(texts(problems@).subrange(0, i as int) =~= texts(problems@));
    Err(out)
}

} // verus!
