//! What is decided about a repository once its facts are at hand: the name
//! to use for the branch, the titles of recent commits, and what the output
//! of an external diff tool amounts to. Reading the repository and running
//! the tool are the caller's part.

use crate::text::{optional_view, texts, trim, trimmed};
use vstd::prelude::*;
use vstd::string::StringExecFns;

verus! {

/// How the staged changes are compared with the last commit.
#[derive(Copy, Clone, Debug, PartialEq, Eq, Structural)]
pub enum DiffAlg {
    /// The repository's built-in comparison.
    Default,
    /// The built-in comparison with the patience algorithm.
    Patience,
    /// The built-in comparison, taking the time to find the smallest diff.
    Minimal,
    /// The external structural diff tool `difft`.
    Difftastic,
}

impl DiffAlg {
    /// Whether the comparison is left to the external tool.
    pub fn uses_external_tool(&self) -> (res: bool)
        ensures
            res == (*self == DiffAlg::Difftastic),
    {
        match self {
            DiffAlg::Difftastic => true,
            _ => false,
        }
    }

    /// Whether the built-in comparison is asked for the patience algorithm.
    pub fn wants_patience(&self) -> (res: bool)
        ensures
            res == (*self == DiffAlg::Patience),
    {
        match self {
            DiffAlg::Patience => true,
            _ => false,
        }
    }

    /// Whether the built-in comparison is asked for the smallest diff.
    pub fn wants_minimal(&self) -> (res: bool)
        ensures
            res == (*self == DiffAlg::Minimal),
    {
        match self {
            DiffAlg::Minimal => true,
            _ => false,
        }
    }
}

/// Why the facts of a repository yield no branch name or no diff.
#[derive(Clone, Debug, PartialEq, Eq)]
pub enum RepositoryError {
    /// The head is a branch whose name cannot be had.
    NoBranchName,
    /// The external tool is not installed.
    ToolNotInstalled,
    /// The external tool was not there when it was to run.
    ToolNotFound,
    /// The external tool could not be run.
    ToolNotRun { detail: String },
    /// The external tool ran and failed.
    ToolFailed { stderr: String },
}

/// A `RepositoryError` with its texts as character sequences.
pub ghost enum RepositoryFailure {
    NoBranchName,
    ToolNotInstalled,
    ToolNotFound,
    ToolNotRun { detail: Seq<char> },
    ToolFailed { stderr: Seq<char> },
}

impl View for RepositoryError {
    type V = RepositoryFailure;

    open spec fn view(&self) -> RepositoryFailure {
        match *self {
            RepositoryError::NoBranchName => RepositoryFailure::NoBranchName,
            RepositoryError::ToolNotInstalled => RepositoryFailure::ToolNotInstalled,
            RepositoryError::ToolNotFound => RepositoryFailure::ToolNotFound,
            RepositoryError::ToolNotRun { detail } => RepositoryFailure::ToolNotRun {
                detail: detail@,
            },
            RepositoryError::ToolFailed { stderr } => RepositoryFailure::ToolFailed {
                stderr: stderr@,
            },
        }
    }
}

impl RepositoryFailure {
    pub open spec fn message_text(self) -> Seq<char> {
        match self {
            RepositoryFailure::NoBranchName => "Failed to get branch name"@,
            RepositoryFailure::ToolNotInstalled =>
                "difftastic (difft) not found in PATH. Please install difftastic (https://difftastic.wilfred.me.uk/) and ensure 'difft' is available in your PATH."@,
            RepositoryFailure::ToolNotFound =>
                "difftastic (difft) not found in PATH when running difft. Please install difftastic (https://difftastic.wilfred.me.uk/) and ensure 'difft' is available in your PATH."@,
            RepositoryFailure::ToolNotRun { detail } => "Failed to run difft: "@ + detail,
            RepositoryFailure::ToolFailed { stderr } => "difftastic failed: "@ + stderr,
        }
    }
}

impl RepositoryError {
    /// The text shown to the user.
    pub fn message(&self) -> (res: String)
        ensures
            res@ == self@.message_text(),
    {
        match self {
            RepositoryError::NoBranchName => String::from_str("Failed to get branch name"),
            RepositoryError::ToolNotInstalled => String::from_str(
                "difftastic (difft) not found in PATH. Please install difftastic (https://difftastic.wilfred.me.uk/) and ensure 'difft' is available in your PATH.",
            ),
            RepositoryError::ToolNotFound => String::from_str(
                "difftastic (difft) not found in PATH when running difft. Please install difftastic (https://difftastic.wilfred.me.uk/) and ensure 'difft' is available in your PATH.",
            ),
            RepositoryError::ToolNotRun { detail } => String::from_str(
                "Failed to run difft: ",
            ).concat(detail.as_str()),
            RepositoryError::ToolFailed { stderr } => String::from_str(
                "difftastic failed: ",
            ).concat(stderr.as_str()),
        }
    }
}

/// The name that stands for the branch: the short name of the head where the
/// head is a branch, and `detached-head` where it is not.
pub open spec fn branch_label(is_branch: bool, shorthand: Option<Seq<char>>) -> Result<
    Seq<char>,
    RepositoryFailure,
> {
    if is_branch {
        match shorthand {
            Some(name) => Ok(name),
            None => Err(RepositoryFailure::NoBranchName),
        }
    } else {
        Ok("detached-head"@)
    }
}

/// The name that stands for the branch, given whether the head is a branch
/// and the short name of the head, if it has one.
pub fn branch_name(is_branch: bool, shorthand: Option<&str>) -> (res: Result<
    String,
    RepositoryError,
>)
    ensures
        match res {
            Ok(name) => branch_label(is_branch, optional_view(shorthand)) == Ok::<
                Seq<char>,
                RepositoryFailure,
            >(name@),
            Err(error) => branch_label(is_branch, optional_view(shorthand)) == Err::<
                Seq<char>,
                RepositoryFailure,
            >(error@),
        },
{
    if is_branch {
        match shorthand {
            Some(name) => Ok(name.to_owned()),
            None => Err(RepositoryError::NoBranchName),
        }
    } else {
        Ok(String::from_str("detached-head"))
    }
}

/// The title of a commit with the summary `summary`: the summary trimmed,
/// and the empty text where the commit has none.
pub open spec fn title_text(summary: Option<String>) -> Seq<char> {
    match summary {
        Some(text) => trimmed(text@),
        None => Seq::empty(),
    }
}

/// `title_text`, as a function to map over summaries.
pub open spec fn titling() -> spec_fn(Option<String>) -> Seq<char> {
    |summary: Option<String>| title_text(summary)
}

/// The titles that are not empty.
pub open spec fn titled() -> spec_fn(Seq<char>) -> bool {
    |title: Seq<char>| title.len() > 0
}

/// The titles of the commits with the summaries `summaries`, in order,
/// without the empty ones.
pub open spec fn titles_of(summaries: Seq<Option<String>>) -> Seq<Seq<char>> {
    summaries.map_values(titling()).filter(titled())
}

/// The titles of the commits with the summaries `summaries`, in order; a
/// commit without a summary, or with a blank one, has none.
pub fn commit_titles(summaries: &Vec<Option<String>>) -> (titles: Vec<String>)
    ensures
        texts(titles@) == titles_of(summaries@),
{
    let n: usize = summaries.len();
    let mut titles: Vec<String> = Vec::new();
    let mut i: usize = 0;
    proof {
        assert(titles_of(summaries@.take(0)) == texts(titles@)) by {
            reveal(Seq::filter);
        }
    }
    while i < n
        invariant
            i <= n,
            n == summaries@.len(),
            texts(titles@) == titles_of(summaries@.take(i as int)),
        decreases n - i,
    {
        proof {
            let before = summaries@.take(i as int);
            assert(summaries@.take(i + 1) == before.push(summaries@[i as int]));
            before.lemma_push_map_commute(titling(), summaries@[i as int]);
            before.map_values(titling()).lemma_filter_push(
                title_text(summaries@[i as int]),
                titled(),
            );
        }
        match &summaries[i] {
            Some(summary) => {
                let title = trim(summary.as_str());
                if !title.is_empty() {
                    let owned = title.to_owned();
                    proof {
                        assert(texts(titles@.push(owned)) == texts(titles@).push(owned@));
                    }
                    titles.push(owned);
                }
            },
            None => {},
        }
        i += 1;
    }
    proof {
        assert(summaries@.take(n as int) == summaries@);
    }
    titles
}

/// How a run of the external tool on one file ended.
#[derive(Clone, Debug, PartialEq, Eq)]
pub enum ToolRun {
    /// The tool ran to its end, with or without success.
    Finished { success: bool, stdout: String, stderr: String },
    /// There was no tool to run.
    NotFound,
    /// The tool could not be started, for the reason given.
    NotStarted { detail: String },
}

/// The part of the diff that shows the tool's output for the file at `path`.
pub open spec fn tool_section(path: Seq<char>, output: Seq<char>) -> Seq<char> {
    "diff --difftastic a/"@ + path + " b/"@ + path + "\n"@ + output
}

/// What a run of the tool on the file at `path` adds to the diff: a part
/// that shows its output, nothing where the output is blank, or the failure
/// of the run.
pub open spec fn tool_outcome(path: Seq<char>, run: ToolRun) -> Result<
    Option<Seq<char>>,
    RepositoryFailure,
> {
    match run {
        ToolRun::Finished { success, stdout, stderr } => if success {
            if trimmed(stdout@).len() > 0 {
                Ok(Some(tool_section(path, stdout@)))
            } else {
                Ok(None)
            }
        } else {
            Err(RepositoryFailure::ToolFailed { stderr: stderr@ })
        },
        ToolRun::NotFound => Err(RepositoryFailure::ToolNotFound),
        ToolRun::NotStarted { detail } => Err(RepositoryFailure::ToolNotRun { detail: detail@ }),
    }
}

/// A result of `tool_section_of` with its texts as character sequences.
pub open spec fn section_view(result: Result<Option<String>, RepositoryError>) -> Result<
    Option<Seq<char>>,
    RepositoryFailure,
> {
    match result {
        Ok(Some(section)) => Ok(Some(section@)),
        Ok(None) => Ok(None),
        Err(error) => Err(error@),
    }
}

/// What a run of the tool on the file at `path` adds to the diff.
pub fn tool_section_of(path: &str, run: ToolRun) -> (res: Result<Option<String>, RepositoryError>)
    ensures
        section_view(res) == tool_outcome(path@, run),
{
    match run {
        ToolRun::Finished { success, stdout, stderr } => {
            if !success {
                return Err(RepositoryError::ToolFailed { stderr });
            }
            if trim(stdout.as_str()).is_empty() {
                return Ok(None);
            }
            Ok(
                Some(
                    String::from_str("diff --difftastic a/").concat(path).concat(" b/").concat(
                        path,
                    ).concat("\n").concat(stdout.as_str()),
                ),
            )
        },
        ToolRun::NotFound => Err(RepositoryError::ToolNotFound),
        ToolRun::NotStarted { detail } => Err(RepositoryError::ToolNotRun { detail }),
    }
}

/// `sections` one after the other, with a line feed between two.
pub open spec fn joined_sections(sections: Seq<Seq<char>>) -> Seq<char>
    decreases sections.len(),
{
    if sections.len() == 0 {
        Seq::empty()
    } else if sections.len() == 1 {
        sections[0]
    } else {
        joined_sections(sections.drop_last()) + "\n"@ + sections.last()
    }
}

/// The diff that is made of `sections`.
pub fn join_sections(sections: &Vec<String>) -> (diff: String)
    ensures
        diff@ == joined_sections(texts(sections@)),
{
    let n: usize = sections.len();
    if n == 0 {
        return String::new();
    }
    let mut diff = sections[0].clone();
    let mut i: usize = 1;
    proof {
        assert(texts(sections@).take(1)[0] == sections@[0]@);
    }
    while i < n
        invariant
            1 <= i <= n,
            n == sections@.len(),
            diff@ == joined_sections(texts(sections@).take(i as int)),
        decreases n - i,
    {
        proof {
            let now = texts(sections@).take(i + 1);
            assert(now.drop_last() == texts(sections@).take(i as int));
            assert(now.last() == sections@[i as int]@);
        }
        diff = diff.concat("\n").concat(sections[i].as_str());
        i += 1;
    }
    proof {
        assert(texts(sections@).take(n as int) == texts(sections@));
    }
    diff
}

} // verus!
