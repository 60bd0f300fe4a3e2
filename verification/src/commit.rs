//! Commit messages from a staged diff: the prompt that asks for them, and the
//! reading of whatever text comes back.

use crate::ai::AiProvider;
use crate::error::GenerationError;
use crate::text::{
    char_is_numeric, chars_of, contains_char, contains_run, contains_text, decimal, decimal_text,
    leading_run, lemma_leading_run, lines_of, optional_view, split_lines, texts, trim, trimmed,
    views,
};
use vstd::prelude::*;
use vstd::string::StringExecFns;

verus! {

/// Whether `c` may stand in the numbering in front of a listed message:
/// a numeric character, a full stop, a space or a closing bracket.
pub open spec fn is_numbering(c: char) -> bool {
    char_is_numeric(c) || c == '.' || c == ' ' || c == ')'
}

/// `line` without the numbering in front of it and without the white space
/// around what is left.
pub open spec fn cleaned(line: Seq<char>) -> Seq<char> {
    trimmed(line.skip(leading_run(line, |c: char| is_numbering(c)) as int))
}

/// Whether `line` holds a colon.
pub open spec fn has_colon(line: Seq<char>) -> bool {
    line.contains(':')
}

/// Whether `line` holds the opening of a conventional-commit type with a
/// scope.
pub open spec fn has_marker(line: Seq<char>) -> bool {
    ||| contains_run(line, "feat("@)
    ||| contains_run(line, "fix("@)
    ||| contains_run(line, "docs("@)
    ||| contains_run(line, "style("@)
    ||| contains_run(line, "refactor("@)
}

/// Whether `line` starts with a numeric character that is one of the digits
/// `0` to `9`.
pub open spec fn starts_with_digit(line: Seq<char>) -> bool {
    line.len() > 0 && char_is_numeric(line[0]) && '0' <= line[0] <= '9'
}

/// Whether `line` looks like one item of a list of messages: it starts with a
/// digit and holds a colon, or it holds a type marker.
pub open spec fn is_enumerated(line: Seq<char>) -> bool {
    (starts_with_digit(line) && has_colon(line)) || has_marker(line)
}

/// `trimmed`, as a function to map over lines.
pub open spec fn trimming() -> spec_fn(Seq<char>) -> Seq<char> {
    |line: Seq<char>| trimmed(line)
}

/// `cleaned`, as a function to map over lines.
pub open spec fn cleaning() -> spec_fn(Seq<char>) -> Seq<char> {
    |line: Seq<char>| cleaned(line)
}

/// The lines that are not empty.
pub open spec fn not_empty() -> spec_fn(Seq<char>) -> bool {
    |line: Seq<char>| line.len() > 0
}

/// The lines that look like items of a list.
pub open spec fn enumerated() -> spec_fn(Seq<char>) -> bool {
    |line: Seq<char>| is_enumerated(line)
}

/// The lines that hold a colon.
pub open spec fn with_colon() -> spec_fn(Seq<char>) -> bool {
    |line: Seq<char>| has_colon(line)
}

/// The lines that hold a type marker.
pub open spec fn with_marker() -> spec_fn(Seq<char>) -> bool {
    |line: Seq<char>| has_marker(line)
}

/// The lines of `text`, each trimmed, without those that are then empty.
pub open spec fn normalized_lines(text: Seq<char>) -> Seq<Seq<char>> {
    split_lines(text).map_values(trimming()).filter(not_empty())
}

/// The first `count` of `items`, or all of them if they are fewer.
pub open spec fn first_up_to(items: Seq<Seq<char>>, count: nat) -> Seq<Seq<char>> {
    if items.len() <= count {
        items
    } else {
        items.take(count as int)
    }
}

/// Every line that looks like an item of a list, cleaned.
pub open spec fn enumerated_messages(lines: Seq<Seq<char>>) -> Seq<Seq<char>> {
    lines.filter(enumerated()).map_values(cleaning())
}

/// The first `count` lines that hold a colon, cleaned.
pub open spec fn colon_messages(lines: Seq<Seq<char>>, count: nat) -> Seq<Seq<char>> {
    first_up_to(lines.filter(with_colon()).map_values(cleaning()), count)
}

/// The first line, cleaned, as the only message; none where there is no line.
pub open spec fn fallback_message(lines: Seq<Seq<char>>) -> Seq<Seq<char>> {
    if lines.len() > 0 {
        seq![cleaned(lines[0])]
    } else {
        Seq::empty()
    }
}

/// The messages that `lines` yield when `count` were asked for. More than
/// one asked for, the enumerated lines come first; failing those, the lines
/// with a colon; failing those, the first line. Never more than `count`.
pub open spec fn messages_from_lines(lines: Seq<Seq<char>>, count: nat) -> Seq<Seq<char>> {
    if count == 0 {
        Seq::empty()
    } else {
        let listed = if count > 1 {
            enumerated_messages(lines)
        } else {
            Seq::empty()
        };
        let found = if listed.len() > 0 {
            listed
        } else {
            colon_messages(lines, count)
        };
        let chosen = if found.len() > 0 {
            found
        } else {
            fallback_message(lines)
        };
        first_up_to(chosen, count)
    }
}

/// The messages that the text `response` yields when `count` were asked for.
pub open spec fn parsed_messages(response: Seq<char>, count: nat) -> Seq<Seq<char>> {
    messages_from_lines(normalized_lines(response), count)
}

/// The lines of `response`, each trimmed, without those that are then empty.
pub fn normalize<'a>(response: &'a str) -> (lines: Vec<&'a str>)
    ensures
        views(lines@) == normalized_lines(response@),
{
    let raw = lines_of(response);
    let n: usize = raw.len();
    let mut lines: Vec<&'a str> = Vec::new();
    let mut i: usize = 0;
    proof {
        assert(views(raw@).take(0).map_values(trimming()).filter(not_empty()) == views(lines@)) by {
            reveal(Seq::filter);
        }
    }
    while i < n
        invariant
            i <= n,
            n == raw@.len(),
            views(lines@) == views(raw@).take(i as int).map_values(trimming()).filter(not_empty()),
        decreases n - i,
    {
        let line = trim(raw[i]);
        proof {
            let all = views(raw@);
            let before = all.take(i as int);
            assert(all.take(i + 1) == before.push(all[i as int]));
            assert(before.push(all[i as int]).map_values(trimming()) == before.map_values(
                trimming(),
            ).push(line@));
            before.map_values(trimming()).lemma_filter_push(line@, not_empty());
            assert(views(lines@.push(line)) == views(lines@).push(line@));
        }
        if !line.is_empty() {
            lines.push(line);
        }
        i += 1;
    }
    proof {
        assert(views(raw@).take(n as int) == views(raw@));
    }
    lines
}

/// `line` without the numbering in front of it and without the white space
/// around what is left.
pub fn clean<'a>(line: &'a str) -> (res: &'a str)
    ensures
        res@ == cleaned(line@),
{
    let chars = chars_of(line);
    let n: usize = chars.len();
    let mut run: usize = 0;
    while run < n && (chars[run].is_numeric() || chars[run] == '.' || chars[run] == ' '
        || chars[run] == ')')
        invariant
            run <= n,
            n == chars@.len(),
            forall|i: int| 0 <= i < run ==> is_numbering(#[trigger] chars@[i]),
        decreases n - run,
    {
        run += 1;
    }
    proof {
        lemma_leading_run(chars@, |c: char| is_numbering(c), run as int);
    }
    trim(line.substring_char(run, n))
}

/// Whether `line` holds the opening of a conventional-commit type with a
/// scope.
pub fn holds_marker(line: &str) -> (res: bool)
    ensures
        res == has_marker(line@),
{
    contains_text(line, "feat(") || contains_text(line, "fix(") || contains_text(line, "docs(")
        || contains_text(line, "style(") || contains_text(line, "refactor(")
}

/// Whether `line` looks like one item of a list of messages.
pub fn looks_enumerated(line: &str) -> (res: bool)
    ensures
        res == is_enumerated(line@),
{
    let chars = chars_of(line);
    let digit_first = chars.len() > 0 && chars[0].is_numeric() && chars[0] >= '0' && chars[0]
        <= '9';
    (digit_first && contains_char(line, ':')) || holds_marker(line)
}

/// Every line that looks like an item of a list, cleaned.
pub fn enumerated_lines(lines: &Vec<&str>) -> (messages: Vec<String>)
    ensures
        texts(messages@) == enumerated_messages(views(lines@)),
{
    let n: usize = lines.len();
    let mut messages: Vec<String> = Vec::new();
    let mut i: usize = 0;
    proof {
        assert(enumerated_messages(views(lines@).take(0)) == texts(messages@)) by {
            reveal(Seq::filter);
        }
    }
    while i < n
        invariant
            i <= n,
            n == lines@.len(),
            texts(messages@) == enumerated_messages(views(lines@).take(i as int)),
        decreases n - i,
    {
        let line = lines[i];
        proof {
            let all = views(lines@);
            let before = all.take(i as int);
            assert(all.take(i + 1) == before.push(line@));
            before.lemma_filter_push(line@, enumerated());
            before.filter(enumerated()).lemma_push_map_commute(cleaning(), line@);
        }
        if looks_enumerated(line) {
            let message = clean(line).to_owned();
            proof {
                assert(texts(messages@.push(message)) == texts(messages@).push(message@));
            }
            messages.push(message);
        }
        i += 1;
    }
    proof {
        assert(views(lines@).take(n as int) == views(lines@));
    }
    messages
}

/// A sequence that starts another and has `count` elements is the first
/// `count` of the other.
proof fn lemma_prefix_is_first(part: Seq<Seq<char>>, whole: Seq<Seq<char>>, count: nat)
    requires
        part.is_prefix_of(whole),
        part.len() == count,
    ensures
        first_up_to(whole, count) == part,
{
    assert(whole.take(count as int) =~= part);
}

/// The first `count` lines that hold a colon, cleaned.
pub fn colon_lines(lines: &Vec<&str>, count: usize) -> (messages: Vec<String>)
    ensures
        texts(messages@) == colon_messages(views(lines@), count as nat),
{
    let n: usize = lines.len();
    let mut messages: Vec<String> = Vec::new();
    let mut i: usize = 0;
    proof {
        assert(views(lines@).take(0).filter(with_colon()).map_values(cleaning()) == texts(
            messages@,
        )) by {
            reveal(Seq::filter);
        }
    }
    while i < n && messages.len() < count
        invariant
            i <= n,
            n == lines@.len(),
            messages@.len() <= count,
            texts(messages@) == views(lines@).take(i as int).filter(with_colon()).map_values(
                cleaning(),
            ),
        decreases n - i,
    {
        let line = lines[i];
        proof {
            let all = views(lines@);
            let before = all.take(i as int);
            assert(all.take(i + 1) == before.push(line@));
            before.lemma_filter_push(line@, with_colon());
            before.filter(with_colon()).lemma_push_map_commute(cleaning(), line@);
        }
        if contains_char(line, ':') {
            let message = clean(line).to_owned();
            proof {
                assert(texts(messages@.push(message)) == texts(messages@).push(message@));
            }
            messages.push(message);
        }
        i += 1;
    }
    proof {
        let all = views(lines@);
        let seen = all.take(i as int);
        let whole = all.filter(with_colon()).map_values(cleaning());
        if i == n {
            assert(seen == all);
        } else {
            seen.lemma_filter_monotone(all, with_colon());
            assert(texts(messages@).is_prefix_of(whole));
            lemma_prefix_is_first(texts(messages@), whole, count as nat);
        }
    }
    messages
}

/// The first line, cleaned, as the only message; none where there is no line.
pub fn first_line(lines: &Vec<&str>) -> (messages: Vec<String>)
    ensures
        texts(messages@) == fallback_message(views(lines@)),
{
    let mut messages: Vec<String> = Vec::new();
    if lines.len() > 0 {
        messages.push(clean(lines[0]).to_owned());
    }
    messages
}

/// The messages that `lines` yield when `count` were asked for.
pub fn messages_of(lines: &Vec<&str>, count: u8) -> (messages: Vec<String>)
    ensures
        texts(messages@) == messages_from_lines(views(lines@), count as nat),
        messages@.len() <= count,
{
    let mut messages: Vec<String> = Vec::new();
    if count == 0 {
        return messages;
    }
    if count > 1 {
        messages = enumerated_lines(lines);
    }
    if messages.len() == 0 {
        messages = colon_lines(lines, count as usize);
    }
    if messages.len() == 0 {
        messages = first_line(lines);
    }
    let ghost chosen = messages@;
    messages.truncate(count as usize);
    proof {
        if chosen.len() > count {
            assert(texts(chosen.take(count as int)) == texts(chosen).take(count as int));
        }
    }
    messages
}

/// Whether `count` messages may be asked for at once: at least one, at most
/// five.
pub fn valid_message_count(count: u8) -> (res: bool)
    ensures
        res == (1 <= count <= 5),
{
    1 <= count && count <= 5
}

/// The fixed part of the prompt that says what a commit message looks like.
pub open spec fn style_guidance() -> Seq<char> {
    "Follow the Conventional Commits specification (https://www.conventionalcommits.org/):\n"@
        + "- Format: type(scope): subject\n"@
        + "- Types: feat, fix, docs, style, refactor, perf, test, build, ci, chore, revert\n"@
        + "- Keep the subject concise (under 72 characters)\n"@
        + "- Use imperative mood (\"add\" not \"added\")\n\n"@
}

/// One line for each of `titles`, in order.
pub open spec fn title_items(titles: Seq<Seq<char>>) -> Seq<char>
    decreases titles.len(),
{
    if titles.len() == 0 {
        Seq::empty()
    } else {
        title_items(titles.drop_last()) + "- "@ + titles.last() + "\n"@
    }
}

/// The part of the prompt that shows the titles of recent commits; empty
/// where there are none.
pub open spec fn recent_commits(titles: Seq<Seq<char>>) -> Seq<char> {
    if titles.len() == 0 {
        Seq::empty()
    } else {
        "Recent commits:\n"@ + title_items(titles) + "\n"@
    }
}

/// The part of the prompt that passes the user's instructions on. Empty
/// instructions are passed on too; only absent ones leave the part out.
pub open spec fn additional_context(instructions: Option<Seq<char>>) -> Seq<char> {
    match instructions {
        Some(text) => "Additional context: "@ + text + "\n\n"@,
        None => Seq::empty(),
    }
}

/// The prompt that asks for `count` commit messages for the changes in
/// `diff`, made on the branch `branch_name`.
pub open spec fn prompt_text(
    diff: Seq<char>,
    branch_name: Seq<char>,
    count: nat,
    instructions: Option<Seq<char>>,
    titles: Seq<Seq<char>>,
) -> Seq<char> {
    "Generate "@ + decimal(count) + " commit message(s) for the following changes.\n\n"@
        + style_guidance() + "Branch name: "@ + branch_name + "\n\n"@ + recent_commits(titles)
        + additional_context(instructions) + "Diff:\n```\n"@ + diff + "\n```\n\n"@
        + "Provide exactly "@ + decimal(count)
        + " commit message(s) in the format 'type(scope): subject', numbered if more than one."@
}

fn guidance() -> (res: String)
    ensures
        res@ == style_guidance(),
{
    String::from_str(
        "Follow the Conventional Commits specification (https://www.conventionalcommits.org/):\n",
    ).concat("- Format: type(scope): subject\n").concat(
        "- Types: feat, fix, docs, style, refactor, perf, test, build, ci, chore, revert\n",
    ).concat("- Keep the subject concise (under 72 characters)\n").concat(
        "- Use imperative mood (\"add\" not \"added\")\n\n",
    )
}

fn recent_commits_part(titles: &Vec<String>) -> (res: String)
    ensures
        res@ == recent_commits(texts(titles@)),
{
    let n: usize = titles.len();
    if n == 0 {
        return String::new();
    }
    let mut items = String::new();
    let mut i: usize = 0;
    while i < n
        invariant
            i <= n,
            n == titles@.len(),
            items@ == title_items(texts(titles@).take(i as int)),
        decreases n - i,
    {
        proof {
            let now = texts(titles@).take(i + 1);
            assert(now.drop_last() == texts(titles@).take(i as int));
            assert(now.last() == titles@[i as int]@);
        }
        items = items.concat("- ").concat(titles[i].as_str()).concat("\n");
        i += 1;
    }
    proof {
        assert(texts(titles@).take(n as int) == texts(titles@));
    }
    String::from_str("Recent commits:\n").concat(items.as_str()).concat("\n")
}

fn additional_context_part(instructions: Option<&str>) -> (res: String)
    ensures
        res@ == additional_context(optional_view(instructions)),
{
    match instructions {
        Some(text) => String::from_str("Additional context: ").concat(text).concat("\n\n"),
        None => String::new(),
    }
}

/// What becomes of the text that a provider answered with, or of its
/// failure, when `count` messages were asked for.
pub open spec fn concluded(answer: Result<String, GenerationError>, count: nat) -> Result<
    Seq<Seq<char>>,
    GenerationError,
> {
    match answer {
        Ok(response) => Ok(parsed_messages(response@, count)),
        Err(error) => Err(error),
    }
}

/// A generation result with its messages as character sequences.
pub open spec fn messages_view(result: Result<Vec<String>, GenerationError>) -> Result<
    Seq<Seq<char>>,
    GenerationError,
> {
    match result {
        Ok(messages) => Ok(texts(messages@)),
        Err(error) => Err(error),
    }
}

/// Generates commit messages by asking a provider.
pub struct CommitMessageGenerator<T: AiProvider> {
    ai_provider: T,
}

impl<T: AiProvider> CommitMessageGenerator<T> {
    /// The provider that is asked.
    pub closed spec fn provider(self) -> T {
        self.ai_provider
    }

    pub fn new(ai_provider: T) -> (generator: Self)
        ensures
            generator.provider() == ai_provider,
    {
        CommitMessageGenerator { ai_provider }
    }

    /// Asks the provider for `count` commit messages for the changes in
    /// `diff` and reads them out of its answer. A failure of the provider is
    /// handed on as it is.
    pub fn generate(
        &self,
        diff: &str,
        branch_name: &str,
        count: u8,
        additional_instructions: Option<&str>,
        recent_commit_titles: &Vec<String>,
    ) -> (res: Result<Vec<String>, GenerationError>)
        ensures
            exists|answer: Result<String, GenerationError>|
                {
                    &&& #[trigger] self.provider().answers(
                        prompt_text(
                            diff@,
                            branch_name@,
                            count as nat,
                            optional_view(additional_instructions),
                            texts(recent_commit_titles@),
                        ),
                        answer,
                    )
                    &&& messages_view(res) == concluded(answer, count as nat)
                },
            res matches Ok(messages) ==> messages@.len() <= count,
    {
        let prompt = self.build_prompt(
            diff,
            branch_name,
            count,
            additional_instructions,
            recent_commit_titles,
        );
        let answer = self.ai_provider.generate_text(prompt.as_str());
        let ghost given = answer;
        let res = self.conclude(answer, count);
        assert(self.provider().answers(prompt@, given) && messages_view(res) == concluded(
            given,
            count as nat,
        ));
        res
    }

    /// Reads the messages out of what the provider answered, or hands its
    /// failure on.
    pub fn conclude(&self, answer: Result<String, GenerationError>, count: u8) -> (res: Result<
        Vec<String>,
        GenerationError,
    >)
        ensures
            messages_view(res) == concluded(answer, count as nat),
            res matches Ok(messages) ==> messages@.len() <= count,
    {
        match answer {
            Ok(response) => Ok(self.parse_response(response.as_str(), count)),
            Err(error) => Err(error),
        }
    }

    /// The prompt that asks for `count` commit messages for the changes in
    /// `diff`.
    pub fn build_prompt(
        &self,
        diff: &str,
        branch_name: &str,
        count: u8,
        additional_instructions: Option<&str>,
        recent_commit_titles: &Vec<String>,
    ) -> (prompt: String)
        ensures
            prompt@ == prompt_text(
                diff@,
                branch_name@,
                count as nat,
                optional_view(additional_instructions),
                texts(recent_commit_titles@),
            ),
    {
        let number = decimal_text(count);
        let style = guidance();
        let recent = recent_commits_part(recent_commit_titles);
        let context = additional_context_part(additional_instructions);
        String::from_str("Generate ").concat(number.as_str()).concat(
            " commit message(s) for the following changes.\n\n",
        ).concat(style.as_str()).concat("Branch name: ").concat(branch_name).concat("\n\n").concat(
            recent.as_str(),
        ).concat(context.as_str()).concat("Diff:\n```\n").concat(diff).concat(
            "\n```\n\n",
        ).concat("Provide exactly ").concat(number.as_str()).concat(
            " commit message(s) in the format 'type(scope): subject', numbered if more than one.",
        )
    }

    /// The messages in the text `response`, of which `count` were asked for:
    /// at most `count`, and none where none were asked for.
    pub fn parse_response(&self, response: &str, count: u8) -> (messages: Vec<String>)
        ensures
            texts(messages@) == parsed_messages(response@, count as nat),
            messages@.len() <= count,
            count == 0 ==> messages@.len() == 0,
    {
        if count == 0 {
            return Vec::new();
        }
        let lines = normalize(response);
        messages_of(&lines, count)
    }
}

} // verus!
