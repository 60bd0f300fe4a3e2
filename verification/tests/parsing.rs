use rs_git_msg::ai::AiProvider;
use rs_git_msg::commit::{
    clean, colon_lines, enumerated_lines, first_line, holds_marker, looks_enumerated, messages_of,
    normalize, valid_message_count, CommitMessageGenerator,
};
use rs_git_msg::error::GenerationError;
use rs_git_msg::text::{chars_of, contains_char, contains_text, decimal_text, lines_of, trim};

struct Silent;

impl AiProvider for Silent {
    fn generate_text(&self, _prompt: &str) -> Result<String, GenerationError> {
        Ok(String::new())
    }
}

fn parse(response: &str, count: u8) -> Vec<String> {
    CommitMessageGenerator::new(Silent).parse_response(response, count)
}

fn strip(line: &str) -> String {
    line.trim_start_matches(|c: char| c.is_numeric() || c == '.' || c == ' ' || c == ')')
        .trim()
        .to_string()
}

/// The same reading, written with the string methods of the standard library.
fn read_with_std(response: &str, count: u8) -> Vec<String> {
    if count == 0 {
        return Vec::new();
    }
    let lines: Vec<&str> = response
        .lines()
        .map(|line| line.trim())
        .filter(|line| !line.is_empty())
        .collect();
    let mut messages = Vec::new();
    if count > 1 {
        for line in &lines {
            let numbered = line.starts_with(|c: char| c.is_numeric() && c.is_ascii_digit())
                && line.contains(':');
            let marked = ["feat(", "fix(", "docs(", "style(", "refactor("]
                .iter()
                .any(|marker| line.contains(marker));
            if numbered || marked {
                messages.push(strip(line));
            }
        }
    }
    if messages.is_empty() {
        for line in &lines {
            if line.contains(':') {
                messages.push(strip(line));
                if messages.len() >= count as usize {
                    break;
                }
            }
        }
    }
    if messages.is_empty() && !lines.is_empty() {
        messages.push(strip(lines[0]));
    }
    messages.truncate(count as usize);
    messages
}

fn samples() -> Vec<&'static str> {
    vec![
        "",
        "\n",
        "   \n\t\n",
        "feat(auth): implement user authentication",
        "1. feat(auth): implement login\n2. fix(api): resolve timeout issue",
        "1. feat(a): first\r\n2. fix(b): second\r\n",
        "Here you go:\n\n1) docs(readme): explain\n2) style(ui): tidy\n3) refactor(core): split\n",
        "1) First commit\n2) Second: with colon but not conventional\nrefactor(core): proper format",
        "no colon here\nnor here",
        "12)",
        "1.",
        "  1.  \n  2: x",
        "٣. arabic digit: first\n½ fraction: second",
        "\u{a0}feat: no-break space around\u{a0}\n\u{3000}fix: ideographic space\u{2003}",
        "feat(x) without colon\nplain line",
        "a: b\nc: d\ne: f\ng: h\ni: j\nk: l",
        "3. three: x\nfeat(y): z\n4 four\n5: five",
        "line one\rstill line one: yes\nline two",
        "trailing carriage return\r",
        "1. ) . 9 mixed: prefix",
        "é: accented\n: starts with colon\n:",
        "fix(\nfeat",
        "refactor(refactor(feat(: nested",
    ]
}

#[test]
fn reading_agrees_with_the_standard_string_methods() {
    for response in samples() {
        for count in 0..=7u8 {
            assert_eq!(
                parse(response, count),
                read_with_std(response, count),
                "response {:?}, count {}",
                response,
                count
            );
        }
    }
}

#[test]
fn nothing_asked_nothing_found() {
    for response in samples() {
        assert_eq!(parse(response, 0), Vec::<String>::new());
    }
}

#[test]
fn never_more_than_asked() {
    for response in samples() {
        for count in 0..=7u8 {
            assert!(parse(response, count).len() <= count as usize);
        }
    }
    let many = "1. a: x\n".repeat(300);
    assert_eq!(parse(&many, 255).len(), 255);
    assert_eq!(parse(&many, 1), vec!["a: x".to_string()]);
}

#[test]
fn single_line_is_trimmed_and_unnumbered() {
    assert_eq!(parse("  3) feat: add x  ", 1), vec!["feat: add x".to_string()]);
    assert_eq!(parse("2. fix(ui): y", 1), vec!["fix(ui): y".to_string()]);
    assert_eq!(parse("\tno colon at all ", 1), vec!["no colon at all".to_string()]);
    assert_eq!(parse("1.\tfeat: tab after number", 1), vec!["feat: tab after number".to_string()]);
}

#[test]
fn enough_marked_lines_give_exactly_what_was_asked() {
    let response = "Sure!\n1. feat(a): one\n2. fix(b): two\nnote: an aside\n3. docs(c): three";
    assert_eq!(
        parse(response, 3),
        vec![
            "feat(a): one".to_string(),
            "fix(b): two".to_string(),
            "docs(c): three".to_string()
        ]
    );
    assert_eq!(
        parse(response, 2),
        vec!["feat(a): one".to_string(), "fix(b): two".to_string()]
    );
    assert_eq!(parse(response, 1), vec!["feat(a): one".to_string()]);
}

#[test]
fn clean_messages_come_back() {
    let all_marked = vec!["feat(a): one".to_string(), "fix(b) two".to_string()];
    assert_eq!(parse(&all_marked.join("\n"), 2), all_marked);
    let all_colon = vec![
        "chore: one".to_string(),
        "perf: two".to_string(),
        "ci: three".to_string(),
    ];
    assert_eq!(parse(&all_colon.join("\n"), 3), all_colon);
    let one = vec!["neither marker nor colon".to_string()];
    assert_eq!(parse(&one.join("\n"), 1), one);
    assert_eq!(parse("", 0), Vec::<String>::new());
    let first = parse("1. feat(a): one\n2. fix(b): two", 2);
    assert_eq!(parse(&first.join("\n"), 2), first);
}

#[test]
fn mixed_messages_do_not_all_come_back() {
    let mixed = vec!["feat(a): one".to_string(), "chore: two".to_string()];
    assert_eq!(parse(&mixed.join("\n"), 2), vec!["feat(a): one".to_string()]);
}

#[test]
fn first_line_is_the_fallback() {
    assert_eq!(parse("\n  2) just words \nmore words", 1), vec!["just words".to_string()]);
    assert_eq!(parse("\n  2) just words \nmore words", 4), vec!["just words".to_string()]);
    assert_eq!(parse("12)", 2), vec!["".to_string()]);
}

#[test]
fn response_of_one_conventional_line() {
    assert_eq!(
        parse("feat(auth): implement user authentication", 1),
        vec!["feat(auth): implement user authentication".to_string()]
    );
}

#[test]
fn response_of_two_numbered_lines() {
    assert_eq!(
        parse(
            "1. feat(auth): implement login\n2. fix(api): resolve timeout issue",
            2
        ),
        vec![
            "feat(auth): implement login".to_string(),
            "fix(api): resolve timeout issue".to_string()
        ]
    );
}

#[test]
fn empty_response() {
    assert_eq!(parse("", 1), Vec::<String>::new());
}

#[test]
fn lines_are_normalized() {
    assert_eq!(normalize(" a \n\n\t\nb\r\n  "), vec!["a", "b"]);
    assert_eq!(normalize(""), Vec::<&str>::new());
    assert_eq!(lines_of("a\nb\n"), vec!["a", "b", ""]);
    assert_eq!(lines_of(""), vec![""]);
    assert_eq!(lines_of("\n\n"), vec!["", "", ""]);
    assert_eq!(lines_of("é\nü"), vec!["é", "ü"]);
}

#[test]
fn tiers_one_by_one() {
    let lines = vec!["1. a: x", "plain", "fix(b) y", "c: z", "2 no colon"];
    assert_eq!(
        enumerated_lines(&lines),
        vec!["a: x".to_string(), "fix(b) y".to_string()]
    );
    assert_eq!(
        colon_lines(&lines, 5),
        vec!["a: x".to_string(), "c: z".to_string()]
    );
    assert_eq!(colon_lines(&lines, 1), vec!["a: x".to_string()]);
    assert_eq!(colon_lines(&lines, 0), Vec::<String>::new());
    assert_eq!(first_line(&lines), vec!["a: x".to_string()]);
    assert_eq!(first_line(&Vec::new()), Vec::<String>::new());
    assert_eq!(messages_of(&lines, 1), vec!["a: x".to_string()]);
    assert_eq!(
        messages_of(&lines, 2),
        vec!["a: x".to_string(), "fix(b) y".to_string()]
    );
    assert_eq!(messages_of(&lines, 0), Vec::<String>::new());
    assert_eq!(messages_of(&vec!["plain", "words"], 3), vec!["plain".to_string()]);
}

#[test]
fn lines_are_recognized_and_cleaned() {
    assert!(looks_enumerated("1. a: b"));
    assert!(!looks_enumerated("1. a b"));
    assert!(!looks_enumerated("x. a: b"));
    assert!(!looks_enumerated("٣. a: b"));
    assert!(looks_enumerated("see docs(x)"));
    assert!(holds_marker("style("));
    assert!(holds_marker("a refactor(b"));
    assert!(!holds_marker("feat"));
    assert!(!holds_marker("fix ("));
    assert_eq!(clean("12.) . feat: x "), "feat: x");
    assert_eq!(clean("②) x"), "x");
    assert_eq!(clean("x 1."), "x 1.");
    assert_eq!(clean(")."), "");
    assert_eq!(clean(""), "");
}

#[test]
fn texts_are_searched_and_trimmed() {
    assert_eq!(trim("  a b \n"), "a b");
    assert_eq!(trim("\u{2003}é\u{a0}"), "é");
    assert_eq!(trim(" \t "), "");
    assert_eq!(trim(""), "");
    assert!(contains_char("a:b", ':'));
    assert!(!contains_char("ab", ':'));
    assert!(!contains_char("", ':'));
    assert!(contains_text("xfeat(y", "feat("));
    assert!(contains_text("fefeat(", "feat("));
    assert!(!contains_text("feat", "feat("));
    assert!(contains_text("abc", ""));
    assert!(contains_text("", ""));
    assert!(contains_text("ünï", "nï"));
    assert_eq!(chars_of("aé"), vec!['a', 'é']);
}

#[test]
fn numbers_are_written_in_decimal() {
    for n in 0..=255u8 {
        assert_eq!(decimal_text(n), n.to_string());
    }
    assert_eq!(decimal_text(0), "0");
    assert_eq!(decimal_text(10), "10");
    assert_eq!(decimal_text(105), "105");
}

#[test]
fn one_to_five_messages_may_be_asked_for() {
    assert!(!valid_message_count(0));
    assert!(valid_message_count(1));
    assert!(valid_message_count(5));
    assert!(!valid_message_count(6));
}

#[test]
fn prompt_is_built_piece_by_piece() {
    let generator = CommitMessageGenerator::new(Silent);
    let titles = vec!["feat: one".to_string(), "fix: two".to_string()];
    let prompt = generator.build_prompt("+line", "main", 3, Some("be brief"), &titles);
    let expected = "Generate 3 commit message(s) for the following changes.\n\n\
Follow the Conventional Commits specification (https://www.conventionalcommits.org/):\n\
- Format: type(scope): subject\n\
- Types: feat, fix, docs, style, refactor, perf, test, build, ci, chore, revert\n\
- Keep the subject concise (under 72 characters)\n\
- Use imperative mood (\"add\" not \"added\")\n\n\
Branch name: main\n\n\
Recent commits:\n\
- feat: one\n\
- fix: two\n\n\
Additional context: be brief\n\n\
Diff:\n```\n+line\n```\n\n\
Provide exactly 3 commit message(s) in the format 'type(scope): subject', numbered if more than one.";
    assert_eq!(prompt, expected);

    let bare = generator.build_prompt("d", "b", 12, None, &Vec::new());
    assert!(bare.starts_with("Generate 12 commit message(s)"));
    assert!(!bare.contains("Recent commits:"));
    assert!(!bare.contains("Additional context:"));
    assert!(bare.contains("Branch name: b\n\nDiff:\n```\nd\n```\n\nProvide exactly 12 "));
}

#[test]
fn answers_are_concluded() {
    let generator = CommitMessageGenerator::new(Silent);
    assert_eq!(
        generator.conclude(Ok("1. a: x\n2. b: y".to_string()), 2),
        Ok(vec!["a: x".to_string(), "b: y".to_string()])
    );
    let failure = GenerationError::Unparseable {
        backend: rs_git_msg::Provider::Gemini,
    };
    assert_eq!(generator.conclude(Err(failure.clone()), 2), Err(failure));
    assert_eq!(
        generator.generate("d", "b", 1, None, &Vec::new()),
        Ok(Vec::new())
    );
}
