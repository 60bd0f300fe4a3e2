use rs_git_msg::ai::AiProvider;
use rs_git_msg::commit::CommitMessageGenerator;
use rs_git_msg::error::GenerationError;
use std::sync::{Arc, Mutex};

/// A stand-in provider that answers every prompt alike and records what it
/// was asked.
struct MockProvider {
    response: String,
    calls: Arc<Mutex<Vec<String>>>,
}

impl MockProvider {
    fn new(response: impl Into<String>) -> Self {
        Self {
            response: response.into(),
            calls: Arc::new(Mutex::new(Vec::new())),
        }
    }

    fn new_with_error(error_message: impl Into<String>) -> Self {
        Self {
            response: format!("ERROR:{}", error_message.into()),
            calls: Arc::new(Mutex::new(Vec::new())),
        }
    }
}

impl AiProvider for MockProvider {
    fn generate_text(&self, prompt: &str) -> Result<String, GenerationError> {
        self.calls.lock().unwrap().push(prompt.to_string());
        if self.response.starts_with("ERROR:") {
            return Err(GenerationError::Other {
                message: self.response[6..].to_string(),
            });
        }
        Ok(self.response.clone())
    }
}

fn no_titles() -> Vec<String> {
    Vec::new()
}

#[test]
fn test_build_prompt() {
    let mock_provider = MockProvider::new("test response");
    let generator = CommitMessageGenerator::new(mock_provider);

    let diff = "--- a/file.rs\n+++ b/file.rs\n@@ -1,3 +1,4 @@\n+fn new_function() {}";
    let branch_name = "feature/user-auth";
    let count = 2;
    let instructions = Some("Focus on security improvements");

    let prompt = generator.build_prompt(diff, branch_name, count, instructions, &no_titles());

    assert!(prompt.contains("Generate 2 commit message(s)"));
    assert!(prompt.contains("Branch name: feature/user-auth"));
    assert!(prompt.contains("Additional context: Focus on security improvements"));
    assert!(prompt.contains("fn new_function() {}"));
    assert!(prompt.contains("Follow the Conventional Commits specification"));
}

#[test]
fn test_build_prompt_without_instructions() {
    let mock_provider = MockProvider::new("test");
    let generator = CommitMessageGenerator::new(mock_provider);

    let prompt = generator.build_prompt("some diff", "main", 1, None, &no_titles());

    assert!(prompt.contains("Generate 1 commit message"));
    assert!(prompt.contains("Branch name: main"));
    assert!(!prompt.contains("Additional context:"));
    assert!(prompt.contains("Provide exactly 1 commit message"));
}

#[test]
fn test_parse_response_single() {
    let mock_provider = MockProvider::new("test response");
    let generator = CommitMessageGenerator::new(mock_provider);

    let response = "feat(auth): implement user authentication";
    let messages = generator.parse_response(response, 1);

    assert_eq!(messages.len(), 1);
    assert_eq!(messages[0], "feat(auth): implement user authentication");
}

#[test]
fn test_parse_response_multiple() {
    let mock_provider = MockProvider::new("test response");
    let generator = CommitMessageGenerator::new(mock_provider);

    let response =
        "1. feat(auth): implement user authentication\n2. fix(ui): correct button alignment";
    let messages = generator.parse_response(response, 2);

    assert_eq!(messages.len(), 2);
    assert_eq!(messages[0], "feat(auth): implement user authentication");
    assert_eq!(messages[1], "fix(ui): correct button alignment");
}

#[test]
fn test_parse_response_with_extra_content() {
    let mock_provider = MockProvider::new("test");
    let generator = CommitMessageGenerator::new(mock_provider);

    let response = "Here are some commit messages:\n\n1. feat(auth): implement login\n2. fix(api): resolve timeout issue\n\nLet me know if you need more!";
    let messages = generator.parse_response(response, 2);

    assert_eq!(messages.len(), 2);
    assert_eq!(messages[0], "feat(auth): implement login");
    assert_eq!(messages[1], "fix(api): resolve timeout issue");
}

#[test]
fn test_parse_response_more_requested_than_available() {
    let mock_provider = MockProvider::new("test");
    let generator = CommitMessageGenerator::new(mock_provider);

    let response = "feat(core): add new feature";
    let messages = generator.parse_response(response, 3);

    assert_eq!(messages.len(), 1);
    assert_eq!(messages[0], "feat(core): add new feature");
}

#[test]
fn test_parse_response_no_conventional_format() {
    let mock_provider = MockProvider::new("test");
    let generator = CommitMessageGenerator::new(mock_provider);

    let response = "This is just a simple message without conventional format";
    let messages = generator.parse_response(response, 1);

    assert_eq!(messages.len(), 1);
    assert_eq!(
        messages[0],
        "This is just a simple message without conventional format"
    );
}

#[test]
fn test_parse_response_empty() {
    let mock_provider = MockProvider::new("test");
    let generator = CommitMessageGenerator::new(mock_provider);

    let response = "";
    let messages = generator.parse_response(response, 1);

    assert_eq!(messages.len(), 0);
}

#[test]
fn test_parse_response_with_unconventional_formats() {
    let mock_provider = MockProvider::new("test");
    let generator = CommitMessageGenerator::new(mock_provider);

    let response = "1) First commit\n2) Second: with colon but not conventional\nrefactor(core): proper format";
    let messages = generator.parse_response(response, 3);

    assert!(messages.contains(&"Second: with colon but not conventional".to_string()));
    assert!(messages.contains(&"refactor(core): proper format".to_string()));
}

#[test]
fn test_generate() {
    let mock_provider = MockProvider::new("feat(test): add new feature");
    let generator = CommitMessageGenerator::new(mock_provider);

    let result = generator.generate("test diff", "main", 1, None, &no_titles());

    assert!(result.is_ok());
    let messages = result.unwrap();
    assert_eq!(messages.len(), 1);
    assert_eq!(messages[0], "feat(test): add new feature");
}

#[test]
fn test_generate_with_provider_error() {
    let mock_provider = MockProvider::new_with_error("provider error");
    let generator = CommitMessageGenerator::new(mock_provider);

    let result = generator.generate("test diff", "main", 1, None, &no_titles());

    assert!(result.is_err());
    assert_eq!(result.unwrap_err().message(), "provider error");
}

#[test]
fn test_generate_multiple_messages() {
    let mock_provider = MockProvider::new(
        "1. feat(ui): add login form\n2. feat(api): implement authentication endpoints",
    );
    let generator = CommitMessageGenerator::new(mock_provider);

    let result = generator.generate(
        "test diff",
        "feature/auth",
        2,
        Some("New auth system"),
        &no_titles(),
    );

    assert!(result.is_ok());
    let messages = result.unwrap();
    assert_eq!(messages.len(), 2);
    assert_eq!(messages[0], "feat(ui): add login form");
    assert_eq!(messages[1], "feat(api): implement authentication endpoints");
}

#[test]
fn test_generate_verifies_prompt_contents() {
    let mock_provider = MockProvider::new("test response");
    let provider_calls = mock_provider.calls.clone();
    let generator = CommitMessageGenerator::new(mock_provider);

    let _ = generator.generate(
        "test diff",
        "feature/test",
        3,
        Some("test instructions"),
        &no_titles(),
    );

    let calls = provider_calls.lock().unwrap();
    assert_eq!(calls.len(), 1);

    let prompt = &calls[0];
    assert!(prompt.contains("Generate 3 commit message(s)"));
    assert!(prompt.contains("Branch name: feature/test"));
    assert!(prompt.contains("Additional context: test instructions"));
    assert!(prompt.contains("test diff"));
}

#[test]
fn test_additional_context_formatting() {
    let mock_provider = MockProvider::new("test");
    let generator = CommitMessageGenerator::new(mock_provider);

    let with_instruction =
        generator.build_prompt("diff", "branch", 1, Some("Test instruction"), &no_titles());
    assert!(with_instruction.contains("Additional context: Test instruction\n\n"));

    let with_special_chars = generator.build_prompt(
        "diff",
        "branch",
        1,
        Some("Test: with! special* chars?"),
        &no_titles(),
    );
    assert!(with_special_chars.contains("Additional context: Test: with! special* chars?\n\n"));

    let with_empty = generator.build_prompt("diff", "branch", 1, Some(""), &no_titles());
    assert!(with_empty.contains("Additional context: \n\n"));
}

#[test]
fn test_message_trimming() {
    let mock_provider = MockProvider::new("test");
    let generator = CommitMessageGenerator::new(mock_provider);

    let response = "  feat(core): trimmed message  ";
    let messages = generator.parse_response(response, 1);
    assert_eq!(messages[0], "feat(core): trimmed message");

    let response = "1. feat(core): first message\n  2)  feat(ui): second message  ";
    let messages = generator.parse_response(response, 2);
    assert_eq!(messages[0], "feat(core): first message");
    assert_eq!(messages[1], "feat(ui): second message");
}

#[test]
fn test_colon_detection() {
    let mock_provider = MockProvider::new("test");
    let generator = CommitMessageGenerator::new(mock_provider);

    let response = "Line without colon\nfeat(core): with colon\nAnother without";
    let messages = generator.parse_response(response, 1);
    assert_eq!(messages[0], "feat(core): with colon");

    let response = "First: has colon\nSecond: also has colon";
    let messages = generator.parse_response(response, 2);
    assert_eq!(messages.len(), 2);
    assert_eq!(messages[0], "First: has colon");
    assert_eq!(messages[1], "Second: also has colon");
}

#[test]
fn test_message_truncation() {
    let mock_provider = MockProvider::new("test");
    let generator = CommitMessageGenerator::new(mock_provider);

    let response = "1. feat(a): first\n2. feat(b): second\n3. feat(c): third\n4. feat(d): fourth";

    let messages = generator.parse_response(response, 2);
    assert_eq!(messages.len(), 2);
    assert_eq!(messages[0], "feat(a): first");
    assert_eq!(messages[1], "feat(b): second");

    let messages = generator.parse_response(response, 4);
    assert_eq!(messages.len(), 4);

    let messages = generator.parse_response(response, 6);
    assert_eq!(messages.len(), 4);
}

#[test]
fn test_generate_returns_correct_messages() {
    let response = "Here are some messages:\n1. feat(a): first message\n2. fix(b): second message";
    let mock_provider = MockProvider::new(response);
    let generator = CommitMessageGenerator::new(mock_provider);

    let result = generator
        .generate("diff", "branch", 2, None, &no_titles())
        .unwrap();
    assert_eq!(result.len(), 2);
    assert_eq!(result[0], "feat(a): first message");
    assert_eq!(result[1], "fix(b): second message");

    let response = "1. feat(a): first\n2. fix(b): second\n3. docs(c): third";
    let mock_provider = MockProvider::new(response);
    let generator = CommitMessageGenerator::new(mock_provider);

    let result = generator
        .generate("diff", "branch", 2, None, &no_titles())
        .unwrap();
    assert_eq!(result.len(), 2);
    assert_eq!(result[0], "feat(a): first");
    assert_eq!(result[1], "fix(b): second");
}

#[test]
fn test_additional_context_line_specific() {
    let mock_provider = MockProvider::new("test");
    let generator = CommitMessageGenerator::new(mock_provider);

    let instructions = "Very specific test";
    let prompt = generator.build_prompt("diff", "branch", 1, Some(instructions), &no_titles());

    let expected_format = format!("Additional context: {}\n\n", instructions);
    assert!(prompt.contains(&expected_format));
}

#[test]
fn test_message_trim_push_specific() {
    let mock_provider = MockProvider::new("test");
    let generator = CommitMessageGenerator::new(mock_provider);

    let response = "1.  feat(test): with extra spaces  ";
    let messages = generator.parse_response(response, 1);

    assert_eq!(messages.len(), 1);
    assert_eq!(messages[0], "feat(test): with extra spaces");

    let response = "1.     lots   of    spaces    ";
    let messages = generator.parse_response(response, 1);
    assert_eq!(messages.len(), 1);
    assert_eq!(messages[0], "lots   of    spaces");

    let response = "1. first: message\n2. second: message";
    let messages = generator.parse_response(response, 2);
    assert_eq!(messages.len(), 2);
    assert_eq!(messages[0], "first: message");
    assert_eq!(messages[1], "second: message");
}

#[test]
fn test_message_truncation_specific() {
    let mock_provider = MockProvider::new("test");
    let generator = CommitMessageGenerator::new(mock_provider);

    let response = "1. first: message\n2. second: message\n3. third: message\n4. fourth: message\n5. fifth: message";

    let messages3 = generator.parse_response(response, 3);
    assert_eq!(messages3.len(), 3);

    let short_response = "1. one: message\n2. two: message";
    let many_requested = generator.parse_response(short_response, 5);
    assert_eq!(many_requested.len(), 2);

    let messages0 = generator.parse_response(response, 0);
    assert_eq!(messages0.len(), 0);
}

#[test]
fn test_return_messages_line118() {
    let mock_provider = MockProvider::new("test");
    let generator = CommitMessageGenerator::new(mock_provider);

    let empty_response = "";
    let empty_messages = generator.parse_response(empty_response, 1);
    assert!(empty_messages.is_empty());

    let valid_response = "feat: something";
    let zero_messages = generator.parse_response(valid_response, 0);
    assert!(zero_messages.is_empty());

    let simple_response = "feat: direct test";
    let messages = generator.parse_response(simple_response, 1);
    assert_eq!(messages, vec!["feat: direct test".to_string()]);
}
