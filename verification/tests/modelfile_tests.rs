use ollama_buildpack::modelfile::base_model_from_lines;
use ollama_buildpack::modelfile::directive_line_argument;

fn b(s: &str) -> Vec<u8> {
    s.as_bytes().to_vec()
}

#[test]
fn first_from_line_wins_case_insensitively() {
    let lines = vec![b("COMMENT x"), b("from  my-base-model"), b("FROM other")];
    assert_eq!(base_model_from_lines(&lines), Some(b("my-base-model")));
}

#[test]
fn no_from_line_is_not_found() {
    let lines = vec![b("COMMENT x"), b("PARAMETER temperature 1")];
    assert_eq!(base_model_from_lines(&lines), None);
}

#[test]
fn empty_file_is_not_found() {
    let lines: Vec<Vec<u8>> = vec![];
    assert_eq!(base_model_from_lines(&lines), None);
}

#[test]
fn line_without_separator_is_skipped_not_fatal() {
    let lines = vec![b("FROM"), b("FROM llama3")];
    assert_eq!(base_model_from_lines(&lines), Some(b("llama3")));
}

#[test]
fn single_from_line() {
    let lines = vec![b("FROM llama3")];
    assert_eq!(base_model_from_lines(&lines), Some(b("llama3")));
}

#[test]
fn directive_argument_is_trimmed() {
    assert_eq!(directive_line_argument(&b("FROM   spaced-model  ")), Some(b("spaced-model")));
    assert_eq!(directive_line_argument(&b("from llama3\r")), Some(b("llama3")));
}

#[test]
fn other_keywords_contribute_nothing() {
    assert_eq!(directive_line_argument(&b("FROMX llama3")), None);
    assert_eq!(directive_line_argument(&b("PARAMETER x")), None);
    assert_eq!(directive_line_argument(&b("")), None);
    assert_eq!(directive_line_argument(&b("FROM")), None);
}

#[test]
fn mixed_case_keyword_matches() {
    assert_eq!(directive_line_argument(&b("FrOm llama3")), Some(b("llama3")));
}
