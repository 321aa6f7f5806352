use shell_starter_rust::tokenizer::{parse_args, TokenizeError};

fn ok(line: &str) -> Vec<String> {
    parse_args(line).expect("line should tokenize")
}

#[test]
fn single_quotes_keep_spaces() {
    assert_eq!(ok("'shell hello'"), vec!["shell hello"]);
    assert_eq!(ok("'world     test'"), vec!["world     test"]);
    assert_eq!(
        ok("'/tmp/file name' '/tmp/file name with spaces' "),
        vec!["/tmp/file name", "/tmp/file name with spaces"]
    );
}

#[test]
fn quoted_and_plain_arguments() {
    assert_eq!(ok("'a b' c"), vec!["a b", "c"]);
    assert_eq!(ok("a b c 'd '"), vec!["a", "b", "c", "d "]);
}

#[test]
fn empty_line_gives_no_arguments() {
    assert_eq!(ok(""), Vec::<String>::new());
    assert_eq!(ok("   \t "), Vec::<String>::new());
}

#[test]
fn empty_quotes_give_an_empty_argument() {
    assert_eq!(ok("''"), vec![""]);
    assert_eq!(ok("\"\""), vec![""]);
    assert_eq!(ok("a '' b"), vec!["a", "", "b"]);
}

#[test]
fn whitespace_collapses() {
    assert_eq!(ok("world     test"), vec!["world", "test"]);
    assert_eq!(ok("  lead\ttrail  "), vec!["lead", "trail"]);
}

#[test]
fn escaped_spaces_outside_quotes() {
    assert_eq!(ok("world\\ \\ script"), vec!["world  script"]);
    assert_eq!(ok(r"world\ \ \ \ \ \ script"), vec!["world      script"]);
}

#[test]
fn backslash_outside_quotes_takes_next_char() {
    assert_eq!(ok(r"a\nb"), vec!["anb"]);
    assert_eq!(ok(r"\'x\'"), vec!["'x'"]);
}

#[test]
fn trailing_backslash_is_dropped() {
    assert_eq!(ok("abc\\"), vec!["abc"]);
    assert_eq!(ok("\\"), Vec::<String>::new());
}

#[test]
fn double_quote_escape_set() {
    assert_eq!(ok("\"a\\nb\""), vec!["a\\nb"]);
    assert_eq!(ok("\"a\\\\b\""), vec!["a\\b"]);
    assert_eq!(ok("\"a\\$b\""), vec!["a$b"]);
    assert_eq!(ok("\"a\\`b\""), vec!["a`b"]);
    assert_eq!(ok("\"a\\\"b\""), vec!["a\"b"]);
}

#[test]
fn double_quotes_keep_other_backslashes() {
    assert_eq!(ok("\"before\\  after\""), vec![r"before\  after"]);
    assert_eq!(
        ok("\"/tmp/file\\name\" \"/tmp/file\\ name\""),
        vec![r"/tmp/file\name", r"/tmp/file\ name"]
    );
}

#[test]
fn single_quotes_are_literal() {
    assert_eq!(ok(r"'shell\\\nscript'"), vec![r"shell\\\nscript"]);
    assert_eq!(
        ok("'example\\\"testhello\\\"shell'"),
        vec!["example\\\"testhello\\\"shell"]
    );
}

#[test]
fn mixed_quotes() {
    assert_eq!(
        ok("\"hello'script'\\\\n'world\""),
        vec![r"hello'script'\n'world"]
    );
    assert_eq!(
        ok("\"example\\\"insidequotes\"hello\\\""),
        vec!["example\"insidequoteshello\""]
    );
    assert_eq!(
        ok("\"example\\\"inside\"test\\\""),
        vec!["example\"insidetest\""]
    );
    assert_eq!(
        ok("\"mixed\\\"quote'example'\\\\\""),
        vec!["mixed\"quote'example'\\"]
    );
}

#[test]
fn adjacent_segments_concatenate() {
    assert_eq!(ok("a\"b\"c"), vec!["abc"]);
    assert_eq!(ok("'a'\"b\"c d"), vec!["abc", "d"]);
}

#[test]
fn unterminated_quotes_fail() {
    assert_eq!(parse_args("'abc"), Err(TokenizeError::UnterminatedQuote));
    assert_eq!(parse_args("\"abc"), Err(TokenizeError::UnterminatedQuote));
    assert_eq!(parse_args("ok 'abc"), Err(TokenizeError::UnterminatedQuote));
    assert_eq!(parse_args("\"abc\\\""), Err(TokenizeError::UnterminatedQuote));
    assert_eq!(parse_args("\"abc\\"), Err(TokenizeError::UnterminatedQuote));
}

#[test]
fn tokenizing_twice_gives_the_same_arguments() {
    let line = "echo 'a  b' \"c\\$d\" e\\ f";
    assert_eq!(parse_args(line), parse_args(line));
    assert_eq!(ok(line), vec!["echo", "a  b", "c$d", "e f"]);
}
