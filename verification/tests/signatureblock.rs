use dropblog::signatureblock::remove;

#[test]
fn test_without_sig() {
    let input = "Dear Alice,\nI hope you are well\n";
    assert_eq!(input.to_string(), remove(input.to_string()));
}

#[test]
fn test_with_rfc3676_sig() {
    let input = "Dear Alice,\nI hope you are well\n-- \nEddie\nyour shipboard computer";
    assert_eq!(
        "Dear Alice,\nI hope you are well\n".to_string(),
        remove(input.to_string())
    );
}

#[test]
fn test_with_missing_space_sig() {
    let input = "Dear Alice,\nI hope you are well\n--\nEddie\nyour shipboard computer";
    assert_eq!(
        "Dear Alice,\nI hope you are well\n".to_string(),
        remove(input.to_string())
    );
}

#[test]
fn test_remove_is_idempotent_on_samples() {
    let samples = [
        "",
        "plain text",
        "first\n-- \nsig",
        "--\neverything is signature",
        "a\nb\n--",
        "a\nb\n-- ",
        "keep -- inline dashes\nbut\n-- \ndrop this",
        "hello\n--wave\nbye",
    ];
    for s in samples {
        let once = remove(s.to_string());
        let twice = remove(once.clone());
        assert_eq!(once, twice);
    }
}

#[test]
fn test_remove_only_at_line_start() {
    let input = "a line with -- in the middle\nstays\n";
    assert_eq!(input.to_string(), remove(input.to_string()));
}

#[test]
fn test_remove_needs_the_exact_delimiter_line() {
    // A line that merely begins with two dashes is not the delimiter.
    let input = "hello\n--wave\nbye";
    assert_eq!(input.to_string(), remove(input.to_string()));
    let dashes = "hello\n---\nbye";
    assert_eq!(dashes.to_string(), remove(dashes.to_string()));
    let spaced = "hello\n--  two spaces\nbye";
    assert_eq!(spaced.to_string(), remove(spaced.to_string()));
}

#[test]
fn test_remove_delimiter_at_end_of_text() {
    assert_eq!("a\nb\n".to_string(), remove("a\nb\n--".to_string()));
    assert_eq!("a\nb\n".to_string(), remove("a\nb\n-- ".to_string()));
}
