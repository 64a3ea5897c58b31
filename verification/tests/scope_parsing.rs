use oauth_server::scope::{is_valid_scope, parse_scopes, ParseError, Scope, Scopes};

fn parse(text: &str) -> Result<Option<Scopes>, ParseError> {
    parse_scopes(Some(&text.to_string()))
}

fn scopes(names: &[&str]) -> Scopes {
    Scopes(names.iter().map(|name| Scope::from(*name)).collect())
}

#[test]
fn absent_scope_is_no_scope() {
    assert_eq!(parse_scopes(None), Ok(None));
}

#[test]
fn empty_scope_is_rejected() {
    assert_eq!(parse(""), Err(ParseError::Empty));
}

#[test]
fn blank_scope_is_rejected() {
    assert_eq!(parse(" "), Err(ParseError::Blank));
    assert_eq!(parse("   "), Err(ParseError::Blank));
    assert_eq!(parse("\t \n"), Err(ParseError::Blank));
    assert_eq!(parse("\u{3000}"), Err(ParseError::Blank));
}

#[test]
fn three_known_scopes_are_accepted() {
    let parsed = parse("basic read write").unwrap().unwrap();
    assert_eq!(parsed, scopes(&["basic", "read", "write"]));
    assert_eq!(parsed.0.len(), 3);
    assert!(parsed.contains(&Scope::from("basic")));
    assert!(parsed.contains(&Scope::from("read")));
    assert!(parsed.contains(&Scope::from("write")));
}

#[test]
fn one_known_scope_is_accepted() {
    assert_eq!(parse("basic"), Ok(Some(scopes(&["basic"]))));
    assert_eq!(parse("write"), Ok(Some(scopes(&["write"]))));
}

fn names(scopes: &Scopes) -> Vec<&str> {
    scopes.0.iter().map(|scope| scope.name.as_str()).collect()
}

#[test]
fn scopes_keep_the_order_of_the_request() {
    assert_eq!(names(&parse("write basic").unwrap().unwrap()), vec!["write", "basic"]);
    assert_eq!(names(&parse("basic read write").unwrap().unwrap()), vec!["basic", "read", "write"]);
    assert_eq!(parse("write basic").unwrap().unwrap().to_space_delimited(), "write basic");
}

#[test]
fn scopes_are_equal_whatever_their_order() {
    assert_eq!(scopes(&["write", "basic"]), scopes(&["basic", "write"]));
    assert_eq!(scopes(&["basic", "basic"]), scopes(&["basic"]));
    assert_eq!(scopes(&[]), scopes(&[]));
    assert_ne!(scopes(&["write", "basic"]), scopes(&["basic"]));
    assert_ne!(scopes(&["basic"]), scopes(&["basic", "read"]));
    assert_ne!(scopes(&["read"]), scopes(&["write"]));
    assert_ne!(Scope::from("read"), Scope::from("write"));
}

#[test]
fn unknown_scope_is_rejected() {
    assert_eq!(parse("basic unknown"), Err(ParseError::Invalid));
    assert_eq!(parse("unknown"), Err(ParseError::Invalid));
    assert_eq!(parse("Basic"), Err(ParseError::Invalid));
    assert_eq!(parse("basic,read"), Err(ParseError::Invalid));
}

#[test]
fn repeated_scope_is_rejected() {
    assert_eq!(parse("basic basic"), Err(ParseError::Duplicated));
    assert_eq!(parse("read basic read"), Err(ParseError::Duplicated));
}

#[test]
fn an_unknown_scope_outweighs_a_repeated_one() {
    assert_eq!(parse("basic basic unknown"), Err(ParseError::Invalid));
    assert_eq!(parse("unknown basic basic"), Err(ParseError::Invalid));
}

#[test]
fn spaces_between_scopes_are_dropped() {
    assert_eq!(parse("  basic   read "), Ok(Some(scopes(&["basic", "read"]))));
}

#[test]
fn whitespace_around_a_scope_is_trimmed() {
    assert_eq!(parse("\tbasic\n read\r\n"), Ok(Some(scopes(&["basic", "read"]))));
    assert_eq!(parse("\u{a0}write\u{2003}"), Ok(Some(scopes(&["write"]))));
}

#[test]
fn whitespace_other_than_a_space_does_not_separate() {
    assert_eq!(parse("basic\tread"), Err(ParseError::Invalid));
    assert_eq!(parse("basic\nread"), Err(ParseError::Invalid));
}

#[test]
fn parse_errors_have_words() {
    assert_eq!(ParseError::Empty.message(), "defined but empty scopes");
    assert_eq!(ParseError::Blank.message(), "defined but blank scopes");
    assert_eq!(ParseError::Invalid.message(), "defined but invalid scope provided");
    assert_eq!(ParseError::Duplicated.message(), "defined but duplicated scope provided");
}

#[test]
fn known_scope_names() {
    assert!(is_valid_scope("basic"));
    assert!(is_valid_scope("read"));
    assert!(is_valid_scope("write"));
    assert!(!is_valid_scope("Basic"));
    assert!(!is_valid_scope("basi"));
    assert!(!is_valid_scope("basics"));
    assert!(!is_valid_scope(" basic"));
    assert!(!is_valid_scope(""));
}

#[test]
fn parsing_agrees_with_splitting_and_trimming() {
    let samples = [
        "basic", " basic", "basic ", "basic  read", "read\twrite", "\u{2028}read write\u{85}",
        " \t ", "write write", "basic read write", "basic read write admin", "  ", "a b c",
    ];
    for sample in samples {
        let tokens: Vec<&str> = sample.split(' ').map(|s| s.trim()).filter(|s| !s.is_empty()).collect();
        let expected = if tokens.is_empty() {
            Err(ParseError::Blank)
        } else if tokens.iter().any(|token| !["basic", "read", "write"].contains(token)) {
            Err(ParseError::Invalid)
        } else if (1..tokens.len()).any(|i| tokens[..i].contains(&tokens[i])) {
            Err(ParseError::Duplicated)
        } else {
            Ok(Some(scopes(&tokens)))
        };
        assert_eq!(parse(sample), expected, "for {:?}", sample);
    }
}

#[test]
fn scopes_are_joined_by_single_spaces() {
    assert_eq!(scopes(&[]).to_space_delimited(), "");
    assert_eq!(scopes(&["basic"]).to_space_delimited(), "basic");
    assert_eq!(scopes(&["basic", "read", "write"]).to_space_delimited(), "basic read write");
}

#[test]
fn scopes_know_what_they_hold() {
    let held = scopes(&["basic", "read"]);
    assert!(held.contains(&Scope::from("read")));
    assert!(!held.contains(&Scope::from("write")));
}

#[test]
fn a_scope_is_made_from_any_string() {
    assert_eq!(Scope::from("basic").name, "basic");
    assert_eq!(Scope::from(String::from("read")).name, "read");
    assert_eq!(Scope::from(&String::from("write")).name, "write");
    assert_eq!(Scope::from("basic").clone(), Scope::from("basic"));
}
