//! Tokens: what they are asked, and how they are copied.

use rs_envflag::scan::{drain, queue};
use rs_envflag::token::{duplicate_all, emit, emit_all};
use rs_envflag::{Delimiter, Spacing, Token};
use std::collections::VecDeque;

fn id(name: &str) -> Token {
    Token::Ident(name.to_string())
}

fn p(ch: char) -> Token {
    Token::Punct(ch, Spacing::Alone)
}

fn lit(spelling: &str) -> Token {
    Token::Literal(spelling.to_string())
}

fn nested() -> Token {
    Token::Group(
        Delimiter::Parenthesis,
        vec![
            id("a"),
            Token::Group(Delimiter::Bracket, vec![lit("1"), p(','), Token::Quoted("two".to_string())]),
            Token::Group(Delimiter::Brace, vec![]),
            Token::Punct('-', Spacing::Joint),
            p('>'),
        ],
    )
}

#[test]
fn ident_and_quoted_hold_their_text() {
    assert_eq!(Token::ident("name"), Token::Ident("name".to_string()));
    assert_eq!(Token::ident(""), Token::Ident(String::new()));
    assert_eq!(Token::quoted("some text"), Token::Quoted("some text".to_string()));
    assert_ne!(Token::quoted("name"), Token::ident("name"));
    assert_ne!(Token::quoted("name"), lit("name"));
}

#[test]
fn is_punct_looks_at_the_character_only() {
    assert!(p(':').is_punct(':'));
    assert!(Token::Punct(':', Spacing::Joint).is_punct(':'));
    assert!(!p(':').is_punct(';'));
    assert!(!id(":").is_punct(':'));
    assert!(!lit(":").is_punct(':'));
    assert!(!Token::Group(Delimiter::Invisible, vec![p(':')]).is_punct(':'));
}

#[test]
fn is_ident_compares_the_whole_text() {
    assert!(id("Option").is_ident("Option"));
    assert!(!id("Option").is_ident("option"));
    assert!(!id("Option").is_ident("Optio"));
    assert!(!id("Option").is_ident("Options"));
    assert!(!id("").is_ident("Option"));
    assert!(id("").is_ident(""));
    assert!(!lit("Option").is_ident("Option"));
    assert!(!Token::quoted("Option").is_ident("Option"));
    assert!(!p('O').is_ident("O"));
}

#[test]
fn is_string_literal_goes_by_how_the_spelling_opens() {
    for spelling in ["\"\"", "\"text\"", "r\"raw\"", "r#\"raw\"#", "r##\"raw\"##", "\"4\""] {
        assert!(lit(spelling).is_string_literal(), "{}", spelling);
    }
    for spelling in ["", "4", "4.2", "'c'", "b\"bytes\"", "br\"bytes\"", "c\"text\"", "r", "rx\"", "true", "0x1f"] {
        assert!(!lit(spelling).is_string_literal(), "{}", spelling);
    }
    assert!(Token::quoted("").is_string_literal());
    assert!(Token::quoted("4").is_string_literal());
    assert!(!id("\"text\"").is_string_literal());
    assert!(!p('"').is_string_literal());
    assert!(!Token::Group(Delimiter::Invisible, vec![lit("\"text\"")]).is_string_literal());
}

#[test]
fn duplicate_copies_a_token_with_all_inside_it() {
    for token in [id("x"), p(';'), Token::Punct('\'', Spacing::Joint), lit("4.2"), Token::quoted("q"), nested()] {
        assert_eq!(token.duplicate(), token);
        assert_eq!(token.clone(), token);
    }
}

#[test]
fn duplicate_all_keeps_the_order() {
    let tokens = vec![id("b"), nested(), id("a"), p(','), id("a")];
    assert_eq!(duplicate_all(&tokens), tokens);
    assert_eq!(duplicate_all(&vec![]), vec![]);
}

#[test]
fn emit_appends() {
    let mut out = vec![id("a")];
    emit(&mut out, nested());
    emit(&mut out, p(';'));
    assert_eq!(out, vec![id("a"), nested(), p(';')]);
    emit_all(&mut out, &vec![id("x"), id("y")]);
    emit_all(&mut out, &vec![]);
    assert_eq!(out, vec![id("a"), nested(), p(';'), id("x"), id("y")]);
}

#[test]
fn queue_and_drain_keep_the_order() {
    let tokens = vec![id("first"), nested(), p(','), id("last")];
    let queued = queue(duplicate_all(&tokens));
    assert_eq!(queued, tokens.iter().map(|t| t.duplicate()).collect::<VecDeque<Token>>());
    assert_eq!(queued.front(), Some(&id("first")));
    assert_eq!(drain(queued), tokens);
    assert_eq!(drain(queue(vec![])), vec![]);
}
