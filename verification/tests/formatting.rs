use occasion::formatting::{Parser, Token};

#[test]
fn test_tokenizer() {
    let test = "hi :3 (this is part of a format string (and another)[underline] )[bold] and this is not".to_string();
    let result = Parser::tokenize(test);
    assert_eq!(
        result.tokens,
        [
            Token::Literal("hi :3 ".to_string()),
            Token::OpenContent,
            Token::Literal("this is part of a format string ".to_string()),
            Token::OpenContent,
            Token::Literal("and another".to_string()),
            Token::CloseContent,
            Token::OpenStyle,
            Token::Literal("underline".to_string()),
            Token::CloseStyle,
            Token::Literal(" ".to_string()),
            Token::CloseContent,
            Token::OpenStyle,
            Token::Literal("bold".to_string()),
            Token::CloseStyle,
            Token::Literal(" and this is not".to_string())
        ]
    )
}

#[test]
fn test_tokenizer_escaped() {
    let test = "hi :3 (this is part of a format string (and another)[underline] )[bold] and this is not \\(this is escaped\\)".to_string();
    let result = Parser::tokenize(test).tokens;
    assert_eq!(
        result,
        [
            Token::Literal("hi :3 ".to_string()),
            Token::OpenContent,
            Token::Literal("this is part of a format string ".to_string()),
            Token::OpenContent,
            Token::Literal("and another".to_string()),
            Token::CloseContent,
            Token::OpenStyle,
            Token::Literal("underline".to_string()),
            Token::CloseStyle,
            Token::Literal(" ".to_string()),
            Token::CloseContent,
            Token::OpenStyle,
            Token::Literal("bold".to_string()),
            Token::CloseStyle,
            Token::Literal(" and this is not (this is escaped)".to_string())
        ]
    )
}

#[test]
fn tokenizer_empty_input_has_no_tokens() {
    assert!(Parser::tokenize(String::new()).tokens.is_empty());
}

#[test]
fn tokenizer_escaped_backslash_is_literal() {
    let result = Parser::tokenize("a\\\\b\\".to_string());
    assert_eq!(result.tokens, [Token::Literal("a\\b".to_string())]);
    assert_eq!(result.pos, 0);
}

#[test]
fn tokenizer_adjacent_brackets() {
    let result = Parser::tokenize("()[]".to_string());
    assert_eq!(
        result.tokens,
        [Token::OpenContent, Token::CloseContent, Token::OpenStyle, Token::CloseStyle]
    );
}
