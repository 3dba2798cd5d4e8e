use zpp::enums::token_type::TokenType;
use zpp::lexer::Lexer;
use zpp::parser::error::{ParserError, ParserErrorBuilder, ParserErrorCode};
use zpp::parser::Parser;
use zpp::token::Token;

type TestResult<T> = std::result::Result<T, ParserError>;

#[test]
fn test_parser_error_display() {
    let error = ParserError::new(
        ParserErrorCode::UnexpectedToken,
        "Unexpected token".to_string(),
        None,
        None,
        None,
    );
    assert_eq!(
        error.to_string(),
        "Error(UnexpectedToken): Unexpected token"
    );
}

#[test]
fn test_parser_error_builder() {
    let token = Token {
        t: TokenType::INT,
        value: "42".to_string(),
        line: Some(1),
        position: Some(2),
        filename: Some("example.rs".to_string()),
    };

    let error = ParserErrorBuilder::new(ParserErrorCode::UnexpectedToken, "Unexpected token")
        .with_token(token.clone())
        .build();

    assert_eq!(error.code(), &ParserErrorCode::UnexpectedToken);
    assert_eq!(error.message(), "Unexpected token");
    assert_eq!(error.token(), Some(&token));
    assert_eq!(error.at(), Some(1));
    assert_eq!(error.to(), None);
}

#[test]
fn test_parser_error_methods() {
    let token = Token {
        t: TokenType::IDENT,
        value: "foo".to_string(),
        line: Some(1),
        position: Some(2),
        filename: Some("example.rs".to_string()),
    };

    let mut error = ParserError::new(
        ParserErrorCode::UnexpectedToken,
        "Unexpected token".to_string(),
        Some(token.clone()),
        Some(3),
        Some(5),
    );

    error.set_code(ParserErrorCode::InvalidExpression);
    assert_eq!(error.code(), &ParserErrorCode::InvalidExpression);

    error.set_message("Invalid expression".to_string());
    assert_eq!(error.message(), "Invalid expression");

    let new_token = Token {
        t: TokenType::ASSIGN,
        value: "=".to_string(),
        line: Some(2),
        position: Some(4),
        filename: Some("example.rs".to_string()),
    };
    error.set_token(Some(new_token.clone()));
    assert_eq!(error.token(), Some(&new_token));

    error.set_at(Some(6));
    assert_eq!(error.at(), Some(6));

    error.set_to(Some(8));
    assert_eq!(error.to(), Some(8));
}

#[test]
fn test_test_result_ok() {
    let value = 42;
    let result: TestResult<i32> = Ok(value);

    assert!(result.is_ok());
    assert_eq!(result.unwrap(), value);
}

#[test]
fn test_test_result_err() {
    let error_message = "An error occurred";
    let result: TestResult<i32> = Err(ParserError::new(
        ParserErrorCode::InvalidExpression,
        error_message.to_string(),
        None,
        None,
        None,
    ));

    assert!(result.is_err());
    let err = result.unwrap_err();
    assert_eq!(err.to_string(), format!("Error(InvalidExpression): {}", error_message));
    assert_eq!(
        err,
        ParserError::new(
            ParserErrorCode::InvalidExpression,
            error_message.to_string(),
            None,
            None,
            None,
        )
    );
}

#[test]
fn test_result_conversion() {
    let value = 42;
    let ok_result: Result<i32, ParserError> = Ok(value);
    let converted_result: TestResult<i32> = match ok_result {
        Ok(value) => Ok(value),
        Err(err) => Err(err),
    };

    assert!(converted_result.is_ok());
    assert_eq!(converted_result.unwrap(), value);

    let error_message = "An error occurred";
    let err_result: Result<i32, ParserError> = Err(ParserError::new(
        ParserErrorCode::InvalidExpression,
        error_message.to_string(),
        None,
        None,
        None,
    ));
    let converted_result: TestResult<i32> = match err_result {
        Ok(value) => Ok(value),
        Err(err) => Err(err),
    };

    assert!(converted_result.is_err());
    let err = converted_result.unwrap_err();
    assert_eq!(err.to_string(), format!("Error(InvalidExpression): {}", error_message));
    assert_eq!(
        err,
        ParserError::new(
            ParserErrorCode::InvalidExpression,
            error_message.to_string(),
            None,
            None,
            None,
        )
    );
}

#[test]
fn test_parse_success() {
    let code = "let x = 5;";
    let lexer = Lexer::new(code.chars().collect());
    let mut parser = Parser::new(lexer);
    let result = parser.parse();

    assert!(result.is_ok());
    let program = result.unwrap();
    assert_eq!(program.statements.len(), 1);
}

#[test]
fn test_parse_error() {
    let code = "let x 5;";
    let lexer = Lexer::new(code.chars().collect());
    let mut parser = Parser::new(lexer);
    let result = parser.parse();

    assert!(result.is_err());
}
