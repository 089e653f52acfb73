use c_lexer::classify::{is_blank, is_digit, is_leading_digit, is_letter, keyword, punctuation};
use c_lexer::decimal::{parse_decimal, push_numeral, push_signed_numeral};
use c_lexer::text::push_chars;
use c_lexer::{SyntaxError, Token};

fn chars(text: &str) -> Vec<char> {
    text.chars().collect()
}

#[test]
fn blanks_are_space_and_newline() {
    assert!(is_blank(' '));
    assert!(is_blank('\n'));
    assert!(!is_blank('\t'));
    assert!(!is_blank('\r'));
    assert!(!is_blank('\u{a0}'));
    assert!(!is_blank('a'));
}

#[test]
fn digits_are_ascii() {
    for c in '0'..='9' {
        assert!(is_digit(c));
    }
    assert!(!is_digit('/'));
    assert!(!is_digit(':'));
    assert!(!is_digit('a'));
    assert!(!is_digit('٣'));
}

#[test]
fn leading_digits_leave_zero_out() {
    assert!(!is_leading_digit('0'));
    for c in '1'..='9' {
        assert!(is_leading_digit(c));
    }
    assert!(!is_leading_digit(':'));
}

#[test]
fn letters_are_ascii_of_either_case() {
    for c in 'a'..='z' {
        assert!(is_letter(c));
    }
    for c in 'A'..='Z' {
        assert!(is_letter(c));
    }
    assert!(!is_letter('@'));
    assert!(!is_letter('['));
    assert!(!is_letter('`'));
    assert!(!is_letter('{'));
    assert!(!is_letter('_'));
    assert!(!is_letter('1'));
    assert!(!is_letter('é'));
}

#[test]
fn punctuation_table() {
    assert_eq!(punctuation('+'), Some(Token::Plus));
    assert_eq!(punctuation('-'), Some(Token::Dash));
    assert_eq!(punctuation('*'), Some(Token::Star));
    assert_eq!(punctuation('/'), Some(Token::Slash));
    assert_eq!(punctuation('('), Some(Token::LeftParen));
    assert_eq!(punctuation(')'), Some(Token::RightParen));
    assert_eq!(punctuation('{'), Some(Token::LeftBrace));
    assert_eq!(punctuation('}'), Some(Token::RightBrace));
    assert_eq!(punctuation(';'), Some(Token::Semicolon));
    assert_eq!(punctuation('='), None);
    assert_eq!(punctuation(','), None);
    assert_eq!(punctuation('['), None);
    assert_eq!(punctuation(' '), None);
    assert_eq!(punctuation('a'), None);
}

#[test]
fn keyword_table() {
    assert_eq!(keyword(&chars("int")), Some(Token::IntKeyword));
    assert_eq!(keyword(&chars("main")), Some(Token::Main));
    assert_eq!(keyword(&chars("return")), Some(Token::Return));
    assert_eq!(keyword(&chars("foo")), None);
    assert_eq!(keyword(&chars("")), None);
    assert_eq!(keyword(&chars("INT")), None);
    assert_eq!(keyword(&chars("inт")), None);
    assert_eq!(keyword(&chars("mai")), None);
    assert_eq!(keyword(&chars("mains")), None);
    assert_eq!(keyword(&chars("retur")), None);
    assert_eq!(keyword(&chars("void")), None);
}

#[test]
fn parse_decimal_values() {
    assert_eq!(parse_decimal(&chars("0")), Some(0));
    assert_eq!(parse_decimal(&chars("7")), Some(7));
    assert_eq!(parse_decimal(&chars("123")), Some(123));
    assert_eq!(parse_decimal(&chars("007")), Some(7));
    assert_eq!(parse_decimal(&chars("9223372036854775807")), Some(9223372036854775807));
    assert_eq!(parse_decimal(&chars("09223372036854775807")), Some(9223372036854775807));
}

#[test]
fn parse_decimal_refuses() {
    assert_eq!(parse_decimal(&chars("")), None);
    assert_eq!(parse_decimal(&chars("9223372036854775808")), None);
    assert_eq!(parse_decimal(&chars("92233720368547758070")), None);
    assert_eq!(parse_decimal(&chars("12a")), None);
    assert_eq!(parse_decimal(&chars("-1")), None);
    assert_eq!(parse_decimal(&chars("+1")), None);
    assert_eq!(parse_decimal(&chars("1 ")), None);
    assert_eq!(parse_decimal(&chars("99999999999999999999x")), None);
}

#[test]
fn push_numeral_appends_base_ten() {
    let mut text = String::from("n=");
    push_numeral(&mut text, 0);
    assert_eq!(text, "n=0");
    push_numeral(&mut text, 9);
    assert_eq!(text, "n=09");
    push_numeral(&mut text, 10);
    assert_eq!(text, "n=0910");
    let mut text = String::new();
    push_numeral(&mut text, 18446744073709551615);
    assert_eq!(text, "18446744073709551615");
}

#[test]
fn push_signed_numeral_appends_the_sign() {
    let mut text = String::new();
    push_signed_numeral(&mut text, -1);
    assert_eq!(text, "-1");
    push_signed_numeral(&mut text, 0);
    assert_eq!(text, "-10");
    let mut text = String::new();
    push_signed_numeral(&mut text, i64::MIN);
    assert_eq!(text, "-9223372036854775808");
    let mut text = String::new();
    push_signed_numeral(&mut text, i64::MAX);
    assert_eq!(text, "9223372036854775807");
}

#[test]
fn push_chars_appends_in_order() {
    let mut text = String::from("ab");
    push_chars(&mut text, &['c', 'd', 'é']);
    assert_eq!(text, "abcdé");
    push_chars(&mut text, &[]);
    assert_eq!(text, "abcdé");
}

#[test]
fn render_names() {
    assert_eq!(Token::Plus.render(), "PLUS");
    assert_eq!(Token::Dash.render(), "DASH");
    assert_eq!(Token::Star.render(), "STAR");
    assert_eq!(Token::Slash.render(), "SLASH");
    assert_eq!(Token::LeftParen.render(), "L_PAREN");
    assert_eq!(Token::RightParen.render(), "R_PAREN");
    assert_eq!(Token::LeftBrace.render(), "L_BRACE");
    assert_eq!(Token::RightBrace.render(), "R_BRACE");
    assert_eq!(Token::Semicolon.render(), "SEMICOLON");
    assert_eq!(Token::IntKeyword.render(), "INT");
    assert_eq!(Token::Main.render(), "MAIN");
    assert_eq!(Token::Return.render(), "RETURN");
    assert_eq!(Token::Eof.render(), "EOF");
}

#[test]
fn render_numbers() {
    assert_eq!(Token::Number(2).render(), "NUMBER 2");
    assert_eq!(Token::Number(0).render(), "NUMBER 0");
    assert_eq!(Token::Number(1234567890).render(), "NUMBER 1234567890");
    assert_eq!(Token::Number(-17).render(), "NUMBER -17");
    assert_eq!(Token::Number(i64::MAX).render(), "NUMBER 9223372036854775807");
    assert_eq!(Token::Number(i64::MIN).render(), "NUMBER -9223372036854775808");
}

#[test]
fn render_agrees_with_the_standard_formatting() {
    for value in [0i64, 5, -5, 10, 99, 100, -100, 4096, i64::MAX, i64::MIN, i64::MIN + 1] {
        assert_eq!(Token::Number(value).render(), format!("NUMBER {}", value));
    }
}

#[test]
fn new_error_keeps_the_message() {
    let error = SyntaxError::new("anything at all".to_string());
    assert_eq!(error.message, "anything at all");
    assert_eq!(SyntaxError::new(String::new()).message, "");
}

#[test]
fn error_messages() {
    assert_eq!(SyntaxError::unrecognized_character('@').message, "unrecognized character @");
    assert_eq!(SyntaxError::unrecognized_character(' ').message, "unrecognized character  ");
    assert_eq!(SyntaxError::unrecognized_string(&chars("foo")).message, "unrecognized string foo");
    assert_eq!(SyntaxError::unrecognized_string(&[]).message, "unrecognized string ");
    assert_eq!(
        SyntaxError::number_out_of_range(&chars("9223372036854775808")).message,
        "number out of range 9223372036854775808"
    );
}
