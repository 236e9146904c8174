use strutils::str_shlsplit::ShlSplitError;
use strutils::InputValue;
use strutils::StrDedent;
use strutils::StrIndent;
use strutils::StrShlQuote;
use strutils::StrShlSplit;
use strutils::StrSlug;
use strutils::StrWrap;
use strutils::StrutilsPlugin;

#[test]
fn test_basic_slugification() {
    let input = InputValue::Text("Hello World".to_string());
    let expected = "hello-world";

    match StrSlug.run(&input) {
        Ok(val) => assert_eq!(val, expected),
        _ => panic!("Expected string value"),
    }
}

#[test]
fn test_special_characters() {
    let input = InputValue::Text("User@example.com".to_string());
    let expected = "user-example-com";

    match StrSlug.run(&input) {
        Ok(val) => assert_eq!(val, expected),
        _ => panic!("Expected string value"),
    }
}

#[test]
fn test_multiple_hyphens() {
    let input = InputValue::Text("test--it   now!".to_string());
    let expected = "test-it-now";

    match StrSlug.run(&input) {
        Ok(val) => assert_eq!(val, expected),
        _ => panic!("Expected string value"),
    }
}

#[test]
fn test_leading_trailing_hyphens() {
    let input = InputValue::Text("  --test_-_cool".to_string());
    let expected = "test-cool";

    match StrSlug.run(&input) {
        Ok(val) => assert_eq!(val, expected),
        _ => panic!("Expected string value"),
    }
}

#[test]
fn test_unicode_characters() {
    let input = InputValue::Text("Æúű--cool?".to_string());
    let expected = "aeuu-cool";

    match StrSlug.run(&input) {
        Ok(val) => assert_eq!(val, expected),
        _ => panic!("Expected string value"),
    }
}

#[test]
fn dedent_removes_common_leading_whitespace() {
    let input = InputValue::Text("    first\n      second\n    third\n".to_string());
    let out = StrDedent.run(&input).unwrap();
    assert_eq!(out, "first\n  second\nthird\n");
}

#[test]
fn indent_prefixes_each_line() {
    let input = InputValue::Text("First line.\nSecond line.\n".to_string());
    let out = StrIndent.run(&input, "1111").unwrap();
    assert_eq!(out, "1111First line.\n1111Second line.\n");
}

#[test]
fn wrap_at_ten_columns_first_fit() {
    let text = "now is the time for all good men to come to the aid of their country";
    let input = InputValue::Text(text.to_string());
    let out = StrWrap.run(&input, false, Some(10)).unwrap();
    assert_eq!(
        out,
        "now is the\ntime for\nall good\nmen to\ncome to\nthe aid of\ntheir\ncountry"
    );
}

#[test]
fn wrap_at_ten_columns_optimal_fit() {
    let text = "now is the time for all good men to come to the aid of their country";
    let input = InputValue::Text(text.to_string());
    let out = StrWrap.run(&input, true, Some(10)).unwrap();
    assert_eq!(
        out,
        "now is\nthe time\nfor all\ngood men\nto come\nto the aid\nof their\ncountry"
    );
}

#[test]
fn shl_quote_examples() {
    let empty = InputValue::Text("".to_string());
    assert_eq!(StrShlQuote.run(&empty).unwrap(), "''");
    let quote_char = InputValue::Text("'".to_string());
    assert_eq!(StrShlQuote.run(&quote_char).unwrap(), "''\\'''");
    let tilde = InputValue::Text("~root".to_string());
    assert_eq!(StrShlQuote.run(&tilde).unwrap(), "'~root'");
}

#[test]
fn shl_split_parses_arguments() {
    let input = InputValue::Text("-c a.c -o a.out".to_string());
    let words = StrShlSplit.run(&input).unwrap();
    assert_eq!(words, vec!["-c", "a.c", "-o", "a.out"]);
}

#[test]
fn shl_split_ignores_comments() {
    let input = InputValue::Text(" a # very long comment \n b # another comment".to_string());
    let words = StrShlSplit.run(&input).unwrap();
    assert_eq!(words, vec!["a", "b"]);
}

#[test]
fn shl_split_rejects_unclosed_quotes() {
    let input = InputValue::Text("one 'two".to_string());
    match StrShlSplit.run(&input) {
        Err(ShlSplitError::Parse { .. }) => {},
        other => panic!("expected a parse error, got {:?}", other),
    }
}

#[test]
fn string_commands_reject_non_text_values() {
    let value = InputValue::Int(3);
    let e = StrDedent.run(&value).unwrap_err();
    assert_eq!(e.actual, "int");
    assert_eq!(e.message(), "expected string input, found int");
    let e = StrIndent.run(&value, "  ").unwrap_err();
    assert_eq!(e.actual, "int");
    let e = StrWrap.run(&value, false, None).unwrap_err();
    assert_eq!(e.actual, "int");
    let e = StrSlug.run(&InputValue::Binary(vec![1, 2])).unwrap_err();
    assert_eq!(e.actual, "binary");
    let e = StrShlQuote.run(&InputValue::Bool(false)).unwrap_err();
    assert_eq!(e.actual, "bool");
    match StrShlSplit.run(&InputValue::Nothing) {
        Err(ShlSplitError::UnsupportedInput { actual }) => assert_eq!(actual, "nothing"),
        other => panic!("expected an unsupported-input error, got {:?}", other),
    }
}

#[test]
fn plugin_lists_its_commands() {
    let names = StrutilsPlugin.commands();
    assert_eq!(
        names,
        vec![
            "str compress",
            "str decompress",
            "str wrap",
            "str dedent",
            "str indent",
            "str slug",
            "str shl-split",
            "str shl-quote",
        ]
    );
    assert_eq!(StrutilsPlugin.version(), "0.1.0");
}
