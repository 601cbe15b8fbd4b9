use templine::check_matching_pair;
use templine::check_symbol_string;
use templine::get_content_type;
use templine::get_expression_data;
use templine::get_index_for_symbol;
use templine::ContentType;
use templine::ExpressionData;
use templine::TagType;
use templine::TemplateError;

#[test]
fn check_literal_test() {
    let s = "<h1>Hello world</h1>";
    assert_eq!(ContentType::Literal(s.to_string()), get_content_type(s));
}

#[test]
fn check_template_var_test() {
    let content = ExpressionData {
        head: Some("Hi ".to_string()),
        variable: "name".to_string(),
        tail: Some(" ,welcome".to_string()),
    };
    assert_eq!(
        ContentType::TemplateVariable(content),
        get_content_type("Hi {{name}} ,welcome")
    );
}

#[test]
fn check_for_tag_test() {
    assert_eq!(
        ContentType::Tag(TagType::ForTag),
        get_content_type("{% for name in names %} ,welcome")
    );
}

#[test]
fn check_if_tag_test() {
    assert_eq!(
        ContentType::Tag(TagType::IfTag),
        get_content_type("{% if name == 'Bob' %} ,welcome")
    );
}

#[test]
fn check_symbol_string_test() {
    assert_eq!(true, check_symbol_string("{{Hello}}", "{{"));
}

#[test]
fn check_symbol_pair_test() {
    assert_eq!(true, check_matching_pair("{{Hello}}", "{{", "}}"));
}

#[test]
fn check_get_expression_data_test() {
    let expression_data = ExpressionData {
        head: Some("Hi ".to_string()),
        variable: "name".to_string(),
        tail: Some(" ,welcome".to_string()),
    };
    assert_eq!(
        Ok(expression_data),
        get_expression_data("Hi {{name}} ,welcome")
    );
}

#[test]
fn check_get_index_for_symbol_test() {
    assert_eq!((true, 3), get_index_for_symbol("Hi {name}, welcome", '{'));
}

#[test]
fn for_tag_scenario() {
    assert_eq!(
        ContentType::Tag(TagType::ForTag),
        get_content_type("{% for name in names %}")
    );
}

#[test]
fn if_tag_scenario() {
    assert_eq!(
        ContentType::Tag(TagType::IfTag),
        get_content_type("{% if name == 'Bob' %}")
    );
}

#[test]
fn endfor_tag() {
    assert_eq!(
        ContentType::Tag(TagType::ForTag),
        get_content_type("{% endfor %}")
    );
}

#[test]
fn endif_tag() {
    assert_eq!(
        ContentType::Tag(TagType::IfTag),
        get_content_type("{% endif %}")
    );
}

#[test]
fn unknown_keyword_is_unrecognized() {
    assert_eq!(
        ContentType::Unrecognized,
        get_content_type("{% unknownkeyword %}")
    );
}

#[test]
fn loop_tag_takes_priority_over_conditional() {
    // The loop branch is checked first: a line that holds both the loop
    // and the conditional keywords is a loop tag.
    assert_eq!(
        ContentType::Tag(TagType::ForTag),
        get_content_type("{% if x in for %}")
    );
}

#[test]
fn tag_takes_priority_over_interpolation() {
    assert_eq!(
        ContentType::Tag(TagType::ForTag),
        get_content_type("{% for x in {{xs}} %}")
    );
}

#[test]
fn empty_line_is_literal() {
    assert_eq!(ContentType::Literal(String::new()), get_content_type(""));
}

#[test]
fn half_open_tag_is_literal() {
    // Only one marker of the tag pair is present, so no pair is present.
    assert_eq!(
        ContentType::Literal("{% unclosed".to_string()),
        get_content_type("{% unclosed")
    );
}

#[test]
fn reassembling_decomposed_parts_reconstructs_line() {
    let line = "Hi {{name}} ,welcome";
    let parts = get_expression_data(line).unwrap();
    let rebuilt = format!(
        "{}{{{{{}}}}}{}",
        parts.head.unwrap(),
        parts.variable,
        parts.tail.unwrap()
    );
    assert_eq!(line, rebuilt);
}

#[test]
fn decompose_without_braces_is_malformed() {
    assert_eq!(
        Err(TemplateError::MalformedExpression),
        get_expression_data("welcome")
    );
}

#[test]
fn decompose_with_reversed_braces_is_malformed() {
    assert_eq!(
        Err(TemplateError::MalformedExpression),
        get_expression_data("}}name{{")
    );
}

#[test]
fn decompose_with_short_tail_is_malformed() {
    assert_eq!(
        Err(TemplateError::MalformedExpression),
        get_expression_data("{{name}")
    );
}

#[test]
fn classify_malformed_interpolation_as_unrecognized() {
    assert_eq!(ContentType::Unrecognized, get_content_type("}}name{{"));
}

#[test]
fn decompose_uses_first_braces_only() {
    // Only the first `{` and the first `}` are used, so the first
    // interpolation of several wins and the rest lands in the tail.
    let parts = get_expression_data("{{a}} {{b}}").unwrap();
    assert_eq!(Some("".to_string()), parts.head);
    assert_eq!("a".to_string(), parts.variable);
    assert_eq!(Some(" {{b}}".to_string()), parts.tail);
}

#[test]
fn symbol_string_absent() {
    assert_eq!(false, check_symbol_string("hello", "{%"));
}

#[test]
fn matching_pair_needs_both_sides() {
    assert_eq!(false, check_matching_pair("{% unclosed", "{%", "%}"));
}

#[test]
fn index_for_absent_symbol() {
    assert_eq!((false, 0), get_index_for_symbol("Hi, welcome", '{'));
}

#[test]
fn symbol_string_empty_symbol_is_present() {
    assert_eq!(true, check_symbol_string("abc", ""));
}

#[test]
fn decompose_counts_characters_not_bytes() {
    let parts = get_expression_data("Héllo {{nom}} à").unwrap();
    assert_eq!(Some("Héllo ".to_string()), parts.head);
    assert_eq!("nom".to_string(), parts.variable);
    assert_eq!(Some(" à".to_string()), parts.tail);
}
