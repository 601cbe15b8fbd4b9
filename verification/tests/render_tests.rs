use templine::generate_html_template_var;
use templine::get_expression_data;
use templine::ExpressionData;
use vstd::hash_map::StringHashMap;

#[test]
fn render_substitutes_bound_value() {
    let parts = get_expression_data("Hi {{name}} ,welcome").unwrap();
    assert_eq!(Some("Hi ".to_string()), parts.head);
    assert_eq!("name".to_string(), parts.variable);
    assert_eq!(Some(" ,welcome".to_string()), parts.tail);
    let mut context = StringHashMap::new();
    context.insert("name".to_string(), "Sam".to_string());
    assert_eq!(
        "Hi Sam ,welcome".to_string(),
        generate_html_template_var(parts, context)
    );
}

#[test]
fn render_empty_bindings_yields_head_and_tail() {
    let parts = ExpressionData {
        head: Some("Hi ".to_string()),
        variable: "name".to_string(),
        tail: Some(" ,welcome".to_string()),
    };
    assert_eq!(
        "Hi  ,welcome".to_string(),
        generate_html_template_var(parts, StringHashMap::new())
    );
}

#[test]
fn render_bare_variable_with_empty_bindings() {
    let parts = get_expression_data("{{name}}").unwrap();
    assert_eq!(Some("".to_string()), parts.head);
    assert_eq!("name".to_string(), parts.variable);
    assert_eq!(Some("".to_string()), parts.tail);
    assert_eq!(
        String::new(),
        generate_html_template_var(parts, StringHashMap::new())
    );
}

#[test]
fn render_unbound_variable_renders_empty() {
    let parts = ExpressionData {
        head: Some("a".to_string()),
        variable: "name".to_string(),
        tail: Some("c".to_string()),
    };
    let mut context = StringHashMap::new();
    context.insert("other".to_string(), "x".to_string());
    assert_eq!("ac".to_string(), generate_html_template_var(parts, context));
}

#[test]
fn render_concatenates_left_to_right() {
    let parts = ExpressionData {
        head: Some("a".to_string()),
        variable: "v".to_string(),
        tail: Some("c".to_string()),
    };
    let mut context = StringHashMap::new();
    context.insert("v".to_string(), "b".to_string());
    assert_eq!("abc".to_string(), generate_html_template_var(parts, context));
}

#[test]
fn render_absent_head_and_tail() {
    let parts = ExpressionData {
        head: None,
        variable: "v".to_string(),
        tail: None,
    };
    let mut context = StringHashMap::new();
    context.insert("v".to_string(), "value".to_string());
    assert_eq!(
        "value".to_string(),
        generate_html_template_var(parts, context)
    );
}
