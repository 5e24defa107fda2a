use scone_policies::errors::PolicyError;
use scone_policies::template::{render, Binding};

fn bindings(pairs: &[(&str, &str)]) -> Vec<Binding> {
    let mut env: Vec<Binding> = Vec::new();
    for (k, v) in pairs {
        env.push(Binding { key: (*k).to_string(), value: (*v).to_string() });
    }
    env
}

#[test]
fn renders_single_placeholder() {
    let env = bindings(&[("name", "alpha")]);
    let out = render("session: {{name}}!", &env).unwrap();
    assert_eq!(out, "session: alpha!");
}

#[test]
fn renders_multiple_placeholders() {
    let env = bindings(&[("a", "1"), ("b", "2")]);
    let out = render("{{a}}-{{b}}-{{a}}", &env).unwrap();
    assert_eq!(out, "1-2-1");
}

#[test]
fn renders_empty_template() {
    let env = bindings(&[]);
    assert_eq!(render("", &env).unwrap(), "");
}

#[test]
fn renders_literal_text_unchanged() {
    let env = bindings(&[]);
    let out = render("name: fixed\nversion: \"0.3\"\n", &env).unwrap();
    assert_eq!(out, "name: fixed\nversion: \"0.3\"\n");
}

#[test]
fn renders_empty_value() {
    let env = bindings(&[("predecessor", "")]);
    let out = render("p: {{predecessor}};", &env).unwrap();
    assert_eq!(out, "p: ;");
}

#[test]
fn undefined_reference_fails() {
    let env = bindings(&[("present", "x")]);
    let r = render("{{present}} and {{missing}}", &env);
    assert_eq!(r, Err(PolicyError::TemplateError));
}

#[test]
fn undefined_reference_fails_even_alone() {
    let env = bindings(&[]);
    assert_eq!(render("{{anything}}", &env), Err(PolicyError::TemplateError));
}

#[test]
fn unclosed_placeholder_fails() {
    let env = bindings(&[("key", "v")]);
    assert_eq!(render("broken {{key", &env), Err(PolicyError::TemplateError));
}

#[test]
fn empty_key_is_undefined() {
    let env = bindings(&[("key", "v")]);
    assert_eq!(render("{{}}", &env), Err(PolicyError::TemplateError));
}

#[test]
fn earliest_binding_wins() {
    let env = bindings(&[("k", "first"), ("k", "second")]);
    assert_eq!(render("{{k}}", &env).unwrap(), "first");
}

#[test]
fn output_has_no_unexpanded_placeholder() {
    let env = bindings(&[("namespace", "ns-7"), ("secret", "S3CRET")]);
    let out = render("name: {{namespace}}\nvalue: {{secret}}\n", &env).unwrap();
    assert!(!out.contains("{{"));
    assert!(!out.contains("}}"));
    assert_eq!(out, "name: ns-7\nvalue: S3CRET\n");
}

#[test]
fn single_braces_stay_literal() {
    let env = bindings(&[("k", "v")]);
    let out = render("a { b } {{k}}", &env).unwrap();
    assert_eq!(out, "a { b } v");
}
