use schema_ast::constant::Constant;

#[test]
fn from_renders_bare_identifier() {
    let c: Constant<&str> = Constant::from("UserId");
    assert_eq!(c.render(), "UserId");
    assert_ne!(c.render(), "\"UserId\"");
}

#[test]
fn render_adds_no_quoting_or_escaping() {
    for text in ["", "x", "snake_case", "Vec<String>", "a \"quoted\" part"] {
        let c: Constant<&str> = Constant::from(text);
        assert_eq!(c.render(), text);
    }
}

#[test]
fn render_of_owned_string_is_the_string_itself() {
    let c: Constant<String> = Constant::from(String::from("Backend"));
    assert_eq!(c.render(), "Backend");
}

#[test]
fn copy_of_reference_constant_renders_identically() {
    let a: Constant<&str> = Constant::from("project");
    let b = a;
    let c = a.clone();
    assert_eq!(a.render(), b.render());
    assert_eq!(a.render(), c.render());
}

#[test]
fn new_no_validate_keeps_the_value() {
    let c = Constant::new_no_validate("anything at all, unchecked");
    assert_eq!(c.into_inner(), "anything at all, unchecked");
}

#[test]
fn into_inner_returns_the_wrapped_value() {
    let c: Constant<u64> = Constant::from(42u64);
    assert_eq!(c.into_inner(), 42u64);
    let s: Constant<String> = Constant::from(String::from("name"));
    assert_eq!(s.into_inner(), "name");
}

#[test]
fn as_ref_views_the_wrapped_slice() {
    let c: Constant<&str> = Constant::from("email");
    assert_eq!(c.as_ref(), "email");
}

#[test]
fn numeric_render_is_the_decimal_numeral() {
    assert_eq!(Constant::from(0u64).render(), "0");
    assert_eq!(Constant::from(7u64).render(), "7");
    assert_eq!(Constant::from(10u64).render(), "10");
    assert_eq!(Constant::from(105u64).render(), "105");
    assert_eq!(Constant::from(u64::MAX).render(), "18446744073709551615");
}
