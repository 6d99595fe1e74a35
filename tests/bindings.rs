use log_query::bindings::{generate_abi, AbigenError};

#[test]
fn formatted_source_is_returned() {
    let r = generate_abi(Some("struct Foo;".to_string()), Some("pub struct Foo;\n".to_string()));
    assert_eq!(r, Ok("pub struct Foo;\n".to_string()));
}

#[test]
fn generation_failure() {
    assert_eq!(generate_abi(None, None), Err(AbigenError::Generation));
    assert_eq!(generate_abi(None, Some("x".to_string())), Err(AbigenError::Generation));
}

#[test]
fn format_failure() {
    assert_eq!(generate_abi(Some("struct Foo;".to_string()), None), Err(AbigenError::Format));
}
