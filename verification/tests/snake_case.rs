use tensorflow_op_codegen::text::snake_name;

#[test]
fn test_snake_name() {
    assert_eq!(&snake_name("foo"), "foo");
    assert_eq!(&snake_name("fooBar"), "foo_bar");
    assert_eq!(&snake_name("FooBar"), "foo_bar");
    assert_eq!(&snake_name("abcXYZ"), "abc_xyz");
    assert_eq!(&snake_name("abcXYZdef"), "abc_xyzdef");
}

#[test]
fn snake_name_of_operation_names() {
    assert_eq!(snake_name("MatMul"), "mat_mul");
    assert_eq!(snake_name("ConcatV2"), "concat_v2");
    assert_eq!(snake_name("ApplyGradientDescent"), "apply_gradient_descent");
    assert_eq!(snake_name("NoOp"), "no_op");
}

#[test]
fn snake_name_edge_cases() {
    assert_eq!(snake_name(""), "");
    assert_eq!(snake_name("ABC"), "abc");
    assert_eq!(snake_name("a_b"), "a_b");
    assert_eq!(snake_name("_A"), "__a");
    assert_eq!(snake_name("x1Y"), "x1_y");
}

#[test]
fn snake_name_keeps_snake_case() {
    for name in ["foo_bar", "x", "concat_v2", "a1b2"] {
        assert_eq!(snake_name(name), name);
    }
}

#[test]
fn snake_name_of_concatenation() {
    // "fooBar" + "Baz": the piece of "B" of "Baz" gets an underscore
    // because "r" is not uppercase.
    assert_eq!(snake_name("fooBarBaz"), format!("{}{}", snake_name("fooBar"), "_baz"));
}

#[test]
fn snake_name_uses_unicode_lowercase() {
    assert_eq!(snake_name("fooÄ"), "foo_ä");
    // U+0130 lowercases to two chars.
    assert_eq!(snake_name("a\u{130}"), "a_i\u{307}");
}

#[test]
fn snake_name_twice_changes_nothing() {
    for name in ["fooBar", "FooBar", "abcXYZdef", "ConcatV2", "_A", "x1Y", "A_B"] {
        let once = snake_name(name);
        assert!(once.chars().all(|c| c.is_ascii() && !c.is_ascii_uppercase()));
        assert_eq!(snake_name(&once), once);
    }
}
