use proc_macro2::TokenStream;
use tensorflow_op_codegen::arguments::{Arguments, PreviousArguments};
use tensorflow_op_codegen::model::ArgDef;
use tensorflow_op_codegen::tokens::render;

fn text_of(code: &str) -> String {
    code.parse::<TokenStream>().unwrap().to_string()
}

fn arg(name: &str, number_attr: &str) -> ArgDef {
    ArgDef { name: name.to_string(), number_attr: number_attr.to_string() }
}

fn sample() -> Vec<ArgDef> {
    vec![arg("firstValues", "N"), arg("axis", ""), arg("moreValues", "N"), arg("others", "M")]
}

#[test]
fn rust_fields_are_snake_case() {
    let args = sample();
    assert_eq!(Arguments(&args).rust_field(), vec!["first_values", "axis", "more_values", "others"]);
}

#[test]
fn number_attrs_of_list_arguments() {
    let args = sample();
    let expected = vec![Some("N"), None, Some("N"), Some("M")];
    assert_eq!(Arguments(&args).number_attr(), expected);
    assert_eq!(Arguments(&args).c_number_attr(), expected);
}

#[test]
fn edge_index_of_each_argument() {
    let args = sample();
    let previous = Arguments(&args).previous_arguments();
    assert_eq!(previous.len(), 4);
    let expected = [
        "(0usize as i32)",
        r#"(0usize as i32) + self.op.get_attr_int("N")? as i32 * (1usize as i32)"#,
        r#"(1usize as i32) + self.op.get_attr_int("N")? as i32 * (1usize as i32)"#,
        r#"(1usize as i32) + self.op.get_attr_int("N")? as i32 * (2usize as i32)"#,
    ];
    for (p, e) in previous.iter().zip(expected) {
        assert_eq!(render(&p.edge_index()), text_of(e));
    }
}

#[test]
fn edge_index_lists_attributes_in_order_of_first_use() {
    let args = vec![arg("a", "M"), arg("b", "N"), arg("c", "M"), arg("d", "")];
    let previous = Arguments(&args).previous_arguments();
    assert_eq!(
        render(&previous[3].edge_index()),
        text_of(
            r#"(0usize as i32) + self.op.get_attr_int("M")? as i32 * (2usize as i32) + self.op.get_attr_int("N")? as i32 * (1usize as i32)"#
        )
    );
}

#[test]
fn no_previous_arguments() {
    let p = PreviousArguments::default();
    assert_eq!(render(&p.edge_index()), text_of("(0usize as i32)"));
    let none: Vec<ArgDef> = Vec::new();
    assert!(Arguments(&none).previous_arguments().is_empty());
}

#[test]
fn scalar_arguments_count_one_each() {
    let args = vec![arg("a", ""), arg("b", ""), arg("c", "")];
    let previous = Arguments(&args).previous_arguments();
    assert_eq!(render(&previous[2].edge_index()), text_of("(2usize as i32)"));
}

#[test]
fn counts_grow_from_one_argument_to_the_next() {
    // The number of terms and each count can only grow; the attribute seen
    // first stays first.
    let args = vec![arg("a", "M"), arg("b", ""), arg("c", "N"), arg("d", "M")];
    let previous = Arguments(&args).previous_arguments();
    let expected = [
        "(0usize as i32)",
        r#"(0usize as i32) + self.op.get_attr_int("M")? as i32 * (1usize as i32)"#,
        r#"(1usize as i32) + self.op.get_attr_int("M")? as i32 * (1usize as i32)"#,
        r#"(1usize as i32) + self.op.get_attr_int("M")? as i32 * (1usize as i32) + self.op.get_attr_int("N")? as i32 * (1usize as i32)"#,
    ];
    for (p, e) in previous.iter().zip(expected) {
        assert_eq!(render(&p.edge_index()), text_of(e));
    }
}

#[test]
fn rust_fields_of_colliding_names() {
    let args = vec![arg("fooBar", ""), arg("foo_bar", "")];
    assert_eq!(Arguments(&args).rust_field(), vec!["foo_bar", "foo_bar"]);
}
