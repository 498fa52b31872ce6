use std::collections::hash_map::DefaultHasher;
use std::hash::Hash;
use std::hash::Hasher;
use swc_plugin_gem::hash::hash_string;
use swc_plugin_gem::module::hmr_transform;
use swc_plugin_gem::names::get_private_ident;
use swc_plugin_gem::names::get_shadow_ident;
use swc_plugin_gem::names::sanitize;
use swc_plugin_gem::syntax::ClassUnit;
use swc_plugin_gem::syntax::Decorator;
use swc_plugin_gem::syntax::FieldProp;
use swc_plugin_gem::syntax::HotDirective;
use swc_plugin_gem::syntax::Member;
use swc_plugin_gem::syntax::Module;
use swc_plugin_gem::syntax::Syntax;
use swc_plugin_gem::text::push_radix;
use swc_plugin_gem::text::same_text;
use swc_plugin_gem::text::starts_with;

fn std_hash(text: &str) -> u64 {
    let mut hasher = DefaultHasher::new();
    text.hash(&mut hasher);
    hasher.finish()
}

fn bare_class(decorators: Vec<Decorator>) -> ClassUnit {
    ClassUnit { decorators, decorator_marks: vec![], members: vec![], has_super: false, heritage_marks: vec![] }
}

#[test]
fn hash_string_is_the_standard_digest() {
    assert_eq!(hash_string("src/a.ts1"), std_hash("src/a.ts1"));
    assert_eq!(hash_string(""), std_hash(""));
    assert_ne!(hash_string("a"), hash_string("b"));
    assert_eq!(hash_string("same"), hash_string("same"));
}

#[test]
fn hyphens_become_underscores() {
    assert_eq!(sanitize("my-custom-el"), "my_custom_el");
    assert_eq!(sanitize("plain"), "plain");
    assert_eq!(sanitize("--"), "__");
    assert_eq!(sanitize(""), "");
    assert_eq!(sanitize("a$1-b"), "a$1_b");
}

#[test]
fn shadow_and_private_names() {
    assert_eq!(get_shadow_ident("render", "my-el", false), "_hmr_public_my_el_render");
    assert_eq!(get_shadow_ident("render", "my-el", true), "_hmr_private_my_el_render");
    assert_eq!(get_shadow_ident("constructor", "x-a", false), "_hmr_public_x_a_constructor");
    assert_eq!(get_private_ident("x", "x-a"), "_private_x_a_x");
    assert_eq!(get_private_ident("count", "hash_1f"), "_private_hash_1f_count");
}

#[test]
fn names_are_the_same_on_every_run() {
    for _ in 0..3 {
        assert_eq!(get_shadow_ident("a", "my-el", true), "_hmr_private_my_el_a");
        assert_eq!(get_private_ident("a", "my-el"), "_private_my_el_a");
    }
    let name_of = |index: usize| {
        let mut visitor = hmr_transform(Some("src/app.ts".to_string()));
        visitor.class_index = index;
        visitor.get_class_name(&bare_class(vec![]))
    };
    assert_eq!(name_of(4), name_of(4));
    assert_ne!(name_of(4), name_of(5));
}

#[test]
fn numbers_in_decimal_and_hexadecimal() {
    let render = |n: u64, radix: u64| {
        let mut out = String::from("n");
        push_radix(&mut out, n, radix);
        out
    };
    assert_eq!(render(0, 10), "n0");
    assert_eq!(render(7, 10), "n7");
    assert_eq!(render(1203, 10), "n1203");
    assert_eq!(render(u64::MAX, 10), "n18446744073709551615");
    assert_eq!(render(0, 16), "n0");
    assert_eq!(render(255, 16), "nff");
    assert_eq!(render(0xdead_beef_0123, 16), "ndeadbeef0123");
    assert_eq!(render(u64::MAX, 16), "nffffffffffffffff");
    assert_eq!(render(5, 2), "n101");
    assert_eq!(render(0, 2), "n0");
    assert_eq!(render(64, 8), "n100");
}

#[test]
fn prefixes_and_equal_texts() {
    assert!(starts_with("hash_12", "hash_"));
    assert!(starts_with("hash_", "hash_"));
    assert!(!starts_with("hash", "hash_"));
    assert!(!starts_with("xhash_", "hash_"));
    assert!(starts_with("anything", ""));
    assert!(same_text("a-b", "a-b"));
    assert!(!same_text("a-b", "a_b"));
}

#[test]
fn synthesized_identity_counts_the_classes_of_a_file() {
    let mut visitor = hmr_transform(Some("src/app.ts".to_string()));
    let first = visitor.get_class_name(&bare_class(vec![]));
    assert_eq!(first, format!("hash_{:x}", std_hash("src/app.ts1")));
    assert_eq!(visitor.class_index, 1);
    let second = visitor.get_class_name(&bare_class(vec![Decorator::Ident("customElement".to_string())]));
    assert_eq!(second, format!("hash_{:x}", std_hash("src/app.ts2")));
    assert_eq!(visitor.class_index, 2);
    assert_ne!(first, second);
}

#[test]
fn declared_identity_comes_first() {
    let mut visitor = hmr_transform(Some("src/app.ts".to_string()));
    let class = bare_class(vec![
        Decorator::Other,
        Decorator::Call { callee: Some("other".to_string()), first_arg: Some("no".to_string()) },
        Decorator::Call { callee: None, first_arg: Some("no".to_string()) },
        Decorator::Call { callee: Some("customElement".to_string()), first_arg: Some("my-el".to_string()) },
        Decorator::Call { callee: Some("customElement".to_string()), first_arg: Some("late".to_string()) },
    ]);
    assert_eq!(visitor.get_class_name(&class), "my-el");
    assert_eq!(visitor.class_index, 0);
}

#[test]
fn element_call_without_a_literal_declares_nothing() {
    let call = || bare_class(vec![Decorator::Call { callee: Some("customElement".to_string()), first_arg: None }]);
    let mut visitor = hmr_transform(Some("src/app.ts".to_string()));
    assert_eq!(visitor.get_class_name(&call()), format!("hash_{:x}", std_hash("src/app.ts1")));
    assert_eq!(visitor.class_index, 1);
    let mut nameless = hmr_transform(None);
    assert_eq!(nameless.get_class_name(&call()), "");
    assert_eq!(nameless.class_index, 0);
    // A later call with a literal still declares the identity.
    let mut later = hmr_transform(Some("src/app.ts".to_string()));
    let class = bare_class(vec![
        Decorator::Call { callee: Some("customElement".to_string()), first_arg: None },
        Decorator::Call { callee: Some("customElement".to_string()), first_arg: Some("my-el".to_string()) },
    ]);
    assert_eq!(later.get_class_name(&class), "my-el");
    assert_eq!(later.class_index, 0);
}

#[test]
fn element_call_without_a_literal_is_rewritten_under_a_made_up_identity() {
    let mut visitor = hmr_transform(Some("src/app.ts".to_string()));
    let class = bare_class(vec![Decorator::Call { callee: Some("customElement".to_string()), first_arg: None }]);
    let output = visitor.visit_mut_module_items(Module { marks: vec![Syntax::Class(class)], directives: vec![] });
    assert!(!visitor.need_reload);
    assert!(output.directives.is_empty());
    match &output.marks[0] {
        Syntax::Class(class) => {
            assert_eq!(class.decorators.len(), 2);
            assert_eq!(class.decorators[1], Decorator::Register { identity: format!("hash_{:x}", std_hash("src/app.ts1")) });
        }
        other => panic!("unexpected construct {:?}", other),
    }
}

#[test]
fn no_file_and_no_tag_gives_no_identity() {
    let mut visitor = hmr_transform(None);
    assert_eq!(visitor.get_class_name(&bare_class(vec![])), "");
    assert_eq!(visitor.class_index, 0);
    let mut empty = hmr_transform(Some(String::new()));
    assert_eq!(empty.get_class_name(&bare_class(vec![])), "");
}

#[test]
fn exhausted_counter_gives_no_identity() {
    let mut visitor = hmr_transform(Some("src/app.ts".to_string()));
    visitor.class_index = usize::MAX;
    assert_eq!(visitor.get_class_name(&bare_class(vec![])), "");
    assert_eq!(visitor.class_index, usize::MAX);
}

#[test]
fn synthesized_class_is_rewritten_but_is_no_element() {
    let mut visitor = hmr_transform(Some("src/app.ts".to_string()));
    let output = visitor.visit_mut_module_items(Module { marks: vec![Syntax::Class(bare_class(vec![]))], directives: vec![] });
    let identity = format!("hash_{:x}", std_hash("src/app.ts1"));
    let expected = ClassUnit {
        decorators: vec![Decorator::Register { identity }],
        decorator_marks: vec![],
        members: vec![Member::FieldTable { fields: vec![] }],
        has_super: false,
        heritage_marks: vec![],
    };
    assert_eq!(output.marks, vec![Syntax::Class(expected)]);
    assert!(!visitor.has_element);
    assert!(!visitor.need_reload);
    assert!(output.directives.is_empty());
    assert_eq!(visitor.class_index, 1);
}

#[test]
fn declared_tag_that_looks_synthesized_is_no_element() {
    let mut visitor = hmr_transform(None);
    let class = bare_class(vec![Decorator::Call { callee: Some("customElement".to_string()), first_arg: Some("hash_el".to_string()) }]);
    let output = visitor.visit_mut_module_items(Module { marks: vec![Syntax::Class(class)], directives: vec![HotDirective::Accept] });
    assert!(!visitor.has_element);
    assert_eq!(output.directives, vec![HotDirective::Accept]);
}

#[test]
fn current_tag_is_the_innermost_class() {
    let mut visitor = hmr_transform(None);
    visitor.class_stack.push("out-er".to_string());
    visitor.class_stack.push("in-ner".to_string());
    assert_eq!(visitor.get_current_tag_name(), "in-ner");
    assert_eq!(visitor.visit_mut_member_expr("x"), "_private_in_ner_x");
}

#[test]
fn field_records() {
    let prop = FieldProp::new("name", "state");
    assert_eq!(prop, FieldProp { name: "name".to_string(), kind: "state".to_string(), is_static: false });
    let fixed = prop.set_static(true);
    assert_eq!(fixed, FieldProp { name: "name".to_string(), kind: "state".to_string(), is_static: true });
    assert_eq!(fixed.set_static(false).is_static, false);
}
