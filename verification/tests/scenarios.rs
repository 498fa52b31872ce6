use swc_plugin_gem::module::hmr_transform;
use swc_plugin_gem::syntax::Body;
use swc_plugin_gem::syntax::Callable;
use swc_plugin_gem::syntax::ClassUnit;
use swc_plugin_gem::syntax::Decorator;
use swc_plugin_gem::syntax::DispatchStyle;
use swc_plugin_gem::syntax::FieldProp;
use swc_plugin_gem::syntax::HotDirective;
use swc_plugin_gem::syntax::Initializer;
use swc_plugin_gem::syntax::Key;
use swc_plugin_gem::syntax::Member;
use swc_plugin_gem::syntax::MethodKind;
use swc_plugin_gem::syntax::Module;
use swc_plugin_gem::syntax::Params;
use swc_plugin_gem::syntax::Stmt;
use swc_plugin_gem::syntax::Syntax;

fn element(tag: &str) -> Decorator {
    Decorator::Call { callee: Some("customElement".to_string()), first_arg: Some(tag.to_string()) }
}

fn registered(tag: &str) -> Decorator {
    Decorator::Register { identity: tag.to_string() }
}

fn no_params() -> Params {
    Params::Source { properties: vec![], marks: vec![] }
}

fn class_with(decorators: Vec<Decorator>, has_super: bool, members: Vec<Member>) -> ClassUnit {
    ClassUnit { decorators, decorator_marks: vec![], members, has_super, heritage_marks: vec![] }
}

fn module_of(classes: Vec<ClassUnit>) -> Module {
    Module { marks: classes.into_iter().map(Syntax::Class).collect(), directives: vec![] }
}

fn private_arrow_field() -> Member {
    Member::Field {
        origin: 1,
        key: Key::Private("x".to_string()),
        is_static: false,
        decorators: vec![],
        key_marks: vec![],
        value: Initializer::Arrow(Callable {
            is_async: false,
            params: no_params(),
            body: Body::Expr(vec![]),
        }),
        decorator_marks: vec![],
    }
}

fn statement(origin: u64, marks: Vec<Syntax>) -> Stmt {
    Stmt { origin, is_super_call: false, marks }
}

fn super_statement(origin: u64, arg_count: usize) -> Stmt {
    Stmt { origin, is_super_call: true, marks: vec![Syntax::SuperCall { arg_count }] }
}

fn constructor(properties: Vec<bool>, body: Vec<Stmt>) -> Member {
    Member::Constructor {
        origin: 7,
        callable: Callable {
            is_async: false,
            params: Params::Source { properties, marks: vec![] },
            body: Body::Block(body),
        },
    }
}

fn method(origin: u64, key: Key, kind: MethodKind, is_static: bool, is_async: bool, body: Vec<Stmt>) -> Member {
    Member::Method {
        origin,
        key,
        kind,
        is_static,
        key_marks: vec![],
        decorator_marks: vec![],
        callable: Callable {
            is_async,
            params: Params::Source { properties: vec![false], marks: vec![] },
            body: Body::Block(body),
        },
    }
}

fn data_field(origin: u64, key: Key, is_static: bool, decorators: Vec<Decorator>) -> Member {
    Member::Field {
        origin,
        key,
        is_static,
        decorators,
        key_marks: vec![],
        value: Initializer::Other(vec![]),
        decorator_marks: vec![],
    }
}

fn shim(shadow: &str, style: DispatchStyle) -> Body {
    Body::Dispatch { shadow: shadow.to_string(), style }
}

fn shadow_method(origin: u64, name: &str, is_static: bool, is_async: bool, params: Params, body: Body) -> Member {
    Member::Method {
        origin,
        key: Key::Ident(name.to_string()),
        kind: MethodKind::Method,
        is_static,
        key_marks: vec![],
        decorator_marks: vec![],
        callable: Callable { is_async, params, body },
    }
}

fn record(name: &str, kind: &str, is_static: bool) -> FieldProp {
    FieldProp { name: name.to_string(), kind: kind.to_string(), is_static }
}

#[test]
fn private_arrow_field_of_a_named_element_is_split() {
    let mut visitor = hmr_transform(None);
    let input = module_of(vec![class_with(vec![element("x-a")], true, vec![private_arrow_field()])]);
    let output = visitor.visit_mut_module_items(input);

    let expected = ClassUnit {
        decorators: vec![element("x-a"), registered("x-a")],
        decorator_marks: vec![],
        members: vec![
            Member::Field {
                origin: 1,
                key: Key::Ident("_private_x_a_x".to_string()),
                is_static: false,
                decorators: vec![],
                key_marks: vec![],
                value: Initializer::Arrow(Callable {
                    is_async: false,
                    params: Params::Rest,
                    body: shim("_hmr_private_x_a_x", DispatchStyle::Forward),
                }),
                decorator_marks: vec![],
            },
            shadow_method(1, "_hmr_private_x_a_x", false, false, no_params(), Body::Expr(vec![])),
            Member::FieldTable { fields: vec![] },
        ],
        has_super: true,
        heritage_marks: vec![],
    };
    assert_eq!(output.marks, vec![Syntax::Class(expected)]);
    assert_eq!(output.directives, vec![HotDirective::Accept]);
    assert!(visitor.has_element);
    assert!(!visitor.need_reload);
    assert!(visitor.class_stack.is_empty());
}

#[test]
fn super_call_with_arguments_leaves_the_class_alone() {
    let mut visitor = hmr_transform(None);
    let unsafe_class = || class_with(vec![element("x-b")], true, vec![constructor(vec![], vec![super_statement(70, 2)])]);
    let output = visitor.visit_mut_module_items(module_of(vec![unsafe_class()]));

    assert_eq!(output.marks, vec![Syntax::Class(unsafe_class())]);
    assert_eq!(output.directives, vec![HotDirective::Decline]);
    assert!(visitor.need_reload);
    assert!(!visitor.has_element);
}

#[test]
fn named_element_before_a_class_without_identity() {
    let mut visitor = hmr_transform(None);
    let named = class_with(vec![element("x-c")], false, vec![]);
    let plain = || class_with(vec![], false, vec![private_arrow_field()]);
    let output = visitor.visit_mut_module_items(module_of(vec![named, plain()]));

    let rewritten = ClassUnit {
        decorators: vec![element("x-c"), registered("x-c")],
        decorator_marks: vec![],
        members: vec![Member::FieldTable { fields: vec![] }],
        has_super: false,
        heritage_marks: vec![],
    };
    assert_eq!(output.marks, vec![Syntax::Class(rewritten), Syntax::Class(plain())]);
    assert!(visitor.has_element);
    // A class without identity raises the reload flag, and declining comes
    // before accepting.
    assert!(visitor.need_reload);
    assert_eq!(output.directives, vec![HotDirective::Decline]);
}

#[test]
fn module_without_classes_says_nothing() {
    let mut visitor = hmr_transform(Some("src/a.ts".to_string()));
    let output = visitor.visit_mut_module_items(Module { marks: vec![Syntax::Return { has_value: true }], directives: vec![] });
    assert_eq!(output.marks, vec![Syntax::Return { has_value: true }]);
    assert!(output.directives.is_empty());
    assert!(!visitor.need_reload);
}

#[test]
fn new_target_outside_any_class_declines() {
    let mut visitor = hmr_transform(None);
    let output = visitor.visit_mut_module_items(Module { marks: vec![Syntax::NewTarget], directives: vec![] });
    assert_eq!(output.directives, vec![HotDirective::Decline]);
}

#[test]
fn each_guard_keeps_the_class_as_it_is() {
    let cases: Vec<fn() -> ClassUnit> = vec![
        || class_with(vec![element("g-a")], false, vec![constructor(vec![false, true], vec![])]),
        || class_with(vec![element("g-b")], true, vec![constructor(vec![], vec![super_statement(1, 1)])]),
        || {
            class_with(
                vec![element("g-c")],
                false,
                vec![method(3, Key::Ident("m".to_string()), MethodKind::Method, false, false, vec![statement(30, vec![Syntax::NewTarget])])],
            )
        },
        || class_with(vec![element("g-d")], false, vec![constructor(vec![], vec![statement(40, vec![Syntax::Return { has_value: true }])])]),
        || class_with(vec![], false, vec![data_field(5, Key::Ident("a".to_string()), false, vec![])]),
        || class_with(vec![Decorator::Call { callee: Some("customElement".to_string()), first_arg: None }], false, vec![]),
    ];
    for case in cases {
        let mut visitor = hmr_transform(None);
        let output = visitor.visit_mut_class(case());
        assert_eq!(output, case());
        assert!(visitor.need_reload);
        assert!(!visitor.has_element);
        // A second visit in the same state changes nothing either.
        let again = visitor.visit_mut_class(output);
        assert_eq!(again, case());
        assert!(visitor.need_reload);
    }
}

#[test]
fn constructs_that_no_guard_minds() {
    let class = class_with(
        vec![element("ok-a")],
        true,
        vec![
            constructor(vec![false], vec![super_statement(1, 0), statement(2, vec![Syntax::Return { has_value: false }])]),
            method(3, Key::Ident("m".to_string()), MethodKind::Method, false, false, vec![statement(30, vec![Syntax::Return { has_value: true }])]),
        ],
    );
    let mut visitor = hmr_transform(None);
    let output = visitor.visit_mut_class(class);
    assert!(!visitor.need_reload);
    assert_eq!(output.members.len(), 5);
}

#[test]
fn once_flagged_later_classes_stay_as_they_are() {
    let mut visitor = hmr_transform(None);
    let flagged = || class_with(vec![element("f-a")], false, vec![constructor(vec![true], vec![])]);
    let safe = || class_with(vec![element("f-b")], false, vec![private_arrow_field()]);
    let output = visitor.visit_mut_module_items(module_of(vec![flagged(), safe()]));
    assert_eq!(output.marks, vec![Syntax::Class(flagged()), Syntax::Class(safe())]);
    assert_eq!(output.directives, vec![HotDirective::Decline]);
    assert!(!visitor.has_element);
}

#[test]
fn constructor_moves_to_a_shadow_without_its_super_calls() {
    let class = class_with(
        vec![element("my-el")],
        true,
        vec![constructor(vec![false, false], vec![super_statement(10, 0), statement(11, vec![]), statement(12, vec![Syntax::SuperCall { arg_count: 0 }])])],
    );
    let mut visitor = hmr_transform(None);
    let output = visitor.visit_mut_class(class);
    assert_eq!(
        output.members,
        vec![
            Member::Constructor {
                origin: 7,
                callable: Callable {
                    is_async: false,
                    params: Params::Rest,
                    body: shim("_hmr_public_my_el_constructor", DispatchStyle::Construct { call_super: true }),
                },
            },
            shadow_method(
                7,
                "_hmr_public_my_el_constructor",
                false,
                false,
                Params::Source { properties: vec![false, false], marks: vec![] },
                Body::Block(vec![statement(11, vec![]), statement(12, vec![Syntax::SuperCall { arg_count: 0 }])]),
            ),
            Member::FieldTable { fields: vec![] },
        ]
    );
}

#[test]
fn constructor_of_a_class_without_base_calls_no_super() {
    let class = class_with(vec![element("my-el")], false, vec![constructor(vec![], vec![])]);
    let mut visitor = hmr_transform(None);
    let output = visitor.visit_mut_class(class);
    match &output.members[0] {
        Member::Constructor { callable, .. } => {
            assert_eq!(callable.body, shim("_hmr_public_my_el_constructor", DispatchStyle::Construct { call_super: false }));
        }
        other => panic!("unexpected member {:?}", other),
    }
}

#[test]
fn methods_getters_and_private_methods_are_split() {
    let class = class_with(
        vec![element("my-el")],
        false,
        vec![
            method(1, Key::Ident("load".to_string()), MethodKind::Method, true, true, vec![statement(10, vec![])]),
            method(2, Key::Ident("size".to_string()), MethodKind::Getter, false, false, vec![statement(20, vec![])]),
            method(3, Key::Private("tick".to_string()), MethodKind::Setter, false, false, vec![statement(30, vec![])]),
            method(4, Key::Computed, MethodKind::Method, false, false, vec![statement(40, vec![])]),
        ],
    );
    let one = Params::Source { properties: vec![false], marks: vec![] };
    let mut visitor = hmr_transform(None);
    let output = visitor.visit_mut_class(class);
    let shimmed = |origin: u64, key: Key, kind: MethodKind, is_static: bool, is_async: bool, params: Params, body: Body| Member::Method {
        origin,
        key,
        kind,
        is_static,
        key_marks: vec![],
        decorator_marks: vec![],
        callable: Callable { is_async, params, body },
    };
    assert_eq!(
        output.members,
        vec![
            shimmed(1, Key::Ident("load".to_string()), MethodKind::Method, true, true, Params::Rest, shim("_hmr_public_my_el_load", DispatchStyle::Forward)),
            shadow_method(1, "_hmr_public_my_el_load", true, true, Params::Source { properties: vec![false], marks: vec![] }, Body::Block(vec![statement(10, vec![])])),
            shimmed(
                2,
                Key::Ident("size".to_string()),
                MethodKind::Getter,
                false,
                false,
                Params::Source { properties: vec![false], marks: vec![] },
                shim("_hmr_public_my_el_size", DispatchStyle::Getter),
            ),
            shadow_method(2, "_hmr_public_my_el_size", false, false, no_params(), Body::Block(vec![statement(20, vec![])])),
            shimmed(
                3,
                Key::Ident("_private_my_el_tick".to_string()),
                MethodKind::Setter,
                false,
                false,
                Params::Rest,
                shim("_hmr_private_my_el_tick", DispatchStyle::Forward),
            ),
            shadow_method(3, "_hmr_private_my_el_tick", false, false, one, Body::Block(vec![statement(30, vec![])])),
            method(4, Key::Computed, MethodKind::Method, false, false, vec![statement(40, vec![])]),
            Member::FieldTable { fields: vec![] },
        ]
    );
}

#[test]
fn data_members_are_recorded_latest_first() {
    let class = class_with(
        vec![element("my-el")],
        false,
        vec![
            data_field(1, Key::Ident("name".to_string()), false, vec![Decorator::Other, Decorator::Ident("attribute".to_string()), Decorator::Ident("state".to_string())]),
            data_field(2, Key::Private("count".to_string()), true, vec![Decorator::Ident("state".to_string())]),
            data_field(3, Key::Ident("plain".to_string()), false, vec![element("x")]),
            data_field(4, Key::Ident("odd".to_string()), false, vec![Decorator::Ident("mystery".to_string())]),
            data_field(5, Key::Computed, false, vec![Decorator::Ident("state".to_string())]),
            Member::StaticBlock { origin: 6, body: vec![] },
            Member::Other { origin: 8, marks: vec![] },
            private_arrow_field(),
        ],
    );
    let mut visitor = hmr_transform(None);
    let output = visitor.visit_mut_class(class);
    assert_eq!(output.members.len(), 8 + 1 + 1);
    assert_eq!(
        output.members[9],
        Member::FieldTable {
            fields: vec![
                record("odd", "other", false),
                record("plain", "other", false),
                record("_private_my_el_count", "state", true),
                record("name", "attribute", false),
            ],
        }
    );
    assert_eq!(output.members[1], data_field(2, Key::Ident("_private_my_el_count".to_string()), true, vec![Decorator::Ident("state".to_string())]));
}

#[test]
fn every_role_is_known() {
    for role in ["attribute", "boolattribute", "numattribute", "property", "emitter", "globalemitter", "state", "part", "slot"] {
        let class = class_with(vec![element("r-a")], false, vec![data_field(1, Key::Ident("f".to_string()), false, vec![Decorator::Ident(role.to_string())])]);
        let mut visitor = hmr_transform(None);
        let output = visitor.visit_mut_class(class);
        assert_eq!(output.members[1], Member::FieldTable { fields: vec![record("f", role, false)] });
    }
}

#[test]
fn private_names_are_encoded_under_the_innermost_class() {
    let inner = class_with(
        vec![element("in-ner")],
        false,
        vec![method(2, Key::Ident("b".to_string()), MethodKind::Method, false, false, vec![statement(20, vec![Syntax::PrivateAccess { name: "y".to_string() }])])],
    );
    let outer = class_with(
        vec![element("out-er")],
        false,
        vec![method(
            1,
            Key::Ident("a".to_string()),
            MethodKind::Method,
            false,
            false,
            vec![statement(10, vec![Syntax::PrivateAccess { name: "x".to_string() }, Syntax::Class(inner), Syntax::PrivateAccess { name: "z".to_string() }])],
        )],
    );
    let mut visitor = hmr_transform(None);
    let output = visitor.visit_mut_class(outer);
    assert!(visitor.class_stack.is_empty());
    let body = match &output.members[1] {
        Member::Method { callable, .. } => &callable.body,
        other => panic!("unexpected member {:?}", other),
    };
    let marks = match body {
        Body::Block(stmts) => &stmts[0].marks,
        other => panic!("unexpected body {:?}", other),
    };
    assert_eq!(marks[0], Syntax::MangledAccess { name: "_private_out_er_x".to_string() });
    assert_eq!(marks[2], Syntax::MangledAccess { name: "_private_out_er_z".to_string() });
    match &marks[1] {
        Syntax::Class(class) => {
            assert_eq!(class.decorators, vec![element("in-ner"), registered("in-ner")]);
            match &class.members[1] {
                Member::Method { key, callable, .. } => {
                    assert_eq!(key, &Key::Ident("_hmr_public_in_ner_b".to_string()));
                    assert_eq!(callable.body, Body::Block(vec![statement(20, vec![Syntax::MangledAccess { name: "_private_in_ner_y".to_string() }])]));
                }
                other => panic!("unexpected member {:?}", other),
            }
        }
        other => panic!("unexpected construct {:?}", other),
    }
}

#[test]
fn guard_inside_a_nested_class_keeps_the_outer_class_too() {
    let inner = || class_with(vec![element("in-ner")], true, vec![constructor(vec![], vec![super_statement(1, 3)])]);
    let outer = || {
        class_with(
            vec![element("out-er")],
            false,
            vec![method(1, Key::Ident("a".to_string()), MethodKind::Method, false, false, vec![statement(10, vec![Syntax::PrivateAccess { name: "x".to_string() }, Syntax::Class(inner())])])],
        )
    };
    let mut visitor = hmr_transform(None);
    let output = visitor.visit_mut_class(outer());
    assert_eq!(output, outer());
    assert!(visitor.need_reload);
}

#[test]
fn return_after_a_nested_constructor_is_not_seen() {
    let inner = class_with(vec![element("in-ner")], false, vec![constructor(vec![], vec![])]);
    let outer = class_with(
        vec![element("out-er")],
        false,
        vec![constructor(vec![], vec![statement(1, vec![Syntax::Class(inner)]), statement(2, vec![Syntax::Return { has_value: true }])])],
    );
    let mut visitor = hmr_transform(None);
    visitor.visit_mut_class(outer);
    assert!(!visitor.need_reload);
    assert!(!visitor.in_constructor);
}

#[test]
fn shadows_and_field_table_are_counted() {
    let members = || {
        vec![
            constructor(vec![], vec![]),
            method(1, Key::Ident("a".to_string()), MethodKind::Method, false, false, vec![]),
            method(2, Key::Computed, MethodKind::Method, false, false, vec![]),
            data_field(3, Key::Ident("b".to_string()), false, vec![]),
            private_arrow_field(),
            Member::StaticBlock { origin: 4, body: vec![] },
        ]
    };
    let mut visitor = hmr_transform(None);
    let output = visitor.visit_mut_class(class_with(vec![element("c-a")], false, members()));
    // Three function-like members, one field table.
    assert_eq!(output.members.len(), members().len() + 3 + 1);
    assert_eq!(output.members[9], Member::FieldTable { fields: vec![record("b", "other", false)] });
}

#[test]
fn first_decorator_that_names_a_role_decides() {
    let class = class_with(
        vec![element("r-b")],
        false,
        vec![
            data_field(1, Key::Ident("v".to_string()), false, vec![Decorator::Ident("foo".to_string()), Decorator::Ident("state".to_string())]),
            data_field(2, Key::Ident("w".to_string()), false, vec![element("x"), Decorator::Ident("part".to_string()), Decorator::Ident("slot".to_string())]),
            data_field(3, Key::Ident("u".to_string()), false, vec![Decorator::Ident("foo".to_string()), Decorator::Other]),
        ],
    );
    let mut visitor = hmr_transform(None);
    let output = visitor.visit_mut_class(class);
    assert_eq!(
        output.members[3],
        Member::FieldTable { fields: vec![record("u", "other", false), record("w", "part", false), record("v", "state", false)] }
    );
}

fn constructor_with_param_marks(marks: Vec<Syntax>) -> Member {
    Member::Constructor {
        origin: 7,
        callable: Callable {
            is_async: false,
            params: Params::Source { properties: vec![false], marks },
            body: Body::Block(vec![]),
        },
    }
}

#[test]
fn guards_look_into_the_parameters_of_a_constructor() {
    let cases: Vec<fn() -> ClassUnit> = vec![
        || class_with(vec![element("x-a")], false, vec![constructor_with_param_marks(vec![Syntax::NewTarget])]),
        || class_with(vec![element("x-a")], true, vec![constructor_with_param_marks(vec![Syntax::SuperCall { arg_count: 1 }])]),
        || class_with(vec![element("x-a")], false, vec![constructor_with_param_marks(vec![Syntax::Return { has_value: true }])]),
    ];
    for case in cases {
        let mut visitor = hmr_transform(None);
        let output = visitor.visit_mut_class(case());
        assert_eq!(output, case());
        assert!(visitor.need_reload);
        assert!(!visitor.in_constructor);
    }
}

#[test]
fn private_names_in_the_parameters_of_a_constructor_are_encoded() {
    let class = class_with(
        vec![element("x-a")],
        false,
        vec![
            data_field(1, Key::Private("x".to_string()), true, vec![]),
            constructor_with_param_marks(vec![Syntax::PrivateAccess { name: "x".to_string() }]),
        ],
    );
    let mut visitor = hmr_transform(None);
    let output = visitor.visit_mut_class(class);
    assert!(!visitor.need_reload);
    assert_eq!(output.members[0], data_field(1, Key::Ident("_private_x_a_x".to_string()), true, vec![]));
    assert_eq!(
        output.members[2],
        shadow_method(
            7,
            "_hmr_public_x_a_constructor",
            false,
            false,
            Params::Source { properties: vec![false], marks: vec![Syntax::MangledAccess { name: "_private_x_a_x".to_string() }] },
            Body::Block(vec![]),
        )
    );
}
