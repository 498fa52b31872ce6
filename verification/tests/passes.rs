use indexmap::IndexMap;
use swc_plugin_gem::config::Pass;
use swc_plugin_gem::config::PluginConfig;
use swc_plugin_gem::import::custom_elements_in;
use swc_plugin_gem::import::dts_path;
use swc_plugin_gem::import::dts_text;
use swc_plugin_gem::import::get_config;
use swc_plugin_gem::import::import_transform;
use swc_plugin_gem::import::merge_contents;
use swc_plugin_gem::import::AutoImport;
use swc_plugin_gem::import::AutoImportConfig;
use swc_plugin_gem::import::AutoImportContent;
use swc_plugin_gem::import::AutoImportDts;
use swc_plugin_gem::import::ImportPlan;
use swc_plugin_gem::import::MemberImport;
use swc_plugin_gem::import::MemberOrMemberAs;
use swc_plugin_gem::import::Specifier;
use swc_plugin_gem::import::TagRule;
use swc_plugin_gem::memo::memo_transform;
use swc_plugin_gem::memo::DecoratorCall;
use swc_plugin_gem::memo::MemoMembers;
use swc_plugin_gem::minify::minify_css_style_tpl;
use swc_plugin_gem::minify::minify_html_tpl;
use swc_plugin_gem::minify::minify_transform;
use swc_plugin_gem::minify::template_kind;
use swc_plugin_gem::minify::TemplateKind;
use swc_plugin_gem::path::choose_specifier;
use swc_plugin_gem::path::finish_specifier;
use swc_plugin_gem::path::path_transform;
use swc_plugin_gem::preload::preload_source;
use swc_plugin_gem::preload::preload_transform;
use swc_plugin_gem::preload::split_once;
use swc_plugin_gem::preload::AwaitItem;
use swc_plugin_gem::selector::selector_transform;
use swc_plugin_gem::selector::trans_css_tpl;
use swc_plugin_gem::syntax::Decorator;
use swc_plugin_gem::syntax::MethodKind;
use swc_plugin_gem::zed::judge_install;
use swc_plugin_gem::zed::has_local_plugin;
use swc_plugin_gem::zed::needs_install;
use swc_plugin_gem::zed::needs_lookup;
use swc_plugin_gem::zed::needs_server_install;
use swc_plugin_gem::zed::plugin_host;
use swc_plugin_gem::zed::InstallOutcome;
use swc_plugin_gem::zed::PluginHost;

fn text(s: &str) -> String {
    s.to_string()
}

fn paths(entries: &[(&str, &str)]) -> IndexMap<String, String> {
    let mut map = IndexMap::new();
    for (tag, path) in entries {
        map.insert(text(tag), text(path));
    }
    map
}

fn elements(entries: Vec<(&str, IndexMap<String, String>)>) -> IndexMap<String, IndexMap<String, String>> {
    let mut map = IndexMap::new();
    for (package, inner) in entries {
        map.insert(text(package), inner);
    }
    map
}

fn built_in() -> AutoImportContent {
    AutoImportContent {
        extends: None,
        members: Some(vec![(text("@mantou/gem"), vec![MemberOrMemberAs::Member(text("html")), MemberOrMemberAs::Member(text("css"))])]),
        elements: Some(elements(vec![(
            "duoyun-ui",
            paths(&[("dy-pat-*", "/patterns/*"), ("dy-input-*", "/elements/input"), ("dy-*", "/elements/*")]),
        )])),
    }
}

fn duoyun_keys(content: &AutoImportContent) -> String {
    format!("{:?}", content.elements.as_ref().unwrap().get("duoyun-ui").unwrap().keys())
}

#[test]
fn import_should_return_default_config() {
    let merged = merge_contents(vec![built_in()]);
    assert_eq!(duoyun_keys(&merged), r#"["dy-pat-*", "dy-input-*", "dy-*"]"#);
}

#[test]
fn should_support_extend_config() {
    let custom = AutoImportContent { extends: Some(text("gem")), members: None, elements: None };
    let merged = merge_contents(vec![custom, built_in()]);
    assert_eq!(merged.extends, None);
    assert_eq!(duoyun_keys(&merged), r#"["dy-pat-*", "dy-input-*", "dy-*"]"#);
}

#[test]
fn later_configuration_replaces_a_package_in_place() {
    let first = AutoImportContent {
        extends: None,
        members: Some(vec![(text("a"), vec![MemberOrMemberAs::Member(text("x"))]), (text("b"), vec![])]),
        elements: Some(elements(vec![("a", paths(&[("a-*", "/1")])), ("b", paths(&[("b-*", "/2")]))])),
    };
    let second = AutoImportContent {
        extends: None,
        members: Some(vec![(text("c"), vec![]), (text("a"), vec![MemberOrMemberAs::Member(text("y"))])]),
        elements: Some(elements(vec![("c", paths(&[("c-*", "/3")])), ("a", paths(&[("a-*", "/4"), ("a2-*", "/5")]))])),
    };
    let merged = merge_contents(vec![first, second]);
    assert_eq!(
        merged.members,
        Some(vec![(text("a"), vec![MemberOrMemberAs::Member(text("y"))]), (text("b"), vec![]), (text("c"), vec![])])
    );
    assert_eq!(
        merged.elements,
        Some(elements(vec![("a", paths(&[("a-*", "/4"), ("a2-*", "/5")])), ("b", paths(&[("b-*", "/2")])), ("c", paths(&[("c-*", "/3")]))]))
    );
    let keys: Vec<&String> = merged.elements.as_ref().unwrap().keys().collect();
    assert_eq!(keys, vec!["a", "b", "c"]);
}

#[test]
fn merging_nothing_gives_an_empty_configuration() {
    let merged = merge_contents(vec![]);
    assert_eq!(merged, AutoImportContent { extends: None, members: Some(vec![]), elements: Some(IndexMap::new()) });
}

fn sample_config() -> AutoImportConfig {
    get_config(AutoImportContent {
        extends: None,
        members: Some(vec![
            (text("@mantou/gem"), vec![MemberOrMemberAs::Member(text("html")), MemberOrMemberAs::MemberAs([text("createStore"), text("store")])]),
            (text("other"), vec![MemberOrMemberAs::Member(text("html")), MemberOrMemberAs::Member(text("raw"))]),
        ]),
        elements: Some(elements(vec![
            ("duoyun-ui", paths(&[("dy-pat-*", "/patterns/*"), ("dy-(", "/broken"), ("dy-*", "/elements/*")])),
            ("gem", paths(&[("gem-link", "/elements/link")])),
        ])),
    })
}

#[test]
fn configuration_becomes_member_map_and_tag_rules() {
    let config = sample_config();
    assert_eq!(
        config.member_map,
        vec![
            MemberImport { local: text("html"), imported: None, package: text("other") },
            MemberImport { local: text("store"), imported: Some(text("createStore")), package: text("@mantou/gem") },
            MemberImport { local: text("raw"), imported: None, package: text("other") },
        ]
    );
    assert_eq!(
        config.tag_config,
        vec![
            TagRule { pattern: text("dy-pat-(.*)"), path: text("duoyun-ui/patterns/$1") },
            TagRule { pattern: text("dy-(.*)"), path: text("duoyun-ui/elements/$1") },
            TagRule { pattern: text("gem-link"), path: text("gem/elements/link") },
        ]
    );
}

#[test]
fn empty_configuration_gives_an_empty_config() {
    let config = get_config(AutoImportContent { extends: None, members: None, elements: None });
    assert!(config.member_map.is_empty());
    assert!(config.tag_config.is_empty());
}

#[test]
fn imports_are_planned_by_package_then_by_element() {
    let config = sample_config();
    let used = vec![(text("store"), 1), (text("unknown"), 0), (text("raw"), 2), (text("html"), 3), (text("store"), 9), (text("mine"), 0)];
    let defined = vec![(text("mine"), 0), (text("html"), 4)];
    let tags = vec![text("dy-pat-nav"), text("dy-button"), text("x-none"), text("gem-link")];
    let plans = config.visit_mut_module_items(&used, &defined, &tags);
    assert_eq!(
        plans,
        vec![
            ImportPlan { src: text("@mantou/gem"), specifiers: vec![Specifier { local: text("store"), imported: Some(text("createStore")), ctxt: 9 }] },
            ImportPlan {
                src: text("other"),
                specifiers: vec![Specifier { local: text("raw"), imported: None, ctxt: 2 }, Specifier { local: text("html"), imported: None, ctxt: 3 }],
            },
            ImportPlan { src: text("duoyun-ui/patterns/nav"), specifiers: vec![] },
            ImportPlan { src: text("duoyun-ui/elements/button"), specifiers: vec![] },
            ImportPlan { src: text("gem/elements/link"), specifiers: vec![] },
        ]
    );
}

#[test]
fn defined_names_are_not_imported() {
    let config = sample_config();
    let plans = config.visit_mut_module_items(&vec![(text("html"), 0)], &vec![(text("html"), 0)], &vec![]);
    assert!(plans.is_empty());
}

#[test]
fn tags_of_custom_elements_are_found_in_markup() {
    assert_eq!(custom_elements_in("<dy-button>x</dy-button><div><my-el-x attr=1>\n<a-b\n>"), vec!["dy-button", "my-el-x", "a-b"]);
    assert!(custom_elements_in("<div></div><nohyphen>").is_empty());
}

#[test]
fn declaration_file_path_and_text() {
    assert_eq!(dts_path(AutoImportDts::Src(true)), "src/auto-import.d.ts");
    assert_eq!(dts_path(AutoImportDts::Src(false)), "");
    assert_eq!(dts_path(AutoImportDts::CustomPath(text("types/auto.d.ts"))), "types/auto.d.ts");
    assert_eq!(AutoImportDts::default(), AutoImportDts::Src(false));
    let config = AutoImportConfig {
        member_map: vec![
            MemberImport { local: text("html"), imported: None, package: text("@mantou/gem") },
            MemberImport { local: text("store"), imported: Some(text("createStore")), package: text("@mantou/gem/lib/store") },
        ],
        tag_config: vec![],
    };
    assert_eq!(
        dts_text(&config),
        "// AUTOMATICALLY GENERATED, DO NOT MODIFY MANUALLY.\n// DELETING WILL REGENERATE\n\nexport {}\ndeclare global {\n  const html: typeof import('@mantou/gem')['html'];\n  const store: typeof import('@mantou/gem/lib/store')['createStore'];\n}"
    );
    let empty = AutoImportConfig { member_map: vec![], tag_config: vec![] };
    assert_eq!(dts_text(&empty), "// AUTOMATICALLY GENERATED, DO NOT MODIFY MANUALLY.\n// DELETING WILL REGENERATE\n\nexport {}\ndeclare global {\n}");
}

#[test]
fn automatic_imports_are_off_by_default() {
    assert_eq!(AutoImport::default(), AutoImport::Gem(false));
    assert!(!AutoImport::default().is_enabled());
    assert!(AutoImport::Gem(true).is_enabled());
    assert!(AutoImport::CustomContent(AutoImportContent { extends: None, members: None, elements: None }).is_enabled());
}

#[test]
fn style_text_is_minified() {
    assert_eq!(minify_css_style_tpl("\n  :host {\n    color: red;\n  }\n"), Some(text(":host{color: red;}")));
    assert_eq!(minify_css_style_tpl("a { b: c; }   d   {\te: f }"), Some(text("a{b: c;}d{e: f }")));
    assert_eq!(minify_css_style_tpl("  x  "), Some(text("x")));
    assert_eq!(minify_css_style_tpl("a /* note */ b /* more */ c"), Some(text("a c")));
    assert_eq!(minify_css_style_tpl(""), Some(text("")));
}

#[test]
fn markup_text_is_minified() {
    assert_eq!(
        minify_html_tpl("\n  <div>\n    <span>hi</span>\n  </div>\n  <!-- note -->\n"),
        Some(text("<div><span>hi</span></div>"))
    );
    assert_eq!(minify_html_tpl("a <b> c </b> d"), Some(text("a<b>c</b>d")));
    assert_eq!(minify_html_tpl("<!-- one --><i>x</i><!-- two -->"), Some(text("<i>x</i>")));
}

#[test]
fn templates_are_minified_by_their_tag() {
    assert_eq!(template_kind("css"), TemplateKind::Style);
    assert_eq!(template_kind("styled"), TemplateKind::Style);
    assert_eq!(template_kind("html"), TemplateKind::Markup);
    assert_eq!(template_kind("raw"), TemplateKind::Markup);
    assert_eq!(template_kind("sql"), TemplateKind::Other);
    let visitor = minify_transform();
    assert_eq!(visitor.visit_mut_tagged_tpl("css", text(" a { } ")), "a{}");
    assert_eq!(visitor.visit_mut_tagged_tpl("html", text(" <a> </a> ")), "<a></a>");
    assert_eq!(visitor.visit_mut_tagged_tpl("sql", text(" a { } ")), " a { } ");
    assert_eq!(visitor.visit_mut_key_value_prop(text(" a { } ")), "a{}");
    assert!(visitor.visit_mut_callee("css"));
    assert!(!visitor.visit_mut_callee("html"));
}

#[test]
fn nesting_selector_reaches_the_host() {
    assert_eq!(trans_css_tpl("&:hover { color: red }"), Some(text(":is(&:hover,:host(:hover)) { color: red }")));
    assert_eq!(trans_css_tpl("a { } &[x],&.y{ }"), Some(text("a { } :is(&[x],&.y,:host([x],&.y)){ }")));
    assert_eq!(trans_css_tpl("& { }"), Some(text("& { }")));
    let visitor = selector_transform();
    assert_eq!(visitor.visit_mut_tagged_tpl("css", text("&.on{}")), ":is(&.on,:host(.on)){}");
    assert_eq!(visitor.visit_mut_tagged_tpl("html", text("&.on{}")), "&.on{}");
}

#[test]
fn text_splits_at_the_first_mark() {
    assert_eq!(split_once("a?b?c", '?'), Some((text("a"), text("b?c"))));
    assert_eq!(split_once("?", '?'), Some((text(""), text(""))));
    assert_eq!(split_once("abc", '?'), None);
    assert_eq!(split_once("", '?'), None);
}

#[test]
fn preload_imports_are_told_from_others() {
    assert_eq!(preload_source("./a.png?preload"), Some(text("./a.png")));
    assert_eq!(preload_source("?preload"), Some(text("")));
    assert_eq!(preload_source("./a.png?raw"), None);
    assert_eq!(preload_source("./a.png"), None);
    assert_eq!(preload_source("./a?b?preload"), None);
    assert_eq!(preload_source("./a.png?preload?"), None);
}

#[test]
fn preload_imports_wait_for_what_they_load() {
    let mut visitor = preload_transform();
    assert_eq!(visitor.visit_mut_import_decl("./logo.PNG", "logo"), (text("./logo.PNG?url"), text("logo")));
    assert_eq!(visitor.visit_mut_import_decl("./data.bin", "data"), (text("./data.bin?url"), text("_data")));
    assert_eq!(visitor.visit_mut_import_decl("./photo.jpeg", "photo"), (text("./photo.jpeg?url"), text("photo")));
    assert_eq!(visitor.visit_mut_import_decl("./png.txt", "txt"), (text("./png.txt?url"), text("_txt")));
    assert_eq!(
        visitor.await_items,
        vec![AwaitItem::Img(text("logo")), AwaitItem::ArrayBuffer(text("_data")), AwaitItem::Img(text("photo")), AwaitItem::ArrayBuffer(text("_txt"))]
    );
    let (index, items) = visitor.visit_mut_module_items(&vec![true, true, false, true]);
    assert_eq!(index, 2);
    assert_eq!(
        items,
        vec![AwaitItem::ArrayBuffer(text("_txt")), AwaitItem::Img(text("photo")), AwaitItem::ArrayBuffer(text("_data")), AwaitItem::Img(text("logo"))]
    );
    assert!(visitor.await_items.is_empty());
    let (index, items) = visitor.visit_mut_module_items(&vec![true]);
    assert_eq!(index, 1);
    assert!(items.is_empty());
    assert_eq!(visitor.visit_mut_module_items(&vec![]).0, 0);
    assert_eq!(visitor.visit_mut_module_items(&vec![false, true]).0, 0);
}

#[test]
fn relative_paths_become_specifiers() {
    assert_eq!(finish_specifier("src/a.ts"), "./src/a.js");
    assert_eq!(finish_specifier("../a.ts"), "../a.js");
    assert_eq!(finish_specifier("./b.tsx"), "./b.jsx");
    assert_eq!(finish_specifier("a.ts.ts"), "./a.js.js");
    assert_eq!(finish_specifier("lib/index.js"), "./lib/index.js");
    assert_eq!(finish_specifier(".tts"), ".tts");
    assert_eq!(choose_specifier(Some(text("a.ts")), "./a"), "./a.js");
    assert_eq!(choose_specifier(None, "./a"), "./a");
}

#[test]
fn resolved_file_is_named_relative_to_the_directory() {
    let visitor = path_transform(Some(text("src/a.ts")));
    assert_eq!(visitor.filename, Some(text("src/a.ts")));
    assert_eq!(visitor.resolve_path("/proj/src/lib/b.ts", "/proj/src", "./lib/b"), "./lib/b.js");
    assert_eq!(visitor.resolve_path("/proj/node_modules/x/index.js", "/proj/src", "x"), "../node_modules/x/index.js");
    assert_eq!(visitor.resolve_path("lib/b.ts", "/proj/src", "./lib/b"), "./lib/b");
    // Separators written the Windows way are read as separators.
    assert_eq!(visitor.resolve_path("\\proj\\src\\lib\\b.ts", "\\proj\\src", "./lib/b"), "./lib/b.js");
}

#[test]
fn memoized_getters_are_renamed_and_get_their_members() {
    let memo = Decorator::Call { callee: Some(text("memo")), first_arg: None };
    let other = Decorator::Call { callee: Some(text("effect")), first_arg: None };
    let mut visitor = memo_transform();
    assert!(visitor.is_memo_getter(MethodKind::Getter, &vec![Decorator::Other, memo_call()]));
    assert!(!visitor.is_memo_getter(MethodKind::Method, &vec![memo_call()]));
    assert!(!visitor.is_memo_getter(MethodKind::Getter, &vec![other, Decorator::Ident(text("memo"))]));
    assert_eq!(visitor.visit_mut_private_method("total", MethodKind::Getter, &vec![memo]), Some(text("_total")));
    assert_eq!(visitor.visit_mut_private_method("plain", MethodKind::Getter, &vec![]), None);
    assert_eq!(visitor.visit_mut_private_method("sum", MethodKind::Getter, &vec![memo_call()]), Some(text("_sum")));
    assert_eq!(
        visitor.visit_mut_class(),
        vec![
            MemoMembers { method: text("__sum"), field: text("sum"), getter: text("_sum") },
            MemoMembers { method: text("__total"), field: text("total"), getter: text("_total") },
        ]
    );
    assert!(visitor.private_props.is_empty());
    assert!(visitor.visit_mut_class().is_empty());
}

fn memo_call() -> Decorator {
    Decorator::Call { callee: Some(text("memo")), first_arg: None }
}

fn call(callee: Option<&str>, arg_count: usize, first_arg_is_arrow: bool) -> DecoratorCall {
    DecoratorCall { is_call: true, callee: callee.map(text), arg_count, first_arg_is_arrow }
}

#[test]
fn decorator_functions_move_into_static_members() {
    let decorators = vec![
        call(Some("memo"), 1, true),
        call(Some("watch"), 1, true),
        call(Some("effect"), 1, true),
        call(None, 1, true),
        call(Some("memo"), 2, true),
        call(Some("memo"), 1, false),
        DecoratorCall { is_call: false, callee: None, arg_count: 0, first_arg_is_arrow: false },
        call(Some("effect"), 0, false),
        call(Some("memo"), 1, true),
        call(Some("memo"), 1, true),
        call(Some("memo"), 1, true),
    ];
    let mut visitor = memo_transform();
    assert_eq!(visitor.process_decorator(&decorators), vec![None; 11]);
    visitor.visit_mut_class_decl(true);
    assert_eq!(
        visitor.process_decorator(&decorators),
        vec![
            Some(text("_dep_fn_0")),
            None,
            Some(text("_dep_fn_2")),
            Some(text("_dep_fn_3")),
            None,
            None,
            None,
            None,
            Some(text("_dep_fn_8")),
            Some(text("_dep_fn_9")),
            Some(text("_dep_fn_10")),
        ]
    );
    visitor.visit_mut_class_decl(false);
    assert!(!visitor.in_class_decl);
}

#[test]
fn extension_installs_only_what_is_missing_or_old() {
    assert!(!needs_lookup(true, true));
    assert!(needs_lookup(true, false));
    assert!(needs_lookup(false, true));
    assert!(needs_lookup(false, false));
    assert!(!needs_install(&Some(text("1.2.0")), "1.2.0"));
    assert!(needs_install(&Some(text("1.1.0")), "1.2.0"));
    assert!(needs_install(&None, "1.2.0"));
    assert!(!needs_server_install(true, &Some(text("1.2.0")), "1.2.0"));
    assert!(needs_server_install(false, &Some(text("1.2.0")), "1.2.0"));
    assert!(needs_server_install(true, &None, "1.2.0"));
    assert_eq!(judge_install(true, true), InstallOutcome::Ready);
    assert_eq!(judge_install(false, true), InstallOutcome::Ready);
    assert_eq!(judge_install(true, false), InstallOutcome::MissingBinary);
    assert_eq!(judge_install(false, false), InstallOutcome::Failed);
    assert!(has_local_plugin(true, false));
    assert!(has_local_plugin(false, true));
    assert!(!has_local_plugin(false, false));
    assert_eq!(plugin_host("typescript-language-server"), PluginHost::TypescriptLanguageServer);
    assert_eq!(plugin_host("vtsls"), PluginHost::Vtsls);
    assert_eq!(plugin_host("eslint"), PluginHost::Other);
}

#[test]
fn passes_run_in_their_order() {
    assert_eq!(PluginConfig::default().passes(), vec![Pass::Memo]);
    let all = PluginConfig {
        style_minify: true,
        auto_import: AutoImport::Gem(true),
        auto_import_dts: AutoImportDts::Src(false),
        resolve_path: true,
        preload: true,
        hmr: true,
        lazy_view: true,
    };
    assert_eq!(all.passes(), vec![Pass::Memo, Pass::Import, Pass::Minify, Pass::Path, Pass::Preload, Pass::Hmr]);
    let some = PluginConfig {
        auto_import: AutoImport::CustomContent(AutoImportContent { extends: None, members: None, elements: None }),
        hmr: true,
        ..PluginConfig::default()
    };
    assert_eq!(some.passes(), vec![Pass::Memo, Pass::Import, Pass::Hmr]);
    let off = PluginConfig { auto_import: AutoImport::Gem(false), preload: true, ..PluginConfig::default() };
    assert_eq!(off.passes(), vec![Pass::Memo, Pass::Preload]);
}

#[test]
fn import_pass_starts_with_its_declaration_file() {
    let content = || AutoImportContent {
        extends: None,
        members: Some(vec![(text("pkg"), vec![MemberOrMemberAs::Member(text("html"))])]),
        elements: None,
    };
    let (config, file) = import_transform(content(), AutoImportDts::Src(false));
    assert_eq!(config.member_map, vec![MemberImport { local: text("html"), imported: None, package: text("pkg") }]);
    assert_eq!(file, None);
    let (_, file) = import_transform(content(), AutoImportDts::Src(true));
    assert_eq!(
        file,
        Some((
            text("src/auto-import.d.ts"),
            text("// AUTOMATICALLY GENERATED, DO NOT MODIFY MANUALLY.\n// DELETING WILL REGENERATE\n\nexport {}\ndeclare global {\n  const html: typeof import('pkg')['html'];\n}")
        ))
    );
    let (_, file) = import_transform(content(), AutoImportDts::CustomPath(text("")));
    assert_eq!(file, None);
}

#[test]
fn lib_should_return_default_config() {
    let config = PluginConfig { auto_import: AutoImport::Gem(true), ..Default::default() };
    assert_eq!(
        config,
        PluginConfig {
            style_minify: false,
            auto_import: AutoImport::Gem(true),
            auto_import_dts: AutoImportDts::Src(false),
            resolve_path: false,
            preload: false,
            hmr: false,
            lazy_view: false,
        }
    );
    assert_eq!(config.passes(), vec![Pass::Memo, Pass::Import]);
}

#[test]
fn names_that_generated_code_relies_on() {
    assert_eq!(swc_plugin_gem::surface::ELEMENT_DECORATOR, "customElement");
    assert_eq!(swc_plugin_gem::surface::HASH_KEY_PREFIX, "hash_");
    assert_eq!(swc_plugin_gem::surface::FIELDS_PROPERTY, "_defined_fields_");
    assert_eq!(swc_plugin_gem::surface::REGISTER_HOOK, "_hmrRegisterClass");
    assert_eq!(swc_plugin_gem::surface::HOT_OBJECT, "webpackHot");
}
